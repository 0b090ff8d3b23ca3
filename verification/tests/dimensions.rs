use seedcanvas::tasks::image::parse_dimensions;

fn by_splitting(size: &str) -> Option<(u32, u32)> {
    let parts: Vec<&str> = size.split('x').collect();
    if parts.len() == 2 {
        let w = parts[0].parse().ok()?;
        let h = parts[1].parse().ok()?;
        Some((w, h))
    } else {
        None
    }
}

#[test]
fn dimensions_of_listed_sizes() {
    assert_eq!(parse_dimensions("2048x2048"), Some((2048, 2048)));
    assert_eq!(parse_dimensions("1728x2304"), Some((1728, 2304)));
    assert_eq!(parse_dimensions("6240x2656"), Some((6240, 2656)));
    assert_eq!(parse_dimensions("864x1152"), Some((864, 1152)));
}

#[test]
fn tier_names_have_no_dimensions() {
    for s in ["1K", "2K", "3K", "4K"] {
        assert_eq!(parse_dimensions(s), None);
    }
}

#[test]
fn malformed_sizes_have_no_dimensions() {
    for s in [
        "", "x", "12x", "x12", "12", "1x2x3", "12X34", "12 x 34", " 12x34", "12x34 ", "-1x5",
        "1.5x2", "4294967296x1", "1x4294967296", "axb", "0x1f", "12×34", "xx",
    ] {
        assert_eq!(parse_dimensions(s), None, "{:?}", s);
    }
}

#[test]
fn edge_cases_that_still_read() {
    assert_eq!(parse_dimensions("0x0"), Some((0, 0)));
    assert_eq!(parse_dimensions("+1x+2"), Some((1, 2)));
    assert_eq!(parse_dimensions("007x010"), Some((7, 10)));
    assert_eq!(parse_dimensions("4294967295x4294967295"), Some((u32::MAX, u32::MAX)));
}

#[test]
fn agrees_with_splitting_at_x() {
    let alphabet = ['+', '0', '1', '9', 'x', '-', ' '];
    let mut frontier = vec![String::new()];
    let mut count = 0usize;
    for _ in 0..6 {
        let mut next = Vec::new();
        for t in &frontier {
            for c in alphabet {
                let mut grown = t.clone();
                grown.push(c);
                assert_eq!(parse_dimensions(&grown), by_splitting(&grown), "{:?}", grown);
                count += 1;
                next.push(grown);
            }
        }
        frontier = next;
    }
    assert!(count > 100_000);
}
