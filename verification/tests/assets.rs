use seedcanvas::db::{asset_query, TaskKind, TaskRow};

fn done(kind: TaskKind, input: &str, output: Option<&str>) -> TaskRow {
    let mut row = TaskRow::new("t1".into(), "proj-1".into(), kind, input.into(), "created".into());
    row.start("s");
    if let Some(o) = output {
        row.complete(o, "u");
    }
    row
}

#[test]
fn asset_path_comes_from_the_output() {
    let row = done(TaskKind::Image, "{}", Some("{\"assetPath\":\"/a/b/c.png\",\"width\":1}"));
    assert_eq!(row.asset_path().as_deref(), Some("/a/b/c.png"));
    assert_eq!(done(TaskKind::Image, "{}", Some("{}")).asset_path(), None);
    assert_eq!(done(TaskKind::Image, "{}", Some("{\"assetPath\":7}")).asset_path(), None);
    assert_eq!(done(TaskKind::Image, "{}", Some("nonsense")).asset_path(), None);
    assert_eq!(done(TaskKind::Image, "{}", None).asset_path(), None);
}

#[test]
fn backfilled_asset_takes_its_fields_from_the_task() {
    let row = done(
        TaskKind::Video,
        "{\"prompt\":\"waves\",\"model\":\"m1\"}",
        Some("{\"assetPath\":\"/a/b/c.mp4\",\"width\":1280,\"height\":720}"),
    );
    let asset = row.backfilled_asset("asset-9", "c.mp4", Some(4096)).unwrap();
    assert_eq!(asset.id, "asset-9");
    assert_eq!(asset.project_id, "proj-1");
    assert_eq!(asset.task_id.as_deref(), Some("t1"));
    assert_eq!(asset.asset_type, "video");
    assert_eq!(asset.file_path, "/a/b/c.mp4");
    assert_eq!(asset.file_name, "c.mp4");
    assert_eq!(asset.prompt.as_deref(), Some("waves"));
    assert_eq!(asset.model.as_deref(), Some("m1"));
    assert_eq!(asset.width, Some(1280));
    assert_eq!(asset.height, Some(720));
    assert_eq!(asset.file_size, Some(4096));
    assert_eq!(asset.source, "generated");
    assert_eq!(asset.created_at, "created");
}

#[test]
fn backfilled_asset_leaves_out_what_is_not_there() {
    let row = done(TaskKind::Image, "not json", Some("{\"assetPath\":\"/x.png\",\"width\":\"wide\"}"));
    let asset = row.backfilled_asset("a", "x.png", None).unwrap();
    assert_eq!(asset.prompt, None);
    assert_eq!(asset.model, None);
    assert_eq!(asset.width, None);
    assert_eq!(asset.height, None);
    assert_eq!(asset.file_size, None);
    let row = done(TaskKind::Image, "{}", Some("{\"assetPath\":\"/x.png\",\"width\":4294967298,\"height\":-1}"));
    let asset = row.backfilled_asset("a", "x.png", None).unwrap();
    assert_eq!(asset.width, Some(2));
    assert_eq!(asset.height, Some(-1));
}

#[test]
fn nothing_is_backfilled_without_an_asset_path() {
    assert!(done(TaskKind::Image, "{}", Some("{\"width\":1}")).backfilled_asset("a", "f", None).is_none());
    assert!(done(TaskKind::Image, "{}", Some("[]")).backfilled_asset("a", "f", None).is_none());
    assert!(done(TaskKind::Image, "{}", None).backfilled_asset("a", "f", None).is_none());
}

#[test]
fn listing_without_filters() {
    let q = asset_query(None, None, None, 50, 0);
    assert_eq!(
        q.sql,
        "SELECT id, project_id, task_id, type, file_path, file_name, prompt, model, width, height, file_size, source, created_at FROM assets WHERE 1=1 ORDER BY created_at DESC LIMIT ?1 OFFSET ?2"
    );
    assert!(q.texts.is_empty());
    assert_eq!((q.limit, q.offset), (50, 0));
}

#[test]
fn listing_with_every_filter() {
    let q = asset_query(Some("proj-1"), Some("image"), Some("fox"), 10, 20);
    assert!(q.sql.ends_with(
        " WHERE 1=1 AND project_id=?1 AND type=?2 AND prompt LIKE ?3 ORDER BY created_at DESC LIMIT ?4 OFFSET ?5"
    ));
    assert_eq!(q.texts, vec!["proj-1".to_string(), "image".to_string(), "%fox%".to_string()]);
    assert_eq!((q.limit, q.offset), (10, 20));
}

#[test]
fn listing_numbers_its_parameters_in_order() {
    let q = asset_query(None, Some("video"), None, 1, 2);
    assert!(q.sql.ends_with(" WHERE 1=1 AND type=?1 ORDER BY created_at DESC LIMIT ?2 OFFSET ?3"));
    assert_eq!(q.texts, vec!["video".to_string()]);
    let q = asset_query(Some("p"), None, Some(""), 1, 2);
    assert!(q.sql.ends_with(
        " WHERE 1=1 AND project_id=?1 AND prompt LIKE ?2 ORDER BY created_at DESC LIMIT ?3 OFFSET ?4"
    ));
    assert_eq!(q.texts, vec!["p".to_string(), "%%".to_string()]);
    let q = asset_query(None, None, Some("a%b"), 0, 0);
    assert_eq!(q.texts, vec!["%a%b%".to_string()]);
}
