use seedcanvas::tasks::{ImageParams, ValidationError, VideoParams};

fn image(prompt: &str, model: Option<&str>, size: Option<&str>) -> ImageParams {
    ImageParams {
        project_id: "proj-1".to_string(),
        prompt: prompt.to_string(),
        model: model.map(String::from),
        node_id: None,
        size: size.map(String::from),
    }
}

fn video(prompt: &str, duration: Option<i32>) -> VideoParams {
    VideoParams {
        project_id: "proj-1".to_string(),
        prompt: prompt.to_string(),
        model: None,
        node_id: None,
        resolution: None,
        ratio: None,
        duration,
    }
}

#[test]
fn image_defaults_are_filled_in() {
    let mut p = image("a red fox", None, None);
    assert!(p.normalize().is_ok());
    assert_eq!(p.model.as_deref(), Some("doubao-seedream-5-0-260128"));
    assert_eq!(p.size.as_deref(), Some("2K"));
    assert_eq!(p.prompt, "a red fox");
    assert_eq!(p.project_id, "proj-1");
}

#[test]
fn image_blank_prompt_is_rejected() {
    for prompt in ["", " ", "\t\n", "\u{a0}\u{3000}"] {
        let mut p = image(prompt, None, None);
        let e = p.normalize().unwrap_err();
        assert!(matches!(e, ValidationError::EmptyPrompt));
        assert_eq!(e.message(), "prompt must not be empty");
        assert_eq!(p.model, None);
    }
}

#[test]
fn image_unknown_model_names_every_valid_one() {
    let mut p = image("a red fox", Some("dall-e"), None);
    let e = p.normalize().unwrap_err();
    assert_eq!(
        e.message(),
        "invalid image model \"dall-e\". Valid: doubao-seedream-5-0-260128, \
         doubao-seedream-5-0-lite-260128, doubao-seedream-4-5-251128, doubao-seedream-4-0-250828"
    );
}

#[test]
fn image_unknown_size_is_rejected_after_model_default() {
    let mut p = image("a red fox", None, Some("5K"));
    let e = p.normalize().unwrap_err();
    assert!(matches!(e, ValidationError::InvalidImageSize(ref s) if s == "5K"));
    assert!(e.message().starts_with("invalid image size \"5K\". Valid: 1K, 2K, 3K, 4K, 2048x2048, "));
    assert!(e.message().ends_with(", 6240x2656"));
    assert_eq!(p.model.as_deref(), Some("doubao-seedream-5-0-260128"));
}

#[test]
fn video_duration_out_of_range_is_rejected() {
    let mut p = video("waves", Some(20));
    let e = p.normalize().unwrap_err();
    assert!(matches!(e, ValidationError::InvalidDuration(20)));
    assert_eq!(e.message(), "duration must be 2-12 seconds, got 20");
    let mut p = video("waves", Some(-3));
    assert_eq!(p.normalize().unwrap_err().message(), "duration must be 2-12 seconds, got -3");
}

#[test]
fn video_defaults_are_filled_in() {
    let mut p = video("waves", None);
    assert!(p.normalize().is_ok());
    assert_eq!(p.model.as_deref(), Some("doubao-seedance-1-5-pro-251215"));
    assert_eq!(p.resolution.as_deref(), Some("720p"));
    assert_eq!(p.ratio.as_deref(), Some("16:9"));
    assert_eq!(p.duration, Some(5));
    for d in [2, 12] {
        assert!(video("waves", Some(d)).normalize().is_ok());
    }
    for d in [1, 13] {
        assert!(video("waves", Some(d)).normalize().is_err());
    }
}

#[test]
fn video_rejections_name_every_valid_value() {
    let mut p = video("waves", None);
    p.model = Some("sora".to_string());
    assert_eq!(
        p.normalize().unwrap_err().message(),
        "invalid video model \"sora\". Valid: doubao-seedance-1-5-pro-251215, \
         doubao-seedance-1-0-pro-250528, doubao-seedance-1-0-pro-fast-251015, \
         doubao-seedance-1-0-lite-t2v-250428, doubao-seedance-1-0-lite-i2v-250428"
    );
    let mut p = video("waves", None);
    p.resolution = Some("4k".to_string());
    assert_eq!(
        p.normalize().unwrap_err().message(),
        "invalid resolution \"4k\". Valid: 480p, 720p, 1080p"
    );
    assert_eq!(p.model.as_deref(), Some("doubao-seedance-1-5-pro-251215"));
    assert_eq!(p.ratio, None);
    let mut p = video("waves", None);
    p.ratio = Some("2:1".to_string());
    assert_eq!(
        p.normalize().unwrap_err().message(),
        "invalid ratio \"2:1\". Valid: 16:9, 9:16, 4:3, 3:4, 1:1, 21:9, adaptive"
    );
    assert_eq!(p.resolution.as_deref(), Some("720p"));
    assert_eq!(p.duration, None);
}

#[test]
fn checks_come_in_order() {
    let mut p = VideoParams {
        project_id: "proj-1".to_string(),
        prompt: " ".to_string(),
        model: Some("sora".to_string()),
        node_id: None,
        resolution: Some("4k".to_string()),
        ratio: Some("2:1".to_string()),
        duration: Some(99),
    };
    assert!(matches!(p.normalize(), Err(ValidationError::EmptyPrompt)));
    p.prompt = "waves".to_string();
    assert!(matches!(p.normalize(), Err(ValidationError::InvalidVideoModel(_))));
    p.model = None;
    assert!(matches!(p.normalize(), Err(ValidationError::InvalidResolution(_))));
    p.resolution = Some("1080p".to_string());
    assert!(matches!(p.normalize(), Err(ValidationError::InvalidRatio(_))));
    p.ratio = Some("adaptive".to_string());
    assert!(matches!(p.normalize(), Err(ValidationError::InvalidDuration(99))));
    p.duration = Some(12);
    assert!(p.normalize().is_ok());
}

#[test]
fn every_listed_value_is_accepted() {
    for model in seedcanvas::tasks::IMAGE_MODELS {
        for size in seedcanvas::tasks::IMAGE_SIZES {
            let mut p = image("fox", Some(model), Some(size));
            assert!(p.normalize().is_ok(), "{} {}", model, size);
            assert_eq!(p.model.as_deref(), Some(model));
            assert_eq!(p.size.as_deref(), Some(size));
        }
    }
    for model in seedcanvas::tasks::VIDEO_MODELS {
        for resolution in seedcanvas::tasks::VIDEO_RESOLUTIONS {
            for ratio in seedcanvas::tasks::VIDEO_RATIOS {
                let mut p = video("waves", Some(2));
                p.model = Some(model.to_string());
                p.resolution = Some(resolution.to_string());
                p.ratio = Some(ratio.to_string());
                assert!(p.normalize().is_ok());
            }
        }
    }
    assert_eq!(seedcanvas::tasks::IMAGE_SIZES.len(), 36);
}

#[test]
fn normalizing_twice_changes_nothing_more() {
    let mut p = image("fox", None, Some("1K"));
    p.normalize().unwrap();
    let once = format!("{:?}", p);
    p.normalize().unwrap();
    assert_eq!(format!("{:?}", p), once);
}
