use seedcanvas::ark::types::{
    ImageGenItem, ImageGenResponse, VideoCreateResponse, VideoTaskContent, VideoTaskStatus,
};
use seedcanvas::db::{TaskKind, TaskRow};
use seedcanvas::tasks::image::{ImageAction, ImageEvent, ImageTask};
use seedcanvas::tasks::video::{VideoAction, VideoEvent, VideoTask};
use seedcanvas::tasks::TaskError;

fn image_event(kind: usize) -> ImageEvent {
    match kind {
        0 => ImageEvent::Begin,
        1 => ImageEvent::Generated(Ok(ImageGenResponse {
            data: vec![ImageGenItem {
                b64_json: Some("QUJD".to_string()),
                url: None,
                size: Some("3x4".to_string()),
            }],
        })),
        2 => ImageEvent::Generated(Err(TaskError::Remote("down".to_string()))),
        3 => ImageEvent::Stored(Ok("/a.png".to_string())),
        _ => ImageEvent::Stored(Err(TaskError::Store("full".to_string()))),
    }
}

fn video_event(kind: usize) -> VideoEvent {
    let report = |status: &str, url: Option<&str>| VideoTaskStatus {
        id: None,
        status: Some(status.to_string()),
        content: url.map(|u| VideoTaskContent {
            video_url: Some(u.to_string()),
            last_frame_url: None,
        }),
        error: None,
    };
    match kind {
        0 => VideoEvent::Begin,
        1 => VideoEvent::Submitted(Ok(VideoCreateResponse { id: Some("job".to_string()) })),
        2 => VideoEvent::Polled { result: Ok(report("running", None)), elapsed_ms: 5 },
        3 => VideoEvent::Polled { result: Ok(report("running", None)), elapsed_ms: 600_001 },
        4 => VideoEvent::Polled { result: Ok(report("succeeded", Some("http://u"))), elapsed_ms: 5 },
        5 => VideoEvent::Polled { result: Ok(report("failed", None)), elapsed_ms: 5 },
        6 => VideoEvent::Downloaded(Ok(vec![1, 2])),
        _ => VideoEvent::Stored(Ok("/a.mp4".to_string())),
    }
}

fn sequences(alphabet: usize, length: usize) -> Vec<Vec<usize>> {
    let mut all = vec![Vec::new()];
    let mut frontier = vec![Vec::new()];
    for _ in 0..length {
        let mut next = Vec::new();
        for s in &frontier {
            for k in 0..alphabet {
                let mut grown: Vec<usize> = s.clone();
                grown.push(k);
                next.push(grown);
            }
        }
        all.extend(next.iter().cloned());
        frontier = next;
    }
    all
}

fn row(kind: TaskKind, input: &str) -> TaskRow {
    TaskRow::new("t".into(), "proj-1".into(), kind, input.into(), "c".into())
}

#[test]
fn image_record_is_closed_at_most_once_over_any_run() {
    let mut done = 0;
    let mut failed = 0;
    for input in ["{\"prompt\":\"p\"}", "{}"] {
        for run in sequences(5, 5) {
            let mut task = ImageTask::new(row(TaskKind::Image, input));
            let mut closing = 0;
            for kind in &run {
                let was_open = task.row.is_open();
                let before = format!("{:?}", task.row);
                let step = task.advance(image_event(*kind), "now", "id");
                if matches!(step.action, ImageAction::Finish(_)) {
                    closing += 1;
                    assert!(was_open);
                    assert!(step.task.row.is_terminal());
                }
                if !was_open {
                    assert!(matches!(step.action, ImageAction::Ignore));
                    assert_eq!(format!("{:?}", step.task.row), before);
                }
                task = step.task;
            }
            assert!(closing <= 1, "{:?}", run);
            assert_eq!(closing == 1, task.row.is_terminal(), "{:?}", run);
            assert!(task.row.is_open() || task.row.is_terminal());
            assert_eq!(task.row.output.is_some(), task.row.status == "done");
            assert_eq!(task.row.error.is_some(), task.row.status == "failed");
            match task.row.status.as_str() {
                "done" => done += 1,
                "failed" => failed += 1,
                _ => {}
            }
        }
    }
    assert!(done > 0 && failed > 0);
}

#[test]
fn video_record_is_closed_at_most_once_over_any_run() {
    let mut done = 0;
    let mut failed = 0;
    for run in sequences(8, 5) {
        let mut task = VideoTask::new(row(TaskKind::Video, "{\"prompt\":\"p\"}"));
        let mut closing = 0;
        let mut submissions = 0;
        for kind in &run {
            let was_open = task.row.is_open();
            let handle = task.row.ark_task_id.clone();
            let step = task.advance(video_event(*kind), "now", "id");
            match &step.action {
                VideoAction::Finish => {
                    closing += 1;
                    assert!(was_open);
                    assert!(step.task.row.is_terminal());
                }
                VideoAction::Submit(_) => submissions += 1,
                VideoAction::Poll { handle: polled, .. } => {
                    assert_eq!(step.task.row.ark_task_id.as_deref(), Some(polled.as_str()))
                }
                _ => {}
            }
            if handle.is_some() {
                assert_eq!(step.task.row.ark_task_id, handle);
            }
            task = step.task;
        }
        assert!(closing <= 1, "{:?}", run);
        assert!(submissions <= 1, "{:?}", run);
        assert_eq!(closing == 1, task.row.is_terminal(), "{:?}", run);
        assert_eq!(task.row.output.is_some(), task.row.status == "done");
        assert_eq!(task.row.error.is_some(), task.row.status == "failed");
        match task.row.status.as_str() {
            "done" => done += 1,
            "failed" => failed += 1,
            _ => {}
        }
    }
    assert_eq!(done, 1);
    assert!(failed > 0);
    let mut task = VideoTask::new(row(TaskKind::Video, "{\"prompt\":\"p\"}"));
    for kind in [0usize, 1, 2, 4, 6, 7, 7, 5, 0] {
        task = task.advance(video_event(kind), "now", "id").task;
    }
    assert_eq!(task.row.status, "done");
}
