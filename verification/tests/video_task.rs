use seedcanvas::ark::types::{
    VideoCreateResponse, VideoTaskContent, VideoTaskError, VideoTaskStatus,
};
use seedcanvas::db::{TaskKind, TaskRow};
use seedcanvas::tasks::queue::TaskQueue;
use seedcanvas::tasks::video::{
    classify, read_request, video_request, PollVerdict, VideoAction, VideoEvent, VideoStage,
    VideoTask, POLL_INTERVAL_SECS, POLL_TIMEOUT_MS,
};
use seedcanvas::tasks::{TaskError, VideoParams};

fn row_with_input(input: &str) -> TaskRow {
    TaskRow::new(
        "v1".to_string(),
        "proj-1".to_string(),
        TaskKind::Video,
        input.to_string(),
        "2026-01-01T00:00:00+00:00".to_string(),
    )
}

fn report(status: Option<&str>, url: Option<&str>, message: Option<&str>) -> VideoTaskStatus {
    VideoTaskStatus {
        id: Some("job-1".to_string()),
        status: status.map(String::from),
        content: url.map(|u| VideoTaskContent {
            video_url: Some(u.to_string()),
            last_frame_url: None,
        }),
        error: message.map(|m| VideoTaskError {
            code: Some("E".to_string()),
            message: Some(m.to_string()),
        }),
    }
}

fn polled(status: Option<&str>, url: Option<&str>, elapsed_ms: u64) -> VideoEvent {
    VideoEvent::Polled { result: Ok(report(status, url, None)), elapsed_ms }
}

fn polling() -> VideoTask {
    let step = VideoTask::new(row_with_input("{\"prompt\":\"waves\"}"))
        .advance(VideoEvent::Begin, "t0", "x");
    assert!(matches!(step.action, VideoAction::Submit(_)));
    let step = step.task.advance(
        VideoEvent::Submitted(Ok(VideoCreateResponse { id: Some("job-1".to_string()) })),
        "t1",
        "x",
    );
    assert!(matches!(step.action, VideoAction::Poll { .. }));
    step.task
}

fn failed_with(task: &VideoTask, message: &str) {
    assert_eq!(task.stage, VideoStage::Closed);
    assert_eq!(task.row.status, "failed");
    assert_eq!(task.row.error.as_deref(), Some(message));
    assert_eq!(task.row.output, None);
}

#[test]
fn five_second_video_ends_done_with_the_noted_dimensions() {
    let mut queue = TaskQueue::new_headless();
    let params = VideoParams {
        project_id: "proj-1".to_string(),
        prompt: "waves at dusk".to_string(),
        model: None,
        node_id: None,
        resolution: None,
        ratio: None,
        duration: Some(5),
    };
    let admitted = queue.submit_video_at(params, "v1", "2026-01-01T00:00:00+00:00").unwrap();
    let task = admitted.task;
    assert_eq!(task.row.status, "pending");
    assert_eq!(task.row.task_type, "video");

    let step = task.advance(VideoEvent::Begin, "t1", "x");
    assert_eq!(step.task.row.status, "running");
    match &step.action {
        VideoAction::Submit(request) => {
            assert_eq!(request.model, "doubao-seedance-1-5-pro-251215");
            assert_eq!(request.content.len(), 1);
            assert_eq!(request.content[0].content_type, "text");
            assert_eq!(request.content[0].text.as_deref(), Some("waves at dusk"));
            assert_eq!(request.resolution.as_deref(), Some("720p"));
            assert_eq!(request.ratio.as_deref(), Some("16:9"));
            assert_eq!(request.duration, Some(5));
            assert!(!request.watermark);
        }
        other => panic!("expected the job's creation, got {:?}", other),
    }

    let step = step.task.advance(
        VideoEvent::Submitted(Ok(VideoCreateResponse { id: Some("job-1".to_string()) })),
        "t2",
        "x",
    );
    assert_eq!(step.task.row.ark_task_id.as_deref(), Some("job-1"));
    assert_eq!(step.task.row.status, "running");
    assert_eq!(step.task.row.updated_at, "t2");
    match &step.action {
        VideoAction::Poll { handle, record_changed } => {
            assert_eq!(handle, "job-1");
            assert!(*record_changed);
        }
        other => panic!("expected a poll, got {:?}", other),
    }

    let mut task = step.task;
    for (status, elapsed) in [("queued", 5_100u64), ("running", 10_300)] {
        let step = task.advance(polled(Some(status), None, elapsed), "t3", "x");
        match &step.action {
            VideoAction::Poll { handle, record_changed } => {
                assert_eq!(handle, "job-1");
                assert!(!*record_changed);
            }
            other => panic!("expected a poll, got {:?}", other),
        }
        assert_eq!(step.task.row.status, "running");
        assert_eq!(step.task.row.updated_at, "t2");
        task = step.task;
    }

    let step = task.advance(polled(Some("succeeded"), Some("http://x/v.mp4"), 15_500), "t4", "x");
    assert_eq!(step.task.stage, VideoStage::Downloading);
    match &step.action {
        VideoAction::Download { url } => assert_eq!(url, "http://x/v.mp4"),
        other => panic!("expected the fetch, got {:?}", other),
    }

    let served = vec![0u8, 0, 0, 32, b'f', b't', b'y', b'p', 255, 254];
    let step = step.task.advance(VideoEvent::Downloaded(Ok(served.clone())), "t4", "9c1d");
    assert_eq!(step.task.stage, VideoStage::Storing);
    assert_eq!(step.task.row.status, "running");
    match &step.action {
        VideoAction::Store { file_name, bytes } => {
            assert_eq!(file_name, "9c1d.mp4");
            assert_eq!(bytes, &served);
        }
        other => panic!("expected the write, got {:?}", other),
    }

    let step = step.task.advance(
        VideoEvent::Stored(Ok("/data/projects/proj-1/assets/9c1d.mp4".to_string())),
        "t5",
        "x",
    );
    assert!(matches!(step.action, VideoAction::Finish));
    let row = &step.task.row;
    assert_eq!(row.status, "done");
    assert_eq!(row.error, None);
    assert_eq!(row.ark_task_id.as_deref(), Some("job-1"));
    let output: serde_json::Value = serde_json::from_str(row.output.as_deref().unwrap()).unwrap();
    assert_eq!(output["assetPath"], "/data/projects/proj-1/assets/9c1d.mp4");
    assert_eq!(output["width"], 1280);
    assert_eq!(output["height"], 720);
}

#[test]
fn poll_constants() {
    assert_eq!(POLL_INTERVAL_SECS, 5);
    assert_eq!(POLL_TIMEOUT_MS, 600_000);
}

#[test]
fn request_takes_its_fields_from_the_input() {
    let request = read_request(
        "{\"prompt\":\"p\",\"model\":\"m\",\"resolution\":\"480p\",\"ratio\":\"1:1\",\"duration\":7}",
    )
    .unwrap();
    assert_eq!(request.model, "m");
    assert_eq!(request.content[0].text.as_deref(), Some("p"));
    assert_eq!(request.resolution.as_deref(), Some("480p"));
    assert_eq!(request.ratio.as_deref(), Some("1:1"));
    assert_eq!(request.duration, Some(7));
    let request = read_request("{\"prompt\":\"p\",\"duration\":\"7\"}").unwrap();
    assert_eq!(request.duration, None);
    assert_eq!(request.resolution, None);
    assert_eq!(request.model, "doubao-seedance-1-5-pro-251215");
    let request = read_request("{\"prompt\":\"p\",\"duration\":7.5}").unwrap();
    assert_eq!(request.duration, None);
    let request = read_request("{\"prompt\":\"p\",\"duration\":-2}").unwrap();
    assert_eq!(request.duration, Some(-2));
}

#[test]
fn duration_is_cut_to_32_bits() {
    let request = video_request(Some("p".to_string()), None, None, None, Some(4294967301)).unwrap();
    assert_eq!(request.duration, Some(4294967301i64 as i32));
    assert_eq!(request.duration, Some(5));
    let request = read_request("{\"prompt\":\"p\",\"duration\":2147483648}").unwrap();
    assert_eq!(request.duration, Some(i32::MIN));
}

#[test]
fn input_errors_fail_the_task() {
    let step = VideoTask::new(row_with_input("{")).advance(VideoEvent::Begin, "t", "x");
    assert!(matches!(step.action, VideoAction::Finish));
    assert!(step.task.row.error.as_deref().unwrap().starts_with("invalid task input JSON: "));
    let step = VideoTask::new(row_with_input("{\"model\":\"m\"}")).advance(VideoEvent::Begin, "t", "x");
    failed_with(&step.task, "missing prompt in task input");
    assert!(matches!(
        video_request(None, None, None, None, None),
        Err(TaskError::InvalidInput(_))
    ));
}

#[test]
fn creation_without_a_handle_breaks_the_protocol() {
    let step = VideoTask::new(row_with_input("{\"prompt\":\"p\"}")).advance(VideoEvent::Begin, "t", "x");
    let step = step.task.advance(VideoEvent::Submitted(Ok(VideoCreateResponse { id: None })), "t", "x");
    assert!(matches!(step.action, VideoAction::Finish));
    failed_with(&step.task, "no task ID in video create response");
    assert_eq!(step.task.row.ark_task_id, None);
}

#[test]
fn failed_creation_fails_the_task() {
    let step = VideoTask::new(row_with_input("{\"prompt\":\"p\"}")).advance(VideoEvent::Begin, "t", "x");
    let step = step.task.advance(
        VideoEvent::Submitted(Err(TaskError::Remote(
            "ARK video create API error 401 Unauthorized: no key".to_string(),
        ))),
        "t",
        "x",
    );
    failed_with(&step.task, "ARK video create API error 401 Unauthorized: no key");
}

#[test]
fn jobs_that_end_without_a_result_fail_with_the_reported_reason() {
    for status in ["failed", "expired", "cancelled"] {
        let step = polling().advance(
            VideoEvent::Polled {
                result: Ok(report(Some(status), None, Some("content policy"))),
                elapsed_ms: 5000,
            },
            "t",
            "x",
        );
        assert!(matches!(step.action, VideoAction::Finish));
        failed_with(
            &step.task,
            &format!("video task {}: content policy (ark_task: job-1)", status),
        );
        assert_eq!(step.task.row.ark_task_id.as_deref(), Some("job-1"));
    }
}

#[test]
fn a_missing_reason_gets_the_stock_phrase() {
    let step = polling().advance(polled(Some("failed"), None, 5000), "t", "x");
    failed_with(&step.task, "video task failed: unknown error (ark_task: job-1)");
    let mut r = report(Some("expired"), None, None);
    r.error = Some(VideoTaskError { code: Some("E1".to_string()), message: None });
    match classify(&r, "job-2") {
        PollVerdict::Failed(TaskError::Remote(m)) => {
            assert_eq!(m, "video task expired: unknown error (ark_task: job-2)")
        }
        other => panic!("{:?}", other),
    }
}

#[test]
fn success_without_an_address_breaks_the_protocol() {
    let step = polling().advance(polled(Some("succeeded"), None, 5000), "t", "x");
    failed_with(&step.task, "succeeded but no video URL");
    let mut r = report(Some("succeeded"), None, None);
    r.content = Some(VideoTaskContent { video_url: None, last_frame_url: Some("f".to_string()) });
    assert!(matches!(classify(&r, "job"), PollVerdict::Failed(TaskError::Protocol(_))));
}

#[test]
fn unknown_and_absent_statuses_keep_polling() {
    for status in [Some("queued"), Some("running"), Some("preparing"), Some("SUCCEEDED"), Some(""), None] {
        assert!(matches!(classify(&report(status, Some("http://u"), None), "job"), PollVerdict::Unfinished));
        let step = polling().advance(polled(status, None, 599_000), "t", "x");
        assert!(matches!(step.action, VideoAction::Poll { record_changed: false, .. }), "{:?}", status);
        assert_eq!(step.task.stage, VideoStage::Polling);
    }
}

#[test]
fn polling_gives_up_after_the_bound() {
    let step = polling().advance(polled(Some("running"), None, 600_000), "t", "x");
    assert!(matches!(step.action, VideoAction::Poll { .. }));
    let step = step.task.advance(polled(Some("running"), None, 600_001), "t-out", "x");
    assert!(matches!(step.action, VideoAction::Finish));
    failed_with(&step.task, "video generation timed out after 600s (ark_task: job-1)");
    assert_eq!(step.task.row.updated_at, "t-out");
    assert_eq!(step.task.row.ark_task_id.as_deref(), Some("job-1"));
}

#[test]
fn a_result_that_arrives_late_is_still_taken() {
    let step = polling().advance(polled(Some("succeeded"), Some("http://x/late.mp4"), 700_000), "t", "f");
    assert!(matches!(step.action, VideoAction::Download { .. }));
}

#[test]
fn failed_poll_fails_the_task() {
    let step = polling().advance(
        VideoEvent::Polled {
            result: Err(TaskError::Remote("video task status request failed: timeout".to_string())),
            elapsed_ms: 10,
        },
        "t",
        "x",
    );
    failed_with(&step.task, "video task status request failed: timeout");
}

#[test]
fn failed_fetch_fails_the_task() {
    let step = polling().advance(polled(Some("succeeded"), Some("http://x/v.mp4"), 1), "t", "f");
    let step = step.task.advance(
        VideoEvent::Downloaded(Err(TaskError::Store("failed to download video: reset".to_string()))),
        "t",
        "x",
    );
    assert!(matches!(step.action, VideoAction::Finish));
    failed_with(&step.task, "failed to download video: reset");
    assert_eq!(step.task.row.ark_task_id.as_deref(), Some("job-1"));
}

#[test]
fn failed_write_of_a_video_fails_the_task() {
    let step = polling().advance(polled(Some("succeeded"), Some("http://x/v.mp4"), 1), "t", "f");
    let step = step.task.advance(VideoEvent::Downloaded(Ok(vec![1, 2, 3])), "t", "f");
    assert!(matches!(step.action, VideoAction::Store { .. }));
    let step = step.task.advance(
        VideoEvent::Stored(Err(TaskError::Store("disk full".to_string()))),
        "t",
        "x",
    );
    assert!(matches!(step.action, VideoAction::Finish));
    failed_with(&step.task, "disk full");
}

#[test]
fn an_empty_result_is_stored_as_it_is() {
    let step = polling().advance(polled(Some("succeeded"), Some("http://x/v.mp4"), 1), "t", "f");
    let step = step.task.advance(VideoEvent::Downloaded(Ok(Vec::new())), "t", "f");
    match step.action {
        VideoAction::Store { file_name, bytes } => {
            assert_eq!(file_name, "f.mp4");
            assert!(bytes.is_empty());
        }
        other => panic!("{:?}", other),
    }
}

#[test]
fn resumed_record_with_a_handle_goes_on_polling_the_same_job() {
    let task = polling();
    let stored = task.row.clone();
    assert_eq!(stored.status, "running");
    assert_eq!(stored.ark_task_id.as_deref(), Some("job-1"));
    let step = VideoTask::new(stored).advance(VideoEvent::Begin, "t-resume", "x");
    match &step.action {
        VideoAction::Poll { handle, record_changed } => {
            assert_eq!(handle, "job-1");
            assert!(*record_changed);
        }
        other => panic!("expected a poll, got {:?}", other),
    }
    assert_eq!(step.task.stage, VideoStage::Polling);
    assert_eq!(step.task.row.ark_task_id.as_deref(), Some("job-1"));
    let step = step.task.advance(
        VideoEvent::Submitted(Ok(VideoCreateResponse { id: Some("job-2".to_string()) })),
        "t",
        "x",
    );
    assert!(matches!(step.action, VideoAction::Ignore));
    assert_eq!(step.task.row.ark_task_id.as_deref(), Some("job-1"));
}

#[test]
fn resumed_record_without_a_handle_has_its_job_created() {
    let mut row = row_with_input("{\"prompt\":\"p\"}");
    row.start("t0");
    let step = VideoTask::new(row).advance(VideoEvent::Begin, "t1", "x");
    assert!(matches!(step.action, VideoAction::Submit(_)));
    assert_eq!(step.task.stage, VideoStage::Submitting);
}

#[test]
fn closed_video_executor_ignores_everything() {
    let step = polling().advance(polled(Some("failed"), None, 1), "t", "x");
    let before = format!("{:?}", step.task);
    let mut task = step.task;
    for event in [
        VideoEvent::Begin,
        VideoEvent::Submitted(Ok(VideoCreateResponse { id: Some("j".to_string()) })),
        polled(Some("succeeded"), Some("http://u"), 1),
        VideoEvent::Downloaded(Ok(vec![1])),
        VideoEvent::Stored(Ok("/a.mp4".to_string())),
    ] {
        assert!(!task.accepts(&event));
        let step = task.advance(event, "later", "y");
        assert!(matches!(step.action, VideoAction::Ignore));
        task = step.task;
    }
    assert!(task.is_closed());
    assert_eq!(format!("{:?}", task), before);
}

#[test]
fn video_step_reads_the_clock_and_draws_a_name() {
    let step = polling().step(polled(Some("succeeded"), Some("http://x/v.mp4"), 1));
    match &step.action {
        VideoAction::Download { url } => assert_eq!(url, "http://x/v.mp4"),
        other => panic!("{:?}", other),
    }
    let step = step.task.step(VideoEvent::Downloaded(Ok(vec![7])));
    match step.action {
        VideoAction::Store { file_name, bytes } => {
            assert!(file_name.ends_with(".mp4"));
            assert_eq!(file_name.len(), 40);
            assert_eq!(bytes, vec![7]);
        }
        other => panic!("{:?}", other),
    }
}
