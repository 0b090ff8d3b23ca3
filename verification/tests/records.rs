use seedcanvas::db::{TaskKind, TaskRow, TaskStatus};

fn fresh() -> TaskRow {
    TaskRow::new(
        "t1".to_string(),
        "proj-1".to_string(),
        TaskKind::Image,
        "{\"prompt\":\"a red fox\"}".to_string(),
        "2026-01-01T00:00:00+00:00".to_string(),
    )
}

#[test]
fn status_names() {
    for (status, name) in [
        (TaskStatus::Pending, "pending"),
        (TaskStatus::Running, "running"),
        (TaskStatus::Done, "done"),
        (TaskStatus::Failed, "failed"),
    ] {
        assert_eq!(status.as_str(), name);
        assert_eq!(TaskStatus::parse(name), Some(status));
    }
    assert_eq!(TaskStatus::parse("Done"), None);
    assert_eq!(TaskStatus::parse(""), None);
    assert_eq!(TaskStatus::parse("not_found"), None);
    assert!(TaskStatus::Done.is_terminal());
    assert!(TaskStatus::Failed.is_terminal());
    assert!(!TaskStatus::Pending.is_terminal());
    assert!(!TaskStatus::Running.is_terminal());
}

#[test]
fn kind_names() {
    assert_eq!(TaskKind::Image.as_str(), "image");
    assert_eq!(TaskKind::Video.as_str(), "video");
    assert_eq!(TaskKind::parse("image"), Some(TaskKind::Image));
    assert_eq!(TaskKind::parse("video"), Some(TaskKind::Video));
    assert_eq!(TaskKind::parse("audio"), None);
}

#[test]
fn a_new_record_is_pending_with_nothing_produced() {
    let row = fresh();
    assert_eq!(row.id, "t1");
    assert_eq!(row.project_id, "proj-1");
    assert_eq!(row.task_type, "image");
    assert_eq!(row.status, "pending");
    assert_eq!(row.input, "{\"prompt\":\"a red fox\"}");
    assert_eq!(row.output, None);
    assert_eq!(row.ark_task_id, None);
    assert_eq!(row.error, None);
    assert_eq!(row.created_at, "2026-01-01T00:00:00+00:00");
    assert_eq!(row.updated_at, row.created_at);
    assert_eq!(row.state(), Some(TaskStatus::Pending));
    assert_eq!(row.kind(), Some(TaskKind::Image));
    assert!(row.is_open());
    assert!(!row.is_terminal());
}

#[test]
fn the_usual_life_of_a_record() {
    let mut row = fresh();
    assert!(row.start("t-start"));
    assert_eq!(row.status, "running");
    assert_eq!(row.updated_at, "t-start");
    assert!(row.attach_handle("job-7", "t-handle"));
    assert_eq!(row.ark_task_id.as_deref(), Some("job-7"));
    assert!(row.complete("{\"assetPath\":\"/a.png\"}", "t-done"));
    assert_eq!(row.status, "done");
    assert_eq!(row.output.as_deref(), Some("{\"assetPath\":\"/a.png\"}"));
    assert_eq!(row.error, None);
    assert_eq!(row.ark_task_id.as_deref(), Some("job-7"));
    assert_eq!(row.updated_at, "t-done");
    assert_eq!(row.created_at, "2026-01-01T00:00:00+00:00");
    assert!(row.is_terminal());
}

#[test]
fn a_pending_record_can_fail_but_not_complete() {
    let mut row = fresh();
    assert!(!row.complete("{}", "t"));
    assert_eq!(row.status, "pending");
    assert_eq!(row.output, None);
    assert!(!row.attach_handle("job", "t"));
    assert_eq!(row.ark_task_id, None);
    assert!(row.fail("missing prompt in task input", "t-fail"));
    assert_eq!(row.status, "failed");
    assert_eq!(row.error.as_deref(), Some("missing prompt in task input"));
    assert_eq!(row.output, None);
}

#[test]
fn a_closed_record_never_changes() {
    let mut done = fresh();
    done.start("t1");
    done.complete("{}", "t2");
    let before = done.clone();
    assert!(!done.start("t3"));
    assert!(!done.fail("late", "t3"));
    assert!(!done.complete("other", "t3"));
    assert!(!done.attach_handle("job", "t3"));
    assert_eq!(format!("{:?}", done), format!("{:?}", before));

    let mut failed = fresh();
    failed.fail("boom", "t1");
    let before = failed.clone();
    assert!(!failed.start("t2"));
    assert!(!failed.complete("{}", "t2"));
    assert!(!failed.fail("again", "t2"));
    assert_eq!(format!("{:?}", failed), format!("{:?}", before));
}

#[test]
fn failing_keeps_the_job_handle() {
    let mut row = fresh();
    row.start("t1");
    row.attach_handle("job-9", "t2");
    row.fail("video task failed: boom (ark_task: job-9)", "t3");
    assert_eq!(row.ark_task_id.as_deref(), Some("job-9"));
    assert_eq!(row.status, "failed");
}

#[test]
fn starting_again_keeps_the_job_handle() {
    let mut row = fresh();
    row.start("t1");
    row.attach_handle("job-9", "t2");
    assert!(row.start("t3"));
    assert_eq!(row.status, "running");
    assert_eq!(row.ark_task_id.as_deref(), Some("job-9"));
}

#[test]
fn a_record_with_an_unknown_status_is_neither_open_nor_closed() {
    let mut row = fresh();
    row.status = "paused".to_string();
    assert_eq!(row.state(), None);
    assert!(!row.is_open());
    assert!(!row.is_terminal());
    assert!(!row.start("t"));
    assert!(!row.fail("x", "t"));
    assert_eq!(row.status, "paused");
}

#[test]
fn clone_copies_every_field() {
    let mut row = fresh();
    row.start("t1");
    row.attach_handle("job", "t2");
    row.complete("{}", "t3");
    let copy = row.clone();
    assert_eq!(format!("{:?}", copy), format!("{:?}", row));
}
