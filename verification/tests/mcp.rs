use seedcanvas::db::{TaskKind, TaskRow};
use seedcanvas::mcp::{
    canvas_result, image_submitted, relay_operations, submit_error_message, task_status,
    video_submitted, write_array, write_node_update, write_read_params, write_status,
    CanvasReadParams, GenerateImageParams, GenerateVideoParams, TaskStatusParams, ToolResult,
    NOT_RUNNING,
};
use seedcanvas::ark::types::{ImageGenItem, ImageGenResponse};
use seedcanvas::tasks::image::{ImageAction, ImageEvent};
use seedcanvas::tasks::queue::{Notification, SubmitError, TaskQueue};
use seedcanvas::tasks::{ImageParams, ValidationError};

fn value(text: &str) -> serde_json::Value {
    serde_json::from_str(text).unwrap()
}

fn done(kind: TaskKind, input: &str, output: &str) -> TaskRow {
    let mut row = TaskRow::new("t1".into(), "proj-1".into(), kind, input.into(), "c".into());
    row.start("s");
    row.complete(output, "u");
    row
}

#[test]
fn tool_arguments_become_submissions() {
    let p = GenerateImageParams {
        project_id: "p".into(),
        prompt: "fox".into(),
        model: Some("m".into()),
        node_id: Some("n".into()),
        size: None,
    }
    .into_params();
    assert_eq!((p.project_id.as_str(), p.prompt.as_str()), ("p", "fox"));
    assert_eq!(p.model.as_deref(), Some("m"));
    assert_eq!(p.node_id.as_deref(), Some("n"));
    assert_eq!(p.size, None);
    let p = GenerateVideoParams {
        project_id: "p".into(),
        prompt: "sea".into(),
        model: None,
        node_id: None,
        resolution: Some("480p".into()),
        ratio: Some("1:1".into()),
        duration: Some(3),
    }
    .into_params();
    assert_eq!(p.resolution.as_deref(), Some("480p"));
    assert_eq!(p.ratio.as_deref(), Some("1:1"));
    assert_eq!(p.duration, Some(3));
    assert_eq!(TaskStatusParams { task_id: "t".into() }.task_id, "t");
}

#[test]
fn arrays_of_strings() {
    assert_eq!(write_array(&vec![]), "[]");
    assert_eq!(write_array(&vec!["all".to_string()]), "[\"all\"]");
    assert_eq!(write_array(&vec!["a".to_string(), "b\"c".to_string(), "".to_string()]), "[\"a\",\"b\\\"c\",\"\"]");
}

#[test]
fn parameters_of_a_read() {
    let p = CanvasReadParams { scope: vec!["nodes".into(), "edges".into()], node_ids: Some(vec!["n1".into()]), edge_ids: None };
    assert_eq!(write_read_params(&p), "{\"scope\":[\"nodes\",\"edges\"],\"nodeIds\":[\"n1\"],\"edgeIds\":null}");
    let p = CanvasReadParams { scope: vec![], node_ids: None, edge_ids: Some(vec![]) };
    let v = value(&write_read_params(&p));
    assert_eq!(v["scope"].as_array().unwrap().len(), 0);
    assert!(v["nodeIds"].is_null());
    assert_eq!(v["edgeIds"].as_array().unwrap().len(), 0);
}

#[test]
fn the_document_s_answer_is_the_tool_s() {
    assert!(matches!(canvas_result(Ok("{}".into())), ToolResult::Success(ref t) if t == "{}"));
    assert!(matches!(canvas_result(Err("bad".into())), ToolResult::Error(ref t) if t == "bad"));
    assert!(NOT_RUNNING.starts_with("SeedCanvas app is not running."));
}

#[test]
fn answers_to_submissions() {
    match image_submitted(Ok("t1")) {
        ToolResult::Success(text) => {
            let v = value(&text);
            assert_eq!(v["taskId"], "t1");
            assert_eq!(v["status"], "submitted");
            assert_eq!(v["message"], "Image generation task submitted. Use task_status to check progress.");
        }
        other => panic!("{:?}", other),
    }
    match video_submitted(Ok("v1")) {
        ToolResult::Success(text) => {
            assert_eq!(text, "{\"taskId\":\"v1\",\"status\":\"submitted\",\"message\":\"Video generation task submitted. Use task_status to check progress.\"}");
        }
        other => panic!("{:?}", other),
    }
    let e = SubmitError::Invalid(ValidationError::EmptyPrompt);
    assert!(matches!(image_submitted(Err(&e)), ToolResult::Error(ref t) if t == "Failed to submit image task: prompt must not be empty"));
    let e = SubmitError::Invalid(ValidationError::InvalidDuration(20));
    assert!(matches!(video_submitted(Err(&e)), ToolResult::Error(ref t) if t == "Failed to submit video task: duration must be 2-12 seconds, got 20"));
    let e = SubmitError::IdInUse("t1".into());
    assert_eq!(submit_error_message(&e), "task id already in use: t1");
}

#[test]
fn a_record_as_a_caller_sees_it() {
    let row = done(TaskKind::Image, "{}", "{\"assetPath\":\"/a.png\",\"height\":1,\"width\":2}");
    let text = write_status(&row);
    assert_eq!(text, "{\"taskId\":\"t1\",\"projectId\":\"proj-1\",\"type\":\"image\",\"status\":\"done\",\"output\":{\"assetPath\":\"/a.png\",\"height\":1,\"width\":2},\"error\":null,\"createdAt\":\"c\",\"updatedAt\":\"u\"}");
    let mut failed = TaskRow::new("t2".into(), "proj-1".into(), TaskKind::Video, "{}".into(), "c".into());
    failed.fail("boom", "u");
    let v = value(&write_status(&failed));
    assert_eq!(v["status"], "failed");
    assert_eq!(v["error"], "boom");
    assert!(v["output"].is_null());
}

#[test]
fn answers_of_the_status_tool() {
    let row = done(TaskKind::Image, "{}", "{}");
    assert!(matches!(task_status("t1", &Ok(Some(row))), ToolResult::Success(_)));
    assert!(matches!(task_status("t9", &Ok(None)), ToolResult::Error(ref t) if t == "Task 't9' not found"));
    assert!(matches!(task_status("t9", &Err("db lock poisoned".into())), ToolResult::Error(ref t) if t == "Failed to query task: db lock poisoned"));
}

#[test]
fn a_done_image_is_put_onto_its_node() {
    let row = done(
        TaskKind::Image,
        "{\"prompt\":\"p\",\"node_id\":\"n1\"}",
        "{\"assetPath\":\"/a/f.png\",\"height\":2304,\"width\":1728}",
    );
    let text = relay_operations(&row).unwrap();
    assert_eq!(text, "[{\"op\":\"update_node\",\"nodeId\":\"n1\",\"newImageUrl\":\"/a/f.png\",\"width\":1728,\"height\":2304}]");
}

#[test]
fn a_done_video_is_put_onto_its_node() {
    let row = done(
        TaskKind::Video,
        "{\"prompt\":\"p\",\"node_id\":\"n2\"}",
        "{\"assetPath\":\"/a/v.mp4\"}",
    );
    let v = value(&relay_operations(&row).unwrap());
    assert_eq!(v[0]["op"], "update_node");
    assert_eq!(v[0]["nodeId"], "n2");
    assert_eq!(v[0]["newVideoUrl"], "/a/v.mp4");
    assert_eq!(v[0]["width"], 1280);
    assert_eq!(v[0]["height"], 720);
    assert!(v[0].get("newImageUrl").is_none());
}

#[test]
fn image_dimensions_default_where_the_output_has_none() {
    let row = done(
        TaskKind::Image,
        "{\"node_id\":\"n1\"}",
        "{\"assetPath\":\"/a\",\"width\":-5,\"height\":\"tall\"}",
    );
    let v = value(&relay_operations(&row).unwrap());
    assert_eq!(v[0]["width"], 2048);
    assert_eq!(v[0]["height"], 2048);
    let row = done(TaskKind::Image, "{\"node_id\":\"n1\"}", "{\"assetPath\":\"/a\",\"width\":4294967297}");
    assert_eq!(value(&relay_operations(&row).unwrap())[0]["width"], 1);
}

#[test]
fn nothing_is_relayed_without_node_or_asset() {
    let with_node = "{\"prompt\":\"p\",\"node_id\":\"n1\"}";
    let output = "{\"assetPath\":\"/a.png\"}";
    assert!(relay_operations(&done(TaskKind::Image, "{\"prompt\":\"p\"}", output)).is_none());
    assert!(relay_operations(&done(TaskKind::Image, "{\"node_id\":null}", output)).is_none());
    assert!(relay_operations(&done(TaskKind::Image, "garbage", output)).is_none());
    assert!(relay_operations(&done(TaskKind::Image, with_node, "{}")).is_none());
    assert!(relay_operations(&done(TaskKind::Image, with_node, "{\"assetPath\":\"\"}")).is_none());
    assert!(relay_operations(&done(TaskKind::Image, with_node, "{\"assetPath\":5}")).is_none());
    assert!(relay_operations(&done(TaskKind::Image, with_node, "garbage")).is_none());
    let mut failed = TaskRow::new("t".into(), "p".into(), TaskKind::Image, with_node.into(), "c".into());
    failed.fail("boom", "u");
    assert!(relay_operations(&failed).is_none());
    let mut odd = done(TaskKind::Image, with_node, output);
    odd.status = "running".into();
    assert!(relay_operations(&odd).is_none());
    odd.status = "done".into();
    odd.output = None;
    assert!(relay_operations(&odd).is_none());
}

#[test]
fn node_updates_are_written_with_escapes() {
    let text = write_node_update("video", "n\"1", "C:\\a\\v.mp4", 10, 20);
    let v = value(&text);
    assert_eq!(v[0]["nodeId"], "n\"1");
    assert_eq!(v[0]["newVideoUrl"], "C:\\a\\v.mp4");
    assert_eq!(v[0]["width"], 10);
    assert_eq!(v[0]["height"], 20);
}

#[test]
fn result_of_a_run_reaches_its_node() {
    let mut queue = TaskQueue::new_headless();
    queue.set_on_complete();
    let admitted = queue
        .submit_image_at(
            ImageParams {
                project_id: "proj-1".into(),
                prompt: "a \"quoted\" fox".into(),
                model: None,
                node_id: Some("node-7".into()),
                size: Some("1728x2304".into()),
            },
            "t1",
            "now",
        )
        .unwrap();
    let step = admitted.task.advance(ImageEvent::Begin, "t", "x");
    match &step.action {
        ImageAction::Generate(request) => {
            assert_eq!(request.prompt, "a \"quoted\" fox");
            assert_eq!(request.size.as_deref(), Some("1728x2304"));
        }
        other => panic!("{:?}", other),
    }
    let response = ImageGenResponse {
        data: vec![ImageGenItem {
            b64_json: Some("QUJD".into()),
            url: None,
            size: Some("1728x2304".into()),
        }],
    };
    let step = step.task.advance(ImageEvent::Generated(Ok(response)), "t", "f");
    let step = step.task.advance(ImageEvent::Stored(Ok("/assets/f.png".into())), "t", "a");
    let heard = queue.complete(&step.task.row);
    assert_eq!(heard.len(), 1);
    match &heard[0] {
        Notification::Relay(row) => {
            let v = value(&relay_operations(row).unwrap());
            assert_eq!(v[0]["op"], "update_node");
            assert_eq!(v[0]["nodeId"], "node-7");
            assert_eq!(v[0]["newImageUrl"], "/assets/f.png");
            assert_eq!(v[0]["width"], 1728);
            assert_eq!(v[0]["height"], 2304);
        }
        other => panic!("{:?}", other),
    }
    assert!(queue.complete(&step.task.row).is_empty());
}
