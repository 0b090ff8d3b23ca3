//! The surface offered to the tool host: what each tool is given, what it
//! sends to the live document, and what it answers. Transport and schema
//! are the host's.

use vstd::prelude::*;
use vstd::string::*;
use crate::db::{TaskRow, TaskView, KIND_IMAGE, STATUS_DONE};
use crate::json::{
    check_syntax, document_or_null, literal, literal_or_null, read_string_member,
    read_unsigned_member, string_member, syntax_error, unsigned_member, write_document_or_null,
    write_literal, write_literal_or_null,
};
use crate::tasks::image::{FALLBACK_HEIGHT, FALLBACK_WIDTH};
use crate::tasks::queue::SubmitError;
use crate::tasks::video::{VIDEO_HEIGHT, VIDEO_WIDTH};
use crate::tasks::{ImageParams, ImageParamsView, VideoParams, VideoParamsView};
use crate::text::{decimal_digits, format_u64, joined, opt_view, str_eq};

verus! {

/// What a tool says where the live document cannot be reached.
pub const NOT_RUNNING: &'static str =
    "SeedCanvas app is not running. Please launch the desktop app first.";

/// What a tool says where its request cannot be handed to the bridge.
pub const SEND_FAILED: &'static str = "Failed to send request to SeedCanvas app";

/// What a tool says where the bridge gives no answer.
pub const NO_RESPONSE: &'static str = "SeedCanvas app did not respond";

/// What the tool that reads the document is given.
#[derive(Debug)]
pub struct CanvasReadParams {
    pub scope: Vec<String>,
    pub node_ids: Option<Vec<String>>,
    pub edge_ids: Option<Vec<String>>,
}

/// What the tool that generates an image is given.
#[derive(Debug)]
pub struct GenerateImageParams {
    pub project_id: String,
    pub prompt: String,
    pub model: Option<String>,
    pub node_id: Option<String>,
    pub size: Option<String>,
}

/// What the tool that generates a video is given.
#[derive(Debug)]
pub struct GenerateVideoParams {
    pub project_id: String,
    pub prompt: String,
    pub model: Option<String>,
    pub node_id: Option<String>,
    pub resolution: Option<String>,
    pub ratio: Option<String>,
    pub duration: Option<i32>,
}

/// What the tool that reports on a task is given.
#[derive(Debug)]
pub struct TaskStatusParams {
    pub task_id: String,
}

impl GenerateImageParams {
    /// The submission that the tool's arguments make.
    pub fn into_params(self) -> (r: ImageParams)
        ensures
            r@ == (ImageParamsView {
                project_id: self.project_id@,
                prompt: self.prompt@,
                model: opt_view(self.model),
                node_id: opt_view(self.node_id),
                size: opt_view(self.size),
            }),
    {
        ImageParams {
            project_id: self.project_id,
            prompt: self.prompt,
            model: self.model,
            node_id: self.node_id,
            size: self.size,
        }
    }
}

impl GenerateVideoParams {
    /// The submission that the tool's arguments make.
    pub fn into_params(self) -> (r: VideoParams)
        ensures
            r@ == (VideoParamsView {
                project_id: self.project_id@,
                prompt: self.prompt@,
                model: opt_view(self.model),
                node_id: opt_view(self.node_id),
                resolution: opt_view(self.resolution),
                ratio: opt_view(self.ratio),
                duration: self.duration,
            }),
    {
        VideoParams {
            project_id: self.project_id,
            prompt: self.prompt,
            model: self.model,
            node_id: self.node_id,
            resolution: self.resolution,
            ratio: self.ratio,
            duration: self.duration,
        }
    }
}

/// The texts of a list of strings.
pub open spec fn texts(list: Seq<String>) -> Seq<Seq<char>> {
    Seq::new(list.len(), |i: int| list[i]@)
}

/// Each text of a list as a JSON string.
pub open spec fn literals(items: Seq<Seq<char>>) -> Seq<Seq<char>> {
    Seq::new(items.len(), |i: int| literal(items[i]))
}

/// A list of texts as a JSON array of strings.
pub open spec fn array_text(items: Seq<Seq<char>>) -> Seq<char> {
    "["@ + joined(literals(items), ","@) + "]"@
}

/// An optional list of texts as a JSON value: the array, or `null`.
pub open spec fn array_or_null(items: Option<Vec<String>>) -> Seq<char> {
    match items {
        Some(list) => array_text(texts(list@)),
        None => "null"@,
    }
}

/// Writes a list of texts as a JSON array of strings.
pub fn write_array(list: &Vec<String>) -> (r: String)
    ensures
        r@ == array_text(texts(list@)),
{
    let mut inner = String::new();
    let mut i: usize = 0;
    let ghost all = literals(texts(list@));
    while i < list.len()
        invariant
            i <= list@.len(),
            all == literals(texts(list@)),
            inner@ == joined(all.take(i as int), ","@),
        decreases list@.len() - i,
    {
        let item = write_literal(list[i].as_str());
        proof {
            let before = all.take(i as int);
            let after = all.take(i + 1);
            assert(after.drop_last() =~= before);
        }
        if i > 0 {
            inner.append(",");
        }
        inner.append(item.as_str());
        i = i + 1;
    }
    assert(all.take(list@.len() as int) =~= all);
    let mut out = "[".to_string();
    out.append(inner.as_str());
    out.append("]");
    out
}

fn write_array_or_null(items: &Option<Vec<String>>) -> (r: String)
    ensures
        r@ == array_or_null(*items),
{
    match items {
        Some(list) => write_array(list),
        None => "null".to_string(),
    }
}

/// The parameters that a read of the document is relayed with: scope,
/// node identifiers and edge identifiers.
pub open spec fn read_params_text(p: CanvasReadParams) -> Seq<char> {
    "{\"scope\":"@ + array_text(texts(p.scope@)) + ",\"nodeIds\":"@ + array_or_null(p.node_ids)
        + ",\"edgeIds\":"@ + array_or_null(p.edge_ids) + "}"@
}

/// Writes the parameters that a read of the document is relayed with.
pub fn write_read_params(p: &CanvasReadParams) -> (r: String)
    ensures
        r@ == read_params_text(*p),
{
    let mut out = "{\"scope\":".to_string();
    let scope = write_array(&p.scope);
    out.append(scope.as_str());
    out.append(",\"nodeIds\":");
    let nodes = write_array_or_null(&p.node_ids);
    out.append(nodes.as_str());
    out.append(",\"edgeIds\":");
    let edges = write_array_or_null(&p.edge_ids);
    out.append(edges.as_str());
    out.append("}");
    out
}

/// What a tool answers: a text that counts as success, or one that counts
/// as failure.
#[derive(Debug)]
pub enum ToolResult {
    Success(String),
    Error(String),
}

/// A tool's answer over plain texts.
pub enum ToolResultView {
    Success(Seq<char>),
    Error(Seq<char>),
}

impl View for ToolResult {
    type V = ToolResultView;

    open spec fn view(&self) -> ToolResultView {
        match self {
            ToolResult::Success(text) => ToolResultView::Success(text@),
            ToolResult::Error(text) => ToolResultView::Error(text@),
        }
    }
}

/// What the answer of the live document amounts to for the tool that asked.
pub fn canvas_result(reply: Result<String, String>) -> (r: ToolResult)
    ensures
        r@ == match reply {
            Ok(text) => ToolResultView::Success(text@),
            Err(text) => ToolResultView::Error(text@),
        },
{
    match reply {
        Ok(text) => ToolResult::Success(text),
        Err(text) => ToolResult::Error(text),
    }
}

/// The sentence for a submission that was not admitted.
pub open spec fn submit_error_text(e: SubmitError) -> Seq<char> {
    match e {
        SubmitError::Invalid(rejection) => rejection@.message(),
        SubmitError::IdInUse(id) => "task id already in use: "@ + id@,
    }
}

/// Writes the sentence for a submission that was not admitted.
pub fn submit_error_message(e: &SubmitError) -> (r: String)
    ensures
        r@ == submit_error_text(*e),
{
    match e {
        SubmitError::Invalid(rejection) => rejection.message(),
        SubmitError::IdInUse(id) => {
            let mut out = "task id already in use: ".to_string();
            out.append(id.as_str());
            out
        },
    }
}

/// The answer to an admitted submission: the task's identifier, the word
/// `submitted`, and a hint at how to go on.
pub open spec fn submitted_text(task_id: Seq<char>, hint: Seq<char>) -> Seq<char> {
    "{\"taskId\":"@ + literal(task_id) + ",\"status\":\"submitted\",\"message\":"@ + literal(hint)
        + "}"@
}

/// How to go on after submitting an image.
pub const IMAGE_HINT: &'static str =
    "Image generation task submitted. Use task_status to check progress.";

/// How to go on after submitting a video.
pub const VIDEO_HINT: &'static str =
    "Video generation task submitted. Use task_status to check progress.";

fn write_submitted(task_id: &str, hint: &str) -> (r: String)
    ensures
        r@ == submitted_text(task_id@, hint@),
{
    let mut out = "{\"taskId\":".to_string();
    let id = write_literal(task_id);
    out.append(id.as_str());
    out.append(",\"status\":\"submitted\",\"message\":");
    let message = write_literal(hint);
    out.append(message.as_str());
    out.append("}");
    out
}

/// What the tool that generates an image answers, given the task's
/// identifier or the reason why there is none.
pub fn image_submitted(outcome: Result<&str, &SubmitError>) -> (r: ToolResult)
    ensures
        r@ == match outcome {
            Ok(task_id) => ToolResultView::Success(submitted_text(task_id@, IMAGE_HINT@)),
            Err(e) => ToolResultView::Error("Failed to submit image task: "@ + submit_error_text(*e)),
        },
{
    match outcome {
        Ok(task_id) => ToolResult::Success(write_submitted(task_id, IMAGE_HINT)),
        Err(e) => {
            let mut out = "Failed to submit image task: ".to_string();
            let reason = submit_error_message(e);
            out.append(reason.as_str());
            ToolResult::Error(out)
        },
    }
}

/// What the tool that generates a video answers, given the task's
/// identifier or the reason why there is none.
pub fn video_submitted(outcome: Result<&str, &SubmitError>) -> (r: ToolResult)
    ensures
        r@ == match outcome {
            Ok(task_id) => ToolResultView::Success(submitted_text(task_id@, VIDEO_HINT@)),
            Err(e) => ToolResultView::Error("Failed to submit video task: "@ + submit_error_text(*e)),
        },
{
    match outcome {
        Ok(task_id) => ToolResult::Success(write_submitted(task_id, VIDEO_HINT)),
        Err(e) => {
            let mut out = "Failed to submit video task: ".to_string();
            let reason = submit_error_message(e);
            out.append(reason.as_str());
            ToolResult::Error(out)
        },
    }
}

/// A record as a caller sees it: identity, project, kind and status, the
/// output as the JSON document that it is, the error, and the two times;
/// `null` for what is not there.
pub open spec fn status_text(row: TaskView) -> Seq<char> {
    "{\"taskId\":"@ + literal(row.id) + ",\"projectId\":"@ + literal(row.project_id) + ",\"type\":"@
        + literal(row.task_type) + ",\"status\":"@ + literal(row.status) + ",\"output\":"@
        + document_or_null(row.output) + ",\"error\":"@ + literal_or_null(row.error)
        + ",\"createdAt\":"@ + literal(row.created_at) + ",\"updatedAt\":"@ + literal(
        row.updated_at,
    ) + "}"@
}

/// Writes a record as a caller sees it.
pub fn write_status(row: &TaskRow) -> (r: String)
    ensures
        r@ == status_text(row@),
{
    let mut out = "{\"taskId\":".to_string();
    let id = write_literal(row.id.as_str());
    out.append(id.as_str());
    out.append(",\"projectId\":");
    let project_id = write_literal(row.project_id.as_str());
    out.append(project_id.as_str());
    out.append(",\"type\":");
    let kind = write_literal(row.task_type.as_str());
    out.append(kind.as_str());
    out.append(",\"status\":");
    let status = write_literal(row.status.as_str());
    out.append(status.as_str());
    out.append(",\"output\":");
    let output = write_document_or_null(&row.output);
    out.append(output.as_str());
    out.append(",\"error\":");
    let error = write_literal_or_null(&row.error);
    out.append(error.as_str());
    out.append(",\"createdAt\":");
    let created = write_literal(row.created_at.as_str());
    out.append(created.as_str());
    out.append(",\"updatedAt\":");
    let updated = write_literal(row.updated_at.as_str());
    out.append(updated.as_str());
    out.append("}");
    out
}

/// What a look into the store came to, over plain values.
pub open spec fn lookup_view(found: Result<Option<TaskRow>, String>) -> Result<
    Option<TaskView>,
    Seq<char>,
> {
    match found {
        Ok(Some(row)) => Ok(Some(row@)),
        Ok(None) => Ok(None),
        Err(e) => Err(e@),
    }
}

/// What the tool that reports on a task answers: the record as a caller
/// sees it, or that there is no such task, or that the store failed.
pub open spec fn status_answer(task_id: Seq<char>, found: Result<Option<TaskView>, Seq<char>>) -> ToolResultView {
    match found {
        Ok(Some(row)) => ToolResultView::Success(status_text(row)),
        Ok(None) => ToolResultView::Error("Task '"@ + task_id + "' not found"@),
        Err(reason) => ToolResultView::Error("Failed to query task: "@ + reason),
    }
}

/// Answers the tool that reports on a task.
pub fn task_status(task_id: &str, found: &Result<Option<TaskRow>, String>) -> (r: ToolResult)
    ensures
        r@ == status_answer(task_id@, lookup_view(*found)),
{
    match found {
        Ok(Some(row)) => ToolResult::Success(write_status(row)),
        Ok(None) => {
            let mut out = "Task '".to_string();
            out.append(task_id);
            out.append("' not found");
            ToolResult::Error(out)
        },
        Err(reason) => {
            let mut out = "Failed to query task: ".to_string();
            out.append(reason.as_str());
            ToolResult::Error(out)
        },
    }
}

/// The member of a node update under which a result's address goes.
pub open spec fn url_key(task_type: Seq<char>) -> Seq<char> {
    if task_type == KIND_IMAGE@ {
        "newImageUrl"@
    } else {
        "newVideoUrl"@
    }
}

/// A dimension of a result: what the output holds, cut to 32 bits, or the
/// default of the task's kind.
pub open spec fn dimension_or(found: Option<u64>, default: u32) -> u32 {
    match found {
        Some(v) => v as u32,
        None => default,
    }
}

/// The batch of one node update that puts a result onto its node.
pub open spec fn node_update_text(
    task_type: Seq<char>,
    node_id: Seq<char>,
    asset_path: Seq<char>,
    width: u32,
    height: u32,
) -> Seq<char> {
    "[{\"op\":\"update_node\",\"nodeId\":"@ + literal(node_id) + ",\""@ + url_key(task_type)
        + "\":"@ + literal(asset_path) + ",\"width\":"@ + decimal_digits(width as nat)
        + ",\"height\":"@ + decimal_digits(height as nat) + "}]"@
}

/// What the relay sends to the live document for a closed record: nothing
/// unless the task is done, its submission named a node, and its output is
/// a JSON document that names an asset; else the update of that node with
/// the asset's address and dimensions.
pub open spec fn relay_text(row: TaskView) -> Option<Seq<char>> {
    let image = row.task_type == KIND_IMAGE@;
    if row.status != STATUS_DONE@ {
        None
    } else {
        match (string_member(row.input, "node_id"@), row.output) {
            (Some(node_id), Some(output)) => if syntax_error(output) is Some {
                None
            } else {
                match string_member(output, "assetPath"@) {
                    None => None,
                    Some(path) => if path.len() == 0 {
                        None
                    } else {
                        Some(
                            node_update_text(
                                row.task_type,
                                node_id,
                                path,
                                dimension_or(
                                    unsigned_member(output, "width"@),
                                    if image {
                                        FALLBACK_WIDTH
                                    } else {
                                        VIDEO_WIDTH
                                    },
                                ),
                                dimension_or(
                                    unsigned_member(output, "height"@),
                                    if image {
                                        FALLBACK_HEIGHT
                                    } else {
                                        VIDEO_HEIGHT
                                    },
                                ),
                            ),
                        )
                    },
                }
            },
            _ => None,
        }
    }
}

/// Writes the batch of one node update that puts a result onto its node.
pub fn write_node_update(
    task_type: &str,
    node_id: &str,
    asset_path: &str,
    width: u32,
    height: u32,
) -> (r: String)
    ensures
        r@ == node_update_text(task_type@, node_id@, asset_path@, width, height),
{
    let mut out = "[{\"op\":\"update_node\",\"nodeId\":".to_string();
    let node = write_literal(node_id);
    out.append(node.as_str());
    out.append(",\"");
    if str_eq(task_type, KIND_IMAGE) {
        out.append("newImageUrl");
    } else {
        out.append("newVideoUrl");
    }
    out.append("\":");
    let path = write_literal(asset_path);
    out.append(path.as_str());
    out.append(",\"width\":");
    let w = format_u64(width as u64);
    out.append(w.as_str());
    out.append(",\"height\":");
    let h = format_u64(height as u64);
    out.append(h.as_str());
    out.append("}]");
    out
}

fn dimension(found: Option<u64>, default: u32) -> (r: u32)
    ensures
        r == dimension_or(found, default),
{
    match found {
        Some(v) => #[verifier::truncate]
        (v as u32),
        None => default,
    }
}

/// Decides what the relay sends to the live document for a closed record.
pub fn relay_operations(row: &TaskRow) -> (r: Option<String>)
    ensures
        opt_view(r) == relay_text(row@),
{
    if !str_eq(row.status.as_str(), STATUS_DONE) {
        return None;
    }
    let node_id = match read_string_member(row.input.as_str(), "node_id") {
        Some(node_id) => node_id,
        None => {
            return None;
        },
    };
    let output = match &row.output {
        Some(output) => output.as_str(),
        None => {
            return None;
        },
    };
    if check_syntax(output).is_some() {
        return None;
    }
    let path = match read_string_member(output, "assetPath") {
        Some(path) => path,
        None => {
            return None;
        },
    };
    if path.as_str().unicode_len() == 0 {
        return None;
    }
    let image = str_eq(row.task_type.as_str(), KIND_IMAGE);
    let width = dimension(
        read_unsigned_member(output, "width"),
        if image {
            FALLBACK_WIDTH
        } else {
            VIDEO_WIDTH
        },
    );
    let height = dimension(
        read_unsigned_member(output, "height"),
        if image {
            FALLBACK_HEIGHT
        } else {
            VIDEO_HEIGHT
        },
    );
    Some(write_node_update(row.task_type.as_str(), node_id.as_str(), path.as_str(), width, height))
}

} // verus!
