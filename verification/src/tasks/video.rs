//! The video executor: one task from its record to a closed record, by way
//! of a remote job that is created once and then polled. The executor
//! decides; whoever drives it calls the remote service, waits, fetches the
//! result and writes the store, and reports back what happened.

use vstd::prelude::*;
use vstd::string::*;
use crate::ark::types::{
    VideoContentItem, VideoCreateResponse, VideoGenRequest, VideoGenRequestView, VideoTaskStatus,
    CONTENT_TYPE_TEXT,
};
use crate::db::{TaskRow, TaskStatus, TaskView};
use crate::fresh::{fresh_id, timestamp};
use crate::json::{
    check_syntax, integer_member, read_integer_member, read_string_member, string_member,
    syntax_error,
};
use crate::tasks::{
    or_default, output_text, write_output, Failure, TaskError, DEFAULT_VIDEO_MODEL,
};
use crate::text::{opt_view, str_eq};

verus! {

/// Seconds to wait before each poll of the remote job.
pub const POLL_INTERVAL_SECS: u64 = 5;

/// Milliseconds of polling after which an unfinished job is given up.
pub const POLL_TIMEOUT_MS: u64 = 600000;

/// Width noted for every video.
pub const VIDEO_WIDTH: u32 = 1280;

/// Height noted for every video.
pub const VIDEO_HEIGHT: u32 = 720;

/// The file extension of a stored video.
pub const VIDEO_EXTENSION: &'static str = ".mp4";

/// The status of a remote job that has produced its result.
pub const JOB_SUCCEEDED: &'static str = "succeeded";

/// The status of a remote job that has broken down.
pub const JOB_FAILED: &'static str = "failed";

/// The status of a remote job that was not served in time.
pub const JOB_EXPIRED: &'static str = "expired";

/// The status of a remote job that was called off.
pub const JOB_CANCELLED: &'static str = "cancelled";

/// The duration as the request carries it: the integer of the input, cut
/// to 32 bits.
pub open spec fn duration_from(duration: Option<i64>) -> Option<i32> {
    match duration {
        Some(d) => Some(d as i32),
        None => None,
    }
}

/// The request that the fields of a task's input ask for. The prompt is
/// required and becomes the request's only piece of content; the model has
/// a default; resolution, ratio and duration are passed on as they are.
pub open spec fn request_from(
    prompt: Option<Seq<char>>,
    model: Option<Seq<char>>,
    resolution: Option<Seq<char>>,
    ratio: Option<Seq<char>>,
    duration: Option<i64>,
) -> Result<VideoGenRequestView, Failure> {
    match prompt {
        None => Err(Failure::InvalidInput("missing prompt in task input"@)),
        Some(p) => Ok(
            VideoGenRequestView {
                model: or_default(model, DEFAULT_VIDEO_MODEL@),
                content: seq![(CONTENT_TYPE_TEXT@, Some(p))],
                resolution,
                ratio,
                duration: duration_from(duration),
                watermark: false,
            },
        ),
    }
}

/// The request that a task's input, a JSON text, asks for.
pub open spec fn request_of(input: Seq<char>) -> Result<VideoGenRequestView, Failure> {
    match syntax_error(input) {
        Some(complaint) => Err(Failure::InvalidInput("invalid task input JSON: "@ + complaint)),
        None => request_from(
            string_member(input, "prompt"@),
            string_member(input, "model"@),
            string_member(input, "resolution"@),
            string_member(input, "ratio"@),
            integer_member(input, "duration"@),
        ),
    }
}

/// A video request as plain values, or the failure.
pub open spec fn request_view(r: Result<VideoGenRequest, TaskError>) -> Result<
    VideoGenRequestView,
    Failure,
> {
    match r {
        Ok(v) => Ok(v@),
        Err(e) => Err(e@),
    }
}

/// Builds the request from the fields of a task's input.
pub fn video_request(
    prompt: Option<String>,
    model: Option<String>,
    resolution: Option<String>,
    ratio: Option<String>,
    duration: Option<i64>,
) -> (r: Result<VideoGenRequest, TaskError>)
    ensures
        request_view(r) == request_from(
            opt_view(prompt),
            opt_view(model),
            opt_view(resolution),
            opt_view(ratio),
            duration,
        ),
{
    let prompt = match prompt {
        Some(p) => p,
        None => {
            return Err(TaskError::InvalidInput("missing prompt in task input".to_string()));
        },
    };
    let model = match model {
        Some(m) => m,
        None => DEFAULT_VIDEO_MODEL.to_string(),
    };
    let duration: Option<i32> = match duration {
        Some(d) => Some(#[verifier::truncate] (d as i32)),
        None => None,
    };
    let mut content: Vec<VideoContentItem> = Vec::new();
    content.push(VideoContentItem { content_type: CONTENT_TYPE_TEXT.to_string(), text: Some(prompt) });
    let request = VideoGenRequest { model, content, resolution, ratio, duration, watermark: false };
    assert(request@.content =~= seq![(CONTENT_TYPE_TEXT@, Some(prompt@))]);
    Ok(request)
}

/// Reads the request out of a task's input.
pub fn read_request(input: &str) -> (r: Result<VideoGenRequest, TaskError>)
    ensures
        request_view(r) == request_of(input@),
{
    match check_syntax(input) {
        Some(complaint) => {
            let mut message = "invalid task input JSON: ".to_string();
            message.append(complaint.as_str());
            Err(TaskError::InvalidInput(message))
        },
        None => video_request(
            read_string_member(input, "prompt"),
            read_string_member(input, "model"),
            read_string_member(input, "resolution"),
            read_string_member(input, "ratio"),
            read_integer_member(input, "duration"),
        ),
    }
}

/// What one report of the remote job amounts to, over plain texts.
pub enum Verdict {
    /// The job is done; its result lies at this address.
    Succeeded(Seq<char>),
    /// The job has ended without a result, or has broken the protocol.
    Failed(Failure),
    /// The job has not ended: poll again.
    Unfinished,
}

/// What one report of the remote job amounts to.
#[derive(Debug)]
pub enum PollVerdict {
    Succeeded(String),
    Failed(TaskError),
    Unfinished,
}

impl View for PollVerdict {
    type V = Verdict;

    open spec fn view(&self) -> Verdict {
        match self {
            PollVerdict::Succeeded(url) => Verdict::Succeeded(url@),
            PollVerdict::Failed(e) => Verdict::Failed(e@),
            PollVerdict::Unfinished => Verdict::Unfinished,
        }
    }
}

/// The address of the result in a report, where it names one.
pub open spec fn result_url(report: VideoTaskStatus) -> Option<Seq<char>> {
    match report.content {
        Some(content) => opt_view(content.video_url),
        None => None,
    }
}

/// The reason given in a report, or the stock phrase where it gives none.
pub open spec fn reported_reason(report: VideoTaskStatus) -> Seq<char> {
    match report.error {
        Some(error) => or_default(opt_view(error.message), "unknown error"@),
        None => "unknown error"@,
    }
}

/// The sentence for a job that has ended without a result.
pub open spec fn ended_message(status: Seq<char>, reason: Seq<char>, handle: Seq<char>) -> Seq<char> {
    "video task "@ + status + ": "@ + reason + " (ark_task: "@ + handle + ")"@
}

/// The sentence for a job that was given up.
pub open spec fn timeout_message(handle: Seq<char>) -> Seq<char> {
    "video generation timed out after 600s (ark_task: "@ + handle + ")"@
}

/// What a report of the job `handle` amounts to. `succeeded` must come with
/// the address of the result. `failed`, `expired` and `cancelled` end the
/// task with the reason reported. Any other status, and none at all, means
/// that the job has not ended.
pub open spec fn verdict(report: VideoTaskStatus, handle: Seq<char>) -> Verdict {
    match opt_view(report.status) {
        None => Verdict::Unfinished,
        Some(status) => if status == JOB_SUCCEEDED@ {
            match result_url(report) {
                Some(url) => Verdict::Succeeded(url),
                None => Verdict::Failed(Failure::Protocol("succeeded but no video URL"@)),
            }
        } else if status == JOB_FAILED@ || status == JOB_EXPIRED@ || status == JOB_CANCELLED@ {
            Verdict::Failed(Failure::Remote(ended_message(status, reported_reason(report), handle)))
        } else {
            Verdict::Unfinished
        },
    }
}

/// Judges one report of the job `handle`.
pub fn classify(report: &VideoTaskStatus, handle: &str) -> (r: PollVerdict)
    ensures
        r@ == verdict(*report, handle@),
{
    let status = match &report.status {
        Some(s) => s.as_str(),
        None => {
            return PollVerdict::Unfinished;
        },
    };
    if str_eq(status, JOB_SUCCEEDED) {
        let url = match &report.content {
            Some(content) => match &content.video_url {
                Some(u) => Some(u.clone()),
                None => None,
            },
            None => None,
        };
        return match url {
            Some(u) => PollVerdict::Succeeded(u),
            None => PollVerdict::Failed(TaskError::Protocol("succeeded but no video URL".to_string())),
        };
    }
    if str_eq(status, JOB_FAILED) || str_eq(status, JOB_EXPIRED) || str_eq(status, JOB_CANCELLED) {
        let mut message = "video task ".to_string();
        message.append(status);
        message.append(": ");
        match &report.error {
            Some(error) => match &error.message {
                Some(m) => message.append(m.as_str()),
                None => message.append("unknown error"),
            },
            None => message.append("unknown error"),
        }
        message.append(" (ark_task: ");
        message.append(handle);
        message.append(")");
        return PollVerdict::Failed(TaskError::Remote(message));
    }
    PollVerdict::Unfinished
}

/// How far the executor has come.
#[derive(Debug, Clone, Copy, PartialEq, Eq, Structural)]
pub enum VideoStage {
    /// Nothing has happened yet.
    Created,
    /// The record is running; the remote job is being created.
    Submitting,
    /// The remote job exists, its handle is on the record, and it is polled
    /// until it ends or time runs out.
    Polling,
    /// The job has succeeded; its result is being fetched.
    Downloading,
    /// The result is fetched; its bytes are being written.
    Storing,
    /// The executor is through: it has closed the record, or there was
    /// nothing for it to do.
    Closed,
}

/// The video executor of one task. It owns the record while it works on it.
#[derive(Debug)]
pub struct VideoTask {
    pub row: TaskRow,
    pub stage: VideoStage,
}

/// The video executor over plain values.
pub struct VideoTaskView {
    pub row: TaskView,
    pub stage: VideoStage,
}

impl View for VideoTask {
    type V = VideoTaskView;

    open spec fn view(&self) -> VideoTaskView {
        VideoTaskView { row: self.row@, stage: self.stage }
    }
}

/// What has happened outside since the executor's last step.
#[derive(Debug)]
pub enum VideoEvent {
    /// The executor is set to work.
    Begin,
    /// The call that creates the remote job has returned.
    Submitted(Result<VideoCreateResponse, TaskError>),
    /// A poll of the remote job has returned, so many milliseconds after
    /// polling began.
    Polled { result: Result<VideoTaskStatus, TaskError>, elapsed_ms: u64 },
    /// The result has been fetched: these are its bytes.
    Downloaded(Result<Vec<u8>, TaskError>),
    /// The bytes have been written, at the path given.
    Stored(Result<String, TaskError>),
}

/// What is to be done outside next.
#[derive(Debug)]
pub enum VideoAction {
    /// Write the record, which is now running, and send the request that
    /// creates the remote job.
    Submit(VideoGenRequest),
    /// Write the record where it has changed, wait for the poll interval,
    /// and ask for the state of the job.
    Poll { handle: String, record_changed: bool },
    /// Fetch what lies at the address.
    Download { url: String },
    /// Write the bytes under this file name among the project's assets.
    Store { file_name: String, bytes: Vec<u8> },
    /// Write the record, which is now closed. The executor is through.
    Finish,
    /// Nothing: the event does not apply to the executor as it stands.
    Ignore,
}

/// An action over plain values.
pub enum VideoActionView {
    Submit(VideoGenRequestView),
    Poll { handle: Seq<char>, record_changed: bool },
    Download { url: Seq<char> },
    Store { file_name: Seq<char>, bytes: Seq<u8> },
    Finish,
    Ignore,
}

impl View for VideoAction {
    type V = VideoActionView;

    open spec fn view(&self) -> VideoActionView {
        match self {
            VideoAction::Submit(request) => VideoActionView::Submit(request@),
            VideoAction::Poll { handle, record_changed } => VideoActionView::Poll {
                handle: handle@,
                record_changed: *record_changed,
            },
            VideoAction::Download { url } => VideoActionView::Download { url: url@ },
            VideoAction::Store { file_name, bytes } => VideoActionView::Store {
                file_name: file_name@,
                bytes: bytes@,
            },
            VideoAction::Finish => VideoActionView::Finish,
            VideoAction::Ignore => VideoActionView::Ignore,
        }
    }
}

/// One step of the executor: where it stands afterwards, and what is to be
/// done outside.
#[derive(Debug)]
pub struct VideoStep {
    pub task: VideoTask,
    pub action: VideoAction,
}

/// One step over plain values.
pub struct VideoStepView {
    pub task: VideoTaskView,
    pub action: VideoActionView,
}

impl View for VideoStep {
    type V = VideoStepView;

    open spec fn view(&self) -> VideoStepView {
        VideoStepView { task: self.task@, action: self.action@ }
    }
}

/// The handle in the answer to the creation of a job, where it holds one.
pub open spec fn created_handle(response: VideoCreateResponse) -> Option<Seq<char>> {
    opt_view(response.id)
}

impl VideoTaskView {
    /// The executor as it starts on a record: ready where the record is
    /// open, through where it is not.
    pub open spec fn starting(row: TaskView) -> VideoTaskView {
        VideoTaskView {
            row,
            stage: if row.open() {
                VideoStage::Created
            } else {
                VideoStage::Closed
            },
        }
    }

    /// The record is running.
    pub open spec fn running(self) -> bool {
        self.row.state() == Some(TaskStatus::Running)
    }

    /// Whether an event applies: each stage waits for one kind of event,
    /// and the record must still be open, and running once the executor has
    /// begun; from polling on it must carry the job's handle.
    pub open spec fn accepts(self, event: VideoEvent) -> bool {
        match event {
            VideoEvent::Begin => self.stage == VideoStage::Created && self.row.open(),
            VideoEvent::Submitted(_) => self.stage == VideoStage::Submitting && self.running(),
            VideoEvent::Polled { .. } => self.stage == VideoStage::Polling && self.running()
                && self.row.ark_task_id is Some,
            VideoEvent::Downloaded(_) => self.stage == VideoStage::Downloading && self.running(),
            VideoEvent::Stored(_) => self.stage == VideoStage::Storing && self.running(),
        }
    }

    /// The step that does nothing.
    pub open spec fn ignoring(self) -> VideoStepView {
        VideoStepView { task: self, action: VideoActionView::Ignore }
    }

    /// The step that closes the record as failed.
    pub open spec fn failing(self, failure: Failure, now: Seq<char>) -> VideoStepView {
        VideoStepView {
            task: VideoTaskView {
                row: self.row.failed(failure.message(), now),
                stage: VideoStage::Closed,
            },
            action: VideoActionView::Finish,
        }
    }

    /// The first step: the input is read and the record is set running. A
    /// record that already carries a job's handle goes on polling that job;
    /// only a record without one has a job created.
    pub open spec fn beginning(self, now: Seq<char>) -> VideoStepView {
        match request_of(self.row.input) {
            Err(failure) => self.failing(failure, now),
            Ok(request) => match self.row.ark_task_id {
                Some(handle) => VideoStepView {
                    task: VideoTaskView { row: self.row.started(now), stage: VideoStage::Polling },
                    action: VideoActionView::Poll { handle, record_changed: true },
                },
                None => VideoStepView {
                    task: VideoTaskView {
                        row: self.row.started(now),
                        stage: VideoStage::Submitting,
                    },
                    action: VideoActionView::Submit(request),
                },
            },
        }
    }

    /// The step after the job's creation: its handle goes onto the record
    /// at once, and polling begins.
    pub open spec fn having_submitted(
        self,
        result: Result<VideoCreateResponse, TaskError>,
        now: Seq<char>,
    ) -> VideoStepView {
        match result {
            Err(e) => self.failing(e@, now),
            Ok(response) => match created_handle(response) {
                None => self.failing(
                    Failure::Protocol("no task ID in video create response"@),
                    now,
                ),
                Some(handle) => VideoStepView {
                    task: VideoTaskView {
                        row: self.row.with_handle(handle, now),
                        stage: VideoStage::Polling,
                    },
                    action: VideoActionView::Poll { handle, record_changed: true },
                },
            },
        }
    }

    /// The step after a poll. A job that has succeeded has its result
    /// fetched from the address reported; one that has ended otherwise
    /// fails the task; one that has not ended is polled again, unless
    /// polling has gone on for longer than allowed.
    pub open spec fn having_polled(
        self,
        result: Result<VideoTaskStatus, TaskError>,
        elapsed_ms: u64,
        now: Seq<char>,
    ) -> VideoStepView {
        let handle = self.row.ark_task_id->Some_0;
        match result {
            Err(e) => self.failing(e@, now),
            Ok(report) => match verdict(report, handle) {
                Verdict::Succeeded(url) => VideoStepView {
                    task: VideoTaskView { stage: VideoStage::Downloading, ..self },
                    action: VideoActionView::Download { url },
                },
                Verdict::Failed(failure) => self.failing(failure, now),
                Verdict::Unfinished => if elapsed_ms > POLL_TIMEOUT_MS {
                    self.failing(Failure::Timeout(timeout_message(handle)), now)
                } else {
                    VideoStepView {
                        task: self,
                        action: VideoActionView::Poll { handle, record_changed: false },
                    }
                },
            },
        }
    }

    /// The step after the fetch: the bytes fetched are handed over, as they
    /// are, to be written under a fresh name.
    pub open spec fn having_downloaded(
        self,
        result: Result<Vec<u8>, TaskError>,
        now: Seq<char>,
        fresh: Seq<char>,
    ) -> VideoStepView {
        match result {
            Err(e) => self.failing(e@, now),
            Ok(bytes) => VideoStepView {
                task: VideoTaskView { stage: VideoStage::Storing, ..self },
                action: VideoActionView::Store { file_name: fresh + VIDEO_EXTENSION@, bytes: bytes@ },
            },
        }
    }

    /// The last step: the record is closed as done, its output naming the
    /// stored asset and the dimensions noted for every video.
    pub open spec fn having_stored(self, result: Result<String, TaskError>, now: Seq<char>) -> VideoStepView {
        match result {
            Err(e) => self.failing(e@, now),
            Ok(path) => VideoStepView {
                task: VideoTaskView {
                    row: self.row.completed(output_text(path@, VIDEO_WIDTH, VIDEO_HEIGHT), now),
                    stage: VideoStage::Closed,
                },
                action: VideoActionView::Finish,
            },
        }
    }

    /// The step that the executor takes on an event that happens at time
    /// `now`, with `fresh` as the identifier to use for what it creates.
    pub open spec fn advanced(self, event: VideoEvent, now: Seq<char>, fresh: Seq<char>) -> VideoStepView {
        if !self.accepts(event) {
            self.ignoring()
        } else {
            match event {
                VideoEvent::Begin => self.beginning(now),
                VideoEvent::Submitted(result) => self.having_submitted(result, now),
                VideoEvent::Polled { result, elapsed_ms } => self.having_polled(
                    result,
                    elapsed_ms,
                    now,
                ),
                VideoEvent::Downloaded(result) => self.having_downloaded(result, now, fresh),
                VideoEvent::Stored(result) => self.having_stored(result, now),
            }
        }
    }
}

impl VideoTask {
    /// The executor for a record.
    pub fn new(row: TaskRow) -> (r: VideoTask)
        ensures
            r@ == VideoTaskView::starting(row@),
    {
        let stage = if row.is_open() {
            VideoStage::Created
        } else {
            VideoStage::Closed
        };
        VideoTask { row, stage }
    }

    /// Whether the executor is through.
    pub fn is_closed(&self) -> (r: bool)
        ensures
            r == (self.stage == VideoStage::Closed),
    {
        match self.stage {
            VideoStage::Closed => true,
            _ => false,
        }
    }

    fn is_running(&self) -> (r: bool)
        ensures
            r == self@.running(),
    {
        match self.row.state() {
            Some(TaskStatus::Running) => true,
            _ => false,
        }
    }

    /// Whether an event applies to the executor as it stands.
    pub fn accepts(&self, event: &VideoEvent) -> (r: bool)
        ensures
            r == self@.accepts(*event),
    {
        match event {
            VideoEvent::Begin => {
                match self.stage {
                    VideoStage::Created => self.row.is_open(),
                    _ => false,
                }
            },
            VideoEvent::Submitted(_) => {
                match self.stage {
                    VideoStage::Submitting => self.is_running(),
                    _ => false,
                }
            },
            VideoEvent::Polled { .. } => {
                match self.stage {
                    VideoStage::Polling => self.is_running() && self.row.ark_task_id.is_some(),
                    _ => false,
                }
            },
            VideoEvent::Downloaded(_) => {
                match self.stage {
                    VideoStage::Downloading => self.is_running(),
                    _ => false,
                }
            },
            VideoEvent::Stored(_) => {
                match self.stage {
                    VideoStage::Storing => self.is_running(),
                    _ => false,
                }
            },
        }
    }

    fn fail(self, error: &TaskError, now: &str) -> (r: VideoStep)
        requires
            self@.row.open(),
        ensures
            r@ == self@.failing(error@, now@),
    {
        let mut row = self.row;
        row.fail(error.message(), now);
        VideoStep { task: VideoTask { row, stage: VideoStage::Closed }, action: VideoAction::Finish }
    }

    /// Takes one step on an event that happens at time `now`, with `fresh`
    /// as the identifier to use for what the step creates: the stored
    /// file's name once the result is fetched.
    pub fn advance(self, event: VideoEvent, now: &str, fresh: &str) -> (r: VideoStep)
        ensures
            r@ == self@.advanced(event, now@, fresh@),
    {
        if !self.accepts(&event) {
            return VideoStep { task: self, action: VideoAction::Ignore };
        }
        match event {
            VideoEvent::Begin => {
                match read_request(self.row.input.as_str()) {
                    Err(e) => self.fail(&e, now),
                    Ok(request) => {
                        let mut row = self.row;
                        row.start(now);
                        let stored = match &row.ark_task_id {
                            Some(handle) => Some(handle.clone()),
                            None => None,
                        };
                        match stored {
                            Some(handle) => VideoStep {
                                task: VideoTask { row, stage: VideoStage::Polling },
                                action: VideoAction::Poll { handle, record_changed: true },
                            },
                            None => VideoStep {
                                task: VideoTask { row, stage: VideoStage::Submitting },
                                action: VideoAction::Submit(request),
                            },
                        }
                    },
                }
            },
            VideoEvent::Submitted(result) => {
                let response = match result {
                    Err(e) => {
                        return self.fail(&e, now);
                    },
                    Ok(response) => response,
                };
                match response.id {
                    None => self.fail(
                        &TaskError::Protocol("no task ID in video create response".to_string()),
                        now,
                    ),
                    Some(handle) => {
                        let mut row = self.row;
                        row.attach_handle(handle.as_str(), now);
                        VideoStep {
                            task: VideoTask { row, stage: VideoStage::Polling },
                            action: VideoAction::Poll { handle, record_changed: true },
                        }
                    },
                }
            },
            VideoEvent::Polled { result, elapsed_ms } => {
                let report = match result {
                    Err(e) => {
                        return self.fail(&e, now);
                    },
                    Ok(report) => report,
                };
                let handle = match &self.row.ark_task_id {
                    Some(handle) => handle.clone(),
                    None => String::new(),
                };
                match classify(&report, handle.as_str()) {
                    PollVerdict::Succeeded(url) => VideoStep {
                        task: VideoTask { row: self.row, stage: VideoStage::Downloading },
                        action: VideoAction::Download { url },
                    },
                    PollVerdict::Failed(e) => self.fail(&e, now),
                    PollVerdict::Unfinished => {
                        if elapsed_ms > POLL_TIMEOUT_MS {
                            let mut message =
                                "video generation timed out after 600s (ark_task: ".to_string();
                            message.append(handle.as_str());
                            message.append(")");
                            self.fail(&TaskError::Timeout(message), now)
                        } else {
                            VideoStep {
                                task: self,
                                action: VideoAction::Poll { handle, record_changed: false },
                            }
                        }
                    },
                }
            },
            VideoEvent::Downloaded(result) => {
                let bytes = match result {
                    Err(e) => {
                        return self.fail(&e, now);
                    },
                    Ok(bytes) => bytes,
                };
                let mut file_name = fresh.to_string();
                file_name.append(VIDEO_EXTENSION);
                VideoStep {
                    task: VideoTask { row: self.row, stage: VideoStage::Storing },
                    action: VideoAction::Store { file_name, bytes },
                }
            },
            VideoEvent::Stored(result) => {
                let path = match result {
                    Err(e) => {
                        return self.fail(&e, now);
                    },
                    Ok(path) => path,
                };
                let output = write_output(path.as_str(), VIDEO_WIDTH, VIDEO_HEIGHT);
                let mut row = self.row;
                row.complete(output.as_str(), now);
                VideoStep {
                    task: VideoTask { row, stage: VideoStage::Closed },
                    action: VideoAction::Finish,
                }
            },
        }
    }

    /// Takes one step on an event that has just happened: the time is read
    /// from the clock, and what the step creates gets a random identifier.
    pub fn step(self, event: VideoEvent) -> (r: VideoStep)
        ensures
            exists|now: Seq<char>, fresh: Seq<char>| r@ == self@.advanced(event, now, fresh),
    {
        let now = timestamp();
        let fresh = fresh_id();
        let r = self.advance(event, now.as_str(), fresh.as_str());
        r
    }
}

/// An executor that is through, or whose record is no longer open, ignores
/// every event: it neither changes nor asks for anything.
pub proof fn lemma_video_closed_ignores(
    task: VideoTaskView,
    event: VideoEvent,
    now: Seq<char>,
    fresh: Seq<char>,
)
    requires
        task.stage == VideoStage::Closed || !task.row.open(),
    ensures
        task.advanced(event, now, fresh) == task.ignoring(),
{
}

/// The record is closed by the steps that finish and by no others: a step
/// asks for the closing write exactly when it takes the record from open
/// to closed, and it leaves the executor through.
pub proof fn lemma_video_finish_closes(
    task: VideoTaskView,
    event: VideoEvent,
    now: Seq<char>,
    fresh: Seq<char>,
)
    ensures
        task.advanced(event, now, fresh).action is Finish <==> task.row.open() && task.advanced(
            event,
            now,
            fresh,
        ).task.row.terminal(),
        task.advanced(event, now, fresh).action is Finish ==> task.advanced(
            event,
            now,
            fresh,
        ).task.stage == VideoStage::Closed,
        task.row.terminal() ==> task.advanced(event, now, fresh).task.row == task.row,
{
    crate::db::lemma_status_name_round_trip(TaskStatus::Done);
    crate::db::lemma_status_name_round_trip(TaskStatus::Failed);
}

/// The closing write happens once: after a step that finishes, whatever
/// event comes next is ignored.
pub proof fn lemma_video_finishes_once(
    task: VideoTaskView,
    first: VideoEvent,
    now: Seq<char>,
    fresh: Seq<char>,
    second: VideoEvent,
    later: Seq<char>,
    fresher: Seq<char>,
)
    requires
        task.advanced(first, now, fresh).action is Finish,
    ensures
        task.advanced(first, now, fresh).task.advanced(second, later, fresher) == task.advanced(
            first,
            now,
            fresh,
        ).task.ignoring(),
{
}

/// No step breaks the record's invariant, and every step leaves the
/// record's identity, kind, input and creation time alone.
pub proof fn lemma_video_step_keeps_record(
    task: VideoTaskView,
    event: VideoEvent,
    now: Seq<char>,
    fresh: Seq<char>,
)
    requires
        task.row.well_formed(),
    ensures
        task.advanced(event, now, fresh).task.row.well_formed(),
        task.advanced(event, now, fresh).task.row.id == task.row.id,
        task.advanced(event, now, fresh).task.row.project_id == task.row.project_id,
        task.advanced(event, now, fresh).task.row.task_type == task.row.task_type,
        task.advanced(event, now, fresh).task.row.input == task.row.input,
        task.advanced(event, now, fresh).task.row.created_at == task.row.created_at,
{
    crate::db::lemma_status_name_round_trip(TaskStatus::Done);
    crate::db::lemma_status_name_round_trip(TaskStatus::Failed);
}

/// A record that carries a job's handle keeps it, and never has a second
/// job created: no step asks for a job's creation, no step changes the
/// handle, and every poll asked for names that job.
pub proof fn lemma_video_job_created_once(
    task: VideoTaskView,
    event: VideoEvent,
    now: Seq<char>,
    fresh: Seq<char>,
)
    requires
        task.row.ark_task_id is Some,
        task.stage != VideoStage::Submitting,
    ensures
        !(task.advanced(event, now, fresh).action is Submit),
        task.advanced(event, now, fresh).task.row.ark_task_id == task.row.ark_task_id,
        task.advanced(event, now, fresh).task.stage != VideoStage::Submitting,
        task.advanced(event, now, fresh).action matches VideoActionView::Poll { handle, .. }
            ==> Some(handle) == task.row.ark_task_id,
{
}

/// The handle of a job goes onto the record with the very step that learns
/// of it.
pub proof fn lemma_video_handle_recorded_at_once(
    task: VideoTaskView,
    response: VideoCreateResponse,
    now: Seq<char>,
    fresh: Seq<char>,
)
    requires
        task.accepts(VideoEvent::Submitted(Ok(response))),
        created_handle(response) is Some,
    ensures
        task.advanced(VideoEvent::Submitted(Ok(response)), now, fresh).task.row.ark_task_id
            == created_handle(response),
        task.advanced(VideoEvent::Submitted(Ok(response)), now, fresh).action
            == (VideoActionView::Poll {
            handle: created_handle(response)->Some_0,
            record_changed: true,
        }),
{
}

/// Polling is bounded: once it has gone on for longer than allowed, no
/// step asks for another poll.
pub proof fn lemma_video_polling_is_bounded(
    task: VideoTaskView,
    result: Result<VideoTaskStatus, TaskError>,
    elapsed_ms: u64,
    now: Seq<char>,
    fresh: Seq<char>,
)
    requires
        elapsed_ms > POLL_TIMEOUT_MS,
    ensures
        !(task.advanced(VideoEvent::Polled { result, elapsed_ms }, now, fresh).action is Poll),
{
}

/// A job that succeeds has its result fetched from exactly the address
/// reported; the bytes fetched are handed over to be written exactly as
/// they came; and once they are written the task ends done: the record's
/// output names the path of the stored asset and the dimensions noted for
/// every video, and the record still carries the job's handle.
pub proof fn lemma_video_success(
    task: VideoTaskView,
    report: VideoTaskStatus,
    elapsed_ms: u64,
    bytes: Vec<u8>,
    path: String,
    t1: Seq<char>,
    t2: Seq<char>,
    t3: Seq<char>,
    fresh: Seq<char>,
)
    requires
        task.accepts(VideoEvent::Polled { result: Ok(report), elapsed_ms }),
        opt_view(report.status) == Some(JOB_SUCCEEDED@),
        result_url(report) is Some,
    ensures
        ({
            let polled = task.advanced(VideoEvent::Polled { result: Ok(report), elapsed_ms }, t1, fresh);
            let fetched = polled.task.advanced(VideoEvent::Downloaded(Ok(bytes)), t2, fresh);
            let stored = fetched.task.advanced(VideoEvent::Stored(Ok(path)), t3, fresh);
            &&& polled.action == VideoActionView::Download { url: result_url(report)->Some_0 }
            &&& fetched.action == VideoActionView::Store {
                file_name: fresh + VIDEO_EXTENSION@,
                bytes: bytes@,
            }
            &&& stored.action is Finish
            &&& stored.task.stage == VideoStage::Closed
            &&& stored.task.row.state() == Some(TaskStatus::Done)
            &&& stored.task.row.output == Some(output_text(path@, VIDEO_WIDTH, VIDEO_HEIGHT))
            &&& stored.task.row.error is None
            &&& stored.task.row.ark_task_id == task.row.ark_task_id
            &&& stored.task.row.id == task.row.id
        }),
{
    crate::db::lemma_status_name_round_trip(TaskStatus::Done);
}

/// Until the step that finishes, the record of a task at work is open:
/// whoever reads it finds it pending or running.
pub proof fn lemma_video_open_until_finished(
    task: VideoTaskView,
    event: VideoEvent,
    now: Seq<char>,
    fresh: Seq<char>,
)
    requires
        task.row.open(),
    ensures
        task.advanced(event, now, fresh).action is Finish || task.advanced(
            event,
            now,
            fresh,
        ).task.row.open(),
{
}

impl VideoTaskView {
    /// The executor after a run of events, each with the time at which it
    /// happens and the identifier to use for what its step creates.
    pub open spec fn after_all(self, events: Seq<(VideoEvent, Seq<char>, Seq<char>)>) -> VideoTaskView
        decreases events.len(),
    {
        if events.len() == 0 {
            self
        } else {
            self.after_all(events.drop_last()).advanced(
                events.last().0,
                events.last().1,
                events.last().2,
            ).task
        }
    }

    /// How often the steps of a run ask for the closing write.
    pub open spec fn closing_writes(self, events: Seq<(VideoEvent, Seq<char>, Seq<char>)>) -> nat
        decreases events.len(),
    {
        if events.len() == 0 {
            0
        } else {
            let asked: nat = if self.after_all(events.drop_last()).advanced(
                events.last().0,
                events.last().1,
                events.last().2,
            ).action is Finish {
                1
            } else {
                0
            };
            self.closing_writes(events.drop_last()) + asked
        }
    }
}

/// Whatever happens, and in whatever order, the record of a task is closed
/// at most once: over any run of events the executor asks for the closing
/// write once or never. It has asked once exactly when it has taken the
/// record from open to closed, and it leaves alone a record that was not
/// open when it started.
pub proof fn lemma_video_closed_at_most_once(
    task: VideoTaskView,
    events: Seq<(VideoEvent, Seq<char>, Seq<char>)>,
)
    ensures
        task.closing_writes(events) <= 1,
        task.closing_writes(events) == 1 <==> task.row.open() && task.after_all(
            events,
        ).row.terminal(),
        !task.row.open() ==> task.after_all(events).row == task.row,
        task.row.open() ==> task.after_all(events).row.open() || task.after_all(
            events,
        ).row.terminal(),
    decreases events.len(),
{
    crate::db::lemma_status_name_round_trip(TaskStatus::Done);
    crate::db::lemma_status_name_round_trip(TaskStatus::Failed);
    if events.len() > 0 {
        lemma_video_closed_at_most_once(task, events.drop_last());
    }
}

} // verus!
