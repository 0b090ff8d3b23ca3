//! The orchestrator. It admits submissions, hands each open record to one
//! executor at a time, and says who is to hear of a task that has ended.
//! It decides; whoever drives it writes the store, runs the executors and
//! delivers the notifications.

use vstd::prelude::*;
use vstd::string::*;
use crate::db::{TaskKind, TaskRow, TaskView};
use crate::fresh::{fresh_id, timestamp};
use crate::json::{
    document_or_null, literal, literal_or_null, read_string_member, string_member,
    write_document_or_null, write_literal, write_literal_or_null,
};
use crate::tasks::image::{ImageTask, ImageTaskView};
use crate::tasks::video::{VideoTask, VideoTaskView};
use crate::tasks::{ImageParams, ImageParamsView, ValidationError, VideoParams, VideoParamsView};
use crate::text::{decimal, format_i64, str_eq};

verus! {

/// The name of the event that announces an admitted submission.
pub const EVENT_SUBMITTED: &'static str = "task:submitted";

/// The name of the event that announces a task that has ended.
pub const EVENT_COMPLETE: &'static str = "task:complete";

/// The input of an image task: the normalised submission as a JSON object.
pub open spec fn image_input_text(p: ImageParamsView) -> Seq<char> {
    "{\"project_id\":"@ + literal(p.project_id) + ",\"prompt\":"@ + literal(p.prompt)
        + ",\"model\":"@ + literal_or_null(p.model) + ",\"node_id\":"@ + literal_or_null(p.node_id)
        + ",\"size\":"@ + literal_or_null(p.size) + "}"@
}

/// A duration as a JSON value: the number, or `null`.
pub open spec fn duration_text(duration: Option<i32>) -> Seq<char> {
    match duration {
        Some(d) => decimal(d as int),
        None => "null"@,
    }
}

/// The input of a video task: the normalised submission as a JSON object.
pub open spec fn video_input_text(p: VideoParamsView) -> Seq<char> {
    "{\"project_id\":"@ + literal(p.project_id) + ",\"prompt\":"@ + literal(p.prompt)
        + ",\"model\":"@ + literal_or_null(p.model) + ",\"node_id\":"@ + literal_or_null(p.node_id)
        + ",\"resolution\":"@ + literal_or_null(p.resolution) + ",\"ratio\":"@ + literal_or_null(
        p.ratio,
    ) + ",\"duration\":"@ + duration_text(p.duration) + "}"@
}

/// Writes the input of an image task.
pub fn write_image_input(p: &ImageParams) -> (r: String)
    ensures
        r@ == image_input_text(p@),
{
    let mut out = "{\"project_id\":".to_string();
    let project_id = write_literal(p.project_id.as_str());
    out.append(project_id.as_str());
    out.append(",\"prompt\":");
    let prompt = write_literal(p.prompt.as_str());
    out.append(prompt.as_str());
    out.append(",\"model\":");
    let model = write_literal_or_null(&p.model);
    out.append(model.as_str());
    out.append(",\"node_id\":");
    let node_id = write_literal_or_null(&p.node_id);
    out.append(node_id.as_str());
    out.append(",\"size\":");
    let size = write_literal_or_null(&p.size);
    out.append(size.as_str());
    out.append("}");
    out
}

/// Writes the input of a video task.
pub fn write_video_input(p: &VideoParams) -> (r: String)
    ensures
        r@ == video_input_text(p@),
{
    let mut out = "{\"project_id\":".to_string();
    let project_id = write_literal(p.project_id.as_str());
    out.append(project_id.as_str());
    out.append(",\"prompt\":");
    let prompt = write_literal(p.prompt.as_str());
    out.append(prompt.as_str());
    out.append(",\"model\":");
    let model = write_literal_or_null(&p.model);
    out.append(model.as_str());
    out.append(",\"node_id\":");
    let node_id = write_literal_or_null(&p.node_id);
    out.append(node_id.as_str());
    out.append(",\"resolution\":");
    let resolution = write_literal_or_null(&p.resolution);
    out.append(resolution.as_str());
    out.append(",\"ratio\":");
    let ratio = write_literal_or_null(&p.ratio);
    out.append(ratio.as_str());
    out.append(",\"duration\":");
    let duration = match p.duration {
        Some(d) => format_i64(d as i64),
        None => "null".to_string(),
    };
    out.append(duration.as_str());
    out.append("}");
    out
}

/// The payload of the event that announces an admitted submission.
pub open spec fn submitted_payload(row: TaskView) -> Seq<char> {
    "{\"taskId\":"@ + literal(row.id) + ",\"projectId\":"@ + literal(row.project_id) + ",\"type\":"@
        + literal(row.task_type) + "}"@
}

/// The payload of the event that announces a task that has ended: the
/// record's identity, project, kind and status, its output as the JSON
/// document that it is, its error, and the document node that the
/// submission named; `null` for what is not there.
pub open spec fn complete_payload(row: TaskView) -> Seq<char> {
    "{\"taskId\":"@ + literal(row.id) + ",\"projectId\":"@ + literal(row.project_id) + ",\"type\":"@
        + literal(row.task_type) + ",\"status\":"@ + literal(row.status) + ",\"output\":"@
        + document_or_null(row.output) + ",\"error\":"@ + literal_or_null(row.error)
        + ",\"nodeId\":"@ + literal_or_null(string_member(row.input, "node_id"@)) + "}"@
}

/// Writes the payload of the event that announces an admitted submission.
pub fn write_submitted_payload(row: &TaskRow) -> (r: String)
    ensures
        r@ == submitted_payload(row@),
{
    let mut out = "{\"taskId\":".to_string();
    let id = write_literal(row.id.as_str());
    out.append(id.as_str());
    out.append(",\"projectId\":");
    let project_id = write_literal(row.project_id.as_str());
    out.append(project_id.as_str());
    out.append(",\"type\":");
    let kind = write_literal(row.task_type.as_str());
    out.append(kind.as_str());
    out.append("}");
    out
}

/// Writes the payload of the event that announces a task that has ended.
pub fn task_complete_payload(row: &TaskRow) -> (r: String)
    ensures
        r@ == complete_payload(row@),
{
    let mut out = "{\"taskId\":".to_string();
    let id = write_literal(row.id.as_str());
    out.append(id.as_str());
    out.append(",\"projectId\":");
    let project_id = write_literal(row.project_id.as_str());
    out.append(project_id.as_str());
    out.append(",\"type\":");
    let kind = write_literal(row.task_type.as_str());
    out.append(kind.as_str());
    out.append(",\"status\":");
    let status = write_literal(row.status.as_str());
    out.append(status.as_str());
    out.append(",\"output\":");
    let output = write_document_or_null(&row.output);
    out.append(output.as_str());
    out.append(",\"error\":");
    let error = write_literal_or_null(&row.error);
    out.append(error.as_str());
    out.append(",\"nodeId\":");
    let node = read_string_member(row.input.as_str(), "node_id");
    let node_id = write_literal_or_null(&node);
    out.append(node_id.as_str());
    out.append("}");
    out
}

/// Who is to hear of something, and what.
#[derive(Debug)]
pub enum Notification {
    /// The in-process emitter is to send the event `name` with a JSON
    /// payload.
    Event { name: String, payload: String },
    /// The out-of-process relay is to be handed the closed record.
    Relay(TaskRow),
}

/// A notification over plain values.
pub enum NotificationView {
    Event { name: Seq<char>, payload: Seq<char> },
    Relay(TaskView),
}

impl View for Notification {
    type V = NotificationView;

    open spec fn view(&self) -> NotificationView {
        match self {
            Notification::Event { name, payload } => NotificationView::Event {
                name: name@,
                payload: payload@,
            },
            Notification::Relay(row) => NotificationView::Relay(row@),
        }
    }
}

/// The notifications of a list, over plain values.
pub open spec fn notification_views(list: Seq<Notification>) -> Seq<NotificationView> {
    Seq::new(list.len(), |i: int| list[i]@)
}

/// An executor of either kind.
#[derive(Debug)]
pub enum Executor {
    Image(ImageTask),
    Video(VideoTask),
}

/// An executor over plain values.
pub enum ExecutorView {
    Image(ImageTaskView),
    Video(VideoTaskView),
}

impl View for Executor {
    type V = ExecutorView;

    open spec fn view(&self) -> ExecutorView {
        match self {
            Executor::Image(task) => ExecutorView::Image(task@),
            Executor::Video(task) => ExecutorView::Video(task@),
        }
    }
}

impl ExecutorView {
    /// The record that the executor works on.
    pub open spec fn row(self) -> TaskView {
        match self {
            ExecutorView::Image(task) => task.row,
            ExecutorView::Video(task) => task.row,
        }
    }

    /// The executor that starts on a record of a known kind.
    pub open spec fn starting(row: TaskView, kind: TaskKind) -> ExecutorView {
        match kind {
            TaskKind::Image => ExecutorView::Image(ImageTaskView::starting(row)),
            TaskKind::Video => ExecutorView::Video(VideoTaskView::starting(row)),
        }
    }
}

/// The executors of a list, over plain values.
pub open spec fn executor_views(list: Seq<Executor>) -> Seq<ExecutorView> {
    Seq::new(list.len(), |i: int| list[i]@)
}

/// The identifiers that a list holds.
pub open spec fn ids(list: Seq<String>) -> Set<Seq<char>> {
    Set::new(|id: Seq<char>| exists|i: int| 0 <= i < list.len() && #[trigger] list[i]@ == id)
}

/// The orchestrator's state: the tasks that an executor is at work on, and
/// the sinks that hear of tasks that have ended.
#[derive(Debug)]
pub struct TaskQueue {
    /// Identifiers of the tasks in the hands of an executor.
    pub active: Vec<String>,
    /// Whether the in-process emitter is there.
    pub emits_events: bool,
    /// Whether the out-of-process relay is registered.
    pub relays: bool,
}

/// The orchestrator over plain values.
pub struct QueueView {
    pub active: Set<Seq<char>>,
    pub emits_events: bool,
    pub relays: bool,
}

impl View for TaskQueue {
    type V = QueueView;

    open spec fn view(&self) -> QueueView {
        QueueView {
            active: ids(self.active@),
            emits_events: self.emits_events,
            relays: self.relays,
        }
    }
}

proof fn lemma_ids_push(list: Seq<String>, id: String)
    ensures
        ids(list.push(id)) == ids(list).insert(id@),
{
    let grown = list.push(id);
    assert forall|x: Seq<char>| ids(grown).contains(x) <==> ids(list).insert(id@).contains(x) by {
        if ids(list).contains(x) {
            let i = choose|i: int| 0 <= i < list.len() && #[trigger] list[i]@ == x;
            assert(grown[i]@ == x);
        }
        if x == id@ {
            assert(grown[list.len() as int]@ == x);
        }
    }
}

proof fn lemma_ids_empty()
    ensures
        ids(Seq::<String>::empty()) == Set::<Seq<char>>::empty(),
{
}

/// Why a submission was not admitted.
#[derive(Debug)]
pub enum SubmitError {
    /// The submission breaks a constraint.
    Invalid(ValidationError),
    /// The identifier meant for the task belongs to a task that is at
    /// work.
    IdInUse(String),
}

/// An admitted image submission: the executor, which holds the new record,
/// and who is to hear of it.
#[derive(Debug)]
pub struct ImageSubmission {
    pub task: ImageTask,
    pub notifications: Vec<Notification>,
}

/// An admitted video submission: the executor, which holds the new record,
/// and who is to hear of it.
#[derive(Debug)]
pub struct VideoSubmission {
    pub task: VideoTask,
    pub notifications: Vec<Notification>,
}

/// The records of a list, over plain values.
pub open spec fn row_views(list: Seq<TaskRow>) -> Seq<TaskView> {
    Seq::new(list.len(), |i: int| list[i]@)
}

impl QueueView {
    /// The orchestrator with one more task at work.
    pub open spec fn claiming(self, id: Seq<char>) -> QueueView {
        QueueView { active: self.active.insert(id), ..self }
    }

    /// The orchestrator with one task less at work.
    pub open spec fn releasing(self, id: Seq<char>) -> QueueView {
        QueueView { active: self.active.remove(id), ..self }
    }

    /// Who hears of an admitted submission: the in-process emitter, where
    /// there is one.
    pub open spec fn announcing(self, row: TaskView) -> Seq<NotificationView> {
        if self.emits_events {
            seq![
                NotificationView::Event { name: EVENT_SUBMITTED@, payload: submitted_payload(row) },
            ]
        } else {
            Seq::empty()
        }
    }

    /// Who hears of a task that has ended: every sink there is, the
    /// in-process emitter before the out-of-process relay.
    pub open spec fn dispatching(self, row: TaskView) -> Seq<NotificationView> {
        let event = if self.emits_events {
            seq![NotificationView::Event { name: EVENT_COMPLETE@, payload: complete_payload(row) }]
        } else {
            Seq::empty()
        };
        let relay = if self.relays {
            seq![NotificationView::Relay(row)]
        } else {
            Seq::empty()
        };
        event + relay
    }

    /// Whether a record found in the store is taken up again: it is open,
    /// of a known kind, and not at work already.
    pub open spec fn resumable(self, row: TaskView) -> bool {
        &&& row.open()
        &&& TaskKind::named(row.task_type) is Some
        &&& !self.active.contains(row.id)
    }

    /// Taking up the records found in the store, one after the other: the
    /// executors to start, and the orchestrator afterwards. Each record
    /// that is taken up goes to its executor as it is.
    pub open spec fn resumed(self, rows: Seq<TaskView>) -> (Seq<ExecutorView>, QueueView)
        decreases rows.len(),
    {
        if rows.len() == 0 {
            (Seq::empty(), self)
        } else {
            let (executors, queue) = self.resumed(rows.drop_last());
            let row = rows.last();
            if queue.resumable(row) {
                (
                    executors.push(
                        ExecutorView::starting(row, TaskKind::named(row.task_type)->Some_0),
                    ),
                    queue.claiming(row.id),
                )
            } else {
                (executors, queue)
            }
        }
    }

    /// The end of an executor's work on a record: who is to hear of it,
    /// and the orchestrator afterwards. Only a task that was at work is
    /// settled, and only a closed record is made known.
    pub open spec fn completed(self, row: TaskView) -> (Seq<NotificationView>, QueueView) {
        if self.active.contains(row.id) {
            (
                if row.terminal() {
                    self.dispatching(row)
                } else {
                    Seq::empty()
                },
                self.releasing(row.id),
            )
        } else {
            (Seq::empty(), self)
        }
    }

    /// What the admission of an image submission under the identifier `id`
    /// at time `now` comes to. A submission that breaks a constraint is
    /// turned down with the first one it breaks, and one whose identifier
    /// is in use is turned down too; either way the orchestrator stays as
    /// it was and no record comes into being. Any other is admitted: its
    /// record is pending and holds the normalised submission as input, its
    /// task is at work, and the emitter hears of it.
    pub open spec fn admits_image(
        self,
        p: ImageParamsView,
        id: Seq<char>,
        now: Seq<char>,
        r: Result<ImageSubmission, SubmitError>,
        after: QueueView,
    ) -> bool {
        match r {
            Err(SubmitError::Invalid(e)) => p.rejection() == Some(e@) && after == self,
            Err(SubmitError::IdInUse(used)) => p.rejection() is None && self.active.contains(id)
                && used@ == id && after == self,
            Ok(admitted) => {
                &&& p.rejection() is None
                &&& !self.active.contains(id)
                &&& admitted.task@ == ImageTaskView::starting(
                    TaskView::created(
                        id,
                        p.project_id,
                        TaskKind::Image,
                        image_input_text(p.normalized()),
                        now,
                    ),
                )
                &&& notification_views(admitted.notifications@) == self.announcing(
                    admitted.task@.row,
                )
                &&& after == self.claiming(id)
            },
        }
    }

    /// What the admission of a video submission under the identifier `id`
    /// at time `now` comes to; as for an image.
    pub open spec fn admits_video(
        self,
        p: VideoParamsView,
        id: Seq<char>,
        now: Seq<char>,
        r: Result<VideoSubmission, SubmitError>,
        after: QueueView,
    ) -> bool {
        match r {
            Err(SubmitError::Invalid(e)) => p.rejection() == Some(e@) && after == self,
            Err(SubmitError::IdInUse(used)) => p.rejection() is None && self.active.contains(id)
                && used@ == id && after == self,
            Ok(admitted) => {
                &&& p.rejection() is None
                &&& !self.active.contains(id)
                &&& admitted.task@ == VideoTaskView::starting(
                    TaskView::created(
                        id,
                        p.project_id,
                        TaskKind::Video,
                        video_input_text(p.normalized()),
                        now,
                    ),
                )
                &&& notification_views(admitted.notifications@) == self.announcing(
                    admitted.task@.row,
                )
                &&& after == self.claiming(id)
            },
        }
    }
}

impl TaskQueue {
    /// An orchestrator with the in-process emitter as its sink.
    pub fn new() -> (r: TaskQueue)
        ensures
            r@ == (QueueView { active: Set::empty(), emits_events: true, relays: false }),
    {
        proof {
            lemma_ids_empty();
        }
        TaskQueue { active: Vec::new(), emits_events: true, relays: false }
    }

    /// An orchestrator without any sink.
    pub fn new_headless() -> (r: TaskQueue)
        ensures
            r@ == (QueueView { active: Set::empty(), emits_events: false, relays: false }),
    {
        proof {
            lemma_ids_empty();
        }
        TaskQueue { active: Vec::new(), emits_events: false, relays: false }
    }

    /// Registers the out-of-process relay as a sink.
    pub fn set_on_complete(&mut self)
        ensures
            final(self)@ == (QueueView { relays: true, ..old(self)@ }),
    {
        self.relays = true;
    }

    /// Whether a task is in the hands of an executor.
    pub fn is_active(&self, id: &str) -> (r: bool)
        ensures
            r == self@.active.contains(id@),
    {
        let mut i: usize = 0;
        while i < self.active.len()
            invariant
                i <= self.active@.len(),
                forall|j: int| 0 <= j < i ==> self.active@[j]@ != id@,
            decreases self.active@.len() - i,
        {
            if str_eq(self.active[i].as_str(), id) {
                return true;
            }
            i = i + 1;
        }
        false
    }

    /// Marks a task as no longer at work, whether or not it was.
    pub fn release(&mut self, id: &str)
        ensures
            final(self)@ == old(self)@.releasing(id@),
    {
        let mut kept: Vec<String> = Vec::new();
        let mut i: usize = 0;
        while i < self.active.len()
            invariant
                i <= self.active@.len(),
                ids(kept@) == ids(self.active@.take(i as int)).remove(id@),
            decreases self.active@.len() - i,
        {
            proof {
                let seen = self.active@.take(i as int);
                assert(self.active@.take(i + 1) =~= seen.push(self.active@[i as int]));
                lemma_ids_push(seen, self.active@[i as int]);
            }
            if !str_eq(self.active[i].as_str(), id) {
                proof {
                    lemma_ids_push(kept@, self.active@[i as int]);
                }
                kept.push(self.active[i].clone());
            }
            i = i + 1;
        }
        assert(self.active@.take(self.active@.len() as int) =~= self.active@);
        self.active = kept;
    }

    fn claim(&mut self, id: &str)
        ensures
            final(self)@ == old(self)@.claiming(id@),
    {
        let owned = id.to_string();
        proof {
            lemma_ids_push(self.active@, owned);
        }
        self.active.push(owned);
    }

    fn announce(&self, row: &TaskRow) -> (r: Vec<Notification>)
        ensures
            notification_views(r@) == self@.announcing(row@),
    {
        let mut out: Vec<Notification> = Vec::new();
        if self.emits_events {
            out.push(
                Notification::Event {
                    name: EVENT_SUBMITTED.to_string(),
                    payload: write_submitted_payload(row),
                },
            );
        }
        out
    }

    /// Admits an image submission under the identifier `id` at time `now`.
    pub fn submit_image_at(&mut self, params: ImageParams, id: &str, now: &str) -> (r: Result<
        ImageSubmission,
        SubmitError,
    >)
        ensures
            old(self)@.admits_image(params@, id@, now@, r, final(self)@),
    {
        let mut params = params;
        match params.normalize() {
            Err(e) => {
                return Err(SubmitError::Invalid(e));
            },
            Ok(()) => {},
        }
        if self.is_active(id) {
            return Err(SubmitError::IdInUse(id.to_string()));
        }
        let input = write_image_input(&params);
        let row = TaskRow::new(
            id.to_string(),
            params.project_id,
            TaskKind::Image,
            input,
            now.to_string(),
        );
        let notifications = self.announce(&row);
        self.claim(id);
        Ok(ImageSubmission { task: ImageTask::new(row), notifications })
    }

    /// Admits a video submission under the identifier `id` at time `now`.
    pub fn submit_video_at(&mut self, params: VideoParams, id: &str, now: &str) -> (r: Result<
        VideoSubmission,
        SubmitError,
    >)
        ensures
            old(self)@.admits_video(params@, id@, now@, r, final(self)@),
    {
        let mut params = params;
        match params.normalize() {
            Err(e) => {
                return Err(SubmitError::Invalid(e));
            },
            Ok(()) => {},
        }
        if self.is_active(id) {
            return Err(SubmitError::IdInUse(id.to_string()));
        }
        let input = write_video_input(&params);
        let row = TaskRow::new(
            id.to_string(),
            params.project_id,
            TaskKind::Video,
            input,
            now.to_string(),
        );
        let notifications = self.announce(&row);
        self.claim(id);
        Ok(VideoSubmission { task: VideoTask::new(row), notifications })
    }

    /// Admits an image submission now, under a random identifier.
    pub fn submit_image(&mut self, params: ImageParams) -> (r: Result<ImageSubmission, SubmitError>)
        ensures
            exists|id: Seq<char>, now: Seq<char>|
                old(self)@.admits_image(params@, id, now, r, final(self)@),
    {
        let id = fresh_id();
        let now = timestamp();
        let r = self.submit_image_at(params, id.as_str(), now.as_str());
        r
    }

    /// Admits a video submission now, under a random identifier.
    pub fn submit_video(&mut self, params: VideoParams) -> (r: Result<VideoSubmission, SubmitError>)
        ensures
            exists|id: Seq<char>, now: Seq<char>|
                old(self)@.admits_video(params@, id, now, r, final(self)@),
    {
        let id = fresh_id();
        let now = timestamp();
        let r = self.submit_video_at(params, id.as_str(), now.as_str());
        r
    }

    /// Takes up the records that the store still holds open, in the order
    /// given: each goes to an executor of its kind as it is. Records that
    /// are closed, of an unknown kind, or at work already are passed over.
    pub fn resume_running_tasks(&mut self, rows: &Vec<TaskRow>) -> (r: Vec<Executor>)
        ensures
            executor_views(r@) == old(self)@.resumed(row_views(rows@)).0,
            final(self)@ == old(self)@.resumed(row_views(rows@)).1,
    {
        let mut out: Vec<Executor> = Vec::new();
        let mut i: usize = 0;
        let ghost all = row_views(rows@);
        while i < rows.len()
            invariant
                i <= rows@.len(),
                all == row_views(rows@),
                executor_views(out@) == old(self)@.resumed(all.take(i as int)).0,
                self@ == old(self)@.resumed(all.take(i as int)).1,
            decreases rows@.len() - i,
        {
            let row = &rows[i];
            proof {
                assert(all.take(i + 1).drop_last() =~= all.take(i as int));
            }
            let kind = row.kind();
            let ghost before = executor_views(out@);
            if row.is_open() && kind.is_some() && !self.is_active(row.id.as_str()) {
                self.claim(row.id.as_str());
                let executor = match kind {
                    Some(TaskKind::Image) => Executor::Image(ImageTask::new(row.clone())),
                    _ => Executor::Video(VideoTask::new(row.clone())),
                };
                out.push(executor);
                assert(executor_views(out@) =~= before.push(
                    ExecutorView::starting(row@, kind->Some_0),
                ));
            }
            i = i + 1;
        }
        assert(all.take(rows@.len() as int) =~= all);
        out
    }

    /// Settles a task whose executor has returned, given its record as the
    /// store now holds it, and says who is to hear of it.
    pub fn complete(&mut self, row: &TaskRow) -> (r: Vec<Notification>)
        ensures
            notification_views(r@) == old(self)@.completed(row@).0,
            final(self)@ == old(self)@.completed(row@).1,
    {
        let mut out: Vec<Notification> = Vec::new();
        if !self.is_active(row.id.as_str()) {
            return out;
        }
        if row.is_terminal() {
            if self.emits_events {
                out.push(
                    Notification::Event {
                        name: EVENT_COMPLETE.to_string(),
                        payload: task_complete_payload(row),
                    },
                );
            }
            if self.relays {
                out.push(Notification::Relay(row.clone()));
            }
        }
        self.release(row.id.as_str());
        out
    }
}

/// The record of an admitted submission is pending and sound, carries the
/// identifier that the caller gets back, and its executor has yet to
/// begin. From there the executor's steps keep it open until the step
/// that finishes.
pub proof fn lemma_admitted_record_is_pending(
    queue: QueueView,
    p: ImageParamsView,
    id: Seq<char>,
    now: Seq<char>,
    r: Result<ImageSubmission, SubmitError>,
    after: QueueView,
)
    requires
        queue.admits_image(p, id, now, r, after),
        r is Ok,
    ensures
        r->Ok_0.task@.row.id == id,
        r->Ok_0.task@.row.state() == Some(crate::db::TaskStatus::Pending),
        r->Ok_0.task@.row.well_formed(),
        r->Ok_0.task@.stage == crate::tasks::image::ImageStage::Created,
        after.active.contains(id),
{
}

/// As for an image: the record of an admitted video submission is pending
/// and sound, and its executor has yet to begin.
pub proof fn lemma_admitted_video_record_is_pending(
    queue: QueueView,
    p: VideoParamsView,
    id: Seq<char>,
    now: Seq<char>,
    r: Result<VideoSubmission, SubmitError>,
    after: QueueView,
)
    requires
        queue.admits_video(p, id, now, r, after),
        r is Ok,
    ensures
        r->Ok_0.task@.row.id == id,
        r->Ok_0.task@.row.state() == Some(crate::db::TaskStatus::Pending),
        r->Ok_0.task@.row.well_formed(),
        r->Ok_0.task@.stage == crate::tasks::video::VideoStage::Created,
        after.active.contains(id),
{
}

/// A submission that breaks a constraint is never admitted, and leaves no
/// trace: no record, no executor, no notification, and the orchestrator as
/// it was.
pub proof fn lemma_rejected_leaves_no_trace(
    queue: QueueView,
    p: ImageParamsView,
    id: Seq<char>,
    now: Seq<char>,
    r: Result<ImageSubmission, SubmitError>,
    after: QueueView,
)
    requires
        queue.admits_image(p, id, now, r, after),
        p.rejection() is Some,
    ensures
        r matches Err(SubmitError::Invalid(e)) && Some(e@) == p.rejection(),
        after == queue,
{
}

/// As for an image: a video submission that breaks a constraint is never
/// admitted, and leaves no trace.
pub proof fn lemma_rejected_video_leaves_no_trace(
    queue: QueueView,
    p: VideoParamsView,
    id: Seq<char>,
    now: Seq<char>,
    r: Result<VideoSubmission, SubmitError>,
    after: QueueView,
)
    requires
        queue.admits_video(p, id, now, r, after),
        p.rejection() is Some,
    ensures
        r matches Err(SubmitError::Invalid(e)) && Some(e@) == p.rejection(),
        after == queue,
{
}

/// Taking records up only ever adds to the tasks at work, and touches
/// nothing else of the orchestrator.
pub proof fn lemma_resume_grows(queue: QueueView, rows: Seq<TaskView>)
    ensures
        queue.active.subset_of(queue.resumed(rows).1.active),
        queue.resumed(rows).1.emits_events == queue.emits_events,
        queue.resumed(rows).1.relays == queue.relays,
        queue.resumed(rows).0.len() <= rows.len(),
    decreases rows.len(),
{
    if rows.len() > 0 {
        lemma_resume_grows(queue, rows.drop_last());
    }
}

/// After a pass over some records, none of them can be taken up again.
pub proof fn lemma_resume_exhausts(queue: QueueView, rows: Seq<TaskView>, i: int)
    requires
        0 <= i < rows.len(),
    ensures
        !queue.resumed(rows).1.resumable(rows[i]),
    decreases rows.len(),
{
    if i < rows.len() - 1 {
        lemma_resume_exhausts(queue, rows.drop_last(), i);
    }
}

/// A pass over records of which none can be taken up starts nothing and
/// changes nothing.
pub proof fn lemma_resume_nothing(queue: QueueView, rows: Seq<TaskView>)
    requires
        forall|i: int| 0 <= i < rows.len() ==> !queue.resumable(#[trigger] rows[i]),
    ensures
        queue.resumed(rows) == (Seq::<ExecutorView>::empty(), queue),
    decreases rows.len(),
{
    if rows.len() > 0 {
        lemma_resume_nothing(queue, rows.drop_last());
    }
}

/// Resuming is idempotent: a second pass over the same records, with no
/// task settled in between, starts no executor and changes nothing. So no
/// record is ever in the hands of two executors, and none is closed twice.
pub proof fn lemma_resume_is_idempotent(queue: QueueView, rows: Seq<TaskView>)
    ensures
        queue.resumed(rows).1.resumed(rows) == (
            Seq::<ExecutorView>::empty(),
            queue.resumed(rows).1,
        ),
{
    let after = queue.resumed(rows).1;
    assert forall|i: int| 0 <= i < rows.len() implies !after.resumable(#[trigger] rows[i]) by {
        lemma_resume_exhausts(queue, rows, i);
    }
    lemma_resume_nothing(after, rows);
}

/// Every executor that a pass starts works on one of the records given,
/// as it was given, which is open; its task was not at work before the
/// pass and is at work after it; and no two executors of a pass share a
/// task.
pub proof fn lemma_resume_starts_each_once(queue: QueueView, rows: Seq<TaskView>, i: int, j: int)
    requires
        0 <= i < queue.resumed(rows).0.len(),
        0 <= j < queue.resumed(rows).0.len(),
    ensures
        rows.contains(queue.resumed(rows).0[i].row()),
        queue.resumed(rows).0[i].row().open(),
        !queue.active.contains(queue.resumed(rows).0[i].row().id),
        queue.resumed(rows).1.active.contains(queue.resumed(rows).0[i].row().id),
        i != j ==> queue.resumed(rows).0[i].row().id != queue.resumed(rows).0[j].row().id,
    decreases rows.len(),
{
    if rows.len() > 0 {
        let earlier = queue.resumed(rows.drop_last()).0.len();
        lemma_resume_grows(queue, rows.drop_last());
        if i < earlier && j < earlier {
            lemma_resume_starts_each_once(queue, rows.drop_last(), i, j);
        } else if i < earlier {
            lemma_resume_starts_each_once(queue, rows.drop_last(), i, i);
        } else if j < earlier {
            lemma_resume_starts_each_once(queue, rows.drop_last(), j, j);
        }
    }
}

/// A task is made known at most once: after it is settled, settling it
/// again, with whatever record, tells nobody and changes nothing.
pub proof fn lemma_completion_heard_once(queue: QueueView, row: TaskView, again: TaskView)
    requires
        again.id == row.id,
    ensures
        queue.completed(row).1.completed(again) == (
            Seq::<NotificationView>::empty(),
            queue.completed(row).1,
        ),
{
}

/// Every sink hears of a task that has ended, whatever becomes of the
/// others: the notifications are fixed before any is delivered, one for
/// each sink there is, the emitter's before the relay's.
pub proof fn lemma_every_sink_hears(queue: QueueView, row: TaskView)
    requires
        queue.active.contains(row.id),
        row.terminal(),
    ensures
        queue.completed(row).0.len() == (if queue.emits_events {
            1int
        } else {
            0int
        }) + (if queue.relays {
            1int
        } else {
            0int
        }),
        queue.emits_events ==> queue.completed(row).0[0] == (NotificationView::Event {
            name: EVENT_COMPLETE@,
            payload: complete_payload(row),
        }),
        queue.relays ==> queue.completed(row).0.last() == NotificationView::Relay(row),
{
}

} // verus!
