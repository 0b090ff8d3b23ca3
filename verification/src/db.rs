//! The rows that the durable store keeps, and the life cycle of a task
//! record: created pending, set running by its executor, and closed exactly
//! once as done or failed.

use vstd::prelude::*;
use vstd::string::*;
use crate::json::{integer_member, read_integer_member, read_string_member, string_member};
use crate::text::{decimal_digits, format_u64, opt_view, str_eq};

verus! {

/// The status of a task that no executor has taken up yet.
pub const STATUS_PENDING: &'static str = "pending";

/// The status of a task that its executor is at work on.
pub const STATUS_RUNNING: &'static str = "running";

/// The status of a task that has produced its output.
pub const STATUS_DONE: &'static str = "done";

/// The status of a task that has ended with an error.
pub const STATUS_FAILED: &'static str = "failed";

/// The kind of a task that generates an image.
pub const KIND_IMAGE: &'static str = "image";

/// The kind of a task that generates a video.
pub const KIND_VIDEO: &'static str = "video";

/// Where a task stands.
#[derive(Debug, Clone, Copy, PartialEq, Eq, Structural)]
pub enum TaskStatus {
    Pending,
    Running,
    Done,
    Failed,
}

impl TaskStatus {
    /// The name under which the store keeps the status.
    pub open spec fn name(self) -> Seq<char> {
        match self {
            TaskStatus::Pending => STATUS_PENDING@,
            TaskStatus::Running => STATUS_RUNNING@,
            TaskStatus::Done => STATUS_DONE@,
            TaskStatus::Failed => STATUS_FAILED@,
        }
    }

    /// The status that a name stands for.
    pub open spec fn named(name: Seq<char>) -> Option<TaskStatus> {
        if name == STATUS_PENDING@ {
            Some(TaskStatus::Pending)
        } else if name == STATUS_RUNNING@ {
            Some(TaskStatus::Running)
        } else if name == STATUS_DONE@ {
            Some(TaskStatus::Done)
        } else if name == STATUS_FAILED@ {
            Some(TaskStatus::Failed)
        } else {
            None
        }
    }

    /// A task that is done or failed stays so.
    pub open spec fn terminal(self) -> bool {
        self == TaskStatus::Done || self == TaskStatus::Failed
    }

    /// The name under which the store keeps the status.
    pub fn as_str(self) -> (r: &'static str)
        ensures
            r@ == self.name(),
    {
        match self {
            TaskStatus::Pending => STATUS_PENDING,
            TaskStatus::Running => STATUS_RUNNING,
            TaskStatus::Done => STATUS_DONE,
            TaskStatus::Failed => STATUS_FAILED,
        }
    }

    /// The status that a name stands for, if it stands for one.
    pub fn parse(name: &str) -> (r: Option<TaskStatus>)
        ensures
            r == TaskStatus::named(name@),
    {
        if str_eq(name, STATUS_PENDING) {
            Some(TaskStatus::Pending)
        } else if str_eq(name, STATUS_RUNNING) {
            Some(TaskStatus::Running)
        } else if str_eq(name, STATUS_DONE) {
            Some(TaskStatus::Done)
        } else if str_eq(name, STATUS_FAILED) {
            Some(TaskStatus::Failed)
        } else {
            None
        }
    }

    /// Whether the status is one that a task stays in.
    pub fn is_terminal(self) -> (r: bool)
        ensures
            r == self.terminal(),
    {
        match self {
            TaskStatus::Done => true,
            TaskStatus::Failed => true,
            _ => false,
        }
    }
}

/// A status is found again under its own name.
pub proof fn lemma_status_name_round_trip(status: TaskStatus)
    ensures
        TaskStatus::named(status.name()) == Some(status),
{
    reveal_strlit("pending");
    reveal_strlit("running");
    reveal_strlit("done");
    reveal_strlit("failed");
    assert(STATUS_PENDING@[0] == 'p');
    assert(STATUS_RUNNING@[0] == 'r');
    assert(STATUS_DONE@[0] == 'd');
    assert(STATUS_FAILED@[0] == 'f');
}

/// What a task generates.
#[derive(Debug, Clone, Copy, PartialEq, Eq, Structural)]
pub enum TaskKind {
    Image,
    Video,
}

impl TaskKind {
    /// The name under which the store keeps the kind.
    pub open spec fn name(self) -> Seq<char> {
        match self {
            TaskKind::Image => KIND_IMAGE@,
            TaskKind::Video => KIND_VIDEO@,
        }
    }

    /// The kind that a name stands for.
    pub open spec fn named(name: Seq<char>) -> Option<TaskKind> {
        if name == KIND_IMAGE@ {
            Some(TaskKind::Image)
        } else if name == KIND_VIDEO@ {
            Some(TaskKind::Video)
        } else {
            None
        }
    }

    /// The name under which the store keeps the kind.
    pub fn as_str(self) -> (r: &'static str)
        ensures
            r@ == self.name(),
    {
        match self {
            TaskKind::Image => KIND_IMAGE,
            TaskKind::Video => KIND_VIDEO,
        }
    }

    /// The kind that a name stands for, if it stands for one.
    pub fn parse(name: &str) -> (r: Option<TaskKind>)
        ensures
            r == TaskKind::named(name@),
    {
        if str_eq(name, KIND_IMAGE) {
            Some(TaskKind::Image)
        } else if str_eq(name, KIND_VIDEO) {
            Some(TaskKind::Video)
        } else {
            None
        }
    }
}

/// A kind is found again under its own name.
pub proof fn lemma_kind_name_round_trip(kind: TaskKind)
    ensures
        TaskKind::named(kind.name()) == Some(kind),
{
    reveal_strlit("image");
    reveal_strlit("video");
    if kind == TaskKind::Video {
        assert(KIND_VIDEO@[0] != KIND_IMAGE@[0]);
    }
}

/// One task as the store keeps it.
#[derive(Debug)]
pub struct TaskRow {
    pub id: String,
    pub project_id: String,
    pub task_type: String,
    pub status: String,
    pub input: String,
    pub output: Option<String>,
    pub ark_task_id: Option<String>,
    pub error: Option<String>,
    pub created_at: String,
    pub updated_at: String,
}

/// A task record over plain texts.
pub struct TaskView {
    pub id: Seq<char>,
    pub project_id: Seq<char>,
    pub task_type: Seq<char>,
    pub status: Seq<char>,
    pub input: Seq<char>,
    pub output: Option<Seq<char>>,
    pub ark_task_id: Option<Seq<char>>,
    pub error: Option<Seq<char>>,
    pub created_at: Seq<char>,
    pub updated_at: Seq<char>,
}

impl View for TaskRow {
    type V = TaskView;

    open spec fn view(&self) -> TaskView {
        TaskView {
            id: self.id@,
            project_id: self.project_id@,
            task_type: self.task_type@,
            status: self.status@,
            input: self.input@,
            output: opt_view(self.output),
            ark_task_id: opt_view(self.ark_task_id),
            error: opt_view(self.error),
            created_at: self.created_at@,
            updated_at: self.updated_at@,
        }
    }
}

impl TaskView {
    /// The status of the record, where its name is a known one.
    pub open spec fn state(self) -> Option<TaskStatus> {
        TaskStatus::named(self.status)
    }

    /// The record is closed: done or failed.
    pub open spec fn terminal(self) -> bool {
        self.state() matches Some(s) && s.terminal()
    }

    /// The record is open: pending or running.
    pub open spec fn open(self) -> bool {
        self.state() matches Some(s) && !s.terminal()
    }

    /// The record's invariant: a known status, an output exactly when done,
    /// an error exactly when failed.
    pub open spec fn well_formed(self) -> bool {
        &&& self.state() is Some
        &&& self.output is Some <==> self.state() == Some(TaskStatus::Done)
        &&& self.error is Some <==> self.state() == Some(TaskStatus::Failed)
    }

    /// A fresh record: pending, with nothing produced yet.
    pub open spec fn created(
        id: Seq<char>,
        project_id: Seq<char>,
        kind: TaskKind,
        input: Seq<char>,
        now: Seq<char>,
    ) -> TaskView {
        TaskView {
            id,
            project_id,
            task_type: kind.name(),
            status: STATUS_PENDING@,
            input,
            output: None,
            ark_task_id: None,
            error: None,
            created_at: now,
            updated_at: now,
        }
    }

    /// The record once its executor has taken it up. A closed record stays
    /// as it is.
    pub open spec fn started(self, now: Seq<char>) -> TaskView {
        if self.open() {
            TaskView { status: STATUS_RUNNING@, output: None, error: None, updated_at: now, ..self }
        } else {
            self
        }
    }

    /// The record once the remote service has accepted a job for it. Only a
    /// running record takes a handle.
    pub open spec fn with_handle(self, handle: Seq<char>, now: Seq<char>) -> TaskView {
        if self.state() == Some(TaskStatus::Running) {
            TaskView { ark_task_id: Some(handle), updated_at: now, ..self }
        } else {
            self
        }
    }

    /// The record closed as done. Only a running record can be completed.
    pub open spec fn completed(self, output: Seq<char>, now: Seq<char>) -> TaskView {
        if self.state() == Some(TaskStatus::Running) {
            TaskView {
                status: STATUS_DONE@,
                output: Some(output),
                error: None,
                updated_at: now,
                ..self
            }
        } else {
            self
        }
    }

    /// The record closed as failed. Any open record can fail.
    pub open spec fn failed(self, error: Seq<char>, now: Seq<char>) -> TaskView {
        if self.open() {
            TaskView {
                status: STATUS_FAILED@,
                output: None,
                error: Some(error),
                updated_at: now,
                ..self
            }
        } else {
            self
        }
    }
}

fn copy_of(field: &Option<String>) -> (r: Option<String>)
    ensures
        opt_view(r) == opt_view(*field),
{
    match field {
        Some(v) => Some(v.clone()),
        None => None,
    }
}

impl Clone for TaskRow {
    fn clone(&self) -> (r: TaskRow)
        ensures
            r@ == self@,
    {
        TaskRow {
            id: self.id.clone(),
            project_id: self.project_id.clone(),
            task_type: self.task_type.clone(),
            status: self.status.clone(),
            input: self.input.clone(),
            output: copy_of(&self.output),
            ark_task_id: copy_of(&self.ark_task_id),
            error: copy_of(&self.error),
            created_at: self.created_at.clone(),
            updated_at: self.updated_at.clone(),
        }
    }
}

impl TaskRow {
    /// A fresh record, pending.
    pub fn new(id: String, project_id: String, kind: TaskKind, input: String, now: String) -> (r:
        TaskRow)
        ensures
            r@ == TaskView::created(id@, project_id@, kind, input@, now@),
            r@.well_formed(),
    {
        TaskRow {
            id,
            project_id,
            task_type: kind.as_str().to_string(),
            status: STATUS_PENDING.to_string(),
            input,
            output: None,
            ark_task_id: None,
            error: None,
            created_at: now.clone(),
            updated_at: now,
        }
    }

    /// The status, where the store's name for it is a known one.
    pub fn state(&self) -> (r: Option<TaskStatus>)
        ensures
            r == self@.state(),
    {
        TaskStatus::parse(self.status.as_str())
    }

    /// The kind, where the store's name for it is a known one.
    pub fn kind(&self) -> (r: Option<TaskKind>)
        ensures
            r == TaskKind::named(self@.task_type),
    {
        TaskKind::parse(self.task_type.as_str())
    }

    /// Whether the record is closed.
    pub fn is_terminal(&self) -> (r: bool)
        ensures
            r == self@.terminal(),
    {
        match self.state() {
            Some(s) => s.is_terminal(),
            None => false,
        }
    }

    /// Whether the record is open.
    pub fn is_open(&self) -> (r: bool)
        ensures
            r == self@.open(),
    {
        match self.state() {
            Some(s) => !s.is_terminal(),
            None => false,
        }
    }

    /// Sets an open record running. Returns whether the record changed.
    pub fn start(&mut self, now: &str) -> (changed: bool)
        ensures
            changed == old(self)@.open(),
            final(self)@ == old(self)@.started(now@),
    {
        if !self.is_open() {
            return false;
        }
        self.status = STATUS_RUNNING.to_string();
        self.output = None;
        self.error = None;
        self.updated_at = now.to_string();
        true
    }

    /// Notes the job handle on a running record. Returns whether the record
    /// changed.
    pub fn attach_handle(&mut self, handle: &str, now: &str) -> (changed: bool)
        ensures
            changed == (old(self)@.state() == Some(TaskStatus::Running)),
            final(self)@ == old(self)@.with_handle(handle@, now@),
    {
        match self.state() {
            Some(TaskStatus::Running) => {},
            _ => {
                return false;
            },
        }
        self.ark_task_id = Some(handle.to_string());
        self.updated_at = now.to_string();
        true
    }

    /// Closes a running record as done. Returns whether the record changed.
    pub fn complete(&mut self, output: &str, now: &str) -> (changed: bool)
        ensures
            changed == (old(self)@.state() == Some(TaskStatus::Running)),
            final(self)@ == old(self)@.completed(output@, now@),
    {
        match self.state() {
            Some(TaskStatus::Running) => {},
            _ => {
                return false;
            },
        }
        self.status = STATUS_DONE.to_string();
        self.output = Some(output.to_string());
        self.error = None;
        self.updated_at = now.to_string();
        true
    }

    /// Closes an open record as failed. Returns whether the record changed.
    pub fn fail(&mut self, error: &str, now: &str) -> (changed: bool)
        ensures
            changed == old(self)@.open(),
            final(self)@ == old(self)@.failed(error@, now@),
    {
        if !self.is_open() {
            return false;
        }
        self.status = STATUS_FAILED.to_string();
        self.output = None;
        self.error = Some(error.to_string());
        self.updated_at = now.to_string();
        true
    }
}

/// One step in the life of a record.
pub enum Transition {
    Start,
    AttachHandle(Seq<char>),
    Complete(Seq<char>),
    Fail(Seq<char>),
}

impl TaskView {
    /// The record after one step taken at time `now`.
    pub open spec fn after(self, step: Transition, now: Seq<char>) -> TaskView {
        match step {
            Transition::Start => self.started(now),
            Transition::AttachHandle(handle) => self.with_handle(handle, now),
            Transition::Complete(output) => self.completed(output, now),
            Transition::Fail(error) => self.failed(error, now),
        }
    }
}

/// No step breaks the record's invariant, and every step leaves identity,
/// kind, input and creation time alone.
pub proof fn lemma_step_keeps_invariant(record: TaskView, step: Transition, now: Seq<char>)
    requires
        record.well_formed(),
    ensures
        record.after(step, now).well_formed(),
        record.after(step, now).id == record.id,
        record.after(step, now).project_id == record.project_id,
        record.after(step, now).task_type == record.task_type,
        record.after(step, now).input == record.input,
        record.after(step, now).created_at == record.created_at,
{
    lemma_status_name_round_trip(TaskStatus::Done);
    lemma_status_name_round_trip(TaskStatus::Failed);
}

/// A closed record never changes again: no step moves it out of done or
/// failed, or touches any of its fields.
pub proof fn lemma_closed_is_final(record: TaskView, step: Transition, now: Seq<char>)
    requires
        record.terminal(),
    ensures
        record.after(step, now) == record,
{
}

/// A record is closed at most once: the step that closes it starts from an
/// open record, and no step reopens it.
pub proof fn lemma_closed_once(record: TaskView, step: Transition, now: Seq<char>)
    ensures
        record.after(step, now).terminal() && !record.terminal() ==> record.open() && (step is Complete
            || step is Fail),
        record.terminal() ==> record.after(step, now).terminal(),
{
}

/// The job handle, once set, is never cleared.
pub proof fn lemma_handle_is_kept(record: TaskView, step: Transition, now: Seq<char>)
    requires
        record.ark_task_id is Some,
    ensures
        record.after(step, now).ark_task_id is Some,
        !(step is AttachHandle) ==> record.after(step, now).ark_task_id == record.ark_task_id,
{
}

/// One stored asset as the store keeps it.
#[derive(Debug, Clone)]
pub struct AssetRow {
    pub id: String,
    pub project_id: String,
    pub task_id: Option<String>,
    pub asset_type: String,
    pub file_path: String,
    pub file_name: String,
    pub prompt: Option<String>,
    pub model: Option<String>,
    pub width: Option<i32>,
    pub height: Option<i32>,
    pub file_size: Option<i64>,
    pub source: String,
    pub created_at: String,
}

/// An asset record over plain texts.
pub struct AssetView {
    pub id: Seq<char>,
    pub project_id: Seq<char>,
    pub task_id: Option<Seq<char>>,
    pub asset_type: Seq<char>,
    pub file_path: Seq<char>,
    pub file_name: Seq<char>,
    pub prompt: Option<Seq<char>>,
    pub model: Option<Seq<char>>,
    pub width: Option<i32>,
    pub height: Option<i32>,
    pub file_size: Option<i64>,
    pub source: Seq<char>,
    pub created_at: Seq<char>,
}

impl View for AssetRow {
    type V = AssetView;

    open spec fn view(&self) -> AssetView {
        AssetView {
            id: self.id@,
            project_id: self.project_id@,
            task_id: opt_view(self.task_id),
            asset_type: self.asset_type@,
            file_path: self.file_path@,
            file_name: self.file_name@,
            prompt: opt_view(self.prompt),
            model: opt_view(self.model),
            width: self.width,
            height: self.height,
            file_size: self.file_size,
            source: self.source@,
            created_at: self.created_at@,
        }
    }
}

/// The source of an asset that a task has generated.
pub const SOURCE_GENERATED: &'static str = "generated";

/// The source of an asset that the user has brought in.
pub const SOURCE_IMPORTED: &'static str = "imported";

/// Counts over the stored assets.
#[derive(Debug, Clone, Copy)]
pub struct AssetStats {
    pub total: i64,
    pub images: i64,
    pub videos: i64,
    pub total_size: i64,
}

/// The number of tasks created on one day.
#[derive(Debug, Clone)]
pub struct DailyCount {
    pub date: String,
    pub count: i64,
}

/// Counts over the recorded tasks, with the latest of them.
#[derive(Debug, Clone)]
pub struct UsageStats {
    pub total_tasks: i64,
    pub images_generated: i64,
    pub videos_generated: i64,
    pub succeeded: i64,
    pub failed: i64,
    pub daily_counts: Vec<DailyCount>,
    pub recent_tasks: Vec<TaskRow>,
}

/// Where the asset of a task lies, as the task's output names it.
pub open spec fn asset_path_in(output: Option<Seq<char>>) -> Option<Seq<char>> {
    match output {
        Some(text) => string_member(text, "assetPath"@),
        None => None,
    }
}

/// A dimension as an asset's record keeps it: the integer of the output,
/// cut to 32 bits.
pub open spec fn dimension_in(output: Seq<char>, key: Seq<char>) -> Option<i32> {
    match integer_member(output, key) {
        Some(v) => Some(v as i32),
        None => None,
    }
}

/// The asset's record that is made up for a task which has none: nothing
/// unless the task's output names an asset; else a record of the task's
/// kind and project, with prompt and model from the task's input and the
/// dimensions from its output, as far as they are there.
pub open spec fn backfilled(
    task: TaskView,
    asset_id: Seq<char>,
    file_name: Seq<char>,
    file_size: Option<i64>,
) -> Option<AssetView> {
    match asset_path_in(task.output) {
        None => None,
        Some(path) => Some(
            AssetView {
                id: asset_id,
                project_id: task.project_id,
                task_id: Some(task.id),
                asset_type: task.task_type,
                file_path: path,
                file_name,
                prompt: string_member(task.input, "prompt"@),
                model: string_member(task.input, "model"@),
                width: dimension_in(task.output->Some_0, "width"@),
                height: dimension_in(task.output->Some_0, "height"@),
                file_size,
                source: SOURCE_GENERATED@,
                created_at: task.created_at,
            },
        ),
    }
}

/// An asset's record over plain values.
pub open spec fn asset_view(asset: Option<AssetRow>) -> Option<AssetView> {
    match asset {
        Some(a) => Some(a@),
        None => None,
    }
}

fn read_dimension(output: &str, key: &str) -> (r: Option<i32>)
    ensures
        r == dimension_in(output@, key@),
{
    match read_integer_member(output, key) {
        Some(v) => Some(#[verifier::truncate] (v as i32)),
        None => None,
    }
}

impl TaskRow {
    /// Where the asset of the task lies, as its output names it.
    pub fn asset_path(&self) -> (r: Option<String>)
        ensures
            opt_view(r) == asset_path_in(self@.output),
    {
        match &self.output {
            Some(text) => read_string_member(text.as_str(), "assetPath"),
            None => None,
        }
    }

    /// Makes up the asset's record for a task that has none. The name and
    /// size of the file are for the caller to find out.
    pub fn backfilled_asset(&self, asset_id: &str, file_name: &str, file_size: Option<i64>) -> (r:
        Option<AssetRow>)
        ensures
            asset_view(r) == backfilled(self@, asset_id@, file_name@, file_size),
    {
        let path = match self.asset_path() {
            Some(path) => path,
            None => {
                return None;
            },
        };
        let output = match &self.output {
            Some(text) => text.as_str(),
            None => {
                return None;
            },
        };
        Some(
            AssetRow {
                id: asset_id.to_string(),
                project_id: self.project_id.clone(),
                task_id: Some(self.id.clone()),
                asset_type: self.task_type.clone(),
                file_path: path,
                file_name: file_name.to_string(),
                prompt: read_string_member(self.input.as_str(), "prompt"),
                model: read_string_member(self.input.as_str(), "model"),
                width: read_dimension(output, "width"),
                height: read_dimension(output, "height"),
                file_size,
                source: SOURCE_GENERATED.to_string(),
                created_at: self.created_at.clone(),
            },
        )
    }
}

/// A listing of assets: the statement, the texts bound to its first
/// parameters in their order, and the limit and the offset, which are
/// bound to its last two.
#[derive(Debug)]
pub struct AssetQuery {
    pub sql: String,
    pub texts: Vec<String>,
    pub limit: i64,
    pub offset: i64,
}

/// The start of every listing of assets.
pub const ASSET_SELECT: &'static str =
    "SELECT id, project_id, task_id, type, file_path, file_name, prompt, model, width, height, file_size, source, created_at FROM assets WHERE 1=1";

/// One more condition on a listing: the clause, which ends in a question
/// mark, with the number of the parameter behind it.
pub open spec fn with_clause(sql: Seq<char>, clause: Seq<char>, number: nat) -> Seq<char> {
    sql + clause + decimal_digits(number)
}

/// The texts bound by the filters that are set: project, type, and the
/// pattern that finds a word anywhere in the prompt.
pub open spec fn bound_texts(
    project_id: Option<Seq<char>>,
    asset_type: Option<Seq<char>>,
    query: Option<Seq<char>>,
) -> Seq<Seq<char>> {
    let a = match project_id {
        Some(v) => seq![v],
        None => Seq::empty(),
    };
    let b = match asset_type {
        Some(v) => a.push(v),
        None => a,
    };
    match query {
        Some(v) => b.push("%"@ + v + "%"@),
        None => b,
    }
}

/// The statement of a listing: one condition for each filter that is set,
/// newest first, limit and offset last. The parameters are numbered in
/// the order of their appearance.
pub open spec fn listing_sql(
    project_id: Option<Seq<char>>,
    asset_type: Option<Seq<char>>,
    query: Option<Seq<char>>,
) -> Seq<char> {
    let a = ASSET_SELECT@;
    let n0: nat = 0;
    let (b, n1) = match project_id {
        Some(_) => (with_clause(a, " AND project_id=?"@, n0 + 1), n0 + 1),
        None => (a, n0),
    };
    let (c, n2) = match asset_type {
        Some(_) => (with_clause(b, " AND type=?"@, n1 + 1), n1 + 1),
        None => (b, n1),
    };
    let (d, n3) = match query {
        Some(_) => (with_clause(c, " AND prompt LIKE ?"@, n2 + 1), n2 + 1),
        None => (c, n2),
    };
    let e = with_clause(d, " ORDER BY created_at DESC LIMIT ?"@, n3 + 1);
    with_clause(e, " OFFSET ?"@, n3 + 2)
}

/// The texts of a list of strings.
pub open spec fn text_views(list: Seq<String>) -> Seq<Seq<char>> {
    Seq::new(list.len(), |i: int| list[i]@)
}

fn push_clause(sql: &mut String, clause: &str, number: u64)
    ensures
        final(sql)@ == with_clause(old(sql)@, clause@, number as nat),
{
    sql.append(clause);
    let n = format_u64(number);
    sql.append(n.as_str());
}

/// Puts the listing of assets together.
pub fn asset_query(
    project_id: Option<&str>,
    asset_type: Option<&str>,
    query: Option<&str>,
    limit: usize,
    offset: usize,
) -> (r: AssetQuery)
    ensures
        r.sql@ == listing_sql(
            match project_id {
                Some(v) => Some(v@),
                None => None,
            },
            match asset_type {
                Some(v) => Some(v@),
                None => None,
            },
            match query {
                Some(v) => Some(v@),
                None => None,
            },
        ),
        text_views(r.texts@) == bound_texts(
            match project_id {
                Some(v) => Some(v@),
                None => None,
            },
            match asset_type {
                Some(v) => Some(v@),
                None => None,
            },
            match query {
                Some(v) => Some(v@),
                None => None,
            },
        ),
        r.limit == limit as i64,
        r.offset == offset as i64,
{
    let mut sql = ASSET_SELECT.to_string();
    let mut texts: Vec<String> = Vec::new();
    let mut count: u64 = 0;
    if let Some(v) = project_id {
        texts.push(v.to_string());
        count = count + 1;
        push_clause(&mut sql, " AND project_id=?", count);
    }
    if let Some(v) = asset_type {
        texts.push(v.to_string());
        count = count + 1;
        push_clause(&mut sql, " AND type=?", count);
    }
    if let Some(v) = query {
        let mut pattern = "%".to_string();
        pattern.append(v);
        pattern.append("%");
        texts.push(pattern);
        count = count + 1;
        push_clause(&mut sql, " AND prompt LIKE ?", count);
    }
    push_clause(&mut sql, " ORDER BY created_at DESC LIMIT ?", count + 1);
    push_clause(&mut sql, " OFFSET ?", count + 2);
    AssetQuery {
        sql,
        texts,
        limit: #[verifier::truncate] (limit as i64),
        offset: #[verifier::truncate] (offset as i64),
    }
}

} // verus!
