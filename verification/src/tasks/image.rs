//! The image executor: one task from its record to a closed record. The
//! executor decides; whoever drives it calls the remote service, writes
//! the asset and the store, and reports back what happened.

use vstd::prelude::*;
use vstd::string::*;
use crate::ark::types::{ImageGenRequest, ImageGenRequestView, ImageGenResponse, RESPONSE_FORMAT_B64};
use crate::codec::{base64_decoded, decode_base64};
use crate::db::{AssetRow, AssetView, TaskRow, TaskStatus, TaskView, KIND_IMAGE, SOURCE_GENERATED};
use crate::fresh::{fresh_id, timestamp};
use crate::json::{check_syntax, read_string_member, string_member, syntax_error};
use crate::tasks::{
    or_default, output_text, write_output, Failure, TaskError, DEFAULT_IMAGE_MODEL,
};
use crate::text::{chars_of, opt_view, parse_u32, unsigned_decimal};

verus! {

/// Width used where the service's size cannot be read.
pub const FALLBACK_WIDTH: u32 = 2048;

/// Height used where the service's size cannot be read.
pub const FALLBACK_HEIGHT: u32 = 2048;

/// The file extension of a stored image.
pub const IMAGE_EXTENSION: &'static str = ".png";

/// Whether `i` is the place of the first `x` in `s`.
pub open spec fn first_x(s: Seq<char>, i: int) -> bool {
    &&& 0 <= i < s.len()
    &&& s[i] == 'x'
    &&& forall|j: int| 0 <= j < i ==> s[j] != 'x'
}

/// The pixel dimensions that a size of the form `WxH` stands for: the text
/// before the first `x` and the text after it, each read as a `u32`. A text
/// without an `x`, with more than one, or with a side that is no number
/// stands for none.
pub open spec fn dimensions(s: Seq<char>) -> Option<(u32, u32)> {
    if exists|i: int| first_x(s, i) {
        let i = choose|i: int| first_x(s, i);
        match (unsigned_decimal(s.take(i)), unsigned_decimal(s.skip(i + 1))) {
            (Some(w), Some(h)) => Some((w, h)),
            _ => None,
        }
    } else {
        None
    }
}

/// Reads a size of the form `WxH`.
pub fn parse_dimensions(size: &str) -> (r: Option<(u32, u32)>)
    ensures
        r == dimensions(size@),
{
    let chars = chars_of(size);
    let mut i: usize = 0;
    while i < chars.len() && chars[i] != 'x'
        invariant
            i <= chars@.len(),
            forall|j: int| 0 <= j < i ==> chars@[j] != 'x',
        decreases chars@.len() - i,
    {
        i = i + 1;
    }
    if i == chars.len() {
        return None;
    }
    assert(first_x(chars@, i as int));
    let width = parse_u32(&chars, 0, i);
    let height = parse_u32(&chars, i + 1, chars.len());
    match (width, height) {
        (Some(w), Some(h)) => Some((w, h)),
        _ => None,
    }
}

/// The dimensions of an image whose size the service reported as `size`:
/// those it stands for, or the fallback.
pub open spec fn dimensions_or_fallback(size: Option<Seq<char>>) -> (u32, u32) {
    match size {
        Some(s) => match dimensions(s) {
            Some(d) => d,
            None => (FALLBACK_WIDTH, FALLBACK_HEIGHT),
        },
        None => (FALLBACK_WIDTH, FALLBACK_HEIGHT),
    }
}

/// The request that the fields of a task's input ask for. The prompt is
/// required; the model has a default; the size is passed on as it is.
pub open spec fn request_from(
    prompt: Option<Seq<char>>,
    model: Option<Seq<char>>,
    size: Option<Seq<char>>,
) -> Result<ImageGenRequestView, Failure> {
    match prompt {
        None => Err(Failure::InvalidInput("missing prompt in task input"@)),
        Some(p) => Ok(
            ImageGenRequestView {
                model: or_default(model, DEFAULT_IMAGE_MODEL@),
                prompt: p,
                size,
                n: Some(1u32),
                response_format: RESPONSE_FORMAT_B64@,
                watermark: false,
            },
        ),
    }
}

/// The request that a task's input, a JSON text, asks for.
pub open spec fn request_of(input: Seq<char>) -> Result<ImageGenRequestView, Failure> {
    match syntax_error(input) {
        Some(complaint) => Err(Failure::InvalidInput("invalid task input JSON: "@ + complaint)),
        None => request_from(
            string_member(input, "prompt"@),
            string_member(input, "model"@),
            string_member(input, "size"@),
        ),
    }
}

/// An image request as plain values, or the failure.
pub open spec fn request_view(r: Result<ImageGenRequest, TaskError>) -> Result<
    ImageGenRequestView,
    Failure,
> {
    match r {
        Ok(v) => Ok(v@),
        Err(e) => Err(e@),
    }
}

/// Builds the request from the fields of a task's input.
pub fn image_request(prompt: Option<String>, model: Option<String>, size: Option<String>) -> (r:
    Result<ImageGenRequest, TaskError>)
    ensures
        request_view(r) == request_from(opt_view(prompt), opt_view(model), opt_view(size)),
{
    let prompt = match prompt {
        Some(p) => p,
        None => {
            return Err(TaskError::InvalidInput("missing prompt in task input".to_string()));
        },
    };
    let model = match model {
        Some(m) => m,
        None => DEFAULT_IMAGE_MODEL.to_string(),
    };
    Ok(
        ImageGenRequest {
            model,
            prompt,
            size,
            n: Some(1),
            response_format: RESPONSE_FORMAT_B64.to_string(),
            watermark: false,
        },
    )
}

/// Reads the request out of a task's input.
pub fn read_request(input: &str) -> (r: Result<ImageGenRequest, TaskError>)
    ensures
        request_view(r) == request_of(input@),
{
    match check_syntax(input) {
        Some(complaint) => {
            let mut message = "invalid task input JSON: ".to_string();
            message.append(complaint.as_str());
            Err(TaskError::InvalidInput(message))
        },
        None => image_request(
            read_string_member(input, "prompt"),
            read_string_member(input, "model"),
            read_string_member(input, "size"),
        ),
    }
}

/// An image as the service handed it over: its bytes and its pixel
/// dimensions.
#[derive(Debug)]
pub struct DecodedImage {
    pub bytes: Vec<u8>,
    pub width: u32,
    pub height: u32,
}

/// A decoded image over plain values, or the failure.
pub open spec fn decoded_image_view(r: Result<DecodedImage, TaskError>) -> Result<
    (Seq<u8>, u32, u32),
    Failure,
> {
    match r {
        Ok(image) => Ok((image.bytes@, image.width, image.height)),
        Err(e) => Err(e@),
    }
}

/// The image that a decoded payload and the size reported with it make.
pub open spec fn assembled(decoded: Result<Seq<u8>, Seq<char>>, size: Option<Seq<char>>) -> Result<
    (Seq<u8>, u32, u32),
    Failure,
> {
    match decoded {
        Err(e) => Err(Failure::Decode("failed to decode base64 image: "@ + e)),
        Ok(bytes) => Ok((bytes, dimensions_or_fallback(size).0, dimensions_or_fallback(size).1)),
    }
}

/// The image that an answer of the service holds: that of its first item.
/// An answer without items is a failure of the service; a first item
/// without a payload breaks the protocol.
pub open spec fn image_of(response: ImageGenResponse) -> Result<(Seq<u8>, u32, u32), Failure> {
    if response.data@.len() == 0 {
        Err(Failure::Remote("empty image generation response"@))
    } else {
        match opt_view(response.data@[0].b64_json) {
            None => Err(Failure::Protocol("no b64_json in image response"@)),
            Some(payload) => assembled(base64_decoded(payload), opt_view(response.data@[0].size)),
        }
    }
}

/// Puts a decoded payload and the size reported with it together.
pub fn assemble(decoded: Result<Vec<u8>, String>, size: &Option<String>) -> (r: Result<
    DecodedImage,
    TaskError,
>)
    ensures
        decoded_image_view(r) == assembled(crate::codec::decoded_view(decoded), opt_view(*size)),
{
    match decoded {
        Err(e) => {
            let mut message = "failed to decode base64 image: ".to_string();
            message.append(e.as_str());
            Err(TaskError::Decode(message))
        },
        Ok(bytes) => {
            let parsed = match size {
                Some(s) => parse_dimensions(s.as_str()),
                None => None,
            };
            let (width, height) = match parsed {
                Some(d) => d,
                None => (FALLBACK_WIDTH, FALLBACK_HEIGHT),
            };
            Ok(DecodedImage { bytes, width, height })
        },
    }
}

/// Takes the image out of an answer of the service.
pub fn decode_response(response: &ImageGenResponse) -> (r: Result<DecodedImage, TaskError>)
    ensures
        decoded_image_view(r) == image_of(*response),
{
    if response.data.len() == 0 {
        return Err(TaskError::Remote("empty image generation response".to_string()));
    }
    let item = &response.data[0];
    match &item.b64_json {
        None => Err(TaskError::Protocol("no b64_json in image response".to_string())),
        Some(payload) => assemble(decode_base64(payload.as_str()), &item.size),
    }
}

/// How far the executor has come.
#[derive(Debug, Clone, Copy, PartialEq, Eq, Structural)]
pub enum ImageStage {
    /// Nothing has happened yet.
    Created,
    /// The record is running; the remote call is under way.
    Generating,
    /// The image is decoded; its bytes are being written.
    Storing,
    /// The executor is through: it has closed the record, or there was
    /// nothing for it to do.
    Closed,
}

/// The image executor of one task. It owns the record while it works on it.
#[derive(Debug)]
pub struct ImageTask {
    pub row: TaskRow,
    pub stage: ImageStage,
    /// Prompt and model of the request, kept for the asset's record.
    pub prompt: String,
    pub model: String,
    /// Name, dimensions and size in bytes of the image that is being stored.
    pub file_name: String,
    pub width: u32,
    pub height: u32,
    pub file_size: i64,
}

/// The image executor over plain values.
pub struct ImageTaskView {
    pub row: TaskView,
    pub stage: ImageStage,
    pub prompt: Seq<char>,
    pub model: Seq<char>,
    pub file_name: Seq<char>,
    pub width: u32,
    pub height: u32,
    pub file_size: i64,
}

impl View for ImageTask {
    type V = ImageTaskView;

    open spec fn view(&self) -> ImageTaskView {
        ImageTaskView {
            row: self.row@,
            stage: self.stage,
            prompt: self.prompt@,
            model: self.model@,
            file_name: self.file_name@,
            width: self.width,
            height: self.height,
            file_size: self.file_size,
        }
    }
}

/// What has happened outside since the executor's last step.
#[derive(Debug)]
pub enum ImageEvent {
    /// The executor is set to work.
    Begin,
    /// The remote call has returned.
    Generated(Result<ImageGenResponse, TaskError>),
    /// The bytes have been written, at the path given.
    Stored(Result<String, TaskError>),
}

/// What is to be done outside next.
#[derive(Debug)]
pub enum ImageAction {
    /// Write the record, which is now running, and send the request to the
    /// image endpoint.
    Generate(ImageGenRequest),
    /// Write the bytes under this file name among the project's assets.
    Store { file_name: String, bytes: Vec<u8> },
    /// Write the record, which is now closed, and the asset's record where
    /// there is one. The executor is through.
    Finish(Option<AssetRow>),
    /// Nothing: the event does not apply to the executor as it stands.
    Ignore,
}

/// An action over plain values.
pub enum ImageActionView {
    Generate(ImageGenRequestView),
    Store { file_name: Seq<char>, bytes: Seq<u8> },
    Finish(Option<AssetView>),
    Ignore,
}

impl View for ImageAction {
    type V = ImageActionView;

    open spec fn view(&self) -> ImageActionView {
        match self {
            ImageAction::Generate(request) => ImageActionView::Generate(request@),
            ImageAction::Store { file_name, bytes } => ImageActionView::Store {
                file_name: file_name@,
                bytes: bytes@,
            },
            ImageAction::Finish(Some(asset)) => ImageActionView::Finish(Some(asset@)),
            ImageAction::Finish(None) => ImageActionView::Finish(None),
            ImageAction::Ignore => ImageActionView::Ignore,
        }
    }
}

/// One step of the executor: where it stands afterwards, and what is to be
/// done outside.
#[derive(Debug)]
pub struct ImageStep {
    pub task: ImageTask,
    pub action: ImageAction,
}

/// One step over plain values.
pub struct ImageStepView {
    pub task: ImageTaskView,
    pub action: ImageActionView,
}

impl View for ImageStep {
    type V = ImageStepView;

    open spec fn view(&self) -> ImageStepView {
        ImageStepView { task: self.task@, action: self.action@ }
    }
}

impl ImageTaskView {
    /// The executor as it starts on a record: ready where the record is
    /// open, through where it is not.
    pub open spec fn starting(row: TaskView) -> ImageTaskView {
        ImageTaskView {
            row,
            stage: if row.open() {
                ImageStage::Created
            } else {
                ImageStage::Closed
            },
            prompt: Seq::empty(),
            model: Seq::empty(),
            file_name: Seq::empty(),
            width: 0,
            height: 0,
            file_size: 0,
        }
    }

    /// Whether an event applies: each stage waits for one kind of event,
    /// and the record must still be open, and running once the executor has
    /// begun.
    pub open spec fn accepts(self, event: ImageEvent) -> bool {
        match event {
            ImageEvent::Begin => self.stage == ImageStage::Created && self.row.open(),
            ImageEvent::Generated(_) => self.stage == ImageStage::Generating && self.row.state()
                == Some(TaskStatus::Running),
            ImageEvent::Stored(_) => self.stage == ImageStage::Storing && self.row.state() == Some(
                TaskStatus::Running,
            ),
        }
    }

    /// The step that does nothing.
    pub open spec fn ignoring(self) -> ImageStepView {
        ImageStepView { task: self, action: ImageActionView::Ignore }
    }

    /// The step that closes the record as failed.
    pub open spec fn failing(self, failure: Failure, now: Seq<char>) -> ImageStepView {
        ImageStepView {
            task: ImageTaskView {
                row: self.row.failed(failure.message(), now),
                stage: ImageStage::Closed,
                ..self
            },
            action: ImageActionView::Finish(None),
        }
    }

    /// The first step: the input is read, and the record is set running
    /// where it asks for an image.
    pub open spec fn beginning(self, now: Seq<char>) -> ImageStepView {
        match request_of(self.row.input) {
            Err(failure) => self.failing(failure, now),
            Ok(request) => ImageStepView {
                task: ImageTaskView {
                    row: self.row.started(now),
                    stage: ImageStage::Generating,
                    prompt: request.prompt,
                    model: request.model,
                    ..self
                },
                action: ImageActionView::Generate(request),
            },
        }
    }

    /// The step after the remote call: the image is taken out of the answer
    /// and handed over to be written under a fresh name.
    pub open spec fn having_generated(
        self,
        result: Result<ImageGenResponse, TaskError>,
        now: Seq<char>,
        fresh: Seq<char>,
    ) -> ImageStepView {
        match result {
            Err(e) => self.failing(e@, now),
            Ok(response) => match image_of(response) {
                Err(failure) => self.failing(failure, now),
                Ok((bytes, width, height)) => ImageStepView {
                    task: ImageTaskView {
                        stage: ImageStage::Storing,
                        file_name: fresh + IMAGE_EXTENSION@,
                        width,
                        height,
                        file_size: bytes.len() as i64,
                        ..self
                    },
                    action: ImageActionView::Store { file_name: fresh + IMAGE_EXTENSION@, bytes },
                },
            },
        }
    }

    /// The record of the asset stored at `path`.
    pub open spec fn asset(self, path: Seq<char>, fresh: Seq<char>) -> AssetView {
        AssetView {
            id: fresh,
            project_id: self.row.project_id,
            task_id: Some(self.row.id),
            asset_type: KIND_IMAGE@,
            file_path: path,
            file_name: self.file_name,
            prompt: Some(self.prompt),
            model: Some(self.model),
            width: Some(self.width as i32),
            height: Some(self.height as i32),
            file_size: Some(self.file_size),
            source: SOURCE_GENERATED@,
            created_at: self.row.created_at,
        }
    }

    /// The last step: the record is closed as done, its output naming the
    /// stored asset and the image's dimensions.
    pub open spec fn having_stored(
        self,
        result: Result<String, TaskError>,
        now: Seq<char>,
        fresh: Seq<char>,
    ) -> ImageStepView {
        match result {
            Err(e) => self.failing(e@, now),
            Ok(path) => ImageStepView {
                task: ImageTaskView {
                    row: self.row.completed(output_text(path@, self.width, self.height), now),
                    stage: ImageStage::Closed,
                    ..self
                },
                action: ImageActionView::Finish(Some(self.asset(path@, fresh))),
            },
        }
    }

    /// The step that the executor takes on an event that happens at time
    /// `now`, with `fresh` as the identifier to use for what it creates.
    pub open spec fn advanced(self, event: ImageEvent, now: Seq<char>, fresh: Seq<char>) -> ImageStepView {
        if !self.accepts(event) {
            self.ignoring()
        } else {
            match event {
                ImageEvent::Begin => self.beginning(now),
                ImageEvent::Generated(result) => self.having_generated(result, now, fresh),
                ImageEvent::Stored(result) => self.having_stored(result, now, fresh),
            }
        }
    }
}

impl ImageTask {
    /// The executor for a record.
    pub fn new(row: TaskRow) -> (r: ImageTask)
        ensures
            r@ == ImageTaskView::starting(row@),
    {
        let stage = if row.is_open() {
            ImageStage::Created
        } else {
            ImageStage::Closed
        };
        ImageTask {
            row,
            stage,
            prompt: String::new(),
            model: String::new(),
            file_name: String::new(),
            width: 0,
            height: 0,
            file_size: 0,
        }
    }

    /// Whether the executor is through.
    pub fn is_closed(&self) -> (r: bool)
        ensures
            r == (self.stage == ImageStage::Closed),
    {
        match self.stage {
            ImageStage::Closed => true,
            _ => false,
        }
    }

    /// Whether an event applies to the executor as it stands.
    pub fn accepts(&self, event: &ImageEvent) -> (r: bool)
        ensures
            r == self@.accepts(*event),
    {
        match event {
            ImageEvent::Begin => {
                match self.stage {
                    ImageStage::Created => self.row.is_open(),
                    _ => false,
                }
            },
            ImageEvent::Generated(_) => {
                match (self.stage, self.row.state()) {
                    (ImageStage::Generating, Some(TaskStatus::Running)) => true,
                    _ => false,
                }
            },
            ImageEvent::Stored(_) => {
                match (self.stage, self.row.state()) {
                    (ImageStage::Storing, Some(TaskStatus::Running)) => true,
                    _ => false,
                }
            },
        }
    }

    fn fail(self, error: &TaskError, now: &str) -> (r: ImageStep)
        requires
            self@.row.open(),
        ensures
            r@ == self@.failing(error@, now@),
    {
        let mut row = self.row;
        row.fail(error.message(), now);
        ImageStep {
            task: ImageTask {
                row,
                stage: ImageStage::Closed,
                prompt: self.prompt,
                model: self.model,
                file_name: self.file_name,
                width: self.width,
                height: self.height,
                file_size: self.file_size,
            },
            action: ImageAction::Finish(None),
        }
    }

    /// Takes one step on an event that happens at time `now`, with `fresh`
    /// as the identifier to use for what the step creates: the stored
    /// file's name after the remote call, the asset record's identity after
    /// the write.
    pub fn advance(self, event: ImageEvent, now: &str, fresh: &str) -> (r: ImageStep)
        ensures
            r@ == self@.advanced(event, now@, fresh@),
    {
        if !self.accepts(&event) {
            return ImageStep { task: self, action: ImageAction::Ignore };
        }
        match event {
            ImageEvent::Begin => {
                match read_request(self.row.input.as_str()) {
                    Err(e) => self.fail(&e, now),
                    Ok(request) => {
                        let mut row = self.row;
                        row.start(now);
                        ImageStep {
                            task: ImageTask {
                                row,
                                stage: ImageStage::Generating,
                                prompt: request.prompt.clone(),
                                model: request.model.clone(),
                                file_name: self.file_name,
                                width: self.width,
                                height: self.height,
                                file_size: self.file_size,
                            },
                            action: ImageAction::Generate(request),
                        }
                    },
                }
            },
            ImageEvent::Generated(result) => {
                let response = match result {
                    Err(e) => {
                        return self.fail(&e, now);
                    },
                    Ok(response) => response,
                };
                match decode_response(&response) {
                    Err(e) => self.fail(&e, now),
                    Ok(image) => {
                        let mut file_name = fresh.to_string();
                        file_name.append(IMAGE_EXTENSION);
                        ImageStep {
                            task: ImageTask {
                                row: self.row,
                                stage: ImageStage::Storing,
                                prompt: self.prompt,
                                model: self.model,
                                file_name: file_name.clone(),
                                width: image.width,
                                height: image.height,
                                file_size: image.bytes.len() as i64,
                            },
                            action: ImageAction::Store { file_name, bytes: image.bytes },
                        }
                    },
                }
            },
            ImageEvent::Stored(result) => {
                let path = match result {
                    Err(e) => {
                        return self.fail(&e, now);
                    },
                    Ok(path) => path,
                };
                let output = write_output(path.as_str(), self.width, self.height);
                let asset = AssetRow {
                    id: fresh.to_string(),
                    project_id: self.row.project_id.clone(),
                    task_id: Some(self.row.id.clone()),
                    asset_type: KIND_IMAGE.to_string(),
                    file_path: path,
                    file_name: self.file_name.clone(),
                    prompt: Some(self.prompt.clone()),
                    model: Some(self.model.clone()),
                    width: Some(self.width as i32),
                    height: Some(self.height as i32),
                    file_size: Some(self.file_size),
                    source: SOURCE_GENERATED.to_string(),
                    created_at: self.row.created_at.clone(),
                };
                let mut row = self.row;
                row.complete(output.as_str(), now);
                ImageStep {
                    task: ImageTask {
                        row,
                        stage: ImageStage::Closed,
                        prompt: self.prompt,
                        model: self.model,
                        file_name: self.file_name,
                        width: self.width,
                        height: self.height,
                        file_size: self.file_size,
                    },
                    action: ImageAction::Finish(Some(asset)),
                }
            },
        }
    }

    /// Takes one step on an event that has just happened: the time is read
    /// from the clock, and what the step creates gets a random identifier.
    pub fn step(self, event: ImageEvent) -> (r: ImageStep)
        ensures
            exists|now: Seq<char>, fresh: Seq<char>| r@ == self@.advanced(event, now, fresh),
    {
        let now = timestamp();
        let fresh = fresh_id();
        let r = self.advance(event, now.as_str(), fresh.as_str());
        r
    }
}

/// An executor that is through, or whose record is no longer open, ignores
/// every event: it neither changes nor asks for anything.
pub proof fn lemma_image_closed_ignores(
    task: ImageTaskView,
    event: ImageEvent,
    now: Seq<char>,
    fresh: Seq<char>,
)
    requires
        task.stage == ImageStage::Closed || !task.row.open(),
    ensures
        task.advanced(event, now, fresh) == task.ignoring(),
{
}

/// The record is closed by the steps that finish and by no others: a step
/// asks for the closing write exactly when it takes the record from open
/// to closed, and it leaves the executor through.
pub proof fn lemma_image_finish_closes(
    task: ImageTaskView,
    event: ImageEvent,
    now: Seq<char>,
    fresh: Seq<char>,
)
    ensures
        task.advanced(event, now, fresh).action is Finish <==> task.row.open() && task.advanced(
            event,
            now,
            fresh,
        ).task.row.terminal(),
        task.advanced(event, now, fresh).action is Finish ==> task.advanced(
            event,
            now,
            fresh,
        ).task.stage == ImageStage::Closed,
        task.row.terminal() ==> task.advanced(event, now, fresh).task.row == task.row,
{
    crate::db::lemma_status_name_round_trip(TaskStatus::Done);
    crate::db::lemma_status_name_round_trip(TaskStatus::Failed);
}

/// The closing write happens once: after a step that finishes, whatever
/// event comes next is ignored.
pub proof fn lemma_image_finishes_once(
    task: ImageTaskView,
    first: ImageEvent,
    now: Seq<char>,
    fresh: Seq<char>,
    second: ImageEvent,
    later: Seq<char>,
    fresher: Seq<char>,
)
    requires
        task.advanced(first, now, fresh).action is Finish,
    ensures
        task.advanced(first, now, fresh).task.advanced(second, later, fresher) == task.advanced(
            first,
            now,
            fresh,
        ).task.ignoring(),
{
}

/// No step breaks the record's invariant, and every step leaves the
/// record's identity, kind, input and creation time alone.
pub proof fn lemma_image_step_keeps_record(
    task: ImageTaskView,
    event: ImageEvent,
    now: Seq<char>,
    fresh: Seq<char>,
)
    requires
        task.row.well_formed(),
    ensures
        task.advanced(event, now, fresh).task.row.well_formed(),
        task.advanced(event, now, fresh).task.row.id == task.row.id,
        task.advanced(event, now, fresh).task.row.project_id == task.row.project_id,
        task.advanced(event, now, fresh).task.row.task_type == task.row.task_type,
        task.advanced(event, now, fresh).task.row.input == task.row.input,
        task.advanced(event, now, fresh).task.row.created_at == task.row.created_at,
{
    crate::db::lemma_status_name_round_trip(TaskStatus::Done);
    crate::db::lemma_status_name_round_trip(TaskStatus::Failed);
}

/// A task whose input asks for an image, whose remote call answers with
/// one and whose asset is written ends done: the record's output names the
/// path of the stored asset and the dimensions that the service reported,
/// or the fallback where it reported none that can be read; the bytes
/// handed over to be written are the decoded payload.
pub proof fn lemma_image_run(
    row: TaskView,
    response: ImageGenResponse,
    path: String,
    t1: Seq<char>,
    t2: Seq<char>,
    t3: Seq<char>,
    file_id: Seq<char>,
    asset_id: Seq<char>,
)
    requires
        row.open(),
        request_of(row.input) is Ok,
        image_of(response) is Ok,
    ensures
        ({
            let begun = ImageTaskView::starting(row).advanced(ImageEvent::Begin, t1, file_id);
            let generated = begun.task.advanced(ImageEvent::Generated(Ok(response)), t2, file_id);
            let stored = generated.task.advanced(ImageEvent::Stored(Ok(path)), t3, asset_id);
            let image = image_of(response)->Ok_0;
            &&& begun.action == ImageActionView::Generate(request_of(row.input)->Ok_0)
            &&& begun.task.row.state() == Some(TaskStatus::Running)
            &&& generated.action == ImageActionView::Store {
                file_name: file_id + IMAGE_EXTENSION@,
                bytes: image.0,
            }
            &&& stored.action is Finish
            &&& stored.task.stage == ImageStage::Closed
            &&& stored.task.row.state() == Some(TaskStatus::Done)
            &&& stored.task.row.output == Some(output_text(path@, image.1, image.2))
            &&& stored.task.row.error is None
            &&& stored.task.row.id == row.id
        }),
{
    crate::db::lemma_status_name_round_trip(TaskStatus::Running);
    crate::db::lemma_status_name_round_trip(TaskStatus::Done);
}

/// Until the step that finishes, the record of a task at work is open:
/// whoever reads it finds it pending or running.
pub proof fn lemma_image_open_until_finished(
    task: ImageTaskView,
    event: ImageEvent,
    now: Seq<char>,
    fresh: Seq<char>,
)
    requires
        task.row.open(),
    ensures
        task.advanced(event, now, fresh).action is Finish || task.advanced(
            event,
            now,
            fresh,
        ).task.row.open(),
{
}

impl ImageTaskView {
    /// The executor after a run of events, each with the time at which it
    /// happens and the identifier to use for what its step creates.
    pub open spec fn after_all(self, events: Seq<(ImageEvent, Seq<char>, Seq<char>)>) -> ImageTaskView
        decreases events.len(),
    {
        if events.len() == 0 {
            self
        } else {
            self.after_all(events.drop_last()).advanced(
                events.last().0,
                events.last().1,
                events.last().2,
            ).task
        }
    }

    /// How often the steps of a run ask for the closing write.
    pub open spec fn closing_writes(self, events: Seq<(ImageEvent, Seq<char>, Seq<char>)>) -> nat
        decreases events.len(),
    {
        if events.len() == 0 {
            0
        } else {
            let asked: nat = if self.after_all(events.drop_last()).advanced(
                events.last().0,
                events.last().1,
                events.last().2,
            ).action is Finish {
                1
            } else {
                0
            };
            self.closing_writes(events.drop_last()) + asked
        }
    }
}

/// Whatever happens, and in whatever order, the record of a task is closed
/// at most once: over any run of events the executor asks for the closing
/// write once or never. It has asked once exactly when it has taken the
/// record from open to closed, and it leaves alone a record that was not
/// open when it started.
pub proof fn lemma_image_closed_at_most_once(
    task: ImageTaskView,
    events: Seq<(ImageEvent, Seq<char>, Seq<char>)>,
)
    ensures
        task.closing_writes(events) <= 1,
        task.closing_writes(events) == 1 <==> task.row.open() && task.after_all(
            events,
        ).row.terminal(),
        !task.row.open() ==> task.after_all(events).row == task.row,
        task.row.open() ==> task.after_all(events).row.open() || task.after_all(
            events,
        ).row.terminal(),
    decreases events.len(),
{
    crate::db::lemma_status_name_round_trip(TaskStatus::Done);
    crate::db::lemma_status_name_round_trip(TaskStatus::Failed);
    if events.len() > 0 {
        lemma_image_closed_at_most_once(task, events.drop_last());
    }
}

} // verus!
