//! Submission parameters of generation tasks: the values each field may
//! take, the defaults, and the validation that a submission must pass
//! before a task is recorded.

pub mod image;
pub mod queue;
pub mod video;

use vstd::prelude::*;
use vstd::string::*;
use crate::json::{literal, write_literal};
use crate::text::{
    blank, decimal, decimal_digits, format_i64, format_u64, is_blank, join, joined, member, names,
    opt_view,
};

verus! {

/// The image models that can be asked for.
pub const IMAGE_MODELS: [&'static str; 4] = [
    "doubao-seedream-5-0-260128",
    "doubao-seedream-5-0-lite-260128",
    "doubao-seedream-4-5-251128",
    "doubao-seedream-4-0-250828",
];

/// Image sizes: the tier names, then the pixel dimensions of each tier.
pub const IMAGE_SIZES: [&'static str; 36] = [
    "1K",
    "2K",
    "3K",
    "4K",
    "2048x2048",
    "1728x2304",
    "2304x1728",
    "2848x1600",
    "1600x2848",
    "2496x1664",
    "1664x2496",
    "3136x1344",
    "1024x1024",
    "864x1152",
    "1152x864",
    "1312x736",
    "736x1312",
    "832x1248",
    "1248x832",
    "1568x672",
    "3072x3072",
    "2592x3456",
    "3456x2592",
    "4096x2304",
    "2304x4096",
    "2496x3744",
    "3744x2496",
    "4704x2016",
    "4096x4096",
    "3520x4704",
    "4704x3520",
    "5504x3040",
    "3040x5504",
    "3328x4992",
    "4992x3328",
    "6240x2656",
];

/// The video models that can be asked for.
pub const VIDEO_MODELS: [&'static str; 5] = [
    "doubao-seedance-1-5-pro-251215",
    "doubao-seedance-1-0-pro-250528",
    "doubao-seedance-1-0-pro-fast-251015",
    "doubao-seedance-1-0-lite-t2v-250428",
    "doubao-seedance-1-0-lite-i2v-250428",
];

/// The video resolutions that can be asked for.
pub const VIDEO_RESOLUTIONS: [&'static str; 3] = ["480p", "720p", "1080p"];

/// The aspect ratios that can be asked for.
pub const VIDEO_RATIOS: [&'static str; 7] = ["16:9", "9:16", "4:3", "3:4", "1:1", "21:9", "adaptive"];

/// The image model where none is asked for.
pub const DEFAULT_IMAGE_MODEL: &'static str = "doubao-seedream-5-0-260128";

/// The image size where none is asked for.
pub const DEFAULT_IMAGE_SIZE: &'static str = "2K";

/// The video model where none is asked for.
pub const DEFAULT_VIDEO_MODEL: &'static str = "doubao-seedance-1-5-pro-251215";

/// The video resolution where none is asked for.
pub const DEFAULT_VIDEO_RESOLUTION: &'static str = "720p";

/// The aspect ratio where none is asked for.
pub const DEFAULT_VIDEO_RATIO: &'static str = "16:9";

/// The duration in seconds where none is asked for.
pub const DEFAULT_VIDEO_DURATION: i32 = 5;

/// Shortest video, in seconds.
pub const MIN_VIDEO_DURATION: i32 = 2;

/// Longest video, in seconds.
pub const MAX_VIDEO_DURATION: i32 = 12;

/// Why a submission was turned down, over plain texts.
pub enum Rejection {
    EmptyPrompt,
    InvalidImageModel(Seq<char>),
    InvalidImageSize(Seq<char>),
    InvalidVideoModel(Seq<char>),
    InvalidResolution(Seq<char>),
    InvalidRatio(Seq<char>),
    InvalidDuration(i32),
}

impl Rejection {
    /// The sentence that names the constraint broken and, for a field with
    /// an enumeration, every value that the field may take.
    pub open spec fn message(self) -> Seq<char> {
        match self {
            Rejection::EmptyPrompt => "prompt must not be empty"@,
            Rejection::InvalidImageModel(v) => "invalid image model \""@ + v + "\". Valid: "@
                + joined(names(IMAGE_MODELS@), ", "@),
            Rejection::InvalidImageSize(v) => "invalid image size \""@ + v + "\". Valid: "@
                + joined(names(IMAGE_SIZES@), ", "@),
            Rejection::InvalidVideoModel(v) => "invalid video model \""@ + v + "\". Valid: "@
                + joined(names(VIDEO_MODELS@), ", "@),
            Rejection::InvalidResolution(v) => "invalid resolution \""@ + v + "\". Valid: "@
                + joined(names(VIDEO_RESOLUTIONS@), ", "@),
            Rejection::InvalidRatio(v) => "invalid ratio \""@ + v + "\". Valid: "@ + joined(
                names(VIDEO_RATIOS@),
                ", "@,
            ),
            Rejection::InvalidDuration(d) => "duration must be 2-12 seconds, got "@ + decimal(
                d as int,
            ),
        }
    }
}

/// A submission that was turned down. Each variant of a field with an
/// enumeration carries the value that was offered.
#[derive(Debug)]
pub enum ValidationError {
    EmptyPrompt,
    InvalidImageModel(String),
    InvalidImageSize(String),
    InvalidVideoModel(String),
    InvalidResolution(String),
    InvalidRatio(String),
    InvalidDuration(i32),
}

impl View for ValidationError {
    type V = Rejection;

    open spec fn view(&self) -> Rejection {
        match self {
            ValidationError::EmptyPrompt => Rejection::EmptyPrompt,
            ValidationError::InvalidImageModel(v) => Rejection::InvalidImageModel(v@),
            ValidationError::InvalidImageSize(v) => Rejection::InvalidImageSize(v@),
            ValidationError::InvalidVideoModel(v) => Rejection::InvalidVideoModel(v@),
            ValidationError::InvalidResolution(v) => Rejection::InvalidResolution(v@),
            ValidationError::InvalidRatio(v) => Rejection::InvalidRatio(v@),
            ValidationError::InvalidDuration(d) => Rejection::InvalidDuration(*d),
        }
    }
}

fn enumeration_message<const N: usize>(head: &str, value: &str, valid: &[&'static str; N]) -> (r:
    String)
    ensures
        r@ == head@ + value@ + "\". Valid: "@ + joined(names(valid@), ", "@),
{
    let mut out = head.to_string();
    out.append(value);
    out.append("\". Valid: ");
    let list = join(valid, ", ");
    out.append(list.as_str());
    out
}

impl ValidationError {
    /// The error as a sentence for the caller.
    pub fn message(&self) -> (r: String)
        ensures
            r@ == self@.message(),
    {
        match self {
            ValidationError::EmptyPrompt => "prompt must not be empty".to_string(),
            ValidationError::InvalidImageModel(v) => enumeration_message(
                "invalid image model \"",
                v.as_str(),
                &IMAGE_MODELS,
            ),
            ValidationError::InvalidImageSize(v) => enumeration_message(
                "invalid image size \"",
                v.as_str(),
                &IMAGE_SIZES,
            ),
            ValidationError::InvalidVideoModel(v) => enumeration_message(
                "invalid video model \"",
                v.as_str(),
                &VIDEO_MODELS,
            ),
            ValidationError::InvalidResolution(v) => enumeration_message(
                "invalid resolution \"",
                v.as_str(),
                &VIDEO_RESOLUTIONS,
            ),
            ValidationError::InvalidRatio(v) => enumeration_message(
                "invalid ratio \"",
                v.as_str(),
                &VIDEO_RATIOS,
            ),
            ValidationError::InvalidDuration(d) => {
                let mut out = "duration must be 2-12 seconds, got ".to_string();
                let number = format_i64(*d as i64);
                out.append(number.as_str());
                out
            },
        }
    }
}

/// What a caller asks for when submitting an image.
#[derive(Debug, Clone)]
pub struct ImageParams {
    pub project_id: String,
    pub prompt: String,
    pub model: Option<String>,
    pub node_id: Option<String>,
    pub size: Option<String>,
}

/// An image submission over plain texts.
pub struct ImageParamsView {
    pub project_id: Seq<char>,
    pub prompt: Seq<char>,
    pub model: Option<Seq<char>>,
    pub node_id: Option<Seq<char>>,
    pub size: Option<Seq<char>>,
}

impl View for ImageParams {
    type V = ImageParamsView;

    open spec fn view(&self) -> ImageParamsView {
        ImageParamsView {
            project_id: self.project_id@,
            prompt: self.prompt@,
            model: opt_view(self.model),
            node_id: opt_view(self.node_id),
            size: opt_view(self.size),
        }
    }
}

/// The value of an optional text field once its default is filled in.
pub open spec fn or_default(field: Option<Seq<char>>, default: Seq<char>) -> Seq<char> {
    match field {
        Some(v) => v,
        None => default,
    }
}

impl ImageParamsView {
    /// The first constraint that the submission breaks, if it breaks one:
    /// the prompt is checked first, then the model, then the size, each
    /// optional field after its default is filled in.
    pub open spec fn rejection(self) -> Option<Rejection> {
        let model = or_default(self.model, DEFAULT_IMAGE_MODEL@);
        let size = or_default(self.size, DEFAULT_IMAGE_SIZE@);
        if is_blank(self.prompt) {
            Some(Rejection::EmptyPrompt)
        } else if !names(IMAGE_MODELS@).contains(model) {
            Some(Rejection::InvalidImageModel(model))
        } else if !names(IMAGE_SIZES@).contains(size) {
            Some(Rejection::InvalidImageSize(size))
        } else {
            None
        }
    }

    /// The submission with every default filled in.
    pub open spec fn filled(self) -> ImageParamsView {
        ImageParamsView {
            model: Some(or_default(self.model, DEFAULT_IMAGE_MODEL@)),
            size: Some(or_default(self.size, DEFAULT_IMAGE_SIZE@)),
            ..self
        }
    }

    /// What normalising leaves behind. Defaults are filled in field by
    /// field as the checks go: none where the prompt is blank, the model's
    /// alone where the model is turned down, and all of them from there on.
    pub open spec fn normalized(self) -> ImageParamsView {
        let model = or_default(self.model, DEFAULT_IMAGE_MODEL@);
        if is_blank(self.prompt) {
            self
        } else if !names(IMAGE_MODELS@).contains(model) {
            ImageParamsView { model: Some(model), ..self }
        } else {
            self.filled()
        }
    }
}

/// Every default is a value that its field may take, so a field left unset
/// is never the reason for a rejection.
pub proof fn lemma_defaults_are_valid()
    ensures
        names(IMAGE_MODELS@).contains(DEFAULT_IMAGE_MODEL@),
        names(IMAGE_SIZES@).contains(DEFAULT_IMAGE_SIZE@),
        names(VIDEO_MODELS@).contains(DEFAULT_VIDEO_MODEL@),
        names(VIDEO_RESOLUTIONS@).contains(DEFAULT_VIDEO_RESOLUTION@),
        names(VIDEO_RATIOS@).contains(DEFAULT_VIDEO_RATIO@),
        MIN_VIDEO_DURATION <= DEFAULT_VIDEO_DURATION <= MAX_VIDEO_DURATION,
{
    assert(names(IMAGE_MODELS@)[0] == DEFAULT_IMAGE_MODEL@);
    assert(names(IMAGE_SIZES@)[1] == DEFAULT_IMAGE_SIZE@);
    assert(names(VIDEO_MODELS@)[0] == DEFAULT_VIDEO_MODEL@);
    assert(names(VIDEO_RESOLUTIONS@)[1] == DEFAULT_VIDEO_RESOLUTION@);
    assert(names(VIDEO_RATIOS@)[0] == DEFAULT_VIDEO_RATIO@);
}

fn fill(field: &mut Option<String>, default: &'static str)
    ensures
        opt_view(*final(field)) == Some(or_default(opt_view(*old(field)), default@)),
{
    if field.is_none() {
        *field = Some(default.to_string());
    }
}

fn filled_value(field: &Option<String>) -> (r: &str)
    requires
        field is Some,
    ensures
        Some(r@) == opt_view(*field),
{
    match field {
        Some(v) => v.as_str(),
        None => "",
    }
}

impl ImageParams {
    /// Fills in the defaults and validates. `Ok` exactly when no constraint
    /// is broken; otherwise the error names the first one that is.
    pub fn normalize(&mut self) -> (r: Result<(), ValidationError>)
        ensures
            final(self)@ == old(self)@.normalized(),
            match r {
                Ok(()) => old(self)@.rejection() is None,
                Err(e) => old(self)@.rejection() == Some(e@),
            },
    {
        if blank(self.prompt.as_str()) {
            return Err(ValidationError::EmptyPrompt);
        }
        fill(&mut self.model, DEFAULT_IMAGE_MODEL);
        let model = filled_value(&self.model);
        if !member(&IMAGE_MODELS, model) {
            return Err(ValidationError::InvalidImageModel(model.to_string()));
        }
        fill(&mut self.size, DEFAULT_IMAGE_SIZE);
        let size = filled_value(&self.size);
        if !member(&IMAGE_SIZES, size) {
            return Err(ValidationError::InvalidImageSize(size.to_string()));
        }
        Ok(())
    }
}

/// What a caller asks for when submitting a video.
#[derive(Debug, Clone)]
pub struct VideoParams {
    pub project_id: String,
    pub prompt: String,
    pub model: Option<String>,
    pub node_id: Option<String>,
    pub resolution: Option<String>,
    pub ratio: Option<String>,
    pub duration: Option<i32>,
}

/// A video submission over plain texts.
pub struct VideoParamsView {
    pub project_id: Seq<char>,
    pub prompt: Seq<char>,
    pub model: Option<Seq<char>>,
    pub node_id: Option<Seq<char>>,
    pub resolution: Option<Seq<char>>,
    pub ratio: Option<Seq<char>>,
    pub duration: Option<i32>,
}

impl View for VideoParams {
    type V = VideoParamsView;

    open spec fn view(&self) -> VideoParamsView {
        VideoParamsView {
            project_id: self.project_id@,
            prompt: self.prompt@,
            model: opt_view(self.model),
            node_id: opt_view(self.node_id),
            resolution: opt_view(self.resolution),
            ratio: opt_view(self.ratio),
            duration: self.duration,
        }
    }
}

/// The duration once its default is filled in.
pub open spec fn duration_or_default(field: Option<i32>) -> i32 {
    match field {
        Some(d) => d,
        None => DEFAULT_VIDEO_DURATION,
    }
}

impl VideoParamsView {
    /// The first constraint that the submission breaks, if it breaks one:
    /// prompt, model, resolution, ratio and duration are checked in this
    /// order, each optional field after its default is filled in.
    pub open spec fn rejection(self) -> Option<Rejection> {
        let model = or_default(self.model, DEFAULT_VIDEO_MODEL@);
        let resolution = or_default(self.resolution, DEFAULT_VIDEO_RESOLUTION@);
        let ratio = or_default(self.ratio, DEFAULT_VIDEO_RATIO@);
        let duration = duration_or_default(self.duration);
        if is_blank(self.prompt) {
            Some(Rejection::EmptyPrompt)
        } else if !names(VIDEO_MODELS@).contains(model) {
            Some(Rejection::InvalidVideoModel(model))
        } else if !names(VIDEO_RESOLUTIONS@).contains(resolution) {
            Some(Rejection::InvalidResolution(resolution))
        } else if !names(VIDEO_RATIOS@).contains(ratio) {
            Some(Rejection::InvalidRatio(ratio))
        } else if !(MIN_VIDEO_DURATION <= duration <= MAX_VIDEO_DURATION) {
            Some(Rejection::InvalidDuration(duration))
        } else {
            None
        }
    }

    /// The submission with every default filled in.
    pub open spec fn filled(self) -> VideoParamsView {
        VideoParamsView {
            model: Some(or_default(self.model, DEFAULT_VIDEO_MODEL@)),
            resolution: Some(or_default(self.resolution, DEFAULT_VIDEO_RESOLUTION@)),
            ratio: Some(or_default(self.ratio, DEFAULT_VIDEO_RATIO@)),
            duration: Some(duration_or_default(self.duration)),
            ..self
        }
    }

    /// What normalising leaves behind. Defaults are filled in field by
    /// field as the checks go: none where the prompt is blank, those up to
    /// and including the field that is turned down, and all of them once
    /// the ratio has passed.
    pub open spec fn normalized(self) -> VideoParamsView {
        let model = or_default(self.model, DEFAULT_VIDEO_MODEL@);
        let resolution = or_default(self.resolution, DEFAULT_VIDEO_RESOLUTION@);
        let ratio = or_default(self.ratio, DEFAULT_VIDEO_RATIO@);
        if is_blank(self.prompt) {
            self
        } else if !names(VIDEO_MODELS@).contains(model) {
            VideoParamsView { model: Some(model), ..self }
        } else if !names(VIDEO_RESOLUTIONS@).contains(resolution) {
            VideoParamsView { model: Some(model), resolution: Some(resolution), ..self }
        } else if !names(VIDEO_RATIOS@).contains(ratio) {
            VideoParamsView {
                model: Some(model),
                resolution: Some(resolution),
                ratio: Some(ratio),
                ..self
            }
        } else {
            self.filled()
        }
    }
}

impl VideoParams {
    /// Fills in the defaults and validates. `Ok` exactly when no constraint
    /// is broken; otherwise the error names the first one that is.
    pub fn normalize(&mut self) -> (r: Result<(), ValidationError>)
        ensures
            final(self)@ == old(self)@.normalized(),
            match r {
                Ok(()) => old(self)@.rejection() is None,
                Err(e) => old(self)@.rejection() == Some(e@),
            },
    {
        if blank(self.prompt.as_str()) {
            return Err(ValidationError::EmptyPrompt);
        }
        fill(&mut self.model, DEFAULT_VIDEO_MODEL);
        let model = filled_value(&self.model);
        if !member(&VIDEO_MODELS, model) {
            return Err(ValidationError::InvalidVideoModel(model.to_string()));
        }
        fill(&mut self.resolution, DEFAULT_VIDEO_RESOLUTION);
        let resolution = filled_value(&self.resolution);
        if !member(&VIDEO_RESOLUTIONS, resolution) {
            return Err(ValidationError::InvalidResolution(resolution.to_string()));
        }
        fill(&mut self.ratio, DEFAULT_VIDEO_RATIO);
        let ratio = filled_value(&self.ratio);
        if !member(&VIDEO_RATIOS, ratio) {
            return Err(ValidationError::InvalidRatio(ratio.to_string()));
        }
        let duration: i32 = match self.duration {
            Some(d) => d,
            None => DEFAULT_VIDEO_DURATION,
        };
        self.duration = Some(duration);
        if duration < MIN_VIDEO_DURATION || duration > MAX_VIDEO_DURATION {
            return Err(ValidationError::InvalidDuration(duration));
        }
        Ok(())
    }
}

/// A value outside its field's enumeration is never accepted: an image
/// submission that names a model or a size which is not listed is turned
/// down.
pub proof fn lemma_image_outside_enumeration_rejected(p: ImageParamsView)
    requires
        (p.model matches Some(m) && !names(IMAGE_MODELS@).contains(m)) || (p.size matches Some(s)
            && !names(IMAGE_SIZES@).contains(s)),
    ensures
        p.rejection() is Some,
{
}

/// A value outside its field's enumeration or range is never accepted: a
/// video submission that names a model, a resolution or a ratio which is
/// not listed, or a duration outside the range, is turned down.
pub proof fn lemma_video_outside_enumeration_rejected(p: VideoParamsView)
    requires
        (p.model matches Some(m) && !names(VIDEO_MODELS@).contains(m)) || (p.resolution matches Some(
            r,
        ) && !names(VIDEO_RESOLUTIONS@).contains(r)) || (p.ratio matches Some(r) && !names(
            VIDEO_RATIOS@,
        ).contains(r)) || (p.duration matches Some(d) && !(MIN_VIDEO_DURATION <= d
            <= MAX_VIDEO_DURATION)),
    ensures
        p.rejection() is Some,
{
}

/// Normalising twice is normalising once: an accepted submission, with its
/// defaults filled in, is accepted again and changes no more.
pub proof fn lemma_image_normalize_idempotent(p: ImageParamsView)
    requires
        p.rejection() is None,
    ensures
        p.normalized().rejection() is None,
        p.normalized().normalized() == p.normalized(),
{
}

/// Normalising twice is normalising once: an accepted submission, with its
/// defaults filled in, is accepted again and changes no more.
pub proof fn lemma_video_normalize_idempotent(p: VideoParamsView)
    requires
        p.rejection() is None,
    ensures
        p.normalized().rejection() is None,
        p.normalized().normalized() == p.normalized(),
{
}

/// Why a task failed, over plain texts. Each variant holds the sentence
/// that goes into the record.
pub enum Failure {
    /// The record's input cannot be read or lacks a required field.
    InvalidInput(Seq<char>),
    /// The remote service answered with a failure, or with nothing.
    Remote(Seq<char>),
    /// The remote service answered with success, but not in the shape
    /// agreed on.
    Protocol(Seq<char>),
    /// A payload is not encoded as announced.
    Decode(Seq<char>),
    /// The remote job did not finish within the time allowed.
    Timeout(Seq<char>),
    /// The record or the asset could not be written.
    Store(Seq<char>),
}

impl Failure {
    /// The sentence that goes into the record.
    pub open spec fn message(self) -> Seq<char> {
        match self {
            Failure::InvalidInput(m) => m,
            Failure::Remote(m) => m,
            Failure::Protocol(m) => m,
            Failure::Decode(m) => m,
            Failure::Timeout(m) => m,
            Failure::Store(m) => m,
        }
    }
}

/// Why a task failed. Each variant holds the sentence that goes into the
/// record.
#[derive(Debug)]
pub enum TaskError {
    InvalidInput(String),
    Remote(String),
    Protocol(String),
    Decode(String),
    Timeout(String),
    Store(String),
}

impl View for TaskError {
    type V = Failure;

    open spec fn view(&self) -> Failure {
        match self {
            TaskError::InvalidInput(m) => Failure::InvalidInput(m@),
            TaskError::Remote(m) => Failure::Remote(m@),
            TaskError::Protocol(m) => Failure::Protocol(m@),
            TaskError::Decode(m) => Failure::Decode(m@),
            TaskError::Timeout(m) => Failure::Timeout(m@),
            TaskError::Store(m) => Failure::Store(m@),
        }
    }
}

impl TaskError {
    /// The sentence that goes into the record.
    pub fn message(&self) -> (r: &str)
        ensures
            r@ == self@.message(),
    {
        match self {
            TaskError::InvalidInput(m) => m.as_str(),
            TaskError::Remote(m) => m.as_str(),
            TaskError::Protocol(m) => m.as_str(),
            TaskError::Decode(m) => m.as_str(),
            TaskError::Timeout(m) => m.as_str(),
            TaskError::Store(m) => m.as_str(),
        }
    }
}

/// What a done task has produced, as the JSON object that goes into the
/// record: where the asset lies, and its pixel dimensions.
pub open spec fn output_text(asset_path: Seq<char>, width: u32, height: u32) -> Seq<char> {
    "{\"assetPath\":"@ + literal(asset_path) + ",\"height\":"@ + decimal_digits(height as nat)
        + ",\"width\":"@ + decimal_digits(width as nat) + "}"@
}

/// Writes the output of a done task.
pub fn write_output(asset_path: &str, width: u32, height: u32) -> (r: String)
    ensures
        r@ == output_text(asset_path@, width, height),
{
    let mut out = "{\"assetPath\":".to_string();
    let path = write_literal(asset_path);
    out.append(path.as_str());
    out.append(",\"height\":");
    let h = format_u64(height as u64);
    out.append(h.as_str());
    out.append(",\"width\":");
    let w = format_u64(width as u64);
    out.append(w.as_str());
    out.append("}");
    out
}

} // verus!
