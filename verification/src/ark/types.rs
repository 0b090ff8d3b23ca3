//! Requests and responses of the remote generation service, as plain
//! values.

use vstd::prelude::*;
use vstd::string::*;
use crate::text::opt_view;

verus! {

/// The response format asked of the image endpoint.
pub const RESPONSE_FORMAT_B64: &'static str = "b64_json";

/// The content type of a text prompt.
pub const CONTENT_TYPE_TEXT: &'static str = "text";

/// A request to the image endpoint.
#[derive(Debug)]
pub struct ImageGenRequest {
    pub model: String,
    pub prompt: String,
    pub size: Option<String>,
    pub n: Option<u32>,
    pub response_format: String,
    pub watermark: bool,
}

/// An image request over plain texts.
pub struct ImageGenRequestView {
    pub model: Seq<char>,
    pub prompt: Seq<char>,
    pub size: Option<Seq<char>>,
    pub n: Option<u32>,
    pub response_format: Seq<char>,
    pub watermark: bool,
}

impl View for ImageGenRequest {
    type V = ImageGenRequestView;

    open spec fn view(&self) -> ImageGenRequestView {
        ImageGenRequestView {
            model: self.model@,
            prompt: self.prompt@,
            size: opt_view(self.size),
            n: self.n,
            response_format: self.response_format@,
            watermark: self.watermark,
        }
    }
}

/// The answer of the image endpoint.
#[derive(Debug)]
pub struct ImageGenResponse {
    pub data: Vec<ImageGenItem>,
}

/// One generated image.
#[derive(Debug)]
pub struct ImageGenItem {
    pub b64_json: Option<String>,
    pub url: Option<String>,
    pub size: Option<String>,
}

/// A request to create a video job.
#[derive(Debug)]
pub struct VideoGenRequest {
    pub model: String,
    pub content: Vec<VideoContentItem>,
    pub resolution: Option<String>,
    pub ratio: Option<String>,
    pub duration: Option<i32>,
    pub watermark: bool,
}

/// One piece of a video request's content.
#[derive(Debug)]
pub struct VideoContentItem {
    pub content_type: String,
    pub text: Option<String>,
}

/// A video request over plain texts, for a request with a single piece of
/// content.
pub struct VideoGenRequestView {
    pub model: Seq<char>,
    pub content: Seq<(Seq<char>, Option<Seq<char>>)>,
    pub resolution: Option<Seq<char>>,
    pub ratio: Option<Seq<char>>,
    pub duration: Option<i32>,
    pub watermark: bool,
}

impl View for VideoGenRequest {
    type V = VideoGenRequestView;

    open spec fn view(&self) -> VideoGenRequestView {
        VideoGenRequestView {
            model: self.model@,
            content: Seq::new(
                self.content@.len(),
                |i: int| (self.content@[i].content_type@, opt_view(self.content@[i].text)),
            ),
            resolution: opt_view(self.resolution),
            ratio: opt_view(self.ratio),
            duration: self.duration,
            watermark: self.watermark,
        }
    }
}

/// The answer to the creation of a video job.
#[derive(Debug)]
pub struct VideoCreateResponse {
    pub id: Option<String>,
}

/// The state of a video job as the service reports it.
#[derive(Debug)]
pub struct VideoTaskStatus {
    pub id: Option<String>,
    pub status: Option<String>,
    pub content: Option<VideoTaskContent>,
    pub error: Option<VideoTaskError>,
}

/// Where the results of a finished video job can be fetched.
#[derive(Debug)]
pub struct VideoTaskContent {
    pub video_url: Option<String>,
    pub last_frame_url: Option<String>,
}

/// Why a video job failed.
#[derive(Debug)]
pub struct VideoTaskError {
    pub code: Option<String>,
    pub message: Option<String>,
}

} // verus!
