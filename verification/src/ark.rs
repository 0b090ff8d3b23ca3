//! What the remote generation service is sent and what it answers: the
//! addresses of its endpoints, the values exchanged, and the failures that
//! a call can end in.

pub mod types;

use vstd::prelude::*;
use vstd::string::*;
use crate::tasks::{Failure, TaskError};

verus! {

/// The address of the service where the settings name none.
pub const DEFAULT_BASE_URL: &'static str = "https://ark.cn-beijing.volces.com/api/v3";

/// The address of the service where the settings name none.
pub fn default_base_url() -> (r: String)
    ensures
        r@ == DEFAULT_BASE_URL@,
{
    DEFAULT_BASE_URL.to_string()
}

/// The calls that the service offers.
#[derive(Debug, Clone, Copy, PartialEq, Eq, Structural)]
pub enum Endpoint {
    /// Generates images and answers with them.
    Images,
    /// Creates a video job and answers with its handle.
    VideoCreate,
    /// Reports the state of a video job.
    VideoStatus,
}

impl Endpoint {
    /// The path of the endpoint below the service's address; the state of
    /// a job lies below the path given here, under the job's handle.
    pub open spec fn path(self) -> Seq<char> {
        match self {
            Endpoint::Images => "/images/generations"@,
            Endpoint::VideoCreate => "/contents/generations/tasks"@,
            Endpoint::VideoStatus => "/contents/generations/tasks/"@,
        }
    }

    /// What the endpoint is called in messages.
    pub open spec fn label(self) -> Seq<char> {
        match self {
            Endpoint::Images => "image"@,
            Endpoint::VideoCreate => "video create"@,
            Endpoint::VideoStatus => "video status"@,
        }
    }

    /// What the call is called where it cannot be made.
    pub open spec fn request_label(self) -> Seq<char> {
        match self {
            Endpoint::Images => "image generation request failed"@,
            Endpoint::VideoCreate => "video task creation request failed"@,
            Endpoint::VideoStatus => "video task status request failed"@,
        }
    }

    /// What the answer is called where it cannot be read.
    pub open spec fn response_label(self) -> Seq<char> {
        match self {
            Endpoint::Images => "failed to parse image generation response"@,
            Endpoint::VideoCreate => "failed to parse video create response"@,
            Endpoint::VideoStatus => "failed to parse video task status response"@,
        }
    }

    /// The address of the endpoint: the service's address, the endpoint's
    /// path and, for the state of a job, the job's handle.
    pub open spec fn address(self, base_url: Seq<char>, handle: Seq<char>) -> Seq<char> {
        match self {
            Endpoint::VideoStatus => base_url + self.path() + handle,
            _ => base_url + self.path(),
        }
    }

    /// The failure of a call that the service answered with a status other
    /// than success: it carries the status and the answer's body.
    pub open spec fn rejected(self, status: Seq<char>, body: Seq<char>) -> Failure {
        Failure::Remote("ARK "@ + self.label() + " API error "@ + status + ": "@ + body)
    }

    /// The failure of a call that could not be made.
    pub open spec fn unreachable(self, reason: Seq<char>) -> Failure {
        Failure::Remote(self.request_label() + ": "@ + reason)
    }

    /// The failure of a call whose answer cannot be read.
    pub open spec fn unreadable(self, reason: Seq<char>) -> Failure {
        Failure::Protocol(self.response_label() + ": "@ + reason)
    }

    /// Writes the address of the endpoint. The handle counts for the state
    /// of a job only.
    pub fn url(self, base_url: &str, handle: &str) -> (r: String)
        ensures
            r@ == self.address(base_url@, handle@),
    {
        let mut out = base_url.to_string();
        match self {
            Endpoint::Images => {
                out.append("/images/generations");
            },
            Endpoint::VideoCreate => {
                out.append("/contents/generations/tasks");
            },
            Endpoint::VideoStatus => {
                out.append("/contents/generations/tasks/");
                out.append(handle);
            },
        }
        out
    }

    /// The failure of a call that the service answered with a status other
    /// than success.
    pub fn api_error(self, status: &str, body: &str) -> (r: TaskError)
        ensures
            r@ == self.rejected(status@, body@),
    {
        let mut out = "ARK ".to_string();
        match self {
            Endpoint::Images => out.append("image"),
            Endpoint::VideoCreate => out.append("video create"),
            Endpoint::VideoStatus => out.append("video status"),
        }
        out.append(" API error ");
        out.append(status);
        out.append(": ");
        out.append(body);
        TaskError::Remote(out)
    }

    /// The failure of a call that could not be made.
    pub fn request_error(self, reason: &str) -> (r: TaskError)
        ensures
            r@ == self.unreachable(reason@),
    {
        let mut out = match self {
            Endpoint::Images => "image generation request failed".to_string(),
            Endpoint::VideoCreate => "video task creation request failed".to_string(),
            Endpoint::VideoStatus => "video task status request failed".to_string(),
        };
        out.append(": ");
        out.append(reason);
        TaskError::Remote(out)
    }

    /// The failure of a call whose answer cannot be read.
    pub fn response_error(self, reason: &str) -> (r: TaskError)
        ensures
            r@ == self.unreadable(reason@),
    {
        let mut out = match self {
            Endpoint::Images => "failed to parse image generation response".to_string(),
            Endpoint::VideoCreate => "failed to parse video create response".to_string(),
            Endpoint::VideoStatus => "failed to parse video task status response".to_string(),
        };
        out.append(": ");
        out.append(reason);
        TaskError::Protocol(out)
    }
}

} // verus!
