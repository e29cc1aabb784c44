//! What goes out to the remote and what comes back: requests, replies and
//! the ways in which a call can fail.

use crate::commit::{Commit, CommitView};
use crate::headers::header_entries;
use crate::text::{decimal, decimal_string};
use reqwest::header::{HeaderMap, HeaderValue};
use vstd::prelude::*;
use vstd::string::*;

verus! {

/// The verb of a request.
#[derive(Clone, Copy, Debug, PartialEq, Eq, Structural)]
pub enum Method {
    Get,
    Post,
}

/// The four calls that a run can make, in the order in which it makes them.
#[derive(Clone, Copy, Debug, PartialEq, Eq, Structural)]
pub enum Call {
    /// Ask for the newest commit on the branch.
    LatestCommit,
    /// Create a pipeline on the branch.
    TriggerPipeline,
    /// List the jobs of the pipeline just created.
    ListJobs,
    /// Start a job.
    PlayJob,
}

impl Call {
    /// The place of the call in a run, counted from zero.
    pub open spec fn rank(self) -> nat {
        match self {
            Call::LatestCommit => 0,
            Call::TriggerPipeline => 1,
            Call::ListJobs => 2,
            Call::PlayJob => 3,
        }
    }
}

/// A request, ready to be sent.
#[derive(Debug, Clone, PartialEq, Eq)]
pub struct Request<'a> {
    pub method: Method,
    pub url: String,
    /// The headers to send: those of the configuration that made the request.
    pub headers: &'a HeaderMap<HeaderValue>,
    /// The JSON text to send, if the request carries any.
    pub body: Option<String>,
}

/// A request as contracts see it.
pub struct RequestView {
    pub method: Method,
    pub url: Seq<char>,
    /// For each header name, the values sent under it.
    pub headers: Map<Seq<char>, Seq<Seq<u8>>>,
    pub body: Option<Seq<char>>,
}

impl<'a> View for Request<'a> {
    type V = RequestView;

    open spec fn view(&self) -> RequestView {
        RequestView {
            method: self.method,
            url: self.url@,
            headers: header_entries(*self.headers),
            body: match self.body {
                Some(text) => Some(text@),
                None => None,
            },
        }
    }
}

/// What a response carried, once decoded.
#[derive(Debug, Clone, PartialEq, Eq)]
pub enum Body {
    /// A list of commits, newest first.
    Commits(Vec<Commit>),
    /// The identifier of a pipeline.
    Pipeline(u64),
    /// The identifiers of a pipeline's jobs, in the order of the response.
    Jobs(Vec<u64>),
    /// Nothing that the run reads.
    Empty,
    /// Text that could not be decoded, with the decoder's complaint.
    Malformed(String),
}

/// A response body as contracts see it.
pub enum BodyView {
    Commits(Seq<CommitView>),
    Pipeline(u64),
    Jobs(Seq<u64>),
    Empty,
    Malformed(Seq<char>),
}

/// The commits of a list as contracts see them.
pub open spec fn commit_views(commits: Seq<Commit>) -> Seq<CommitView> {
    commits.map_values(|commit: Commit| commit@)
}

impl View for Body {
    type V = BodyView;

    open spec fn view(&self) -> BodyView {
        match self {
            Body::Commits(commits) => BodyView::Commits(commit_views(commits@)),
            Body::Pipeline(id) => BodyView::Pipeline(*id),
            Body::Jobs(jobs) => BodyView::Jobs(jobs@),
            Body::Empty => BodyView::Empty,
            Body::Malformed(complaint) => BodyView::Malformed(complaint@),
        }
    }
}

/// How a call ended on the wire.
#[derive(Debug, Clone, PartialEq, Eq)]
pub enum Reply {
    /// The remote answered.
    Response { status: u16, body: Body },
    /// No answer arrived; the text says why.
    Failed(String),
}

/// A reply as contracts see it.
pub enum ReplyView {
    Response { status: u16, body: BodyView },
    Failed(Seq<char>),
}

impl View for Reply {
    type V = ReplyView;

    open spec fn view(&self) -> ReplyView {
        match self {
            Reply::Response { status, body } => ReplyView::Response { status: *status, body: body@ },
            Reply::Failed(reason) => ReplyView::Failed(reason@),
        }
    }
}

/// Why a call counts as failed. Each of these ends the run.
#[derive(Debug, Clone, PartialEq, Eq)]
pub enum ApiError {
    /// No answer arrived.
    Transport(String),
    /// The remote answered with a status outside 200 to 299.
    Status(u16),
    /// The answer could not be decoded.
    Decode(String),
    /// The answer was decoded as something that the call does not return.
    UnexpectedBody,
    /// The body of the request could not be written.
    Encode,
}

/// A failure as contracts see it.
pub enum ApiErrorView {
    Transport(Seq<char>),
    Status(u16),
    Decode(Seq<char>),
    UnexpectedBody,
    Encode,
}

impl View for ApiError {
    type V = ApiErrorView;

    open spec fn view(&self) -> ApiErrorView {
        match self {
            ApiError::Transport(reason) => ApiErrorView::Transport(reason@),
            ApiError::Status(status) => ApiErrorView::Status(*status),
            ApiError::Decode(complaint) => ApiErrorView::Decode(complaint@),
            ApiError::UnexpectedBody => ApiErrorView::UnexpectedBody,
            ApiError::Encode => ApiErrorView::Encode,
        }
    }
}

impl ApiErrorView {
    /// The line that reports the failure.
    pub open spec fn message(self) -> Seq<char> {
        match self {
            ApiErrorView::Transport(reason) => "request failed: "@ + reason,
            ApiErrorView::Status(status) => "unexpected HTTP status "@ + decimal(status as nat),
            ApiErrorView::Decode(complaint) => "malformed response: "@ + complaint,
            ApiErrorView::UnexpectedBody => "unexpected response body"@,
            ApiErrorView::Encode => "request body could not be encoded"@,
        }
    }
}

impl ApiError {
    /// The line that reports the failure.
    pub fn message(&self) -> (line: String)
        ensures
            line@ == self@.message(),
    {
        match self {
            ApiError::Transport(reason) => {
                let mut line = String::from_str("request failed: ");
                line.append(reason.as_str());
                line
            },
            ApiError::Status(status) => {
                let mut line = String::from_str("unexpected HTTP status ");
                let code = decimal_string(*status as u64);
                line.append(code.as_str());
                line
            },
            ApiError::Decode(complaint) => {
                let mut line = String::from_str("malformed response: ");
                line.append(complaint.as_str());
                line
            },
            ApiError::UnexpectedBody => String::from_str("unexpected response body"),
            ApiError::Encode => String::from_str("request body could not be encoded"),
        }
    }
}

/// A status that reports success: 200 to 299.
pub open spec fn is_success(status: u16) -> bool {
    200 <= status < 300
}

/// Whether `status` reports success.
pub fn status_is_success(status: u16) -> (success: bool)
    ensures
        success == is_success(status),
{
    200 <= status && status < 300
}

/// What a reply delivers: the decoded body of a successful response, or the
/// reason for which the call failed. A status outside 200 to 299 fails the
/// call whatever the body holds.
pub open spec fn delivered(reply: ReplyView) -> Result<BodyView, ApiErrorView> {
    match reply {
        ReplyView::Failed(reason) => Err(ApiErrorView::Transport(reason)),
        ReplyView::Response { status, body } => {
            if !is_success(status) {
                Err(ApiErrorView::Status(status))
            } else {
                match body {
                    BodyView::Malformed(complaint) => Err(ApiErrorView::Decode(complaint)),
                    _ => Ok(body),
                }
            }
        },
    }
}

/// A result as contracts see it.
pub open spec fn body_result(outcome: Result<Body, ApiError>) -> Result<BodyView, ApiErrorView> {
    match outcome {
        Ok(body) => Ok(body@),
        Err(error) => Err(error@),
    }
}

impl Reply {
    /// The decoded body of a successful response, or the reason for which
    /// the call failed.
    pub fn into_body(self) -> (outcome: Result<Body, ApiError>)
        ensures
            body_result(outcome) == delivered(self@),
    {
        match self {
            Reply::Failed(reason) => Err(ApiError::Transport(reason)),
            Reply::Response { status, body } => {
                if !status_is_success(status) {
                    Err(ApiError::Status(status))
                } else {
                    match body {
                        Body::Malformed(complaint) => Err(ApiError::Decode(complaint)),
                        other => Ok(other),
                    }
                }
            },
        }
    }
}

} // verus!
