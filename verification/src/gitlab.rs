//! The configuration of a run, the four requests that it can make and the
//! reading of their replies.

use crate::commit::{Commit, CommitView};
use crate::exchange::{
    delivered, ApiError, ApiErrorView, Body, BodyView, Method, Reply, ReplyView, Request,
    RequestView,
};
use crate::headers::{
    empty_headers, header_entries, header_value, insert_header, is_header_value,
    is_plain_header_name, no_headers,
};
use crate::json::{pipeline_payload, ref_payload};
use crate::text::{decimal, decimal_string, text_of};
use reqwest::header::{HeaderMap, HeaderValue};
use vstd::pervasive::unreached;
use vstd::prelude::*;
use vstd::string::*;
use vstd::utf8::encode_utf8;

verus! {

/// Where the remote's interface begins.
pub const GITLAB_API_URL: &'static str = "https://gitlab.com/api/v4";

/// The branch that is tracked when none is named.
pub const DEFAULT_BRANCH: &'static str = "master";

/// The width of the freshness window, in weeks, that a new configuration has.
pub const DEFAULT_COMMIT_AGE_WEEKS: i64 = 2;

/// The header that carries the access token.
pub const TOKEN_HEADER: &'static str = "private-token";

/// The header that names the kind of content.
pub const CONTENT_TYPE_HEADER: &'static str = "content-type";

/// The kind of content that every request announces.
pub const JSON_CONTENT_TYPE: &'static str = "application/json";

/// Why a configuration could not be made.
#[derive(Clone, Copy, Debug, PartialEq, Eq, Structural)]
pub enum ConfigError {
    /// No access token was given.
    MissingToken,
    /// No project identifier was given.
    MissingProjectId,
    /// The access token holds a byte that no header value may hold.
    InvalidToken,
}

impl ConfigError {
    /// The line that reports the error.
    pub open spec fn spec_message(self) -> Seq<char> {
        match self {
            ConfigError::MissingToken => "Missing GITLAB_PRIVATE_TOKEN"@,
            ConfigError::MissingProjectId => "Missing GITLAB_PROJECT_ID"@,
            ConfigError::InvalidToken => "failed to parse header value"@,
        }
    }

    /// The line that reports the error.
    pub fn message(&self) -> (line: String)
        ensures
            line@ == self.spec_message(),
    {
        match self {
            ConfigError::MissingToken => String::from_str("Missing GITLAB_PRIVATE_TOKEN"),
            ConfigError::MissingProjectId => String::from_str("Missing GITLAB_PROJECT_ID"),
            ConfigError::InvalidToken => String::from_str("failed to parse header value"),
        }
    }
}

/// The configuration of a run: which project and branch to look at, how to
/// sign the requests, and how old a commit may be. It is made once and read
/// from then on.
pub struct GitLab {
    project_id: String,
    token: String,
    branch: String,
    headers: HeaderMap<HeaderValue>,
    /// The width of the freshness window, in weeks.
    pub commit_age_weeks: i64,
}

/// A configuration as contracts see it.
pub struct GitLabView {
    pub project_id: Seq<char>,
    pub token: Seq<char>,
    pub branch: Seq<char>,
    /// For each header name, the values sent under it.
    pub headers: Map<Seq<char>, Seq<Seq<u8>>>,
    pub commit_age_weeks: i64,
}

impl View for GitLab {
    type V = GitLabView;

    closed spec fn view(&self) -> GitLabView {
        GitLabView {
            project_id: self.project_id@,
            token: self.token@,
            branch: self.branch@,
            headers: header_entries(self.headers),
            commit_age_weeks: self.commit_age_weeks,
        }
    }
}

/// The headers that sign a request with `token`: the token itself and the
/// announcement that the content is JSON.
pub open spec fn auth_headers(token: Seq<char>) -> Map<Seq<char>, Seq<Seq<u8>>> {
    no_headers().insert(TOKEN_HEADER@, seq![encode_utf8(token)]).insert(
        CONTENT_TYPE_HEADER@,
        seq![encode_utf8(JSON_CONTENT_TYPE@)],
    )
}

impl GitLabView {
    /// The headers are those that sign requests with the token.
    pub open spec fn wf(self) -> bool {
        self.headers == auth_headers(self.token)
    }
}

/// What the given settings make: a configuration, or the first of the
/// reasons for which there is none. A branch that is not named is the
/// default branch, and the freshness window is the default one.
pub open spec fn configured(
    token: Option<Seq<char>>,
    project_id: Option<Seq<char>>,
    branch: Option<Seq<char>>,
) -> Result<GitLabView, ConfigError> {
    match (token, project_id) {
        (None, _) => Err(ConfigError::MissingToken),
        (Some(_), None) => Err(ConfigError::MissingProjectId),
        (Some(token), Some(project_id)) => {
            if !is_header_value(encode_utf8(token)) {
                Err(ConfigError::InvalidToken)
            } else {
                Ok(
                    GitLabView {
                        project_id,
                        token,
                        branch: match branch {
                            Some(name) => name,
                            None => DEFAULT_BRANCH@,
                        },
                        headers: auth_headers(token),
                        commit_age_weeks: DEFAULT_COMMIT_AGE_WEEKS,
                    },
                )
            }
        },
    }
}

/// A made configuration as contracts see it.
pub open spec fn made(outcome: Result<GitLab, ConfigError>) -> Result<GitLabView, ConfigError> {
    match outcome {
        Ok(gitlab) => Ok(gitlab@),
        Err(error) => Err(error),
    }
}

/// The address that lists the newest commit of `branch`.
pub open spec fn commits_url(project_id: Seq<char>, branch: Seq<char>) -> Seq<char> {
    GITLAB_API_URL@ + "/projects/"@ + project_id + "/repository/commits?ref_name="@ + branch
        + "&per_page=1"@
}

/// The address that creates a pipeline.
pub open spec fn pipeline_url(project_id: Seq<char>) -> Seq<char> {
    GITLAB_API_URL@ + "/projects/"@ + project_id + "/pipeline"@
}

/// The address that lists the jobs of a pipeline.
pub open spec fn jobs_url(project_id: Seq<char>, pipeline_id: u64) -> Seq<char> {
    GITLAB_API_URL@ + "/projects/"@ + project_id + "/pipelines/"@ + decimal(pipeline_id as nat)
        + "/jobs"@
}

/// The address that starts a job.
pub open spec fn play_url(project_id: Seq<char>, job_id: u64) -> Seq<char> {
    GITLAB_API_URL@ + "/projects/"@ + project_id + "/jobs/"@ + decimal(job_id as nat) + "/play"@
}

impl GitLabView {
    /// The request for the newest commit on the branch. Like every request,
    /// it carries the headers of the configuration.
    pub open spec fn commits_request(self) -> RequestView {
        RequestView {
            method: Method::Get,
            url: commits_url(self.project_id, self.branch),
            headers: self.headers,
            body: None,
        }
    }

    /// The request that creates a pipeline on the branch, where its body can
    /// be written.
    pub open spec fn pipeline_request(self) -> Option<RequestView> {
        match ref_payload(self.branch) {
            Some(payload) => Some(
                RequestView {
                    method: Method::Post,
                    url: pipeline_url(self.project_id),
                    headers: self.headers,
                    body: Some(payload),
                },
            ),
            None => None,
        }
    }

    /// The request for the jobs of a pipeline.
    pub open spec fn jobs_request(self, pipeline_id: u64) -> RequestView {
        RequestView {
            method: Method::Get,
            url: jobs_url(self.project_id, pipeline_id),
            headers: self.headers,
            body: None,
        }
    }

    /// The request that starts a job.
    pub open spec fn play_request(self, job_id: u64) -> RequestView {
        RequestView {
            method: Method::Post,
            url: play_url(self.project_id, job_id),
            headers: self.headers,
            body: None,
        }
    }
}

/// The newest commit that a reply to the commit request reports, if it
/// reports any, or the reason for which the call failed.
pub open spec fn reported_commit(reply: ReplyView) -> Result<Option<CommitView>, ApiErrorView> {
    match delivered(reply) {
        Err(error) => Err(error),
        Ok(BodyView::Commits(commits)) => if commits.len() == 0 {
            Ok(None)
        } else {
            Ok(Some(commits[0]))
        },
        Ok(_) => Err(ApiErrorView::UnexpectedBody),
    }
}

/// The identifier of the pipeline that a reply to the pipeline request
/// reports, or the reason for which the call failed.
pub open spec fn reported_pipeline(reply: ReplyView) -> Result<u64, ApiErrorView> {
    match delivered(reply) {
        Err(error) => Err(error),
        Ok(BodyView::Pipeline(id)) => Ok(id),
        Ok(_) => Err(ApiErrorView::UnexpectedBody),
    }
}

/// The first job that a reply to the job request lists, if it lists any, or
/// the reason for which the call failed.
pub open spec fn reported_first_job(reply: ReplyView) -> Result<Option<u64>, ApiErrorView> {
    match delivered(reply) {
        Err(error) => Err(error),
        Ok(BodyView::Jobs(jobs)) => if jobs.len() == 0 {
            Ok(None)
        } else {
            Ok(Some(jobs[0]))
        },
        Ok(_) => Err(ApiErrorView::UnexpectedBody),
    }
}

/// Whether a reply to the request that starts a job reports success, or the
/// reason for which the call failed. The body is not read.
pub open spec fn reported_play(reply: ReplyView) -> Result<(), ApiErrorView> {
    match delivered(reply) {
        Err(ApiErrorView::Decode(_)) => Ok(()),
        Err(error) => Err(error),
        Ok(_) => Ok(()),
    }
}

/// A commit that was or was not found, as contracts see it.
pub open spec fn found_commit(outcome: Result<Option<Commit>, ApiError>) -> Result<
    Option<CommitView>,
    ApiErrorView,
> {
    match outcome {
        Ok(Some(commit)) => Ok(Some(commit@)),
        Ok(None) => Ok(None),
        Err(error) => Err(error@),
    }
}

/// A plain value or a failure, as contracts see it.
pub open spec fn plain_result<T>(outcome: Result<T, ApiError>) -> Result<T, ApiErrorView> {
    match outcome {
        Ok(value) => Ok(value),
        Err(error) => Err(error@),
    }
}

/// A request that was or was not made, as contracts see it.
pub open spec fn made_request(outcome: Result<Request<'_>, ApiError>) -> Option<RequestView> {
    match outcome {
        Ok(request) => Some(request@),
        Err(_) => None,
    }
}

proof fn lemma_header_names_are_plain()
    ensures
        is_plain_header_name(TOKEN_HEADER@),
        is_plain_header_name(CONTENT_TYPE_HEADER@),
{
    reveal_strlit("private-token");
    reveal_strlit("content-type");
}

proof fn lemma_content_type_is_header_value()
    ensures
        is_header_value(encode_utf8(JSON_CONTENT_TYPE@)),
{
    reveal_strlit("application/json");
    let text: &str = JSON_CONTENT_TYPE;
    assert(is_ascii(text));
    is_ascii_spec_bytes(text);
    assert(text.spec_bytes() == encode_utf8(JSON_CONTENT_TYPE@));
}

impl GitLab {
    /// Makes the configuration of a run from the settings that the
    /// surroundings hold: the access token and the project identifier, which
    /// must both be there, and the branch, which need not. The freshness
    /// window starts at two weeks.
    pub fn new(token: Option<String>, project_id: Option<String>, branch: Option<String>) -> (outcome:
        Result<GitLab, ConfigError>)
        ensures
            made(outcome) == configured(text_of(token), text_of(project_id), text_of(branch)),
            outcome matches Ok(gitlab) ==> gitlab@.wf(),
    {
        let token = match token {
            Some(token) => token,
            None => { return Err(ConfigError::MissingToken); },
        };
        let project_id = match project_id {
            Some(project_id) => project_id,
            None => { return Err(ConfigError::MissingProjectId); },
        };
        let branch = match branch {
            Some(branch) => branch,
            None => String::from_str(DEFAULT_BRANCH),
        };
        proof {
            lemma_header_names_are_plain();
            lemma_content_type_is_header_value();
        }
        let token_value = match header_value(token.as_str()) {
            Ok(value) => value,
            Err(_) => { return Err(ConfigError::InvalidToken); },
        };
        let content_type = match header_value(JSON_CONTENT_TYPE) {
            Ok(value) => value,
            Err(_) => unreached(),
        };
        let mut headers = empty_headers();
        assert(header_entries(headers).dom() =~= Set::<Seq<char>>::empty());
        insert_header(&mut headers, TOKEN_HEADER, token_value);
        assert(header_entries(headers).dom() =~= set![TOKEN_HEADER@]);
        insert_header(&mut headers, CONTENT_TYPE_HEADER, content_type);
        Ok(
            GitLab {
                project_id,
                token,
                branch,
                headers,
                commit_age_weeks: DEFAULT_COMMIT_AGE_WEEKS,
            },
        )
    }

    /// The identifier of the project.
    pub fn project_id(&self) -> (id: &str)
        ensures
            id@ == self@.project_id,
    {
        self.project_id.as_str()
    }

    /// The access token.
    pub fn token(&self) -> (token: &str)
        ensures
            token@ == self@.token,
    {
        self.token.as_str()
    }

    /// The tracked branch.
    pub fn branch(&self) -> (name: &str)
        ensures
            name@ == self@.branch,
    {
        self.branch.as_str()
    }

    /// The width of the freshness window, in weeks.
    pub fn commit_age_weeks(&self) -> (weeks: i64)
        ensures
            weeks == self@.commit_age_weeks,
    {
        self.commit_age_weeks
    }

    /// The headers that every request carries.
    pub fn headers(&self) -> (headers: &HeaderMap<HeaderValue>)
        ensures
            header_entries(*headers) == self@.headers,
    {
        &self.headers
    }

    /// The request for the newest commit on the branch.
    pub fn latest_commit_request(&self) -> (request: Request<'_>)
        ensures
            request@ == self@.commits_request(),
    {
        let mut url = String::from_str(GITLAB_API_URL);
        url.append("/projects/");
        url.append(self.project_id.as_str());
        url.append("/repository/commits?ref_name=");
        url.append(self.branch.as_str());
        url.append("&per_page=1");
        Request { method: Method::Get, url, headers: &self.headers, body: None }
    }

    /// Reads the reply to the commit request: the newest commit on the
    /// branch, `None` where the branch has no commit, or the reason for which
    /// the call failed.
    pub fn latest_commit(&self, reply: Reply) -> (outcome: Result<Option<Commit>, ApiError>)
        ensures
            found_commit(outcome) == reported_commit(reply@),
    {
        match reply.into_body() {
            Err(error) => Err(error),
            Ok(Body::Commits(commits)) => {
                let mut commits = commits;
                if commits.len() == 0 {
                    Ok(None)
                } else {
                    Ok(Some(commits.remove(0)))
                }
            },
            Ok(_) => Err(ApiError::UnexpectedBody),
        }
    }

    /// The request that creates a pipeline on the branch. It fails only
    /// where the name of the branch cannot be written as JSON.
    pub fn trigger_pipeline_request(&self) -> (outcome: Result<Request<'_>, ApiError>)
        ensures
            made_request(outcome) == self@.pipeline_request(),
            outcome matches Err(error) ==> error == ApiError::Encode,
    {
        match pipeline_payload(self.branch.as_str()) {
            Some(payload) => {
                let mut url = String::from_str(GITLAB_API_URL);
                url.append("/projects/");
                url.append(self.project_id.as_str());
                url.append("/pipeline");
                Ok(Request { method: Method::Post, url, headers: &self.headers, body: Some(payload) })
            },
            None => Err(ApiError::Encode),
        }
    }

    /// Reads the reply to the pipeline request: the identifier of the new
    /// pipeline, or the reason for which the call failed.
    pub fn trigger_pipeline(&self, reply: Reply) -> (outcome: Result<u64, ApiError>)
        ensures
            plain_result(outcome) == reported_pipeline(reply@),
    {
        match reply.into_body() {
            Err(error) => Err(error),
            Ok(Body::Pipeline(id)) => Ok(id),
            Ok(_) => Err(ApiError::UnexpectedBody),
        }
    }

    /// The request for the jobs of a pipeline.
    pub fn first_job_request(&self, pipeline_id: u64) -> (request: Request<'_>)
        ensures
            request@ == self@.jobs_request(pipeline_id),
    {
        let mut url = String::from_str(GITLAB_API_URL);
        url.append("/projects/");
        url.append(self.project_id.as_str());
        url.append("/pipelines/");
        let id = decimal_string(pipeline_id);
        url.append(id.as_str());
        url.append("/jobs");
        Request { method: Method::Get, url, headers: &self.headers, body: None }
    }

    /// Reads the reply to the job request: the first job in the order of the
    /// response, `None` where the pipeline has no job, or the reason for
    /// which the call failed.
    pub fn first_job(&self, reply: Reply) -> (outcome: Result<Option<u64>, ApiError>)
        ensures
            plain_result(outcome) == reported_first_job(reply@),
    {
        match reply.into_body() {
            Err(error) => Err(error),
            Ok(Body::Jobs(jobs)) => {
                if jobs.len() == 0 {
                    Ok(None)
                } else {
                    Ok(Some(jobs[0]))
                }
            },
            Ok(_) => Err(ApiError::UnexpectedBody),
        }
    }

    /// The request that starts a job.
    pub fn play_job_request(&self, job_id: u64) -> (request: Request<'_>)
        ensures
            request@ == self@.play_request(job_id),
    {
        let mut url = String::from_str(GITLAB_API_URL);
        url.append("/projects/");
        url.append(self.project_id.as_str());
        url.append("/jobs/");
        let id = decimal_string(job_id);
        url.append(id.as_str());
        url.append("/play");
        Request { method: Method::Post, url, headers: &self.headers, body: None }
    }

    /// Reads the reply to the request that starts a job: success, or the
    /// reason for which the call failed. Any status from 200 to 299 is a
    /// success, whatever the body holds.
    pub fn play_job(&self, reply: Reply) -> (outcome: Result<(), ApiError>)
        ensures
            plain_result(outcome) == reported_play(reply@),
    {
        match reply.into_body() {
            Err(ApiError::Decode(_)) => Ok(()),
            Err(error) => Err(error),
            Ok(_) => Ok(()),
        }
    }
}

} // verus!
