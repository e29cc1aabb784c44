//! The run itself: which step follows which reply, what is reported on the
//! way, and where the run ends.

use crate::clock::{format_utc, utc_now, utc_text, Timestamp};
use crate::commit::{Commit, CommitView};
use crate::exchange::{ApiError, ApiErrorView, Call, Reply, ReplyView, Request, RequestView};
use crate::gitlab::{
    found_commit, plain_result, reported_commit, reported_first_job, reported_pipeline,
    reported_play, GitLab, GitLabView,
};
use crate::text::{decimal, decimal_string};
use vstd::prelude::*;
use vstd::string::*;

verus! {

/// The ways in which a run ends well. None of them is an error.
#[derive(Clone, Copy, Debug, PartialEq, Eq, Structural)]
pub enum Outcome {
    /// The branch has no commit.
    NoCommits,
    /// The newest commit is as old as the freshness window, or older.
    CommitTooOld,
    /// The pipeline was created and has no job.
    NoJobs,
    /// The pipeline was created and its first job was started.
    JobStarted,
}

/// What a run reports on its way, one line each.
#[derive(Debug, Clone, PartialEq, Eq)]
pub enum Notice {
    FetchingCommit,
    NoCommits,
    LatestCommit(Commit),
    CommitTooOld,
    TriggeringPipeline,
    PipelineCreated(u64),
    StartingJob(u64),
    JobStarted,
    NoJobs,
}

/// A notice as contracts see it.
pub enum NoticeView {
    FetchingCommit,
    NoCommits,
    LatestCommit(CommitView),
    CommitTooOld,
    TriggeringPipeline,
    PipelineCreated(u64),
    StartingJob(u64),
    JobStarted,
    NoJobs,
}

impl View for Notice {
    type V = NoticeView;

    open spec fn view(&self) -> NoticeView {
        match self {
            Notice::FetchingCommit => NoticeView::FetchingCommit,
            Notice::NoCommits => NoticeView::NoCommits,
            Notice::LatestCommit(commit) => NoticeView::LatestCommit(commit@),
            Notice::CommitTooOld => NoticeView::CommitTooOld,
            Notice::TriggeringPipeline => NoticeView::TriggeringPipeline,
            Notice::PipelineCreated(id) => NoticeView::PipelineCreated(*id),
            Notice::StartingJob(id) => NoticeView::StartingJob(*id),
            Notice::JobStarted => NoticeView::JobStarted,
            Notice::NoJobs => NoticeView::NoJobs,
        }
    }
}

impl NoticeView {
    /// The line that the notice is printed as. A commit is reported with the
    /// date and time at which it was made, where that instant has a date.
    pub open spec fn text(self) -> Seq<char> {
        match self {
            NoticeView::FetchingCommit => "Fetching latest commit..."@,
            NoticeView::NoCommits => "No commits found."@,
            NoticeView::LatestCommit(commit) => match utc_text(
                commit.committed_date.secs,
                commit.committed_date.nanos,
            ) {
                Some(date) => "Latest commit: "@ + commit.id + " at "@ + date,
                None => "Latest commit: "@ + commit.id,
            },
            NoticeView::CommitTooOld => "Commit is too old."@,
            NoticeView::TriggeringPipeline => "Triggering pipeline..."@,
            NoticeView::PipelineCreated(id) => "Pipeline "@ + decimal(id as nat) + " created."@,
            NoticeView::StartingJob(id) => "Starting job "@ + decimal(id as nat) + "..."@,
            NoticeView::JobStarted => "Job started successfully."@,
            NoticeView::NoJobs => "No jobs found in the pipeline."@,
        }
    }
}

impl Notice {
    /// The line that the notice is printed as.
    pub fn text(&self) -> (line: String)
        ensures
            line@ == self@.text(),
    {
        match self {
            Notice::FetchingCommit => String::from_str("Fetching latest commit..."),
            Notice::NoCommits => String::from_str("No commits found."),
            Notice::LatestCommit(commit) => {
                let mut line = String::from_str("Latest commit: ");
                line.append(commit.id.as_str());
                match format_utc(commit.committed_date) {
                    Some(date) => {
                        line.append(" at ");
                        line.append(date.as_str());
                    },
                    None => {},
                }
                line
            },
            Notice::CommitTooOld => String::from_str("Commit is too old."),
            Notice::TriggeringPipeline => String::from_str("Triggering pipeline..."),
            Notice::PipelineCreated(id) => {
                let mut line = String::from_str("Pipeline ");
                let number = decimal_string(*id);
                line.append(number.as_str());
                line.append(" created.");
                line
            },
            Notice::StartingJob(id) => {
                let mut line = String::from_str("Starting job ");
                let number = decimal_string(*id);
                line.append(number.as_str());
                line.append("...");
                line
            },
            Notice::JobStarted => String::from_str("Job started successfully."),
            Notice::NoJobs => String::from_str("No jobs found in the pipeline."),
        }
    }
}

/// What is to be done after a step.
#[derive(Debug, Clone, PartialEq, Eq)]
pub enum Next<'a> {
    /// Send the request and come back with the reply.
    Send(Call, Request<'a>),
    /// The run is over and ended well.
    Stop(Outcome),
    /// The run is over because a call failed.
    Abort(ApiError),
}

/// What is to be done after a step, as contracts see it.
pub enum NextView {
    Send(Call, RequestView),
    Stop(Outcome),
    Abort(ApiErrorView),
}

impl<'a> View for Next<'a> {
    type V = NextView;

    open spec fn view(&self) -> NextView {
        match self {
            Next::Send(call, request) => NextView::Send(*call, request@),
            Next::Stop(outcome) => NextView::Stop(*outcome),
            Next::Abort(error) => NextView::Abort(error@),
        }
    }
}

impl NextView {
    /// The status with which the process ends, once the run is over: zero
    /// where it ended well, one where a call failed.
    pub open spec fn exit_code(self) -> Option<u8> {
        match self {
            NextView::Send(_, _) => None,
            NextView::Stop(_) => Some(0u8),
            NextView::Abort(_) => Some(1u8),
        }
    }
}

impl<'a> Next<'a> {
    /// The status with which the process ends, once the run is over: zero
    /// where it ended well, one where a call failed, and `None` while a
    /// request is still to be sent.
    pub fn exit_code(&self) -> (code: Option<u8>)
        ensures
            code == self@.exit_code(),
    {
        match self {
            Next::Send(_, _) => None,
            Next::Stop(_) => Some(0),
            Next::Abort(_) => Some(1),
        }
    }
}

/// One step of a run: the lines to report, then what to do.
#[derive(Debug, Clone, PartialEq, Eq)]
pub struct Step<'a> {
    pub notices: Vec<Notice>,
    pub next: Next<'a>,
}

/// A step as contracts see it.
pub struct StepView {
    pub notices: Seq<NoticeView>,
    pub next: NextView,
}

/// The notices of a list as contracts see them.
pub open spec fn notice_views(notices: Seq<Notice>) -> Seq<NoticeView> {
    notices.map_values(|notice: Notice| notice@)
}

impl<'a> View for Step<'a> {
    type V = StepView;

    open spec fn view(&self) -> StepView {
        StepView { notices: notice_views(self.notices@), next: self.next@ }
    }
}

/// The step that ends a run on a failed call. Nothing is reported but the
/// failure itself.
pub open spec fn aborted(error: ApiErrorView) -> StepView {
    StepView { notices: Seq::empty(), next: NextView::Abort(error) }
}

/// The step that opens a run: the newest commit is asked for.
pub open spec fn first_step(config: GitLabView) -> StepView {
    StepView {
        notices: seq![NoticeView::FetchingCommit],
        next: NextView::Send(Call::LatestCommit, config.commits_request()),
    }
}

/// The step that follows the commit request. Without a commit the run stops;
/// with a commit that is not recent at `now` it stops too; with a recent one
/// the pipeline is asked for.
pub open spec fn after_commit(
    config: GitLabView,
    found: Result<Option<CommitView>, ApiErrorView>,
    now: Timestamp,
) -> StepView {
    match found {
        Err(error) => aborted(error),
        Ok(None) => StepView {
            notices: seq![NoticeView::NoCommits],
            next: NextView::Stop(Outcome::NoCommits),
        },
        Ok(Some(commit)) => {
            if !commit.recent_at(now, config.commit_age_weeks as int) {
                StepView {
                    notices: seq![NoticeView::LatestCommit(commit), NoticeView::CommitTooOld],
                    next: NextView::Stop(Outcome::CommitTooOld),
                }
            } else {
                StepView {
                    notices: seq![
                        NoticeView::LatestCommit(commit),
                        NoticeView::TriggeringPipeline,
                    ],
                    next: match config.pipeline_request() {
                        Some(request) => NextView::Send(Call::TriggerPipeline, request),
                        None => NextView::Abort(ApiErrorView::Encode),
                    },
                }
            }
        },
    }
}

/// The step that follows the pipeline request: the jobs of the new pipeline
/// are asked for, under the identifier that the reply gave.
pub open spec fn after_trigger(config: GitLabView, created: Result<u64, ApiErrorView>) -> StepView {
    match created {
        Err(error) => aborted(error),
        Ok(pipeline_id) => StepView {
            notices: seq![NoticeView::PipelineCreated(pipeline_id)],
            next: NextView::Send(Call::ListJobs, config.jobs_request(pipeline_id)),
        },
    }
}

/// The step that follows the job request: the first job is started, or the
/// run stops where there is none.
pub open spec fn after_jobs(
    config: GitLabView,
    first: Result<Option<u64>, ApiErrorView>,
) -> StepView {
    match first {
        Err(error) => aborted(error),
        Ok(None) => StepView {
            notices: seq![NoticeView::NoJobs],
            next: NextView::Stop(Outcome::NoJobs),
        },
        Ok(Some(job_id)) => StepView {
            notices: seq![NoticeView::StartingJob(job_id)],
            next: NextView::Send(Call::PlayJob, config.play_request(job_id)),
        },
    }
}

/// The step that follows the request that starts a job: the run stops.
pub open spec fn after_play(played: Result<(), ApiErrorView>) -> StepView {
    match played {
        Err(error) => aborted(error),
        Ok(_) => StepView {
            notices: seq![NoticeView::JobStarted],
            next: NextView::Stop(Outcome::JobStarted),
        },
    }
}

/// The step that follows the reply to the call `pending`. The instant `now`
/// bears on the step after the commit request only.
pub open spec fn next_step(
    config: GitLabView,
    pending: Call,
    reply: ReplyView,
    now: Timestamp,
) -> StepView {
    match pending {
        Call::LatestCommit => after_commit(config, reported_commit(reply), now),
        Call::TriggerPipeline => after_trigger(config, reported_pipeline(reply)),
        Call::ListJobs => after_jobs(config, reported_first_job(reply)),
        Call::PlayJob => after_play(reported_play(reply)),
    }
}

fn abort<'a>(error: ApiError) -> (step: Step<'a>)
    ensures
        step@ == aborted(error@),
{
    let step = Step { notices: Vec::new(), next: Next::Abort(error) };
    assert(step@.notices =~= Seq::<NoticeView>::empty());
    step
}

fn stop<'a>(notice: Notice, outcome: Outcome) -> (step: Step<'a>)
    ensures
        step@ == (StepView { notices: seq![notice@], next: NextView::Stop(outcome) }),
{
    let mut notices = Vec::new();
    notices.push(notice);
    let step = Step { notices, next: Next::Stop(outcome) };
    assert(step@.notices =~= seq![notice@]);
    step
}

fn send<'a>(notice: Notice, call: Call, request: Request<'a>) -> (step: Step<'a>)
    ensures
        step@ == (StepView { notices: seq![notice@], next: NextView::Send(call, request@) }),
{
    let mut notices = Vec::new();
    notices.push(notice);
    let step = Step { notices, next: Next::Send(call, request) };
    assert(step@.notices =~= seq![notice@]);
    step
}

impl GitLab {
    /// Opens a run: the newest commit is asked for.
    pub fn begin(&self) -> (step: Step<'_>)
        ensures
            step@ == first_step(self@),
    {
        send(Notice::FetchingCommit, Call::LatestCommit, self.latest_commit_request())
    }

    /// The step that follows the commit request, given what its reply
    /// reported and the instant at which the commit's age is judged.
    pub fn judge_commit(&self, found: Result<Option<Commit>, ApiError>, now: Timestamp) -> (step:
        Step<'_>)
        ensures
            step@ == after_commit(self@, found_commit(found), now),
    {
        match found {
            Err(error) => abort(error),
            Ok(None) => stop(Notice::NoCommits, Outcome::NoCommits),
            Ok(Some(commit)) => {
                let recent = commit.is_recent_at(now, self.commit_age_weeks());
                let ghost seen = commit@;
                let mut notices = Vec::new();
                notices.push(Notice::LatestCommit(commit));
                if !recent {
                    notices.push(Notice::CommitTooOld);
                    let step = Step { notices, next: Next::Stop(Outcome::CommitTooOld) };
                    assert(step@.notices =~= seq![
                        NoticeView::LatestCommit(seen),
                        NoticeView::CommitTooOld,
                    ]);
                    step
                } else {
                    notices.push(Notice::TriggeringPipeline);
                    let next = match self.trigger_pipeline_request() {
                        Ok(request) => Next::Send(Call::TriggerPipeline, request),
                        Err(error) => Next::Abort(error),
                    };
                    let step = Step { notices, next };
                    assert(step@.notices =~= seq![
                        NoticeView::LatestCommit(seen),
                        NoticeView::TriggeringPipeline,
                    ]);
                    step
                }
            },
        }
    }

    /// The step that follows the pipeline request, given what its reply
    /// reported.
    pub fn follow_pipeline(&self, created: Result<u64, ApiError>) -> (step: Step<'_>)
        ensures
            step@ == after_trigger(self@, plain_result(created)),
    {
        match created {
            Err(error) => abort(error),
            Ok(pipeline_id) => send(
                Notice::PipelineCreated(pipeline_id),
                Call::ListJobs,
                self.first_job_request(pipeline_id),
            ),
        }
    }

    /// The step that follows the job request, given what its reply reported.
    pub fn start_first_job(&self, first: Result<Option<u64>, ApiError>) -> (step: Step<'_>)
        ensures
            step@ == after_jobs(self@, plain_result(first)),
    {
        match first {
            Err(error) => abort(error),
            Ok(None) => stop(Notice::NoJobs, Outcome::NoJobs),
            Ok(Some(job_id)) => send(
                Notice::StartingJob(job_id),
                Call::PlayJob,
                self.play_job_request(job_id),
            ),
        }
    }

    /// The step that follows the request that starts a job, given what its
    /// reply reported.
    pub fn finish(&self, played: Result<(), ApiError>) -> (step: Step<'_>)
        ensures
            step@ == after_play(plain_result(played)),
    {
        match played {
            Err(error) => abort(error),
            Ok(_) => stop(Notice::JobStarted, Outcome::JobStarted),
        }
    }

    /// The step that follows the reply to the call `pending`, with the age
    /// of a commit judged at `now`.
    pub fn advance_at(&self, pending: Call, reply: Reply, now: Timestamp) -> (step: Step<'_>)
        ensures
            step@ == next_step(self@, pending, reply@, now),
    {
        match pending {
            Call::LatestCommit => {
                let found = self.latest_commit(reply);
                self.judge_commit(found, now)
            },
            Call::TriggerPipeline => {
                let created = self.trigger_pipeline(reply);
                self.follow_pipeline(created)
            },
            Call::ListJobs => {
                let first = self.first_job(reply);
                self.start_first_job(first)
            },
            Call::PlayJob => {
                let played = self.play_job(reply);
                self.finish(played)
            },
        }
    }

    /// The step that follows the reply to the call `pending`, with the age
    /// of a commit judged by the system clock. The clock is read only where
    /// the reply reports a commit; the step is the one that `advance_at`
    /// gives for the instant that was read.
    pub fn advance(&self, pending: Call, reply: Reply) -> (step: Step<'_>)
        ensures
            exists|now: Timestamp| step@ == #[trigger] next_step(self@, pending, reply@, now),
    {
        match pending {
            Call::LatestCommit => {
                let found = self.latest_commit(reply);
                let now = match &found {
                    Ok(Some(_)) => utc_now(),
                    _ => Timestamp { secs: 0, nanos: 0 },
                };
                let step = self.judge_commit(found, now);
                assert(step@ == next_step(self@, pending, reply@, now));
                step
            },
            Call::TriggerPipeline => {
                let created = self.trigger_pipeline(reply);
                let step = self.follow_pipeline(created);
                assert(step@ == next_step(self@, pending, reply@, Timestamp { secs: 0, nanos: 0 }));
                step
            },
            Call::ListJobs => {
                let first = self.first_job(reply);
                let step = self.start_first_job(first);
                assert(step@ == next_step(self@, pending, reply@, Timestamp { secs: 0, nanos: 0 }));
                step
            },
            Call::PlayJob => {
                let played = self.play_job(reply);
                let step = self.finish(played);
                assert(step@ == next_step(self@, pending, reply@, Timestamp { secs: 0, nanos: 0 }));
                step
            },
        }
    }
}

} // verus!
