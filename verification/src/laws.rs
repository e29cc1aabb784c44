//! What holds of every run.

use crate::clock::Timestamp;
use crate::commit::CommitView;
use crate::exchange::{
    delivered, is_success, ApiErrorView, BodyView, Call, ReplyView, RequestView,
};
use crate::gitlab::{
    auth_headers, jobs_url, play_url, reported_commit, reported_first_job, reported_pipeline,
    GitLabView, GITLAB_API_URL,
};
use crate::replay::{run, run_from, TranscriptView};
use crate::text::{decimal, lemma_decimal_injective};
use crate::workflow::{aborted, first_step, next_step, NextView, NoticeView, Outcome, StepView};
use vstd::prelude::*;

verus! {

/// The call that a step asks for stands at place `rank` of a run, if the
/// step asks for a call at all.
pub open spec fn asks_at(step: StepView, rank: nat) -> bool {
    step.next matches NextView::Send(call, _) ==> call.rank() == rank
}

/// The replies lead the run as far as a new pipeline: the newest commit is
/// recent at `now`, the request for a pipeline can be written, and the reply
/// to it names the pipeline `pipeline_id`.
pub open spec fn creates_pipeline(
    config: GitLabView,
    replies: Seq<ReplyView>,
    now: Timestamp,
    pipeline_id: u64,
) -> bool {
    &&& replies.len() >= 2
    &&& reported_commit(replies[0]) matches Ok(Some(commit)) && commit.recent_at(
        now,
        config.commit_age_weeks as int,
    )
    &&& config.pipeline_request() is Some
    &&& reported_pipeline(replies[1]) == Ok::<u64, ApiErrorView>(pipeline_id)
}

/// After the reply to a call, the only call that can follow is the next one
/// in order.
pub proof fn lemma_step_moves_forward(
    config: GitLabView,
    pending: Call,
    reply: ReplyView,
    now: Timestamp,
)
    ensures
        asks_at(next_step(config, pending, reply, now), pending.rank() + 1),
{
}

proof fn lemma_rest_in_order(
    config: GitLabView,
    step: StepView,
    replies: Seq<ReplyView>,
    now: Timestamp,
    rank: nat,
)
    requires
        asks_at(step, rank),
    ensures
        run_from(config, step, replies, now).sent.len() <= replies.len() + 1,
        forall|i: int|
            0 <= i < run_from(config, step, replies, now).sent.len() ==> (#[trigger] run_from(
                config,
                step,
                replies,
                now,
            ).sent[i]).0.rank() == rank + i,
    decreases replies.len(),
{
    if let NextView::Send(call, request) = step.next {
        if replies.len() > 0 {
            let following = next_step(config, call, replies[0], now);
            lemma_step_moves_forward(config, call, replies[0], now);
            lemma_rest_in_order(config, following, replies.drop_first(), now, rank + 1);
            let rest = run_from(config, following, replies.drop_first(), now);
            let all = run_from(config, step, replies, now);
            assert(all.sent == seq![(call, request)] + rest.sent);
            assert forall|i: int| 0 <= i < all.sent.len() implies (#[trigger] all.sent[i]).0.rank()
                == rank + i by {
                if i > 0 {
                    assert(all.sent[i] == rest.sent[i - 1]);
                }
            }
        }
    }
}

/// In every run the calls are made in their order, each at most once: the
/// request at place `i` makes the call of rank `i`. A run sends at most four
/// requests, and at most one more than it has replies.
pub proof fn lemma_calls_in_order(config: GitLabView, replies: Seq<ReplyView>, now: Timestamp)
    ensures
        run(config, replies, now).sent.len() <= 4,
        run(config, replies, now).sent.len() <= replies.len() + 1,
        forall|i: int|
            0 <= i < run(config, replies, now).sent.len() ==> (#[trigger] run(
                config,
                replies,
                now,
            ).sent[i]).0.rank() == i,
{
    lemma_rest_in_order(config, first_step(config), replies, now, 0);
    let sent = run(config, replies, now).sent;
    if sent.len() > 4 {
        assert(sent[4].0.rank() == 4);
    }
}

/// The request that a step asks for carries the headers of the
/// configuration, if the step asks for a request at all.
pub open spec fn asks_with_headers(step: StepView, config: GitLabView) -> bool {
    step.next matches NextView::Send(_, request) ==> request.headers == config.headers
}

proof fn lemma_rest_carries_headers(
    config: GitLabView,
    step: StepView,
    replies: Seq<ReplyView>,
    now: Timestamp,
)
    requires
        asks_with_headers(step, config),
    ensures
        forall|i: int|
            0 <= i < run_from(config, step, replies, now).sent.len() ==> (#[trigger] run_from(
                config,
                step,
                replies,
                now,
            ).sent[i]).1.headers == config.headers,
    decreases replies.len(),
{
    if let NextView::Send(call, request) = step.next {
        if replies.len() > 0 {
            let following = next_step(config, call, replies[0], now);
            lemma_rest_carries_headers(config, following, replies.drop_first(), now);
            let rest = run_from(config, following, replies.drop_first(), now);
            let all = run_from(config, step, replies, now);
            assert(all.sent == seq![(call, request)] + rest.sent);
            assert forall|i: int| 0 <= i < all.sent.len() implies (#[trigger] all.sent[i]).1.headers
                == config.headers by {
                if i > 0 {
                    assert(all.sent[i] == rest.sent[i - 1]);
                }
            }
        }
    }
}

/// Every request of a run carries the headers of the configuration: the
/// access token and the announcement that the content is JSON.
pub proof fn lemma_every_request_is_signed(
    config: GitLabView,
    replies: Seq<ReplyView>,
    now: Timestamp,
)
    requires
        config.wf(),
    ensures
        forall|i: int|
            0 <= i < run(config, replies, now).sent.len() ==> (#[trigger] run(
                config,
                replies,
                now,
            ).sent[i]).1.headers == auth_headers(config.token),
{
    lemma_rest_carries_headers(config, first_step(config), replies, now);
}

/// A branch without a commit ends the run well after the first request:
/// "no commits" is reported, the process ends with status zero, and no
/// pipeline is asked for.
pub proof fn lemma_no_commit_stops_run(config: GitLabView, replies: Seq<ReplyView>, now: Timestamp)
    requires
        replies.len() >= 1,
        reported_commit(replies[0]) == Ok::<Option<CommitView>, ApiErrorView>(None),
    ensures
        run(config, replies, now) == (TranscriptView {
            sent: seq![(Call::LatestCommit, config.commits_request())],
            notices: seq![NoticeView::FetchingCommit, NoticeView::NoCommits],
            end: Some(Ok(Outcome::NoCommits)),
        }),
        run(config, replies, now).exit_code() == Some(0u8),
        forall|i: int|
            0 <= i < run(config, replies, now).sent.len() ==> (#[trigger] run(
                config,
                replies,
                now,
            ).sent[i]).0 != Call::TriggerPipeline,
{
    let step = next_step(config, Call::LatestCommit, replies[0], now);
    let rest = run_from(config, step, replies.drop_first(), now);
    let all = run(config, replies, now);
    assert(rest.sent.len() == 0);
    assert(all.sent =~= seq![(Call::LatestCommit, config.commits_request())]);
    assert(all.notices =~= seq![NoticeView::FetchingCommit, NoticeView::NoCommits]);
}

/// A newest commit that is as old as the freshness window, or older, ends
/// the run well after the first request: the commit and its being too old
/// are reported, and no pipeline is asked for.
pub proof fn lemma_stale_commit_stops_run(
    config: GitLabView,
    replies: Seq<ReplyView>,
    now: Timestamp,
    commit: CommitView,
)
    requires
        replies.len() >= 1,
        reported_commit(replies[0]) == Ok::<Option<CommitView>, ApiErrorView>(Some(commit)),
        !commit.recent_at(now, config.commit_age_weeks as int),
    ensures
        run(config, replies, now) == (TranscriptView {
            sent: seq![(Call::LatestCommit, config.commits_request())],
            notices: seq![
                NoticeView::FetchingCommit,
                NoticeView::LatestCommit(commit),
                NoticeView::CommitTooOld,
            ],
            end: Some(Ok(Outcome::CommitTooOld)),
        }),
        run(config, replies, now).exit_code() == Some(0u8),
        forall|i: int|
            0 <= i < run(config, replies, now).sent.len() ==> (#[trigger] run(
                config,
                replies,
                now,
            ).sent[i]).0 != Call::TriggerPipeline,
{
    let step = next_step(config, Call::LatestCommit, replies[0], now);
    let rest = run_from(config, step, replies.drop_first(), now);
    let all = run(config, replies, now);
    assert(rest.sent.len() == 0);
    assert(all.sent =~= seq![(Call::LatestCommit, config.commits_request())]);
    assert(all.notices =~= seq![
        NoticeView::FetchingCommit,
        NoticeView::LatestCommit(commit),
        NoticeView::CommitTooOld,
    ]);
}

/// A recent newest commit has the pipeline asked for exactly once: the
/// second request of the run creates it, and no other request does.
pub proof fn lemma_fresh_commit_triggers_once(
    config: GitLabView,
    replies: Seq<ReplyView>,
    now: Timestamp,
    commit: CommitView,
    request: RequestView,
)
    requires
        replies.len() >= 1,
        reported_commit(replies[0]) == Ok::<Option<CommitView>, ApiErrorView>(Some(commit)),
        commit.recent_at(now, config.commit_age_weeks as int),
        config.pipeline_request() == Some(request),
    ensures
        run(config, replies, now).sent.len() >= 2,
        run(config, replies, now).sent[1] == (Call::TriggerPipeline, request),
        forall|i: int|
            0 <= i < run(config, replies, now).sent.len() && i != 1 ==> (#[trigger] run(
                config,
                replies,
                now,
            ).sent[i]).0 != Call::TriggerPipeline,
{
    lemma_calls_in_order(config, replies, now);
    let step = next_step(config, Call::LatestCommit, replies[0], now);
    let rest = run_from(config, step, replies.drop_first(), now);
    let all = run(config, replies, now);
    assert(all.sent == seq![(Call::LatestCommit, config.commits_request())] + rest.sent);
    assert(rest.sent.len() >= 1);
    assert(rest.sent[0] == (Call::TriggerPipeline, request));
    assert(all.sent[1] == rest.sent[0]);
}

/// The jobs are asked for under the very identifier that the reply to the
/// pipeline request gave: the third request of the run is the job request
/// for that pipeline, at the address that spells the identifier out.
pub proof fn lemma_pipeline_id_is_passed_on(
    config: GitLabView,
    replies: Seq<ReplyView>,
    now: Timestamp,
    pipeline_id: u64,
)
    requires
        creates_pipeline(config, replies, now, pipeline_id),
    ensures
        run(config, replies, now).sent.len() >= 3,
        run(config, replies, now).sent[2] == (Call::ListJobs, config.jobs_request(pipeline_id)),
        run(config, replies, now).sent[2].1.url == jobs_url(config.project_id, pipeline_id),
{
    let first = next_step(config, Call::LatestCommit, replies[0], now);
    let tail = replies.drop_first();
    let after_first = run_from(config, first, tail, now);
    let second = next_step(config, Call::TriggerPipeline, tail[0], now);
    let after_second = run_from(config, second, tail.drop_first(), now);
    let all = run(config, replies, now);
    assert(tail[0] == replies[1]);
    assert(all.sent == seq![(Call::LatestCommit, config.commits_request())] + after_first.sent);
    assert(after_first.sent == seq![
        (Call::TriggerPipeline, config.pipeline_request()->Some_0),
    ] + after_second.sent);
    assert(after_second.sent.len() >= 1);
    assert(after_second.sent[0] == (Call::ListJobs, config.jobs_request(pipeline_id)));
    assert(all.sent[2] == after_second.sent[0]);
}

proof fn lemma_same_length_same_middle(
    head: Seq<char>,
    a: Seq<char>,
    b: Seq<char>,
    tail: Seq<char>,
)
    requires
        head + a + tail == head + b + tail,
    ensures
        a == b,
{
    let left = head + a + tail;
    let right = head + b + tail;
    assert(left.len() == right.len());
    assert(a.len() == b.len());
    assert forall|i: int| 0 <= i < a.len() implies a[i] == b[i] by {
        assert(left[head.len() + i] == a[i]);
        assert(right[head.len() + i] == b[i]);
    }
    assert(a =~= b);
}

/// The address of the job request names one pipeline only: two identifiers
/// that give the same address are the same.
pub proof fn lemma_jobs_url_names_one_pipeline(project_id: Seq<char>, a: u64, b: u64)
    requires
        jobs_url(project_id, a) == jobs_url(project_id, b),
    ensures
        a == b,
{
    let head = GITLAB_API_URL@ + "/projects/"@ + project_id + "/pipelines/"@;
    lemma_same_length_same_middle(head, decimal(a as nat), decimal(b as nat), "/jobs"@);
    lemma_decimal_injective(a as nat, b as nat);
}

/// The address of the request that starts a job names one job only.
pub proof fn lemma_play_url_names_one_job(project_id: Seq<char>, a: u64, b: u64)
    requires
        play_url(project_id, a) == play_url(project_id, b),
    ensures
        a == b,
{
    let head = GITLAB_API_URL@ + "/projects/"@ + project_id + "/jobs/"@;
    lemma_same_length_same_middle(head, decimal(a as nat), decimal(b as nat), "/play"@);
    lemma_decimal_injective(a as nat, b as nat);
}

/// A pipeline without a job ends the run well after the third request: "no
/// jobs" is reported, the process ends with status zero, and no job is
/// started.
pub proof fn lemma_no_jobs_stops_run(
    config: GitLabView,
    replies: Seq<ReplyView>,
    now: Timestamp,
    pipeline_id: u64,
)
    requires
        creates_pipeline(config, replies, now, pipeline_id),
        replies.len() >= 3,
        reported_first_job(replies[2]) == Ok::<Option<u64>, ApiErrorView>(None),
    ensures
        run(config, replies, now).end == Some(
            Ok::<Outcome, ApiErrorView>(Outcome::NoJobs),
        ),
        run(config, replies, now).exit_code() == Some(0u8),
        run(config, replies, now).sent.len() == 3,
        run(config, replies, now).notices.last() == NoticeView::NoJobs,
        forall|i: int|
            0 <= i < run(config, replies, now).sent.len() ==> (#[trigger] run(
                config,
                replies,
                now,
            ).sent[i]).0 != Call::PlayJob,
{
    lemma_calls_in_order(config, replies, now);
    let first = next_step(config, Call::LatestCommit, replies[0], now);
    let tail = replies.drop_first();
    let after_first = run_from(config, first, tail, now);
    let second = next_step(config, Call::TriggerPipeline, tail[0], now);
    let tail2 = tail.drop_first();
    let after_second = run_from(config, second, tail2, now);
    let third = next_step(config, Call::ListJobs, tail2[0], now);
    let after_third = run_from(config, third, tail2.drop_first(), now);
    let all = run(config, replies, now);
    assert(tail[0] == replies[1]);
    assert(tail2[0] == replies[2]);
    assert(all.sent == seq![(Call::LatestCommit, config.commits_request())] + after_first.sent);
    assert(after_first.sent == seq![
        (Call::TriggerPipeline, config.pipeline_request()->Some_0),
    ] + after_second.sent);
    assert(after_second.sent == seq![(Call::ListJobs, config.jobs_request(pipeline_id))]
        + after_third.sent);
    assert(after_third.sent.len() == 0);
    assert(after_third.notices =~= seq![NoticeView::NoJobs]);
    assert(all.notices == first_step(config).notices + after_first.notices);
    assert(after_first.notices == first.notices + after_second.notices);
    assert(after_second.notices == second.notices + after_third.notices);
}

/// Of a pipeline's jobs the first is started and no other: the fourth
/// request of the run starts the job that stands first in the reply, at the
/// address that spells its identifier out, whatever follows it in the list.
pub proof fn lemma_first_job_is_played(
    config: GitLabView,
    replies: Seq<ReplyView>,
    now: Timestamp,
    pipeline_id: u64,
    status: u16,
    jobs: Seq<u64>,
)
    requires
        creates_pipeline(config, replies, now, pipeline_id),
        replies.len() >= 3,
        replies[2] == (ReplyView::Response { status, body: BodyView::Jobs(jobs) }),
        is_success(status),
        jobs.len() >= 1,
    ensures
        run(config, replies, now).sent.len() == 4,
        run(config, replies, now).sent[3] == (Call::PlayJob, config.play_request(jobs[0])),
        run(config, replies, now).sent[3].1.url == play_url(config.project_id, jobs[0]),
        forall|i: int|
            0 <= i < 3 ==> (#[trigger] run(config, replies, now).sent[i]).0 != Call::PlayJob,
{
    lemma_calls_in_order(config, replies, now);
    let first = next_step(config, Call::LatestCommit, replies[0], now);
    let tail = replies.drop_first();
    let after_first = run_from(config, first, tail, now);
    let second = next_step(config, Call::TriggerPipeline, tail[0], now);
    let tail2 = tail.drop_first();
    let after_second = run_from(config, second, tail2, now);
    let third = next_step(config, Call::ListJobs, tail2[0], now);
    let after_third = run_from(config, third, tail2.drop_first(), now);
    let all = run(config, replies, now);
    assert(tail[0] == replies[1]);
    assert(tail2[0] == replies[2]);
    assert(all.sent == seq![(Call::LatestCommit, config.commits_request())] + after_first.sent);
    assert(after_first.sent == seq![
        (Call::TriggerPipeline, config.pipeline_request()->Some_0),
    ] + after_second.sent);
    assert(after_second.sent == seq![(Call::ListJobs, config.jobs_request(pipeline_id))]
        + after_third.sent);
    assert(after_third.sent.len() >= 1);
    assert(after_third.sent[0] == (Call::PlayJob, config.play_request(jobs[0])));
    assert(all.sent[3] == after_third.sent[0]);
}

/// A reply that delivers no body because no answer arrived, or because the
/// status is outside 200 to 299, fails the call that it answers, whichever
/// of the four it is: the step that follows ends the run with that reason
/// and reports nothing else.
pub proof fn lemma_failed_call_aborts(
    config: GitLabView,
    pending: Call,
    reply: ReplyView,
    error: ApiErrorView,
    now: Timestamp,
)
    requires
        delivered(reply) == Err::<BodyView, ApiErrorView>(error),
        !(error is Decode),
    ensures
        next_step(config, pending, reply, now) == aborted(error),
{
}

/// A response with a status outside 200 to 299 fails the call that it
/// answers, whichever of the four it is and whatever its body holds: the
/// step that follows ends the run with that status as the reason and
/// reports nothing else.
pub proof fn lemma_failed_status_aborts(
    config: GitLabView,
    pending: Call,
    status: u16,
    body: BodyView,
    now: Timestamp,
)
    requires
        !is_success(status),
    ensures
        next_step(config, pending, ReplyView::Response { status, body }, now) == aborted(
            ApiErrorView::Status(status),
        ),
{
}

proof fn lemma_sent_while_under_way(
    config: GitLabView,
    step: StepView,
    replies: Seq<ReplyView>,
    now: Timestamp,
)
    requires
        run_from(config, step, replies, now).end is None,
    ensures
        run_from(config, step, replies, now).sent.len() == replies.len() + 1,
    decreases replies.len(),
{
    match step.next {
        NextView::Send(call, request) => {
            if replies.len() > 0 {
                lemma_sent_while_under_way(
                    config,
                    next_step(config, call, replies[0], now),
                    replies.drop_first(),
                    now,
                );
            }
        },
        _ => {},
    }
}

proof fn lemma_rest_ends_on_failed_call(
    config: GitLabView,
    step: StepView,
    replies: Seq<ReplyView>,
    now: Timestamp,
    failing: int,
    error: ApiErrorView,
)
    requires
        0 <= failing < replies.len(),
        run_from(config, step, replies.take(failing), now).end is None,
        delivered(replies[failing]) == Err::<BodyView, ApiErrorView>(error),
        !(error is Decode),
    ensures
        run_from(config, step, replies, now) == (TranscriptView {
            end: Some(Err(error)),
            ..run_from(config, step, replies.take(failing), now)
        }),
    decreases failing,
{
    let before = run_from(config, step, replies.take(failing), now);
    let all = run_from(config, step, replies, now);
    match step.next {
        NextView::Send(call, request) => {
            let following = next_step(config, call, replies[0], now);
            let rest = run_from(config, following, replies.drop_first(), now);
            if failing == 0 {
                lemma_failed_call_aborts(config, call, replies[0], error, now);
                assert(replies.take(0).len() == 0);
                assert(all.sent =~= before.sent);
                assert(all.notices =~= before.notices);
            } else {
                let shorter = replies.take(failing);
                assert(shorter[0] == replies[0]);
                assert(shorter.drop_first() =~= replies.drop_first().take(failing - 1));
                lemma_rest_ends_on_failed_call(
                    config,
                    following,
                    replies.drop_first(),
                    now,
                    failing - 1,
                    error,
                );
            }
        },
        _ => {},
    }
}

/// A call that fails ends the run. If the run is still under way when the
/// replies before this one have been read, and this one delivers no body
/// because no answer arrived or because the status is outside 200 to 299,
/// then the run ends on that reason as a failure, the process ends with
/// status one, and nothing is sent or reported that was not already.
pub proof fn lemma_failed_call_ends_run(
    config: GitLabView,
    replies: Seq<ReplyView>,
    now: Timestamp,
    failing: int,
    error: ApiErrorView,
)
    requires
        0 <= failing < replies.len(),
        run(config, replies.take(failing), now).end is None,
        delivered(replies[failing]) == Err::<BodyView, ApiErrorView>(error),
        !(error is Decode),
    ensures
        run(config, replies, now).end == Some(Err::<Outcome, ApiErrorView>(error)),
        run(config, replies, now).exit_code() == Some(1u8),
        run(config, replies, now).sent == run(config, replies.take(failing), now).sent,
        run(config, replies, now).notices == run(config, replies.take(failing), now).notices,
        run(config, replies, now).sent.len() == failing + 1,
{
    lemma_rest_ends_on_failed_call(config, first_step(config), replies, now, failing, error);
    lemma_sent_while_under_way(config, first_step(config), replies.take(failing), now);
}

/// A response with a status outside 200 to 299 ends the run at the call that
/// it answers, whichever of the four it is. If the run is still under way
/// when the replies before it have been read, then with it the run ends on
/// that status as a failure, the process ends with status one, and no later
/// request is sent.
pub proof fn lemma_failed_status_ends_run(
    config: GitLabView,
    replies: Seq<ReplyView>,
    now: Timestamp,
    failing: int,
    status: u16,
    body: BodyView,
)
    requires
        0 <= failing < replies.len(),
        run(config, replies.take(failing), now).end is None,
        replies[failing] == (ReplyView::Response { status, body }),
        !is_success(status),
    ensures
        run(config, replies, now).end == Some(
            Err::<Outcome, ApiErrorView>(ApiErrorView::Status(status)),
        ),
        run(config, replies, now).exit_code() == Some(1u8),
        run(config, replies, now).sent == run(config, replies.take(failing), now).sent,
        run(config, replies, now).notices == run(config, replies.take(failing), now).notices,
        run(config, replies, now).sent.len() == failing + 1,
{
    lemma_failed_call_ends_run(config, replies, now, failing, ApiErrorView::Status(status));
}

proof fn lemma_rest_reads_no_more(
    config: GitLabView,
    step: StepView,
    replies: Seq<ReplyView>,
    more: Seq<ReplyView>,
    now: Timestamp,
)
    requires
        run_from(config, step, replies, now).end is Some,
    ensures
        run_from(config, step, replies + more, now) == run_from(config, step, replies, now),
    decreases replies.len(),
{
    match step.next {
        NextView::Send(call, request) => {
            let longer = replies + more;
            assert(longer[0] == replies[0]);
            assert(longer.drop_first() =~= replies.drop_first() + more);
            lemma_rest_reads_no_more(
                config,
                next_step(config, call, replies[0], now),
                replies.drop_first(),
                more,
                now,
            );
        },
        _ => {},
    }
}

/// A run that is over reads no further reply: whatever replies follow those
/// that brought it to its end, the run is the same.
pub proof fn lemma_finished_run_reads_no_more(
    config: GitLabView,
    replies: Seq<ReplyView>,
    more: Seq<ReplyView>,
    now: Timestamp,
)
    requires
        run(config, replies, now).end is Some,
    ensures
        run(config, replies + more, now) == run(config, replies, now),
{
    lemma_rest_reads_no_more(config, first_step(config), replies, more, now);
}

/// Every run is over once four replies have been read, and a run that is
/// still under way has sent one request more than it has read replies.
pub proof fn lemma_run_ends_within_four_replies(
    config: GitLabView,
    replies: Seq<ReplyView>,
    now: Timestamp,
)
    ensures
        replies.len() >= 4 ==> run(config, replies, now).end is Some,
        run(config, replies, now).end is None ==> run(config, replies, now).sent.len()
            == replies.len() + 1,
{
    lemma_calls_in_order(config, replies, now);
    if run(config, replies, now).end is None {
        lemma_sent_while_under_way(config, first_step(config), replies, now);
    }
}

} // verus!
