use pipeline_trigger::clock::Timestamp;
use pipeline_trigger::commit::Commit;
use pipeline_trigger::exchange::{ApiError, Body, Call, Method, Reply, Request};
use pipeline_trigger::gitlab::GitLab;
use pipeline_trigger::workflow::{Next, Notice, Outcome, Step};

const NOW: Timestamp = Timestamp { secs: 1_700_000_000, nanos: 0 };
const WEEK: i64 = 604_800;

fn config() -> GitLab {
    match GitLab::new(
        Some("glpat-abc".to_string()),
        Some("42".to_string()),
        Some("main".to_string()),
    ) {
        Ok(gitlab) => gitlab,
        Err(error) => panic!("no configuration: {:?}", error),
    }
}

fn commit_aged(secs: i64) -> Commit {
    Commit {
        id: "4f2a9c1".to_string(),
        committed_date: Timestamp { secs: NOW.secs - secs, nanos: 0 },
    }
}

fn ok(body: Body) -> Reply {
    Reply::Response { status: 200, body }
}

fn get<'a>(gitlab: &'a GitLab, url: &str) -> Request<'a> {
    Request { method: Method::Get, url: url.to_string(), headers: gitlab.headers(), body: None }
}

fn post<'a>(gitlab: &'a GitLab, url: &str, body: Option<&str>) -> Request<'a> {
    Request {
        method: Method::Post,
        url: url.to_string(),
        headers: gitlab.headers(),
        body: body.map(|text| text.to_string()),
    }
}

#[test]
fn run_opens_with_the_commit_request() {
    let gitlab = config();
    let step = gitlab.begin();
    assert_eq!(
        step,
        Step {
            notices: vec![Notice::FetchingCommit],
            next: Next::Send(
                Call::LatestCommit,
                get(&gitlab, "https://gitlab.com/api/v4/projects/42/repository/commits?ref_name=main&per_page=1"),
            ),
        }
    );
}

#[test]
fn no_commit_stops_the_run() {
    let gitlab = config();
    let step = gitlab.advance_at(Call::LatestCommit, ok(Body::Commits(vec![])), NOW);
    assert_eq!(
        step,
        Step { notices: vec![Notice::NoCommits], next: Next::Stop(Outcome::NoCommits) }
    );
}

#[test]
fn stale_commit_stops_the_run() {
    let commit = commit_aged(3 * WEEK);
    let gitlab = config();
    let step =
        gitlab.advance_at(Call::LatestCommit, ok(Body::Commits(vec![commit.clone()])), NOW);
    assert_eq!(
        step,
        Step {
            notices: vec![Notice::LatestCommit(commit), Notice::CommitTooOld],
            next: Next::Stop(Outcome::CommitTooOld),
        }
    );
}

#[test]
fn commit_exactly_two_weeks_old_stops_the_run() {
    let commit = commit_aged(2 * WEEK);
    let gitlab = config();
    let step = gitlab.advance_at(Call::LatestCommit, ok(Body::Commits(vec![commit])), NOW);
    assert_eq!(step.next, Next::Stop(Outcome::CommitTooOld));
}

#[test]
fn fresh_commit_asks_for_the_pipeline() {
    let commit = commit_aged(2 * WEEK - 1);
    let gitlab = config();
    let step =
        gitlab.advance_at(Call::LatestCommit, ok(Body::Commits(vec![commit.clone()])), NOW);
    assert_eq!(
        step,
        Step {
            notices: vec![Notice::LatestCommit(commit), Notice::TriggeringPipeline],
            next: Next::Send(
                Call::TriggerPipeline,
                post(
                    &gitlab,
                    "https://gitlab.com/api/v4/projects/42/pipeline",
                    Some("{\"ref\":\"main\"}"),
                ),
            ),
        }
    );
}

#[test]
fn only_the_newest_commit_is_judged() {
    let fresh = commit_aged(WEEK);
    let stale = commit_aged(5 * WEEK);
    let gitlab = config();
    let step = gitlab.advance_at(
        Call::LatestCommit,
        ok(Body::Commits(vec![fresh.clone(), stale.clone()])),
        NOW,
    );
    assert!(matches!(step.next, Next::Send(Call::TriggerPipeline, _)));
    let step = gitlab.advance_at(Call::LatestCommit, ok(Body::Commits(vec![stale, fresh])), NOW);
    assert_eq!(step.next, Next::Stop(Outcome::CommitTooOld));
}

#[test]
fn freshness_window_of_the_configuration_is_used() {
    let mut gitlab = config();
    let commit = commit_aged(3 * WEEK);
    let step =
        gitlab.advance_at(Call::LatestCommit, ok(Body::Commits(vec![commit.clone()])), NOW);
    assert_eq!(step.next, Next::Stop(Outcome::CommitTooOld));
    gitlab.commit_age_weeks = 4;
    let step = gitlab.advance_at(Call::LatestCommit, ok(Body::Commits(vec![commit])), NOW);
    assert!(matches!(step.next, Next::Send(Call::TriggerPipeline, _)));
}

#[test]
fn created_pipeline_has_its_jobs_asked_for() {
    let gitlab = config();
    let step = gitlab.advance_at(Call::TriggerPipeline, ok(Body::Pipeline(555)), NOW);
    assert_eq!(
        step,
        Step {
            notices: vec![Notice::PipelineCreated(555)],
            next: Next::Send(
                Call::ListJobs,
                get(&gitlab, "https://gitlab.com/api/v4/projects/42/pipelines/555/jobs"),
            ),
        }
    );
}

#[test]
fn pipeline_without_jobs_stops_the_run() {
    let gitlab = config();
    let step = gitlab.advance_at(Call::ListJobs, ok(Body::Jobs(vec![])), NOW);
    assert_eq!(step, Step { notices: vec![Notice::NoJobs], next: Next::Stop(Outcome::NoJobs) });
}

#[test]
fn first_job_of_three_is_started() {
    let gitlab = config();
    let step = gitlab.advance_at(Call::ListJobs, ok(Body::Jobs(vec![901, 902, 903])), NOW);
    assert_eq!(
        step,
        Step {
            notices: vec![Notice::StartingJob(901)],
            next: Next::Send(
                Call::PlayJob,
                post(&gitlab, "https://gitlab.com/api/v4/projects/42/jobs/901/play", None),
            ),
        }
    );
}

#[test]
fn started_job_ends_the_run() {
    let gitlab = config();
    let step = gitlab.advance_at(Call::PlayJob, ok(Body::Empty), NOW);
    assert_eq!(
        step,
        Step { notices: vec![Notice::JobStarted], next: Next::Stop(Outcome::JobStarted) }
    );
}

#[test]
fn failed_status_aborts_after_every_call() {
    let gitlab = config();
    let calls = vec![Call::LatestCommit, Call::TriggerPipeline, Call::ListJobs, Call::PlayJob];
    let bodies = vec![
        Body::Commits(vec![commit_aged(WEEK)]),
        Body::Pipeline(1),
        Body::Jobs(vec![1]),
        Body::Empty,
    ];
    for (call, body) in calls.into_iter().zip(bodies.into_iter()) {
        let step = gitlab.advance_at(call, Reply::Response { status: 500, body }, NOW);
        assert_eq!(step, Step { notices: vec![], next: Next::Abort(ApiError::Status(500)) });
    }
}

#[test]
fn missing_answer_aborts_after_every_call() {
    let gitlab = config();
    for call in vec![Call::LatestCommit, Call::TriggerPipeline, Call::ListJobs, Call::PlayJob] {
        let step = gitlab.advance_at(call, Reply::Failed("timed out".to_string()), NOW);
        assert_eq!(
            step,
            Step { notices: vec![], next: Next::Abort(ApiError::Transport("timed out".to_string())) }
        );
    }
}

#[test]
fn malformed_body_aborts_after_the_calls_that_read_one() {
    let gitlab = config();
    for call in vec![Call::LatestCommit, Call::TriggerPipeline, Call::ListJobs] {
        let step = gitlab.advance_at(call, ok(Body::Malformed("eof".to_string())), NOW);
        assert_eq!(
            step,
            Step { notices: vec![], next: Next::Abort(ApiError::Decode("eof".to_string())) }
        );
    }
}

#[test]
fn body_of_another_call_aborts() {
    let gitlab = config();
    let step = gitlab.advance_at(Call::LatestCommit, ok(Body::Jobs(vec![1])), NOW);
    assert_eq!(step.next, Next::Abort(ApiError::UnexpectedBody));
    let step = gitlab.advance_at(Call::TriggerPipeline, ok(Body::Jobs(vec![1])), NOW);
    assert_eq!(step.next, Next::Abort(ApiError::UnexpectedBody));
    let step = gitlab.advance_at(Call::ListJobs, ok(Body::Pipeline(1)), NOW);
    assert_eq!(step.next, Next::Abort(ApiError::UnexpectedBody));
}

#[test]
fn exit_code_is_zero_for_every_outcome_and_one_for_a_failure() {
    for outcome in
        vec![Outcome::NoCommits, Outcome::CommitTooOld, Outcome::NoJobs, Outcome::JobStarted]
    {
        assert_eq!(Next::Stop(outcome).exit_code(), Some(0));
    }
    assert_eq!(Next::Abort(ApiError::Status(404)).exit_code(), Some(1));
    assert_eq!(Next::Abort(ApiError::Transport("x".to_string())).exit_code(), Some(1));
    assert_eq!(Next::Abort(ApiError::Encode).exit_code(), Some(1));
    let gitlab = config();
    assert_eq!(
        Next::Send(Call::PlayJob, get(&gitlab, "https://example.test/")).exit_code(),
        None
    );
}

#[test]
fn clock_judges_an_old_commit_as_stale() {
    let commit = Commit { id: "old".to_string(), committed_date: Timestamp { secs: 0, nanos: 0 } };
    let gitlab = config();
    let step = gitlab.advance(Call::LatestCommit, ok(Body::Commits(vec![commit])));
    assert_eq!(step.next, Next::Stop(Outcome::CommitTooOld));
}

#[test]
fn clock_judges_a_commit_of_a_minute_ago_as_fresh() {
    let moment = chrono::Utc::now();
    let commit = Commit {
        id: "new".to_string(),
        committed_date: Timestamp { secs: moment.timestamp() - 60, nanos: 0 },
    };
    let gitlab = config();
    let step = gitlab.advance(Call::LatestCommit, ok(Body::Commits(vec![commit])));
    assert!(matches!(step.next, Next::Send(Call::TriggerPipeline, _)));
}

#[test]
fn steps_without_a_commit_do_not_depend_on_the_clock() {
    let gitlab = config();
    assert_eq!(
        gitlab.advance(Call::LatestCommit, ok(Body::Commits(vec![]))),
        gitlab.advance_at(Call::LatestCommit, ok(Body::Commits(vec![])), NOW)
    );
    assert_eq!(
        gitlab.advance(Call::TriggerPipeline, ok(Body::Pipeline(9))),
        gitlab.advance_at(Call::TriggerPipeline, ok(Body::Pipeline(9)), NOW)
    );
    assert_eq!(
        gitlab.advance(Call::ListJobs, ok(Body::Jobs(vec![4, 5]))),
        gitlab.advance_at(Call::ListJobs, ok(Body::Jobs(vec![4, 5])), NOW)
    );
    assert_eq!(
        gitlab.advance(Call::PlayJob, ok(Body::Empty)),
        gitlab.advance_at(Call::PlayJob, ok(Body::Empty), NOW)
    );
}
