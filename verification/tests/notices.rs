use pipeline_trigger::clock::Timestamp;
use pipeline_trigger::commit::Commit;
use pipeline_trigger::workflow::Notice;

fn commit(id: &str, secs: i64, nanos: u32) -> Commit {
    Commit { id: id.to_string(), committed_date: Timestamp { secs, nanos } }
}

#[test]
fn fixed_notices_have_their_lines() {
    assert_eq!(Notice::FetchingCommit.text(), "Fetching latest commit...");
    assert_eq!(Notice::NoCommits.text(), "No commits found.");
    assert_eq!(Notice::CommitTooOld.text(), "Commit is too old.");
    assert_eq!(Notice::TriggeringPipeline.text(), "Triggering pipeline...");
    assert_eq!(Notice::JobStarted.text(), "Job started successfully.");
    assert_eq!(Notice::NoJobs.text(), "No jobs found in the pipeline.");
}

#[test]
fn pipeline_notice_names_the_pipeline() {
    assert_eq!(Notice::PipelineCreated(123).text(), "Pipeline 123 created.");
    assert_eq!(Notice::PipelineCreated(0).text(), "Pipeline 0 created.");
    assert_eq!(
        Notice::PipelineCreated(u64::MAX).text(),
        "Pipeline 18446744073709551615 created."
    );
}

#[test]
fn job_notice_names_the_job() {
    assert_eq!(Notice::StartingJob(77).text(), "Starting job 77...");
    assert_eq!(Notice::StartingJob(0).text(), "Starting job 0...");
}

#[test]
fn commit_notice_gives_identifier_and_date() {
    let notice = Notice::LatestCommit(commit("4f2a9c1", 1_431_648_000, 0));
    assert_eq!(notice.text(), "Latest commit: 4f2a9c1 at 2015-05-15 00:00:00 UTC");
}

#[test]
fn commit_notice_at_the_epoch() {
    let notice = Notice::LatestCommit(commit("root", 0, 0));
    assert_eq!(notice.text(), "Latest commit: root at 1970-01-01 00:00:00 UTC");
}

#[test]
fn commit_notice_shows_fractions_of_a_second() {
    let notice = Notice::LatestCommit(commit("abc", 1_431_648_000, 500_000_000));
    assert_eq!(notice.text(), "Latest commit: abc at 2015-05-15 00:00:00.500 UTC");
}

#[test]
fn commit_notice_agrees_with_the_date_library() {
    let secs: i64 = 1_700_000_123;
    let nanos: u32 = 456_789_000;
    let date = chrono::DateTime::from_timestamp(secs, nanos).unwrap();
    let notice = Notice::LatestCommit(commit("abc", secs, nanos));
    assert_eq!(notice.text(), format!("Latest commit: abc at {}", date));
}

#[test]
fn commit_notice_leaves_out_a_date_that_does_not_exist() {
    let notice = Notice::LatestCommit(commit("far", i64::MAX, 0));
    assert_eq!(notice.text(), "Latest commit: far");
    let notice = Notice::LatestCommit(commit("odd", 0, 2_000_000_000));
    assert_eq!(notice.text(), "Latest commit: odd");
}
