use pipeline_trigger::exchange::{ApiError, Method, Request};
use pipeline_trigger::gitlab::GitLab;
use pipeline_trigger::json::pipeline_payload;

fn config(project: &str, branch: Option<&str>) -> GitLab {
    match GitLab::new(
        Some("glpat-abc".to_string()),
        Some(project.to_string()),
        branch.map(|name| name.to_string()),
    ) {
        Ok(gitlab) => gitlab,
        Err(error) => panic!("no configuration: {:?}", error),
    }
}

fn expect_request(outcome: Result<Request<'_>, ApiError>) -> Request<'_> {
    match outcome {
        Ok(request) => request,
        Err(error) => panic!("no request: {:?}", error),
    }
}

#[test]
fn commit_request_asks_for_one_commit_of_the_branch() {
    let gitlab = config("42", Some("main"));
    let request = gitlab.latest_commit_request();
    assert_eq!(request.method, Method::Get);
    assert_eq!(
        request.url,
        "https://gitlab.com/api/v4/projects/42/repository/commits?ref_name=main&per_page=1"
    );
    assert_eq!(request.body, None);
}

#[test]
fn commit_request_uses_the_default_branch() {
    let gitlab = config("42", None);
    let request = gitlab.latest_commit_request();
    assert_eq!(
        request.url,
        "https://gitlab.com/api/v4/projects/42/repository/commits?ref_name=master&per_page=1"
    );
}

#[test]
fn commit_request_writes_project_and_branch_as_they_are() {
    let gitlab = config("group%2Fproject", Some("feature/new ui"));
    let request = gitlab.latest_commit_request();
    assert_eq!(
        request.url,
        "https://gitlab.com/api/v4/projects/group%2Fproject/repository/commits?ref_name=feature/new ui&per_page=1"
    );
}

#[test]
fn pipeline_request_posts_the_branch_as_json() {
    let gitlab = config("42", Some("main"));
    let request = expect_request(gitlab.trigger_pipeline_request());
    assert_eq!(request.method, Method::Post);
    assert_eq!(request.url, "https://gitlab.com/api/v4/projects/42/pipeline");
    assert_eq!(request.body, Some("{\"ref\":\"main\"}".to_string()));
}

#[test]
fn pipeline_request_body_is_the_json_of_an_object_with_one_member() {
    let gitlab = config("42", Some("release/\"1.x\""));
    let request = expect_request(gitlab.trigger_pipeline_request());
    let mut members = serde_json::Map::new();
    members.insert("ref".to_string(), serde_json::Value::String("release/\"1.x\"".to_string()));
    let expected = serde_json::to_string(&serde_json::Value::Object(members)).unwrap();
    assert_eq!(request.body, Some(expected));
}

#[test]
fn pipeline_payload_for_the_default_branch() {
    assert_eq!(pipeline_payload("master"), Some("{\"ref\":\"master\"}".to_string()));
}

#[test]
fn pipeline_payload_escapes_what_json_reserves() {
    assert_eq!(pipeline_payload("a\"b"), Some("{\"ref\":\"a\\\"b\"}".to_string()));
    assert_eq!(pipeline_payload("a\\b"), Some("{\"ref\":\"a\\\\b\"}".to_string()));
    assert_eq!(pipeline_payload("a\nb"), Some("{\"ref\":\"a\\nb\"}".to_string()));
    assert_eq!(pipeline_payload("a\u{1}b"), Some("{\"ref\":\"a\\u0001b\"}".to_string()));
}

#[test]
fn pipeline_payload_keeps_other_characters() {
    assert_eq!(pipeline_payload(""), Some("{\"ref\":\"\"}".to_string()));
    assert_eq!(pipeline_payload("feature/x"), Some("{\"ref\":\"feature/x\"}".to_string()));
    assert_eq!(pipeline_payload("gr\u{fc}n"), Some("{\"ref\":\"gr\u{fc}n\"}".to_string()));
}

#[test]
fn pipeline_payload_reads_back_as_the_branch() {
    let payload = pipeline_payload("we\"ird\\name\t").unwrap();
    let value: serde_json::Value = serde_json::from_str(&payload).unwrap();
    let object = value.as_object().unwrap();
    assert_eq!(object.len(), 1);
    assert_eq!(object.get("ref").unwrap().as_str(), Some("we\"ird\\name\t"));
}

#[test]
fn job_request_names_the_pipeline() {
    let gitlab = config("42", None);
    let request = gitlab.first_job_request(987654321);
    assert_eq!(request.method, Method::Get);
    assert_eq!(request.url, "https://gitlab.com/api/v4/projects/42/pipelines/987654321/jobs");
    assert_eq!(request.body, None);
}

#[test]
fn job_request_for_the_smallest_and_largest_identifier() {
    let gitlab = config("42", None);
    assert_eq!(
        gitlab.first_job_request(0).url,
        "https://gitlab.com/api/v4/projects/42/pipelines/0/jobs"
    );
    assert_eq!(
        gitlab.first_job_request(u64::MAX).url,
        "https://gitlab.com/api/v4/projects/42/pipelines/18446744073709551615/jobs"
    );
}

#[test]
fn play_request_names_the_job() {
    let gitlab = config("42", None);
    let request = gitlab.play_job_request(1001);
    assert_eq!(request.method, Method::Post);
    assert_eq!(request.url, "https://gitlab.com/api/v4/projects/42/jobs/1001/play");
    assert_eq!(request.body, None);
}

#[test]
fn play_request_for_the_smallest_and_largest_identifier() {
    let gitlab = config("7", None);
    assert_eq!(gitlab.play_job_request(0).url, "https://gitlab.com/api/v4/projects/7/jobs/0/play");
    assert_eq!(
        gitlab.play_job_request(u64::MAX).url,
        "https://gitlab.com/api/v4/projects/7/jobs/18446744073709551615/play"
    );
}

#[test]
fn every_request_carries_the_headers_of_the_configuration() {
    let gitlab = config("42", Some("main"));
    let requests = vec![
        gitlab.latest_commit_request(),
        expect_request(gitlab.trigger_pipeline_request()),
        gitlab.first_job_request(5),
        gitlab.play_job_request(6),
    ];
    for request in requests {
        assert_eq!(request.headers, gitlab.headers());
        assert_eq!(request.headers.len(), 2);
        assert_eq!(request.headers.get("private-token").unwrap().as_bytes(), b"glpat-abc");
        assert_eq!(request.headers.get("content-type").unwrap().as_bytes(), b"application/json");
    }
}
