use github_deployment::deploy::Deployment;
use github_deployment::http::DeployError;
use github_deployment::http::HttpOutcome;
use github_deployment::status::Status;

fn reply(code: u32, body: &str) -> HttpOutcome {
    HttpOutcome::Reply { code, body: body.as_bytes().to_vec() }
}

#[test]
fn payload_without_base_omits_previous_ref() {
    let p = Deployment::payload("abc123", None);
    assert_eq!(
        p,
        "{\"ref\": \"abc123\", \"auto_merge\": false, \"environment\": \"production\"}"
    );
    assert!(!p.contains("previous_ref"));
}

#[test]
fn payload_with_base_nests_previous_ref() {
    let p = Deployment::payload("abc123", Some("def456"));
    assert_eq!(
        p,
        "{\"ref\": \"abc123\", \"auto_merge\": false, \"environment\": \"production\", \
         \"payload\": {\"previous_ref\": \"def456\"}}"
    );
}

#[test]
fn create_extracts_id_from_response() {
    let d = Deployment::create("o/r", "abc123", None, &reply(201, "{\"id\": 42}")).unwrap();
    assert_eq!(d.id(), 42);
    assert_eq!(d.repo(), "o/r");
    assert_eq!(d.head(), "abc123");
    assert_eq!(d.base(), None);
}

#[test]
fn create_keeps_base_when_given() {
    let d = Deployment::create("o/r", "abc123", Some("def456"), &reply(200, "{\"id\": 7}"))
        .unwrap();
    assert_eq!(d.id(), 7);
    assert_eq!(d.base(), Some("def456"));
}

#[test]
fn create_rejects_non_2xx_status() {
    let r = Deployment::create("o/r", "abc123", None, &reply(500, "{\"id\": 42}"));
    assert_eq!(r.unwrap_err(), DeployError::UnexpectedStatus);
}

#[test]
fn create_rejects_transport_failure() {
    let r = Deployment::create("o/r", "abc123", None, &HttpOutcome::Transport);
    assert_eq!(r.unwrap_err(), DeployError::Transport);
}

#[test]
fn create_rejects_body_that_is_not_text() {
    let o = HttpOutcome::Reply { code: 200, body: vec![0xff, 0xfe, 0x80] };
    let r = Deployment::create("o/r", "abc123", None, &o);
    assert_eq!(r.unwrap_err(), DeployError::BodyNotText);
}

#[test]
fn create_rejects_invalid_json() {
    let r = Deployment::create("o/r", "abc123", None, &reply(200, "no json here"));
    assert_eq!(r.unwrap_err(), DeployError::InvalidJson);
}

#[test]
fn create_rejects_missing_id() {
    let r = Deployment::create("o/r", "abc123", None, &reply(201, "{\"identifier\": 42}"));
    assert_eq!(r.unwrap_err(), DeployError::MissingField);
}

#[test]
fn create_rejects_malformed_id() {
    let r = Deployment::create("o/r", "abc123", None, &reply(201, "{\"id\": \"forty-two\"}"));
    assert_eq!(r.unwrap_err(), DeployError::MissingField);
}

#[test]
fn create_request_posts_to_deployments_url() {
    let q = Deployment::create_request("o/r", "abc123", None);
    assert_eq!(q.url, "https://api.github.com/repos/o/r/deployments");
    assert_eq!(q.body, Deployment::payload("abc123", None));
}

#[test]
fn status_request_posts_to_statuses_url() {
    let d = Deployment::create("o/r", "abc123", None, &reply(201, "{\"id\": 42}")).unwrap();
    let q = d.status_request(&Status::Pending);
    assert_eq!(q.url, "https://api.github.com/repos/o/r/deployments/42/statuses");
    assert_eq!(q.body, "{\"state\": \"pending\"}");
}

#[test]
fn status_request_renders_edge_ids() {
    let d = Deployment::create("o/r", "abc123", None, &reply(201, "{\"id\": 0}")).unwrap();
    assert_eq!(
        d.status_request(&Status::Success).url,
        "https://api.github.com/repos/o/r/deployments/0/statuses"
    );
    let big = Deployment::create(
        "o/r",
        "abc123",
        None,
        &reply(201, "{\"id\": 18446744073709551615}"),
    )
    .unwrap();
    assert_eq!(
        big.status_request(&Status::Success).url,
        "https://api.github.com/repos/o/r/deployments/18446744073709551615/statuses"
    );
}

#[test]
fn update_status_accepts_matching_state() {
    let d = Deployment::create("o/r", "abc123", None, &reply(201, "{\"id\": 42}")).unwrap();
    let r = d.update_status(&Status::Success, &reply(200, "{\"state\": \"success\"}"));
    assert_eq!(r, Ok(()));
}

#[test]
fn update_status_rejects_mismatched_state() {
    let d = Deployment::create("o/r", "abc123", None, &reply(201, "{\"id\": 42}")).unwrap();
    let r = d.update_status(&Status::Success, &reply(200, "{\"state\": \"pending\"}"));
    assert_eq!(r.unwrap_err(), DeployError::StateMismatch);
}

#[test]
fn update_status_rejects_missing_state() {
    let d = Deployment::create("o/r", "abc123", None, &reply(201, "{\"id\": 42}")).unwrap();
    let r = d.update_status(&Status::Success, &reply(200, "{\"id\": 42}"));
    assert_eq!(r.unwrap_err(), DeployError::MissingField);
}

#[test]
fn update_status_rejects_invalid_json() {
    let d = Deployment::create("o/r", "abc123", None, &reply(201, "{\"id\": 42}")).unwrap();
    let r = d.update_status(&Status::Success, &reply(200, "<html></html>"));
    assert_eq!(r.unwrap_err(), DeployError::InvalidJson);
}

#[test]
fn update_status_rejects_non_2xx_status() {
    let d = Deployment::create("o/r", "abc123", None, &reply(201, "{\"id\": 42}")).unwrap();
    let r = d.update_status(&Status::Error, &reply(404, "{\"state\": \"error\"}"));
    assert_eq!(r.unwrap_err(), DeployError::UnexpectedStatus);
}

#[test]
fn errors_describe_themselves() {
    assert_eq!(
        DeployError::StateMismatch.describe(),
        "deployment update status do not change"
    );
    assert_eq!(DeployError::InvalidJson.describe(), "payload is not a valid json");
}
