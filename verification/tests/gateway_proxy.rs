use docbox_manager::gateway::build_forward_uri;
use docbox_manager::gateway::forward_headers;
use docbox_manager::gateway::header_get;
use docbox_manager::gateway::plan_forward;
use docbox_manager::gateway::plan_response;
use docbox_manager::gateway::uuid_string;

fn pairs(items: &[(&str, &str)]) -> Vec<(String, String)> {
    items.iter().map(|(n, v)| (n.to_string(), v.to_string())).collect()
}

#[test]
fn uuid_string_is_hyphenated_lowercase_hex() {
    let id: u128 = 0x123e4567_e89b_12d3_a456_426614174000;
    assert_eq!(uuid_string(id), "123e4567-e89b-12d3-a456-426614174000");
}

#[test]
fn uuid_string_pads_with_zeroes() {
    assert_eq!(uuid_string(0), "00000000-0000-0000-0000-000000000000");
    assert_eq!(uuid_string(15), "00000000-0000-0000-0000-00000000000f");
}

#[test]
fn uri_keeps_query_verbatim() {
    let uri = build_forward_uri("http://127.0.0.1:8080/", "box/files", Some("page=2&sort=name"));
    assert_eq!(uri, "http://127.0.0.1:8080/box/files?page=2&sort=name");
}

#[test]
fn uri_without_query_has_no_question_mark() {
    let uri = build_forward_uri("http://127.0.0.1:8080/", "box/files", None);
    assert_eq!(uri, "http://127.0.0.1:8080/box/files");
}

#[test]
fn allowlist_keeps_three_headers_and_injects_tenant_context() {
    let inbound = pairs(&[
        ("accept", "application/json"),
        ("content-type", "application/json"),
        ("content-length", "42"),
        ("authorization", "Bearer SECRET-REDACTED"),
        ("x-custom", "v"),
    ]);
    let forwarded = forward_headers(&inbound, "prod", 7);
    let got: Vec<(&str, &str)> =
        forwarded.iter().map(|(n, v)| (n.as_str(), v.as_str())).collect();
    assert_eq!(
        got,
        vec![
            ("accept", "application/json"),
            ("content-type", "application/json"),
            ("content-length", "42"),
            ("x-tenant-env", "prod"),
            ("x-tenant-id", "00000000-0000-0000-0000-000000000007"),
        ]
    );
}

#[test]
fn absent_allowlisted_headers_are_not_invented() {
    let inbound = pairs(&[("authorization", "Bearer SECRET-REDACTED")]);
    let forwarded = forward_headers(&inbound, "prod", 1);
    let names: Vec<&str> = forwarded.iter().map(|(n, _)| n.as_str()).collect();
    assert_eq!(names, vec!["x-tenant-env", "x-tenant-id"]);
}

#[test]
fn inbound_tenant_headers_cannot_spoof_context() {
    let inbound = pairs(&[("x-tenant-env", "prod"), ("x-tenant-id", "intruder")]);
    let forwarded = forward_headers(&inbound, "staging", 9);
    let got: Vec<(&str, &str)> =
        forwarded.iter().map(|(n, v)| (n.as_str(), v.as_str())).collect();
    assert_eq!(
        got,
        vec![
            ("x-tenant-env", "staging"),
            ("x-tenant-id", "00000000-0000-0000-0000-000000000009"),
        ]
    );
}

#[test]
fn first_occurrence_of_a_header_wins() {
    let inbound = pairs(&[("accept", "text/html"), ("accept", "application/json")]);
    let forwarded = forward_headers(&inbound, "prod", 1);
    assert_eq!(forwarded[0], ("accept".to_string(), "text/html".to_string()));
}

#[test]
fn header_get_finds_first_match() {
    let headers = pairs(&[("accept", "text/html"), ("accept", "application/json")]);
    assert_eq!(header_get(&headers, "accept").map(String::as_str), Some("text/html"));
    assert_eq!(header_get(&headers, "content-type"), None);
}

#[test]
fn forward_plan_carries_body_unchanged() {
    let inbound = pairs(&[("accept", "application/json")]);
    let body = vec![1u8, 2, 3, 4];
    let plan = plan_forward(
        "http://127.0.0.1:8080/",
        "box/upload",
        None,
        "prod",
        7,
        &inbound,
        body.clone(),
    );
    assert_eq!(plan.uri, "http://127.0.0.1:8080/box/upload");
    assert_eq!(plan.body, body);
    assert_eq!(plan.headers.len(), 3);
}

#[test]
fn response_keeps_status_and_all_headers() {
    let downstream = pairs(&[("x-foo", "bar")]);
    let response = plan_response(418, &downstream);
    assert_eq!(response.status, 418);
    assert_eq!(response.headers, downstream);
}

#[test]
fn response_keeps_header_order() {
    let downstream = pairs(&[
        ("content-type", "application/pdf"),
        ("x-foo", "bar"),
        ("etag", "\"abc\""),
    ]);
    let response = plan_response(200, &downstream);
    assert_eq!(response.headers, downstream);
}
