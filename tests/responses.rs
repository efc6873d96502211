use valyu::{check_status, check_success, parse_failure, Endpoint, ValyuError};

fn api_error_text(r: Result<(), ValyuError>) -> String {
    match r {
        Err(ValyuError::ApiError(s)) => s,
        other => panic!("expected an API error, got {:?}", other),
    }
}

#[test]
fn accepted_statuses_per_endpoint() {
    assert!(check_status(Endpoint::Search, 200, None).is_ok());
    assert!(check_status(Endpoint::Search, 206, None).is_ok());
    assert!(check_status(Endpoint::Contents, 206, None).is_ok());
    assert!(check_status(Endpoint::Answer, 200, None).is_ok());
    assert!(check_status(Endpoint::Answer, 206, None).is_err());
    assert!(check_status(Endpoint::CreateTask, 201, None).is_ok());
    assert!(check_status(Endpoint::CreateTask, 202, None).is_ok());
    assert!(check_status(Endpoint::TaskStatus, 201, None).is_err());
    assert!(check_status(Endpoint::DeleteTask, 200, None).is_ok());
}

#[test]
fn key_rate_and_availability_errors() {
    for e in [Endpoint::Search, Endpoint::Contents, Endpoint::ListTasks, Endpoint::CancelTask] {
        assert!(matches!(check_status(e, 401, None), Err(ValyuError::InvalidApiKey)));
        assert!(matches!(check_status(e, 403, None), Err(ValyuError::InvalidApiKey)));
        assert!(matches!(check_status(e, 429, None), Err(ValyuError::RateLimitExceeded)));
        assert!(matches!(check_status(e, 503, None), Err(ValyuError::ServiceUnavailable)));
    }
}

#[test]
fn bad_request_is_told_apart_only_where_the_endpoint_does() {
    let body = r#"{"success":false,"error":"no urls"}"#.to_string();
    match check_status(Endpoint::Contents, 400, Some(body.clone())) {
        Err(ValyuError::InvalidRequest(s)) => assert_eq!(s, body),
        other => panic!("unexpected {:?}", other),
    }
    assert!(matches!(check_status(Endpoint::Answer, 400, None), Err(ValyuError::InvalidRequest(s)) if s == "Invalid request parameters"));
    assert!(matches!(check_status(Endpoint::CreateTask, 400, None), Err(ValyuError::InvalidRequest(_))));
    let generic = api_error_text(check_status(Endpoint::Search, 400, Some(body.clone())));
    assert_eq!(generic, format!("HTTP 400 Bad Request: {}", body));
}

#[test]
fn fixed_messages() {
    assert_eq!(api_error_text(check_status(Endpoint::Contents, 402, None)), "Insufficient credits");
    assert_eq!(api_error_text(check_status(Endpoint::Contents, 422, None)), "All URLs failed processing");
    assert_eq!(api_error_text(check_status(Endpoint::TaskStatus, 404, None)), "Task not found");
    assert_eq!(api_error_text(check_status(Endpoint::UpdateTask, 404, None)), "Task not found");
    assert_eq!(api_error_text(check_status(Endpoint::Search, 402, Some("x".to_string()))), "HTTP 402 Payment Required: x");
}

#[test]
fn generic_error_shows_status_line_and_body() {
    assert_eq!(api_error_text(check_status(Endpoint::Search, 500, Some("boom".to_string()))), "HTTP 500 Internal Server Error: boom");
    assert_eq!(api_error_text(check_status(Endpoint::Search, 404, None)), "HTTP 404 Not Found: Unknown error");
    assert_eq!(api_error_text(check_status(Endpoint::ListTasks, 599, None)), "HTTP 599 <unknown status code>: Unknown error");
    assert_eq!(api_error_text(check_status(Endpoint::ListTasks, 42, Some("odd".to_string()))), "HTTP 42: odd");
}

#[test]
fn unsuccessful_body_is_an_api_error() {
    assert!(check_success(true, &None).is_ok());
    assert!(check_success(true, &Some("ignored".to_string())).is_ok());
    assert_eq!(api_error_text(check_success(false, &Some("quota".to_string()))), "quota");
    assert_eq!(api_error_text(check_success(false, &None)), "API request was not successful");
}

#[test]
fn parse_failure_message() {
    match parse_failure("expected value at line 1") {
        ValyuError::ParseError(s) => assert_eq!(s, "Failed to parse API response: expected value at line 1"),
        other => panic!("unexpected {:?}", other),
    }
}

#[test]
fn error_messages() {
    assert_eq!(ValyuError::InvalidApiKey.message(), "Invalid API key provided");
    assert_eq!(ValyuError::RateLimitExceeded.message(), "Rate limit exceeded");
    assert_eq!(ValyuError::ServiceUnavailable.message(), "Service unavailable");
    assert_eq!(ValyuError::ApiError("x".to_string()).message(), "API error: x");
    assert_eq!(ValyuError::InvalidRequest("y".to_string()).message(), "Invalid request parameters: y");
    assert_eq!(ValyuError::ParseError("z".to_string()).message(), "Failed to parse API response: z");
}

#[test]
fn search_scenario_with_one_result() {
    let body = r#"{"success":true,"results":[{"title":"X","url":"https://x"}]}"#;
    assert!(check_status(Endpoint::Search, 200, Some(body.to_string())).is_ok());
    let v: serde_json::Value = serde_json::from_str(body).unwrap();
    let success = v["success"].as_bool().unwrap();
    let error = v["error"].as_str().map(|s| s.to_string());
    assert!(check_success(success, &error).is_ok());
    assert_eq!(v["results"].as_array().unwrap().len(), 1);
    assert_eq!(v["results"][0]["title"], "X");
}

#[test]
fn empty_contents_request_rejected_as_invalid() {
    let request = valyu::ContentsRequest::new(vec![]);
    let client = valyu::ValyuClient::with_base_url("k", "http://mock").unwrap();
    let req = client.prepare(Endpoint::Contents, "", None, Some(request.to_json()));
    assert_eq!(req.url, "http://mock/contents");
    let body = r#"{"success":false,"error":"no urls"}"#;
    assert!(matches!(check_status(Endpoint::Contents, 400, Some(body.to_string())), Err(ValyuError::InvalidRequest(_))));
    assert!(matches!(check_status(Endpoint::Search, 400, Some(body.to_string())), Err(ValyuError::ApiError(_))));
}
