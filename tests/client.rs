use valyu::{update_body, Endpoint, Method, ValyuClient, API_BASE_URL};

#[test]
fn test_client_creation() {
    let client = ValyuClient::new("test-key").unwrap();
    assert_eq!(client.api_key(), "test-key");
    assert_eq!(client.base_url(), API_BASE_URL);
}

#[test]
fn test_client_with_custom_url() {
    let client = ValyuClient::with_base_url("test-key", "https://custom.url").unwrap();
    assert_eq!(client.api_key(), "test-key");
    assert_eq!(client.base_url(), "https://custom.url");
}

#[test]
fn search_request_is_a_json_post_with_key() {
    let client = ValyuClient::new("k1").unwrap();
    let body = valyu::DeepSearchRequest::new("quantum computing").to_json();
    let req = client.prepare(Endpoint::Search, "", None, Some(body));
    assert_eq!(req.method, Method::Post);
    assert_eq!(req.url, "https://api.valyu.ai/v1/deepsearch");
    assert_eq!(
        req.headers,
        vec![
            ("Content-Type".to_string(), "application/json".to_string()),
            ("x-api-key".to_string(), "k1".to_string()),
        ]
    );
    let text = serde_json::to_string(req.body.as_ref().unwrap()).unwrap();
    assert_eq!(text, r#"{"query":"quantum computing"}"#);
}

#[test]
fn task_paths_hold_the_task_id() {
    let client = ValyuClient::with_base_url("k", "http://h/v1").unwrap();
    let status = client.prepare(Endpoint::TaskStatus, "t42", None, None);
    assert_eq!(status.method, Method::Get);
    assert_eq!(status.url, "http://h/v1/deepresearch/tasks/t42/status");
    assert_eq!(status.headers, vec![("x-api-key".to_string(), "k".to_string())]);
    let cancel = client.prepare(Endpoint::CancelTask, "t42", None, None);
    assert_eq!(cancel.method, Method::Post);
    assert_eq!(cancel.url, "http://h/v1/deepresearch/tasks/t42/cancel");
    let delete = client.prepare(Endpoint::DeleteTask, "t42", None, None);
    assert_eq!(delete.method, Method::Delete);
    assert_eq!(delete.url, "http://h/v1/deepresearch/tasks/t42/delete");
    let update = client.prepare(Endpoint::UpdateTask, "t42", None, Some(update_body("go on")));
    assert_eq!(update.method, Method::Post);
    assert_eq!(update.url, "http://h/v1/deepresearch/tasks/t42/update");
    assert_eq!(update.headers.len(), 2);
    let text = serde_json::to_string(update.body.as_ref().unwrap()).unwrap();
    assert_eq!(text, r#"{"instruction":"go on"}"#);
    let create = client.prepare(Endpoint::CreateTask, "", None, None);
    assert_eq!(create.url, "http://h/v1/deepresearch/tasks");
}

#[test]
fn task_list_url_with_and_without_limit() {
    let client = ValyuClient::with_base_url("k", "http://h/v1").unwrap();
    let plain = client.prepare(Endpoint::ListTasks, "key-7", None, None);
    assert_eq!(plain.method, Method::Get);
    assert_eq!(plain.url, "http://h/v1/deepresearch/list?api_key_id=key-7");
    let limited = client.prepare(Endpoint::ListTasks, "key-7", Some(25), None);
    assert_eq!(limited.url, "http://h/v1/deepresearch/list?api_key_id=key-7&limit=25");
    let contents = client.prepare(Endpoint::Contents, "", None, None);
    assert_eq!(contents.url, "http://h/v1/contents");
    let answer = client.prepare(Endpoint::Answer, "", None, None);
    assert_eq!(answer.url, "http://h/v1/answer");
}

#[test]
fn decimal_digits() {
    assert_eq!(valyu::u64_to_decimal(0), "0");
    assert_eq!(valyu::u64_to_decimal(7), "7");
    assert_eq!(valyu::u64_to_decimal(10), "10");
    assert_eq!(valyu::u64_to_decimal(900), "900");
    assert_eq!(valyu::u64_to_decimal(u64::MAX), "18446744073709551615");
}
