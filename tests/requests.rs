use valyu::{
    AnswerRequest, ContentsRequest, DeepResearchCreateRequest, DeepResearchFileAttachment,
    DeepResearchMode, DeepResearchSearchConfig, DeepSearchRequest, Deliverable, DeliverableType,
    ResponseLength, SummaryOption,
};

#[test]
fn test_request_builder() {
    let request = DeepSearchRequest::new("quantum computing")
        .with_max_results(10)
        .with_search_type("web")
        .with_fast_mode(true);
    assert_eq!(request.query, "quantum computing");
    assert_eq!(request.max_num_results, Some(10));
    assert_eq!(request.search_type, Some("web".to_string()));
    assert_eq!(request.fast_mode, Some(true));
}

#[test]
fn test_request_serialization() {
    let request = DeepSearchRequest::new("test query").with_max_results(5);
    let json = serde_json::to_string(&request.to_json()).unwrap();
    assert!(json.contains("test query"));
    assert!(json.contains("max_num_results"));
}

#[test]
fn unset_fields_are_left_out_of_every_body() {
    let search = serde_json::to_string(&DeepSearchRequest::new("q").to_json()).unwrap();
    assert_eq!(search, r#"{"query":"q"}"#);
    let contents = serde_json::to_string(&ContentsRequest::new(vec!["https://a".to_string()]).to_json()).unwrap();
    assert_eq!(contents, r#"{"urls":["https://a"]}"#);
    let answer = serde_json::to_string(&AnswerRequest::new("why").to_json()).unwrap();
    assert_eq!(answer, r#"{"query":"why"}"#);
    let research = serde_json::to_string(&DeepResearchCreateRequest::new("topic").to_json()).unwrap();
    assert_eq!(research, r#"{"input":"topic"}"#);
    for text in [search, contents, answer, research] {
        assert!(!text.contains("null"));
    }
}

#[test]
fn set_fields_are_sent_under_their_names() {
    let request = DeepSearchRequest::new("q")
        .with_category("science")
        .with_date_range("2024-01-01", "2024-12-31")
        .with_is_tool_call(false)
        .with_included_sources(vec!["arxiv".to_string()]);
    let v = serde_json::Value::Object(request.to_json());
    assert_eq!(v["category"], "science");
    assert_eq!(v["start_date"], "2024-01-01");
    assert_eq!(v["end_date"], "2024-12-31");
    assert_eq!(v["is_tool_call"], false);
    assert_eq!(v["included_sources"][0], "arxiv");
    assert_eq!(v.as_object().unwrap().len(), 6);
}

#[test]
fn preset_length_is_a_bare_string() {
    let request = ContentsRequest::new(vec!["https://a".to_string()]).with_response_length("medium");
    let text = serde_json::to_string(&request.to_json()).unwrap();
    assert_eq!(text, r#"{"response_length":"medium","urls":["https://a"]}"#);
}

#[test]
fn custom_length_is_a_bare_integer() {
    let request = ContentsRequest::new(vec!["https://a".to_string()]).with_custom_response_length(5000);
    let text = serde_json::to_string(&request.to_json()).unwrap();
    assert_eq!(text, r#"{"response_length":5000,"urls":["https://a"]}"#);
    assert!(matches!(request.response_length, Some(ResponseLength::Custom(5000))));
}

#[test]
fn summary_variants_are_sent_bare() {
    let urls = vec!["https://a".to_string()];
    let flag = ContentsRequest::new(urls.clone()).with_summary(true);
    let v = serde_json::Value::Object(flag.to_json());
    assert_eq!(v["summary"], true);
    let text = ContentsRequest::new(urls.clone()).with_summary_instructions("brief");
    let v = serde_json::Value::Object(text.to_json());
    assert_eq!(v["summary"], "brief");
    let schema: serde_json::Value = serde_json::from_str(r#"{"type":"object"}"#).unwrap();
    let object = ContentsRequest::new(urls).with_summary_schema(schema.clone());
    assert!(matches!(object.summary, Some(SummaryOption::Schema(_))));
    let v = serde_json::Value::Object(object.to_json());
    assert_eq!(v["summary"], schema);
}

#[test]
fn empty_url_list_is_allowed_and_sent() {
    let request = ContentsRequest::new(vec![]);
    assert!(request.urls.is_empty());
    let text = serde_json::to_string(&request.to_json()).unwrap();
    assert_eq!(text, r#"{"urls":[]}"#);
}

#[test]
fn answer_builders_set_fields() {
    let request = AnswerRequest::new("q")
        .with_system_instructions("be short")
        .with_country_code("US")
        .with_fast_mode(true);
    let v = serde_json::Value::Object(request.to_json());
    assert_eq!(v["system_instructions"], "be short");
    assert_eq!(v["country_code"], "US");
    assert_eq!(v["fast_mode"], true);
    assert_eq!(v.as_object().unwrap().len(), 4);
}

#[test]
fn research_body_uses_wire_names() {
    let request = DeepResearchCreateRequest::new("topic")
        .with_mode(DeepResearchMode::Lite)
        .with_output_formats(vec!["markdown".to_string(), "pdf".to_string()])
        .with_code_execution(true)
        .with_webhook_url("https://hook")
        .with_search(DeepResearchSearchConfig {
            search_type: Some("web".to_string()),
            included_sources: None,
        })
        .with_files(vec![DeepResearchFileAttachment {
            data: "data:x".to_string(),
            filename: "a.pdf".to_string(),
            media_type: "application/pdf".to_string(),
            context: None,
        }]);
    let v = serde_json::Value::Object(request.to_json());
    assert_eq!(v["model"], "lite");
    assert_eq!(v["outputFormats"][0], "markdown");
    assert_eq!(v["outputFormats"][1], "pdf");
    assert_eq!(v["codeExecution"], true);
    assert_eq!(v["webhookUrl"], "https://hook");
    assert_eq!(v["search"]["searchType"], "web");
    assert!(v["search"].get("includedSources").is_none());
    assert_eq!(v["files"][0]["mediaType"], "application/pdf");
    assert!(v["files"][0].get("context").is_none());
}

#[test]
fn deliverable_object() {
    let d = Deliverable {
        deliverable_type: DeliverableType::Xlsx,
        description: "table".to_string(),
        columns: None,
        include_headers: Some(true),
        sheet_name: None,
        slides: None,
        template: None,
    };
    let text = serde_json::to_string(&d.to_json()).unwrap();
    assert_eq!(text, r#"{"description":"table","includeHeaders":true,"type":"xlsx"}"#);
}

#[test]
fn default_mode_is_standard() {
    assert_eq!(DeepResearchMode::default(), DeepResearchMode::Standard);
}
