use telemetry_core::dispatch::classify_list_type;
use telemetry_core::dispatch::classify_request_kind;
use telemetry_core::dispatch::handle_algorithm_request;
use telemetry_core::dispatch::handle_execution_request;
use telemetry_core::dispatch::handle_list_request;
use telemetry_core::dispatch::selected_names;
use telemetry_core::dispatch::AlgorithmExecutionRequest;
use telemetry_core::dispatch::AlgorithmExecutionResponse;
use telemetry_core::dispatch::AlgorithmListRequest;
use telemetry_core::dispatch::AlgorithmListType;
use telemetry_core::dispatch::AlgorithmRequestType;

const ALL_NAMES: &str = r#"["Dijkstra","Johnson","Prim","Rucksack-PTAS","Rucksack-FPTAS"]"#;

#[test]
fn list_request_without_list_type_yields_all_names() {
    let (status, message) = handle_algorithm_request(r#"{"request_type":"list","content":{}}"#);
    assert_eq!(status, AlgorithmExecutionResponse::Success);
    assert_eq!(message, ALL_NAMES);
}

#[test]
fn list_request_with_null_list_type_yields_all_names() {
    let (status, message) =
        handle_algorithm_request(r#"{"request_type":"list","content":{"list_type":null}}"#);
    assert_eq!(status, AlgorithmExecutionResponse::Success);
    assert_eq!(message, ALL_NAMES);
}

#[test]
fn list_request_with_all_selector_yields_all_names() {
    let (status, message) =
        handle_algorithm_request(r#"{"request_type":"list","content":{"list_type":"all"}}"#);
    assert_eq!(status, AlgorithmExecutionResponse::Success);
    assert_eq!(message, ALL_NAMES);
}

#[test]
fn list_request_with_graph_selector_yields_graph_names() {
    let (status, message) =
        handle_algorithm_request(r#"{"request_type":"list","content":{"list_type":"graph"}}"#);
    assert_eq!(status, AlgorithmExecutionResponse::Success);
    assert_eq!(message, r#"["Dijkstra","Johnson","Prim"]"#);
}

#[test]
fn list_request_with_approximation_selector_yields_approximation_names() {
    let (status, message) = handle_algorithm_request(
        r#"{"request_type":"list","content":{"list_type":"approximation"}}"#,
    );
    assert_eq!(status, AlgorithmExecutionResponse::Success);
    assert_eq!(message, r#"["Rucksack-PTAS","Rucksack-FPTAS"]"#);
}

#[test]
fn execution_request_for_dijkstra_yields_handler_message() {
    let (status, message) = handle_algorithm_request(
        r#"{"request_type":"execution","content":{"algorithm":"dijkstra","data":"..."}}"#,
    );
    assert_eq!(status, AlgorithmExecutionResponse::Success);
    assert_eq!(message, "algorithm execution request handler Dijkstra");
}

#[test]
fn execution_request_for_each_registered_algorithm_succeeds() {
    for (identifier, name) in [
        ("dijkstra", "Dijkstra"),
        ("johnson", "Johnson"),
        ("prim", "Prim"),
        ("rucksack-ptas", "Rucksack-PTAS"),
        ("rucksack-fptas", "Rucksack-FPTAS"),
    ] {
        let body = format!(
            r#"{{"request_type":"execution","content":{{"algorithm":"{}","data":""}}}}"#,
            identifier
        );
        let (status, message) = handle_algorithm_request(&body);
        assert_eq!(status, AlgorithmExecutionResponse::Success);
        assert_eq!(
            message,
            format!("algorithm execution request handler {}", name)
        );
    }
}

#[test]
fn execution_request_for_unknown_algorithm_fails_with_unknown_diagnostic() {
    let (status, message) = handle_algorithm_request(
        r#"{"request_type":"execution","content":{"algorithm":"bogus","data":""}}"#,
    );
    assert_eq!(status, AlgorithmExecutionResponse::Failure);
    assert_eq!(message, "Unknown algorithm: bogus");
}

#[test]
fn malformed_top_level_json_fails_at_the_envelope_stage() {
    let (status, message) = handle_algorithm_request("not json");
    assert_eq!(status, AlgorithmExecutionResponse::Failure);
    assert!(
        message.starts_with("Error parsing toplevel request: "),
        "unexpected diagnostic: {message}"
    );
}

#[test]
fn empty_body_fails_at_the_envelope_stage() {
    let (status, message) = handle_algorithm_request("");
    assert_eq!(status, AlgorithmExecutionResponse::Failure);
    assert!(message.starts_with("Error parsing toplevel request: "));
}

#[test]
fn missing_request_type_fails_at_the_envelope_stage() {
    let (status, message) = handle_algorithm_request(r#"{"content":{}}"#);
    assert_eq!(status, AlgorithmExecutionResponse::Failure);
    assert!(message.starts_with("Error parsing toplevel request: "));
}

#[test]
fn non_string_request_type_fails_at_the_envelope_stage() {
    let (status, message) = handle_algorithm_request(r#"{"request_type":7,"content":{}}"#);
    assert_eq!(status, AlgorithmExecutionResponse::Failure);
    assert!(message.starts_with("Error parsing toplevel request: "));
}

#[test]
fn unknown_request_type_fails_at_the_envelope_stage() {
    let (status, message) = handle_algorithm_request(r#"{"request_type":"bogus","content":{}}"#);
    assert_eq!(status, AlgorithmExecutionResponse::Failure);
    assert!(message.starts_with("Error parsing toplevel request: "));
}

#[test]
fn missing_content_fails_at_the_envelope_stage() {
    let (status, message) = handle_algorithm_request(r#"{"request_type":"list"}"#);
    assert_eq!(status, AlgorithmExecutionResponse::Failure);
    assert!(message.starts_with("Error parsing toplevel request: "));
}

#[test]
fn non_object_list_content_fails_at_the_list_stage() {
    let (status, message) = handle_algorithm_request(r#"{"request_type":"list","content":5}"#);
    assert_eq!(status, AlgorithmExecutionResponse::Failure);
    assert_eq!(
        message,
        "Error parsing list request: content does not match the list shape"
    );
}

#[test]
fn non_string_list_type_fails_at_the_list_stage() {
    let (status, message) =
        handle_algorithm_request(r#"{"request_type":"list","content":{"list_type":5}}"#);
    assert_eq!(status, AlgorithmExecutionResponse::Failure);
    assert_eq!(
        message,
        "Error parsing list request: content does not match the list shape"
    );
}

#[test]
fn unknown_list_type_fails_at_the_list_stage() {
    let (status, message) =
        handle_algorithm_request(r#"{"request_type":"list","content":{"list_type":"bogus"}}"#);
    assert_eq!(status, AlgorithmExecutionResponse::Failure);
    assert_eq!(
        message,
        "Error parsing list request: content does not match the list shape"
    );
}

#[test]
fn execution_content_without_data_fails_at_the_execution_stage() {
    let (status, message) =
        handle_algorithm_request(r#"{"request_type":"execution","content":{"algorithm":"prim"}}"#);
    assert_eq!(status, AlgorithmExecutionResponse::Failure);
    assert_eq!(
        message,
        "Error parsing execution request: content does not match the execution shape"
    );
}

#[test]
fn execution_content_without_algorithm_fails_at_the_execution_stage() {
    let (status, message) =
        handle_algorithm_request(r#"{"request_type":"execution","content":{"data":""}}"#);
    assert_eq!(status, AlgorithmExecutionResponse::Failure);
    assert_eq!(
        message,
        "Error parsing execution request: content does not match the execution shape"
    );
}

#[test]
fn non_object_execution_content_fails_at_the_execution_stage() {
    let (status, message) =
        handle_algorithm_request(r#"{"request_type":"execution","content":"x"}"#);
    assert_eq!(status, AlgorithmExecutionResponse::Failure);
    assert_eq!(
        message,
        "Error parsing execution request: content does not match the execution shape"
    );
}

#[test]
fn classify_request_kind_knows_the_two_kinds() {
    assert_eq!(classify_request_kind("list"), Some(AlgorithmRequestType::List));
    assert_eq!(
        classify_request_kind("execution"),
        Some(AlgorithmRequestType::Execution)
    );
    assert_eq!(classify_request_kind("List"), None);
    assert_eq!(classify_request_kind(""), None);
}

#[test]
fn classify_list_type_knows_the_three_selectors() {
    assert_eq!(classify_list_type("all"), Some(AlgorithmListType::All));
    assert_eq!(classify_list_type("graph"), Some(AlgorithmListType::Graph));
    assert_eq!(
        classify_list_type("approximation"),
        Some(AlgorithmListType::Approximation)
    );
    assert_eq!(classify_list_type("Graph"), None);
}

#[test]
fn selected_names_are_display_names_in_order() {
    assert_eq!(
        selected_names(AlgorithmListType::Graph),
        vec!["Dijkstra", "Johnson", "Prim"]
    );
    assert_eq!(
        selected_names(AlgorithmListType::All).len(),
        5
    );
}

#[test]
fn list_handler_treats_absent_selector_as_all() {
    let (status, message) = handle_list_request(&AlgorithmListRequest { list_type: None });
    assert_eq!(status, AlgorithmExecutionResponse::Success);
    assert_eq!(message, ALL_NAMES);
}

#[test]
fn execution_handler_looks_the_identifier_up() {
    let (status, message) = handle_execution_request(&AlgorithmExecutionRequest {
        algorithm: "johnson".to_string(),
        data: "payload".to_string(),
    });
    assert_eq!(status, AlgorithmExecutionResponse::Success);
    assert_eq!(message, "algorithm execution request handler Johnson");

    let (status, message) = handle_execution_request(&AlgorithmExecutionRequest {
        algorithm: "nope".to_string(),
        data: String::new(),
    });
    assert_eq!(status, AlgorithmExecutionResponse::Failure);
    assert_eq!(message, "Unknown algorithm: nope");
}
