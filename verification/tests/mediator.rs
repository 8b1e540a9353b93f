use parrot_llama::chat::build_request;
use parrot_llama::chat::map_message;
use parrot_llama::chat::map_messages;
use parrot_llama::chat::normalize_response;
use parrot_llama::chat::Message;
use parrot_llama::chat::Role;

fn msg(role: &str, content: &str) -> Message {
    Message { role: role.to_string(), content: content.to_string() }
}

#[test]
fn recognized_roles_map_to_themselves() {
    assert_eq!(map_message(&msg("user", "a")).role, Role::User);
    assert_eq!(map_message(&msg("assistant", "b")).role, Role::Assistant);
    assert_eq!(map_message(&msg("system", "c")).role, Role::System);
}

#[test]
fn unrecognized_role_falls_back_to_user() {
    let mapped = map_message(&msg("boss", "hello"));
    assert_eq!(mapped.role, Role::User);
    assert_eq!(mapped.content, "hello");
    assert_eq!(map_message(&msg("", "x")).role, Role::User);
    assert_eq!(map_message(&msg("User", "x")).role, Role::User);
}

#[test]
fn mapping_preserves_order_and_content() {
    let input = vec![msg("system", "be terse"), msg("user", "2+2?"), msg("oracle", "4")];
    let mapped = map_messages(&input);
    assert_eq!(mapped.len(), 3);
    assert_eq!(mapped[0].role, Role::System);
    assert_eq!(mapped[0].content, "be terse");
    assert_eq!(mapped[1].role, Role::User);
    assert_eq!(mapped[1].content, "2+2?");
    assert_eq!(mapped[2].role, Role::User);
    assert_eq!(mapped[2].content, "4");
}

#[test]
fn empty_schema_means_no_constraint() {
    let req = build_request("modelA".to_string(), &vec![msg("user", "hi")], "").unwrap();
    assert_eq!(req.model, "modelA");
    assert!(req.format.is_none());
}

#[test]
fn valid_schema_attaches_constraint() {
    let schema = "{\"type\": \"object\", \"properties\": {\"answer\": {\"type\": \"string\"}}}";
    let req = build_request("modelA".to_string(), &vec![msg("user", "hi")], schema).unwrap();
    assert!(req.format.is_some());
}

#[test]
fn invalid_schema_is_rejected_with_diagnostic() {
    let r = build_request("modelA".to_string(), &vec![msg("user", "hi")], "{not valid json");
    let err = r.err().unwrap();
    assert!(err.starts_with("Failed to parse JSON schema: "));
    assert!(err.len() > "Failed to parse JSON schema: ".len());
}

#[test]
fn non_json_schema_value_is_rejected() {
    let r = build_request("modelA".to_string(), &Vec::new(), "17");
    let err = r.err().unwrap();
    assert!(err.contains("Failed to parse JSON schema"));
}

#[test]
fn empty_content_becomes_sentinel() {
    assert_eq!(normalize_response(Ok(String::new())), Ok("Null response".to_string()));
}

#[test]
fn whitespace_content_becomes_sentinel() {
    assert_eq!(normalize_response(Ok("   ".to_string())), Ok("Null response".to_string()));
    assert_eq!(normalize_response(Ok("\t\n \r".to_string())), Ok("Null response".to_string()));
}

#[test]
fn nonblank_content_is_verbatim() {
    assert_eq!(normalize_response(Ok("42".to_string())), Ok("42".to_string()));
    assert_eq!(normalize_response(Ok("  4 ".to_string())), Ok("  4 ".to_string()));
}

#[test]
fn transport_failure_is_prefixed() {
    let r = normalize_response(Err("connection refused".to_string()));
    assert_eq!(r, Err("Ollama error: connection refused".to_string()));
}

#[test]
fn free_form_round_trip_scenario() {
    let input = vec![msg("system", "be terse"), msg("user", "2+2?")];
    let req = build_request("modelA".to_string(), &input, "").unwrap();
    assert_eq!(req.model, "modelA");
    assert!(req.format.is_none());
    assert_eq!(req.messages.len(), 2);
    assert_eq!(req.messages[0].role, Role::System);
    assert_eq!(req.messages[1].role, Role::User);
    let result = normalize_response(Ok("4".to_string()));
    assert_eq!(result, Ok("4".to_string()));
}

#[test]
fn malformed_schema_scenario_fails_before_submission() {
    let input = vec![msg("system", "be terse"), msg("user", "2+2?")];
    let r = build_request("modelA".to_string(), &input, "{not valid json");
    let err = r.err().unwrap();
    assert!(err.contains("Failed to parse JSON schema"));
}
