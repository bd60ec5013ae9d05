use shit::daemon::{InferRequest, Payload};
use shit::dispatch::DaemonReply;
use shit::protocol::{decode_fixes, decode_infer_request, infer_request_body, response_body};

#[test]
fn test_infer_request_format() {
    let prompt = "$ git psuh\n> git: 'psuh' is not a git command\nOP:";
    let serialized = infer_request_body(prompt);
    match decode_infer_request(Some(&serialized)) {
        InferRequest::Prompt(p) => assert_eq!(p, prompt),
        _ => panic!("prompt expected"),
    }
}

#[test]
fn test_infer_response_format() {
    let fixes = vec!["git push".to_string()];
    let (serialized, json) = response_body(&Payload::Fixes(fixes));
    assert!(json);
    match decode_fixes(&serialized) {
        DaemonReply::Fixes(result) => assert_eq!(result, vec!["git push".to_string()]),
        DaemonReply::Failed => panic!("fixes expected"),
    }
}

#[test]
fn request_body_shape() {
    assert_eq!(infer_request_body("a\"b"), "{\"prompt\":\"a\\\"b\"}");
    assert_eq!(infer_request_body("x\u{1}\n\\é"), "{\"prompt\":\"x\\u0001\\n\\\\é\"}");
}

#[test]
fn malformed_request_bodies() {
    assert!(matches!(decode_infer_request(None), InferRequest::Unreadable));
    assert!(matches!(decode_infer_request(Some("{not json")), InferRequest::InvalidJson));
    assert!(matches!(decode_infer_request(Some("{\"other\":1}")), InferRequest::MissingPrompt));
    assert!(matches!(decode_infer_request(Some("{\"prompt\":5}")), InferRequest::MissingPrompt));
}

#[test]
fn response_bodies() {
    assert_eq!(response_body(&Payload::Fixes(vec![])).0, "{\"fixes\":[]}");
    assert_eq!(response_body(&Payload::Error("bad request".to_string())).0, "{\"error\":\"bad request\"}");
    let (t, json) = response_body(&Payload::Text("ok".to_string()));
    assert_eq!(t, "ok");
    assert!(!json);
}

#[test]
fn daemon_answers() {
    assert!(matches!(decode_fixes("garbage"), DaemonReply::Failed));
    assert!(matches!(decode_fixes("{\"error\":\"x\"}"), DaemonReply::Failed));
    match decode_fixes("{\"fixes\":[\"a\",3,\"b\"]}") {
        DaemonReply::Fixes(f) => assert_eq!(f, vec!["a".to_string(), "b".to_string()]),
        DaemonReply::Failed => panic!("fixes expected"),
    }
}

#[test]
fn fixes_body_lists_every_fix() {
    let (body, _) = response_body(&Payload::Fixes(vec!["a".to_string(), "b \"c\"".to_string()]));
    assert_eq!(body, "{\"fixes\":[\"a\",\"b \\\"c\\\"\"]}");
}

#[test]
fn prompt_member_must_be_top_level_string() {
    assert!(matches!(decode_infer_request(Some("[\"prompt\"]")), InferRequest::MissingPrompt));
    assert!(matches!(decode_infer_request(Some("{\"x\":{\"prompt\":\"p\"}}")), InferRequest::MissingPrompt));
    match decode_infer_request(Some("{\"a\":1,\"prompt\":\"ls\\n\"}")) {
        InferRequest::Prompt(p) => assert_eq!(p, "ls\n"),
        _ => panic!("prompt expected"),
    }
}

#[test]
fn fixes_need_an_array_member() {
    assert!(matches!(decode_fixes("[\"a\"]"), DaemonReply::Failed));
    assert!(matches!(decode_fixes("{\"fixes\":\"a\"}"), DaemonReply::Failed));
    match decode_fixes("{\"fixes\":[]}") {
        DaemonReply::Fixes(f) => assert!(f.is_empty()),
        DaemonReply::Failed => panic!("empty list expected"),
    }
}
