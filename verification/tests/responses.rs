use hypothesis::errors::HypothesisError;
use hypothesis::response::{
    parse_annotation_response, parse_deletion_response, parse_empty_response,
    parse_group_list_response, parse_group_response, parse_member_list_response,
    parse_profile_response, parse_search_response,
};

const ERROR_BODY: &str = r#"{"status":"failure","reason":"not found"}"#;

fn assert_api_error(e: HypothesisError, text: &str) {
    match e {
        HypothesisError::APIError { source, raw_text } => {
            assert_eq!(source.status, "failure");
            assert_eq!(source.reason, "not found");
            assert_eq!(raw_text, text);
        },
        other => panic!("expected an API error, got {:?}", other),
    }
}

fn assert_default_api_error(e: HypothesisError, text: &str) {
    match e {
        HypothesisError::APIError { source, raw_text } => {
            assert_eq!(source.status, "");
            assert_eq!(source.reason, "");
            assert_eq!(raw_text, text);
        },
        other => panic!("expected an API error, got {:?}", other),
    }
}

#[test]
fn every_operation_surfaces_the_error_body() {
    assert_api_error(parse_annotation_response(ERROR_BODY).unwrap_err(), ERROR_BODY);
    assert_api_error(parse_search_response(ERROR_BODY).unwrap_err(), ERROR_BODY);
    assert_api_error(parse_group_response(ERROR_BODY).unwrap_err(), ERROR_BODY);
    assert_api_error(parse_group_list_response(ERROR_BODY).unwrap_err(), ERROR_BODY);
    assert_api_error(parse_member_list_response(ERROR_BODY).unwrap_err(), ERROR_BODY);
    assert_api_error(parse_profile_response(ERROR_BODY).unwrap_err(), ERROR_BODY);
    assert_api_error(parse_deletion_response(ERROR_BODY).unwrap_err(), ERROR_BODY);
    assert_api_error(parse_empty_response(ERROR_BODY).unwrap_err(), ERROR_BODY);
}

#[test]
fn unrecognizable_bodies_still_error() {
    for body in ["not json at all", "[1,2,3]", r#"{"weird":"shape"}"#] {
        assert_default_api_error(parse_annotation_response(body).unwrap_err(), body);
        assert_default_api_error(parse_search_response(body).unwrap_err(), body);
        assert_default_api_error(parse_group_response(body).unwrap_err(), body);
        assert_default_api_error(parse_deletion_response(body).unwrap_err(), body);
        assert_default_api_error(parse_profile_response(body).unwrap_err(), body);
    }
}

const ANNOTATION_BODY: &str = r#"{"id":"a1","created":"2020-01-01T00:00:00Z","updated":"2020-01-02T00:00:00Z","user":"acct:alice@hypothes.is","uri":"http://e","text":"hi","tags":[],"group":"__world__","permissions":{"read":[],"delete":[],"admin":[],"update":[]},"target":[],"links":{},"hidden":false,"flagged":true}"#;

#[test]
fn annotation_success_body() {
    let a = parse_annotation_response(ANNOTATION_BODY).expect("should succeed");
    assert_eq!(a.id, "a1");
    assert!(a.flagged);
    assert!(!a.hidden);
}

#[test]
fn escaped_text_in_a_success_body_decodes() {
    // services that escape non-ASCII characters send bodies like this one
    let body = ANNOTATION_BODY.replacen(r#""text":"hi""#, r#""text":"caf\u00e9 \ud83d\ude00""#, 1);
    let a = parse_annotation_response(&body).expect("escaped body should decode");
    assert_eq!(a.text, "caf\u{e9} \u{1f600}");
}

#[test]
fn malformed_timestamps_fall_to_the_error_path() {
    let body = ANNOTATION_BODY.replacen(r#""updated":"2020-01-02T00:00:00Z""#, r#""updated":"garbage""#, 1);
    assert_default_api_error(parse_annotation_response(&body).unwrap_err(), &body);
}

#[test]
fn search_success_body_returns_rows() {
    let body = format!(r#"{{"rows":[{}],"total":1}}"#, ANNOTATION_BODY);
    let rows = parse_search_response(&body).expect("should succeed");
    assert_eq!(rows.len(), 1);
    assert_eq!(rows[0].id, "a1");

    let empty = r#"{"rows":[],"total":0}"#;
    assert_eq!(parse_search_response(empty).unwrap().len(), 0);
}

#[test]
fn search_requires_integer_total() {
    let body = r#"{"rows":[],"total":"three"}"#;
    assert_default_api_error(parse_search_response(body).unwrap_err(), body);
}

#[test]
fn deletion_success_body() {
    assert_eq!(parse_deletion_response(r#"{"id":"a1","deleted":true}"#).unwrap(), true);
    assert_eq!(parse_deletion_response(r#"{"id":"a1","deleted":false}"#).unwrap(), false);
}

#[test]
fn empty_operations_succeed_on_anything_but_the_error_shape() {
    assert!(parse_empty_response("").is_ok());
    assert!(parse_empty_response("{}").is_ok());
    assert!(parse_empty_response("null").is_ok());
    assert!(parse_empty_response(r#"{"status":"ok"}"#).is_ok());
}

#[test]
fn group_list_success_body() {
    let body = r#"[{"id":"g1","name":"G","links":{},"organization":"o","scoped":false,"type":"open"}]"#;
    let gs = parse_group_list_response(body).unwrap();
    assert_eq!(gs.len(), 1);
    assert_eq!(gs[0].id, "g1");
}

#[test]
fn member_list_success_body() {
    let body = r#"[{"authority":"hypothes.is","username":"u","userid":"acct:u@hypothes.is","display_name":"U"}]"#;
    let ms = parse_member_list_response(body).unwrap();
    assert_eq!(ms.len(), 1);
    assert_eq!(ms[0].display_name, Some("U".to_string()));
}

#[test]
fn profile_success_body() {
    let body = r#"{"authority":"hypothes.is","features":{"a":false},"preferences":{"b":true},"userid":null}"#;
    let p = parse_profile_response(body).unwrap();
    assert_eq!(p.preferences, vec![("b".to_string(), true)]);
    assert_eq!(p.userid, None);
}
