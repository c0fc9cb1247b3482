use hypothesis::annotations::{InputAnnotation, SearchQuery};
use hypothesis::errors::HypothesisError;
use hypothesis::groups::{Expand, GroupFilters};
use hypothesis::{Hypothesis, Method, API_URL};

fn client() -> Hypothesis {
    Hypothesis::new("alice", "secret-key").expect("valid key")
}

#[test]
fn new_builds_identity_and_headers() {
    let c = client();
    assert_eq!(c.username, "alice");
    assert_eq!(c.user.0, "acct:alice@hypothes.is");
    assert_eq!(c.auth_header, "Bearer secret-key");
    assert_eq!(c.accept_header(), "application/vnd.hypothesis.v1+json");
}

#[test]
fn new_rejects_keys_with_control_characters() {
    match Hypothesis::new("alice", "bad\nkey") {
        Err(HypothesisError::HeaderError(_)) => (),
        other => panic!("expected a header error, got {:?}", other),
    }
    assert!(Hypothesis::new("alice", "tab\tis-fine").is_ok());
}

#[test]
fn annotation_request_shapes() {
    let c = client();

    let payload = InputAnnotation::builder().uri("http://e").text("t").build().unwrap();
    let r = c.create_annotation_request(&payload);
    assert_eq!(r.method, Method::Post);
    assert_eq!(r.url, format!("{}/annotations", API_URL));
    assert!(r.query.is_empty());
    assert_eq!(r.body.as_deref(), Some(r#"{"uri":"http://e","text":"t"}"#));

    let r = c.fetch_annotation_request("a1");
    assert_eq!(r.method, Method::Get);
    assert_eq!(r.url, format!("{}/annotations/a1", API_URL));
    assert_eq!(r.body, None);

    let r = c.delete_annotation_request("a1");
    assert_eq!(r.method, Method::Delete);
    assert_eq!(r.url, format!("{}/annotations/a1", API_URL));

    let r = c.flag_annotation_request("a1");
    assert_eq!(r.method, Method::Put);
    assert_eq!(r.url, format!("{}/annotations/a1/flag", API_URL));

    let r = c.hide_annotation_request("a1");
    assert_eq!(r.method, Method::Put);
    assert_eq!(r.url, format!("{}/annotations/a1/hide", API_URL));

    let r = c.show_annotation_request("a1");
    assert_eq!(r.method, Method::Delete);
    assert_eq!(r.url, format!("{}/annotations/a1/hide", API_URL));
}

#[test]
fn search_request_carries_query_params() {
    let c = client();
    let mut q = SearchQuery::default();
    q.limit = 200;
    q.group = vec!["g1".to_string()];
    let r = c.search_annotations_request(&q);
    assert_eq!(r.method, Method::Get);
    assert_eq!(r.url, format!("{}/search", API_URL));
    assert_eq!(
        r.query,
        vec![
            ("limit".to_string(), "200".to_string()),
            ("group".to_string(), "[g1]".to_string()),
        ]
    );
    assert_eq!(r.body, None);
}

#[test]
fn group_request_shapes() {
    let c = client();

    let r = c.get_groups_request(&GroupFilters::default());
    assert_eq!(r.method, Method::Get);
    assert_eq!(r.url, format!("{}/groups", API_URL));
    assert!(r.query.is_empty());

    let r = c.create_group_request("my_group", Some("a test group"));
    assert_eq!(r.method, Method::Post);
    assert_eq!(r.url, format!("{}/groups", API_URL));
    assert_eq!(
        r.body.as_deref(),
        Some(r#"{"name":"my_group","description":"a test group"}"#)
    );

    let r = c.create_group_request("g", None);
    assert_eq!(r.body.as_deref(), Some(r#"{"name":"g"}"#));

    let r = c.fetch_group_request("g1", vec![Expand::Organization]);
    assert_eq!(r.method, Method::Get);
    assert_eq!(r.url, format!("{}/groups/g1", API_URL));
    assert_eq!(r.body.as_deref(), Some(r#"{"expand":["\"organization\""]}"#));

    let r = c.fetch_group_request("g1", vec![]);
    assert_eq!(r.body.as_deref(), Some("{}"));

    let r = c.update_group_request("g1", Some("new_name"), None);
    assert_eq!(r.method, Method::Patch);
    assert_eq!(r.url, format!("{}/groups/g1", API_URL));
    assert_eq!(r.body.as_deref(), Some(r#"{"name":"new_name"}"#));

    let r = c.get_group_members_request("g1");
    assert_eq!(r.method, Method::Get);
    assert_eq!(r.url, format!("{}/groups/g1/members", API_URL));

    let r = c.leave_group_request("g1");
    assert_eq!(r.method, Method::Delete);
    assert_eq!(r.url, format!("{}/groups/g1/members/me", API_URL));
}

#[test]
fn profile_request_shapes() {
    let c = client();
    let r = c.fetch_user_profile_request();
    assert_eq!(r.method, Method::Get);
    assert_eq!(r.url, format!("{}/profile", API_URL));
    let r = c.fetch_user_groups_request();
    assert_eq!(r.method, Method::Get);
    assert_eq!(r.url, format!("{}/profile/groups", API_URL));
}
