use hypothesis::annotations::{Order, SearchQuery, Sort};
use hypothesis::groups::{Expand, GroupFilters};

#[test]
fn default_search_query_has_no_params() {
    let q = SearchQuery::default();
    assert_eq!(q.query_params(), vec![]);
}

#[test]
fn non_default_fields_become_params() {
    let mut q = SearchQuery::default();
    q.limit = 50;
    q.sort = Sort::Created;
    q.order = Order::Asc;
    q.uri = "http://example.com".to_string();
    q.user = "acct:alice@hypothes.is".to_string();
    let params = q.query_params();
    assert_eq!(
        params,
        vec![
            ("limit".to_string(), "50".to_string()),
            ("sort".to_string(), "created".to_string()),
            ("order".to_string(), "asc".to_string()),
            ("uri".to_string(), "http://example.com".to_string()),
            ("user".to_string(), "acct:alice@hypothes.is".to_string()),
        ]
    );
}

#[test]
fn explicit_defaults_are_still_omitted() {
    let mut q = SearchQuery::default();
    q.limit = 20;
    q.sort = Sort::Updated;
    q.order = Order::Desc;
    q.offset = 0;
    assert_eq!(q.query_params(), vec![]);
}

#[test]
fn list_params_are_stringified_without_quotes() {
    let mut q = SearchQuery::default();
    q.group = vec!["g1".to_string(), "g2".to_string()];
    q.tags = vec!["a b".to_string()];
    let params = q.query_params();
    assert_eq!(
        params,
        vec![
            ("group".to_string(), "[g1,g2]".to_string()),
            ("tags".to_string(), "[a b]".to_string()),
        ]
    );
}

#[test]
fn renamed_keys_are_used_on_the_wire() {
    let mut q = SearchQuery::default();
    q.uri_parts = "chapter".to_string();
    q.wildcard_uri = "http://example.com/*".to_string();
    let params = q.query_params();
    assert_eq!(
        params,
        vec![
            ("uri.parts".to_string(), "chapter".to_string()),
            ("wildcard_uri".to_string(), "http://example.com/*".to_string()),
        ]
    );
}

#[test]
fn default_group_filters_have_no_params() {
    let f = GroupFilters::default();
    assert_eq!(f.query_params(), vec![]);
}

#[test]
fn group_filters_params() {
    let f = GroupFilters {
        authority: "hypothes.is".to_string(),
        document_uri: "http://example.com".to_string(),
        expand: vec![Expand::Organization, Expand::Scopes],
    };
    assert_eq!(
        f.query_params(),
        vec![
            ("authority".to_string(), "hypothes.is".to_string()),
            ("document_uri".to_string(), "http://example.com".to_string()),
            ("expand".to_string(), "[organization,scopes]".to_string()),
        ]
    );
}
