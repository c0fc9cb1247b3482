use hypothesis::annotations::{
    Annotation, Dc, Document, InputAnnotation, Order, Permissions, SearchQuery, Sort, Target,
};
use hypothesis::errors::{APIError, CLIError, HypothesisError};
use hypothesis::groups::Expand;
use hypothesis::UserAccountID;

#[test]
fn search_query_builder_defaults() {
    let q = SearchQuery::builder().build().unwrap();
    assert_eq!(q, SearchQuery::default());
    let q = SearchQuery::builder().limit(50).user("acct:a@hypothes.is").build().unwrap();
    assert_eq!(q.limit, 50);
    assert_eq!(q.user, "acct:a@hypothes.is");
    assert_eq!(q.sort, Sort::Updated);
    assert_eq!(q.order, Order::Desc);
}

#[test]
fn document_builder_requires_title_and_link() {
    match Document::builder().build() {
        Err(HypothesisError::BuilderError(m)) => assert_eq!(m, "`title` must be initialized"),
        other => panic!("expected a builder error, got {:?}", other),
    }
    match Document::builder().title(vec!["T".to_string()]).build() {
        Err(HypothesisError::BuilderError(m)) => assert_eq!(m, "`link` must be initialized"),
        other => panic!("expected a builder error, got {:?}", other),
    }
    let d = Document::builder()
        .title(vec!["T".to_string()])
        .link(vec![])
        .dc(Dc { identifier: vec!["doi:x".to_string()] })
        .build()
        .unwrap();
    assert_eq!(d.title, vec!["T".to_string()]);
    assert_eq!(d.dc.unwrap().identifier, vec!["doi:x".to_string()]);
}

#[test]
fn target_builder_requires_source_and_selector() {
    match Target::builder().build() {
        Err(HypothesisError::BuilderError(m)) => assert_eq!(m, "`source` must be initialized"),
        other => panic!("expected a builder error, got {:?}", other),
    }
    let t = Target::builder().source("http://e").selector(vec![]).build().unwrap();
    assert_eq!(t.source, "http://e");
}

#[test]
fn sort_order_expand_parsing() {
    assert_eq!(Sort::parse("created").unwrap(), Sort::Created);
    assert_eq!(Sort::parse("user").unwrap(), Sort::User);
    match Sort::parse("bogus") {
        Err(CLIError::ParseError { name, types }) => {
            assert_eq!(name, "sort");
            assert_eq!(types, vec!["created", "updated", "id", "group", "user"]);
        },
        other => panic!("expected a parse error, got {:?}", other),
    }
    assert_eq!(Order::parse("asc").unwrap(), Order::Asc);
    assert!(Order::parse("sideways").is_err());
    assert_eq!(Expand::parse("organization").unwrap(), Expand::Organization);
    assert_eq!("updated".parse::<Sort>().unwrap(), Sort::Updated);
    assert_eq!("desc".parse::<Order>().unwrap(), Order::Desc);
}

#[test]
fn variant_lists() {
    assert_eq!(Sort::variants(), ["created", "updated", "id", "group", "user"]);
    assert_eq!(Order::variants(), ["asc", "desc"]);
    assert_eq!(Expand::variants(), ["organization", "scopes"]);
}

#[test]
fn api_error_message_and_default() {
    let e = APIError { status: "failure".to_string(), reason: "nope".to_string() };
    assert_eq!(e.message(), "Status: failure\nReason: nope");
    let d = APIError::default();
    assert_eq!(d.status, "");
    assert_eq!(d.reason, "");
}

fn base_annotation() -> Annotation {
    Annotation {
        id: "a1".to_string(),
        created: "c".to_string(),
        updated: "u".to_string(),
        user: UserAccountID::from_username("alice"),
        uri: "http://old".to_string(),
        text: "old text".to_string(),
        tags: vec!["old".to_string()],
        group: "old-group".to_string(),
        permissions: Permissions { read: vec![], delete: vec![], admin: vec![], update: vec![] },
        target: vec![],
        links: vec![],
        hidden: false,
        flagged: false,
        document: None,
        references: vec!["parent".to_string()],
        user_info: None,
    }
}

#[test]
fn update_merges_non_empty_fields() {
    let mut a = base_annotation();
    let patch = InputAnnotation::builder().text("new text").build().unwrap();
    a.update(patch);
    assert_eq!(a.text, "new text");
    assert_eq!(a.uri, "http://old");
    assert_eq!(a.tags, vec!["old".to_string()]);
    // a defaulted payload reference list leaves the existing one untouched
    assert_eq!(a.references, vec!["parent".to_string()]);
}

#[test]
fn update_replaces_references_when_given() {
    let mut a = base_annotation();
    let patch = InputAnnotation::builder().references(vec!["other".to_string()]).build().unwrap();
    a.update(patch);
    assert_eq!(a.references, vec!["other".to_string()]);
    assert_eq!(a.text, "old text");
}

#[test]
fn update_replaces_tags_when_given() {
    let mut a = base_annotation();
    let patch = InputAnnotation::builder().tags(vec!["n1".to_string()]).build().unwrap();
    a.update(patch);
    assert_eq!(a.tags, vec!["n1".to_string()]);
}
