use hypothesis::annotations::{Annotation, Permissions, SearchQuery};
use hypothesis::bulk::collect_results;
use hypothesis::search_pagination_step;
use hypothesis::UserAccountID;

#[test]
fn collect_keeps_input_order_when_all_succeed() {
    let results: Vec<Result<i32, String>> = vec![Ok(10), Ok(20), Ok(30)];
    assert_eq!(collect_results(results), Ok(vec![10, 20, 30]));
    let none: Vec<Result<i32, String>> = vec![];
    assert_eq!(collect_results(none), Ok(vec![]));
}

#[test]
fn collect_fails_fast_with_the_first_error() {
    let results: Vec<Result<i32, String>> = vec![
        Ok(1),
        Err("first".to_string()),
        Ok(3),
        Err("second".to_string()),
    ];
    assert_eq!(collect_results(results), Err("first".to_string()));
}

fn annotation(id: &str, updated: &str) -> Annotation {
    Annotation {
        id: id.to_string(),
        created: "c".to_string(),
        updated: updated.to_string(),
        user: UserAccountID::from_username("alice"),
        uri: "http://e".to_string(),
        text: String::new(),
        tags: vec![],
        group: "__world__".to_string(),
        permissions: Permissions { read: vec![], delete: vec![], admin: vec![], update: vec![] },
        target: vec![],
        links: vec![],
        hidden: false,
        flagged: false,
        document: None,
        references: vec![],
        user_info: None,
    }
}

#[test]
fn pagination_accumulates_pages_and_advances_the_cursor() {
    let mut query = SearchQuery::default();
    let mut acc: Vec<Annotation> = Vec::new();

    let page1 = vec![annotation("a1", "2020-01-01T00:00:00Z"), annotation("a2", "2020-01-02T00:00:00Z")];
    let done = search_pagination_step(&mut query, &mut acc, page1);
    assert!(!done);
    assert_eq!(query.search_after, "2020-01-02T00:00:00Z");
    assert_eq!(acc.len(), 2);

    let page2 = vec![annotation("a3", "2020-01-03T00:00:00Z")];
    let done = search_pagination_step(&mut query, &mut acc, page2);
    assert!(!done);
    assert_eq!(query.search_after, "2020-01-03T00:00:00Z");
    assert_eq!(acc.len(), 3);

    let done = search_pagination_step(&mut query, &mut acc, vec![]);
    assert!(done);
    assert_eq!(query.search_after, "2020-01-03T00:00:00Z");
    let ids: Vec<&str> = acc.iter().map(|a| a.id.as_str()).collect();
    assert_eq!(ids, vec!["a1", "a2", "a3"]);
}
