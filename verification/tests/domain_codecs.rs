use hypothesis::annotations::{
    Annotation, Document, InputAnnotation, Permissions, Selector, Target, TextQuoteSelector,
    UserInfo,
};
use hypothesis::groups::{Group, Links, Member, Org, Organization, Scope, Type};
use hypothesis::json::{parse_json, to_text, JsonValue};
use hypothesis::profile::UserProfile;
use hypothesis::UserAccountID;

#[test]
fn account_id_format() {
    let user = UserAccountID::from_username("alice");
    assert_eq!(user.0, "acct:alice@hypothes.is");
    let parsed: UserAccountID = "my_username".parse().unwrap();
    assert_eq!(parsed.0, "acct:my_username@hypothes.is");
}

#[test]
fn input_annotation_round_trip_omits_defaulted_keys() {
    let payload = InputAnnotation::builder()
        .uri("https://www.example.com")
        .text("this is a comment")
        .build()
        .unwrap();
    let text = to_text(&payload.to_json());
    let back = parse_json(&text).expect("payload must re-parse");
    match back {
        JsonValue::Obj(entries) => {
            let keys: Vec<&str> = entries.iter().map(|(k, _)| k.as_str()).collect();
            assert_eq!(keys, vec!["uri", "text"]);
            assert!(!keys.contains(&"tags"));
            assert!(!keys.contains(&"document"));
            assert!(!keys.contains(&"group"));
            assert!(!keys.contains(&"target"));
            assert!(!keys.contains(&"references"));
        },
        other => panic!("expected an object, got {:?}", other),
    }
}

#[test]
fn full_input_annotation_encodes_all_set_fields() {
    let payload = InputAnnotation::builder()
        .uri("https://www.example.com")
        .text("text")
        .target(
            Target::builder()
                .source("https://www.example.com")
                .selector(vec![Selector::new_quote("exact", "pre", "suf")])
                .build()
                .unwrap(),
        )
        .tags(vec!["tag1".to_string(), "tag2".to_string()])
        .build()
        .unwrap();
    let text = to_text(&payload.to_json());
    assert_eq!(
        text,
        r#"{"uri":"https://www.example.com","text":"text","tags":["tag1","tag2"],"target":{"source":"https://www.example.com","selector":[{"type":"TextQuoteSelector","exact":"exact","prefix":"pre","suffix":"suf"}]}}"#
    );
}

#[test]
fn quote_selector_decodes_to_typed_variant() {
    let j = parse_json(r#"{"type":"TextQuoteSelector","exact":"e","prefix":"p","suffix":"s"}"#)
        .unwrap();
    let sel = Selector::from_json(&j).expect("quote selector should decode");
    assert_eq!(
        sel,
        Selector::TextQuoteSelector(TextQuoteSelector {
            exact: "e".to_string(),
            prefix: "p".to_string(),
            suffix: "s".to_string(),
        })
    );
}

#[test]
fn opaque_selector_keeps_its_fields() {
    let j = parse_json(r#"{"type":"RangeSelector","startContainer":"/div[1]","endOffset":12}"#)
        .unwrap();
    let sel = Selector::from_json(&j).expect("range selector should decode");
    assert_eq!(
        sel,
        Selector::RangeSelector(vec![
            ("startContainer".to_string(), JsonValue::Str("/div[1]".to_string())),
            ("endOffset".to_string(), JsonValue::Num("12".to_string())),
        ])
    );
    // and it re-encodes with the tag first
    assert_eq!(
        to_text(&sel.to_json()),
        r#"{"type":"RangeSelector","startContainer":"/div[1]","endOffset":12}"#
    );
}

#[test]
fn unknown_selector_type_is_rejected() {
    let j = parse_json(r#"{"type":"MadeUpSelector","x":1}"#).unwrap();
    assert_eq!(Selector::from_json(&j), None);
    let no_tag = parse_json(r#"{"exact":"e"}"#).unwrap();
    assert_eq!(Selector::from_json(&no_tag), None);
}

#[test]
fn organization_union_by_shape() {
    let s = parse_json(r#""org-id""#).unwrap();
    assert_eq!(
        Organization::from_json(&s),
        Some(Organization::String("org-id".to_string()))
    );

    let o = parse_json(r#"{"id":"o1","default":true,"logo":null,"name":"Org"}"#).unwrap();
    assert_eq!(
        Organization::from_json(&o),
        Some(Organization::Organization(Some(Org {
            id: "o1".to_string(),
            default: true,
            logo: None,
            name: "Org".to_string(),
        })))
    );

    let n = parse_json("null").unwrap();
    assert_eq!(Organization::from_json(&n), Some(Organization::Organization(None)));

    let bad = parse_json("[1]").unwrap();
    assert_eq!(Organization::from_json(&bad), None);
}

fn sample_annotation_text() -> &'static str {
    r#"{"id":"a1","created":"2020-01-01T00:00:00.000000+00:00","updated":"2020-01-02T00:00:00.000000+00:00","user":"acct:alice@hypothes.is","uri":"http://example.com","text":"hi","tags":["t1","t2"],"group":"__world__","permissions":{"read":["group:__world__"],"delete":["acct:alice@hypothes.is"],"admin":[],"update":[]},"target":[{"source":"http://example.com","selector":[{"type":"TextQuoteSelector","exact":"e","prefix":"p","suffix":"s"}]}],"links":{"html":"http://example.com/a1"},"hidden":false,"flagged":false}"#
}

#[test]
fn annotation_decodes_with_optional_fields_absent() {
    let j = parse_json(sample_annotation_text()).unwrap();
    let a = Annotation::from_json(&j).expect("annotation should decode");
    assert_eq!(a.id, "a1");
    assert_eq!(a.user.0, "acct:alice@hypothes.is");
    assert_eq!(a.tags, vec!["t1".to_string(), "t2".to_string()]);
    assert_eq!(a.permissions.read, vec!["group:__world__".to_string()]);
    assert_eq!(a.target.len(), 1);
    assert_eq!(a.target[0].selector.len(), 1);
    assert_eq!(a.links, vec![("html".to_string(), "http://example.com/a1".to_string())]);
    assert_eq!(a.document, None);
    assert_eq!(a.references, Vec::<String>::new());
    assert_eq!(a.user_info, None);
}

#[test]
fn timestamps_must_have_the_wire_shape() {
    for good in [
        "2020-01-01T00:00:00Z",
        "2020-01-01t23:59:60z",
        "2020-01-01 12:00:00+05:30",
        "2020-01-01T00:00:00.123456789-00:00",
    ] {
        let text = sample_annotation_text()
            .replace("2020-01-02T00:00:00.000000+00:00", good);
        let j = parse_json(&text).unwrap();
        assert!(Annotation::from_json(&j).is_some(), "{} should be accepted", good);
    }
    for bad in ["", "garbage", "2020-01-01", "2020-01-01T00:00:00", "2020-01-01T00:00:00.Z"] {
        let text = sample_annotation_text()
            .replace("2020-01-02T00:00:00.000000+00:00", bad);
        let j = parse_json(&text).unwrap();
        assert!(Annotation::from_json(&j).is_none(), "{} should be rejected", bad);
    }
}

#[test]
fn annotation_missing_required_field_fails() {
    // same text without "id"
    let text = sample_annotation_text().replacen(r#""id":"a1","#, "", 1);
    let j = parse_json(&text).unwrap();
    assert_eq!(Annotation::from_json(&j), None);
}

#[test]
fn annotation_round_trips_through_encode() {
    let j = parse_json(sample_annotation_text()).unwrap();
    let a = Annotation::from_json(&j).unwrap();
    let text = to_text(&a.to_json());
    let j2 = parse_json(&text).unwrap();
    let a2 = Annotation::from_json(&j2).expect("encoded annotation should decode");
    assert_eq!(a, a2);
}

#[test]
fn document_decode_defaults() {
    let j = parse_json(r#"{}"#).unwrap();
    let d = Document::from_json(&j).unwrap();
    assert_eq!(
        d,
        Document { title: vec![], dc: None, highwire: None, link: vec![] }
    );
    let j2 = parse_json(r#"{"title":["T"],"link":[{"href":"http://x"}]}"#).unwrap();
    let d2 = Document::from_json(&j2).unwrap();
    assert_eq!(d2.title, vec!["T".to_string()]);
    assert_eq!(d2.link.len(), 1);
    assert_eq!(d2.link[0].href, "http://x");
    assert_eq!(d2.link[0].link_type, "");
}

#[test]
fn group_decodes() {
    let j = parse_json(
        r#"{"id":"g1","name":"Group","links":{"html":"http://x"},"organization":"org1","scoped":false,"type":"private"}"#,
    )
    .unwrap();
    let g = Group::from_json(&j).expect("group should decode");
    assert_eq!(
        g,
        Group {
            id: "g1".to_string(),
            groupid: None,
            name: "Group".to_string(),
            links: Links { html: Some("http://x".to_string()) },
            organization: Organization::String("org1".to_string()),
            scopes: None,
            scoped: false,
            group_type: Type::Private,
        }
    );
}

#[test]
fn group_with_scope_and_expanded_organization() {
    let j = parse_json(
        r#"{"id":"g2","groupid":"group:x@y","name":"G","links":{},"organization":{"id":"o1","default":false,"logo":"http://l","name":"O"},"scopes":{"enforced":true,"uri_patterns":["http://*"]},"scoped":true,"type":"restricted"}"#,
    )
    .unwrap();
    let g = Group::from_json(&j).unwrap();
    assert_eq!(g.groupid, Some("group:x@y".to_string()));
    assert_eq!(g.links, Links { html: None });
    assert_eq!(
        g.scopes,
        Some(Scope { enforced: true, uri_patterns: vec!["http://*".to_string()] })
    );
    assert_eq!(g.group_type, Type::Restricted);
    match g.organization {
        Organization::Organization(Some(org)) => {
            assert_eq!(org.logo, Some("http://l".to_string()));
        },
        other => panic!("expected expanded organization, got {:?}", other),
    }
}

#[test]
fn member_and_profile_decode() {
    let j = parse_json(
        r#"{"authority":"hypothes.is","username":"alice","userid":"acct:alice@hypothes.is"}"#,
    )
    .unwrap();
    let m = Member::from_json(&j).unwrap();
    assert_eq!(
        m,
        Member {
            authority: "hypothes.is".to_string(),
            username: "alice".to_string(),
            userid: "acct:alice@hypothes.is".to_string(),
            display_name: None,
        }
    );

    let p = parse_json(
        r#"{"authority":"hypothes.is","features":{"flag":true},"preferences":{},"userid":"acct:alice@hypothes.is"}"#,
    )
    .unwrap();
    let profile = UserProfile::from_json(&p).unwrap();
    assert_eq!(profile.authority, "hypothes.is");
    assert_eq!(profile.features, vec![("flag".to_string(), true)]);
    assert_eq!(profile.preferences, vec![]);
    assert_eq!(profile.userid.unwrap().0, "acct:alice@hypothes.is");

    let anon = parse_json(
        r#"{"authority":"hypothes.is","features":{},"preferences":{},"userid":null}"#,
    )
    .unwrap();
    assert_eq!(UserProfile::from_json(&anon).unwrap().userid, None);
}

#[test]
fn user_info_decodes() {
    let j = parse_json(r#"{"display_name":"Alice"}"#).unwrap();
    assert_eq!(
        UserInfo::from_json(&j),
        Some(UserInfo { display_name: Some("Alice".to_string()) })
    );
    let empty = parse_json("{}").unwrap();
    assert_eq!(UserInfo::from_json(&empty), Some(UserInfo { display_name: None }));
}

#[test]
fn permissions_require_all_four_lists() {
    let j = parse_json(r#"{"read":[],"delete":[],"admin":[]}"#).unwrap();
    assert_eq!(Permissions::from_json(&j), None);
}
