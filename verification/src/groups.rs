//! Objects related to the "groups" endpoint.

use vstd::prelude::*;

use crate::errors::CLIError;
use crate::json::{enc_json, enc_str_list, enc_string, jv, jv_entries, jv_get, jv_list,
    lemma_jv_list_props, obj_get, push_entry, push_param, query_string_value, str_eq,
    str_list_to_json, strip_quotes, JVal, JsonValue};
use crate::json::{lemma_param_chain4, param_chain4, params_has_key, params_has_pair};

verus! {

/// Which group relation to expand in a fetched resource.
#[derive(Debug, Clone, Copy, PartialEq, Eq, Structural)]
pub enum Expand {
    /// Expand the `organization` field into a full object.
    Organization,
    /// Expand the `scopes` field.
    Scopes,
}

impl Expand {
    /// The wire name of each variant.
    pub open spec fn spec_name(self) -> Seq<char> {
        match self {
            Expand::Organization => "organization"@,
            Expand::Scopes => "scopes"@,
        }
    }

    /// The wire name of this variant.
    pub fn name(&self) -> (r: &'static str)
        ensures
            r@ == self.spec_name(),
    {
        match self {
            Expand::Organization => "organization",
            Expand::Scopes => "scopes",
        }
    }

    /// Parse a wire name; errors list the accepted values.
    pub fn parse(s: &str) -> (r: Result<Self, CLIError>)
        ensures
            match r {
                Ok(v) => s@ == v.spec_name(),
                Err(e) => (forall|v: Expand| s@ != v.spec_name()) && (e
                    matches CLIError::ParseError { name, types } && name@ == "expand"@
                    && types.deep_view() =~= seq!["organization"@, "scopes"@]),
            },
    {
        if str_eq(s, "organization") {
            Ok(Expand::Organization)
        } else if str_eq(s, "scopes") {
            Ok(Expand::Scopes)
        } else {
            let mut types: Vec<String> = Vec::new();
            types.push(String::from_str("organization"));
            types.push(String::from_str("scopes"));
            proof {
                assert(types.deep_view() =~= seq!["organization"@, "scopes"@]);
                assert forall|v: Expand| s@ != v.spec_name() by {}
            }
            Err(CLIError::ParseError { name: String::from_str("expand"), types })
        }
    }

    /// A list of the possible variants in `&'static str` form.
    pub fn variants() -> (r: [&'static str; 2])
        ensures
            r@.len() == 2,
            r@[0]@ == "organization"@,
            r@[1]@ == "scopes"@,
    {
        ["organization", "scopes"]
    }
}

/// The names of a list of expansions.
pub open spec fn spec_expand_names(es: Seq<Expand>) -> Seq<Seq<char>> {
    es.map_values(|e: Expand| e.spec_name())
}

/// The wire names of a list of expansions.
pub fn expand_names(es: &Vec<Expand>) -> (r: Vec<String>)
    ensures
        r.deep_view() == spec_expand_names(es@),
{
    let mut out: Vec<String> = Vec::new();
    let mut i: usize = 0;
    while i < es.len()
        invariant
            i <= es.len(),
            out.deep_view() =~= es@.take(i as int).map_values(|e: Expand| e.spec_name()),
        decreases es.len() - i,
    {
        let ghost pre = out.deep_view();
        out.push(String::from_str(es[i].name()));
        proof {
            assert(out.deep_view() =~= pre.push(es@[i as int].spec_name()));
            assert(es@.take(i + 1) =~= es@.take(i as int).push(es@[i as int]));
            assert(out.deep_view() =~= es@.take(i + 1).map_values(|e: Expand| e.spec_name()));
        }
        i = i + 1;
    }
    proof {
        assert(es@.take(es@.len() as int) =~= es@);
    }
    out
}

/// Filter groups by authority and target document.  Every field has a
/// declared default; only fields differing from it become URL parameters.
#[derive(Debug, Clone, PartialEq)]
pub struct GroupFilters {
    /// Filter returned groups to this authority.
    pub authority: String,
    /// Only retrieve public groups that apply to a given document URI.
    pub document_uri: String,
    /// Relations to expand in the returned group resources.
    pub expand: Vec<Expand>,
}

impl Default for GroupFilters {
    /// No filters: every field blank.
    fn default() -> (r: Self)
        ensures
            r.authority@.len() == 0,
            r.document_uri@.len() == 0,
            r.expand@.len() == 0,
    {
        GroupFilters { authority: String::new(), document_uri: String::new(), expand: Vec::new() }
    }
}

/// The query parameters of a group listing: in field order, a parameter
/// appears exactly when the field differs from its default, holding the
/// field's JSON encoding with quote characters stripped.
pub open spec fn spec_group_params(q: GroupFilters) -> Seq<(Seq<char>, Seq<char>)> {
    let s0 = Seq::<(Seq<char>, Seq<char>)>::empty();
    let s1 = if q.authority@.len() != 0 {
        s0.push(("authority"@, strip_quotes(enc_string(q.authority@))))
    } else {
        s0
    };
    let s2 = if q.document_uri@.len() != 0 {
        s1.push(("document_uri"@, strip_quotes(enc_string(q.document_uri@))))
    } else {
        s1
    };
    let s3 = if q.expand@.len() != 0 {
        s2.push(("expand"@, strip_quotes(enc_json(enc_str_list(spec_expand_names(q.expand@))))))
    } else {
        s2
    };
    s3
}

impl GroupFilters {
    /// The URL query parameters of this filter: one per non-default field.
    pub fn query_params(&self) -> (r: Vec<(String, String)>)
        ensures
            r.deep_view() == spec_group_params(*self),
    {
        let mut out: Vec<(String, String)> = Vec::new();
        proof {
            assert(out.deep_view() =~= Seq::<(Seq<char>, Seq<char>)>::empty());
        }
        if !self.authority.as_str().is_empty() {
            push_param(&mut out, "authority", query_string_value(&self.authority));
        }
        if !self.document_uri.as_str().is_empty() {
            push_param(&mut out, "document_uri", query_string_value(&self.document_uri));
        }
        if self.expand.len() != 0 {
            let names = expand_names(&self.expand);
            let j = str_list_to_json(&names);
            let txt = crate::json::to_text(&j);
            push_param(&mut out, "expand", crate::json::strip_quotes_exec(txt.as_str()));
        }
        proof {
            assert(out.deep_view() =~= spec_group_params(*self));
        }
        out
    }
}

/// URL to the group's main (activity) page.
#[derive(Debug, Clone, PartialEq)]
pub struct Links {
    /// URL to the group's main (activity) page.
    pub html: Option<String>,
}

/// The model of a [`Links`].
pub struct SpecLinks {
    pub html: Option<Seq<char>>,
}

impl DeepView for Links {
    type V = SpecLinks;

    open spec fn deep_view(&self) -> SpecLinks {
        SpecLinks { html: self.html.deep_view() }
    }
}

/// The URL restrictions for annotations within a group.
#[derive(Debug, Clone, PartialEq)]
pub struct Scope {
    pub enforced: bool,
    pub uri_patterns: Vec<String>,
}

/// The model of a [`Scope`].
pub struct SpecScope {
    pub enforced: bool,
    pub uri_patterns: Seq<Seq<char>>,
}

impl DeepView for Scope {
    type V = SpecScope;

    open spec fn deep_view(&self) -> SpecScope {
        SpecScope { enforced: self.enforced, uri_patterns: self.uri_patterns.deep_view() }
    }
}

/// Group visibility type.
#[derive(Debug, Clone, Copy, PartialEq, Eq, Structural)]
pub enum Type {
    /// Only the creator can view and edit.
    Private,
    /// Anyone can view and edit.
    Open,
    /// More than one user can view and edit.
    Restricted,
}

impl Type {
    /// The wire name of each variant.
    pub open spec fn spec_name(self) -> Seq<char> {
        match self {
            Type::Private => "private"@,
            Type::Open => "open"@,
            Type::Restricted => "restricted"@,
        }
    }

    /// The wire name of this variant.
    pub fn name(&self) -> (r: &'static str)
        ensures
            r@ == self.spec_name(),
    {
        match self {
            Type::Private => "private",
            Type::Open => "open",
            Type::Restricted => "restricted",
        }
    }
}

/// Information about an organization: either just its ID string, or the
/// expanded object, which is absent when the caller is not authorized.
#[derive(Debug, Clone, PartialEq)]
pub enum Organization {
    /// Unexpanded: the unique organization ID.
    String(String),
    /// Expanded; `None` when not authorized.
    Organization(Option<Org>),
}

/// The model of an [`Organization`].
pub enum SpecOrganization {
    String(Seq<char>),
    Organization(Option<SpecOrg>),
}

impl DeepView for Organization {
    type V = SpecOrganization;

    open spec fn deep_view(&self) -> SpecOrganization {
        match self {
            Organization::String(s) => SpecOrganization::String(s@),
            Organization::Organization(o) => SpecOrganization::Organization(o.deep_view()),
        }
    }
}

/// Information about an organization.
#[derive(Debug, Clone, PartialEq)]
pub struct Org {
    /// Organization ID.
    pub id: String,
    /// True if this is the default organization for the current authority.
    pub default: bool,
    /// URI to the logo image; null when no logo exists.
    pub logo: Option<String>,
    /// Organization name.
    pub name: String,
}

/// The model of an [`Org`].
pub struct SpecOrg {
    pub id: Seq<char>,
    pub default: bool,
    pub logo: Option<Seq<char>>,
    pub name: Seq<char>,
}

impl DeepView for Org {
    type V = SpecOrg;

    open spec fn deep_view(&self) -> SpecOrg {
        SpecOrg {
            id: self.id@,
            default: self.default,
            logo: self.logo.deep_view(),
            name: self.name@,
        }
    }
}

/// Information returned about a group resource.
#[derive(Debug, Clone, PartialEq)]
pub struct Group {
    /// Group ID.
    pub id: String,
    /// Authority-unique identifier for third-party groups.
    pub groupid: Option<String>,
    /// Group name.
    pub name: String,
    /// URL to the group's main (activity) page.
    pub links: Links,
    /// The organization to which this group belongs.
    pub organization: Organization,
    /// The URL restrictions for annotations within this group.
    pub scopes: Option<Scope>,
    /// Whether this group has URL restrictions for annotated documents.
    pub scoped: bool,
    /// Whether the group is private, open or restricted; wire key "type".
    pub group_type: Type,
}

/// The model of a [`Group`].
pub struct SpecGroup {
    pub id: Seq<char>,
    pub groupid: Option<Seq<char>>,
    pub name: Seq<char>,
    pub links: SpecLinks,
    pub organization: SpecOrganization,
    pub scopes: Option<SpecScope>,
    pub scoped: bool,
    pub group_type: Type,
}

impl DeepView for Group {
    type V = SpecGroup;

    open spec fn deep_view(&self) -> SpecGroup {
        SpecGroup {
            id: self.id@,
            groupid: self.groupid.deep_view(),
            name: self.name@,
            links: self.links.deep_view(),
            organization: self.organization.deep_view(),
            scopes: self.scopes.deep_view(),
            scoped: self.scoped,
            group_type: self.group_type,
        }
    }
}

/// Information about another user within a group.
#[derive(Debug, Clone, PartialEq)]
pub struct Member {
    /// The user's authority, e.g. "hypothes.is".
    pub authority: String,
    /// The user's name.
    pub username: String,
    /// The full account ID, "acct:..." form.
    pub userid: String,
    /// The user's display name, when set.
    pub display_name: Option<String>,
}

/// The model of a [`Member`].
pub struct SpecMember {
    pub authority: Seq<char>,
    pub username: Seq<char>,
    pub userid: Seq<char>,
    pub display_name: Option<Seq<char>>,
}

impl DeepView for Member {
    type V = SpecMember;

    open spec fn deep_view(&self) -> SpecMember {
        SpecMember {
            authority: self.authority@,
            username: self.username@,
            userid: self.userid@,
            display_name: self.display_name.deep_view(),
        }
    }
}

// ---------------------------------------------------------------------------
// Decoding.
// ---------------------------------------------------------------------------

/// Decode the group links object: an optional `html` URL.
pub open spec fn spec_links_from(j: JVal) -> Option<SpecLinks> {
    match j {
        JVal::Obj(es) => match crate::annotations::spec_opt_str(jv_get(es, "html"@)) {
            Some(html) => Some(SpecLinks { html }),
            None => None,
        },
        _ => None,
    }
}

/// Decode a scope: a required flag and pattern list.
pub open spec fn spec_scope_from(j: JVal) -> Option<SpecScope> {
    match j {
        JVal::Obj(es) => match (jv_get(es, "enforced"@), jv_get(es, "uri_patterns"@)) {
            (Some(JVal::Bool(enforced)), Some(pats_j)) => {
                match crate::json::spec_str_list_from(pats_j) {
                    Some(uri_patterns) => Some(SpecScope { enforced, uri_patterns }),
                    None => None,
                }
            },
            _ => None,
        },
        _ => None,
    }
}

/// Decode a group type from its wire name.
pub open spec fn spec_type_from(j: JVal) -> Option<Type> {
    match j {
        JVal::Str(s) => if s == "private"@ {
            Some(Type::Private)
        } else if s == "open"@ {
            Some(Type::Open)
        } else if s == "restricted"@ {
            Some(Type::Restricted)
        } else {
            None
        },
        _ => None,
    }
}

/// Decode an expanded organization object.
pub open spec fn spec_org_from(j: JVal) -> Option<SpecOrg> {
    match j {
        JVal::Obj(es) => {
            match (jv_get(es, "id"@), jv_get(es, "default"@), jv_get(es, "name"@)) {
                (Some(JVal::Str(id)), Some(JVal::Bool(default)), Some(JVal::Str(name))) => {
                    match crate::annotations::spec_opt_str(jv_get(es, "logo"@)) {
                        Some(logo) => Some(SpecOrg { id, default, logo, name }),
                        None => None,
                    }
                },
                _ => None,
            }
        },
        _ => None,
    }
}

/// Decode an organization from its wire position: a bare string is the
/// unexpanded ID, null is the expanded form with no object, and an object
/// is the expanded form.
pub open spec fn spec_organization_from(j: JVal) -> Option<SpecOrganization> {
    match j {
        JVal::Str(s) => Some(SpecOrganization::String(s)),
        JVal::Null => Some(SpecOrganization::Organization(None)),
        JVal::Obj(_) => match spec_org_from(j) {
            Some(o) => Some(SpecOrganization::Organization(Some(o))),
            None => None,
        },
        _ => None,
    }
}

/// Decode a group resource.
pub open spec fn spec_group_from(j: JVal) -> Option<SpecGroup> {
    match j {
        JVal::Obj(es) => {
            match (jv_get(es, "id"@), jv_get(es, "name"@), jv_get(es, "links"@), jv_get(
                es,
                "organization"@,
            ), jv_get(es, "scoped"@), jv_get(es, "type"@)) {
                (
                    Some(JVal::Str(id)),
                    Some(JVal::Str(name)),
                    Some(links_j),
                    Some(org_j),
                    Some(JVal::Bool(scoped)),
                    Some(type_j),
                ) => {
                    let groupid = crate::annotations::spec_opt_str(jv_get(es, "groupid"@));
                    let links = spec_links_from(links_j);
                    let organization = spec_organization_from(org_j);
                    let scopes = match jv_get(es, "scopes"@) {
                        None => Some(None),
                        Some(JVal::Null) => Some(None),
                        Some(x) => match spec_scope_from(x) {
                            Some(sc) => Some(Some(sc)),
                            None => None,
                        },
                    };
                    let group_type = spec_type_from(type_j);
                    match (groupid, links, organization, scopes, group_type) {
                        (
                            Some(groupid),
                            Some(links),
                            Some(organization),
                            Some(scopes),
                            Some(group_type),
                        ) => Some(
                            SpecGroup {
                                id,
                                groupid,
                                name,
                                links,
                                organization,
                                scopes,
                                scoped,
                                group_type,
                            },
                        ),
                        _ => None,
                    }
                },
                _ => None,
            }
        },
        _ => None,
    }
}

/// Decode a list of groups, in order.
pub open spec fn dec_group_list(items: Seq<JVal>) -> Option<Seq<SpecGroup>>
    decreases items.len(),
{
    if items.len() == 0 {
        Some(Seq::empty())
    } else {
        match (dec_group_list(items.drop_last()), spec_group_from(items.last())) {
            (Some(init), Some(t)) => Some(init.push(t)),
            _ => None,
        }
    }
}

/// Extending a group list that already fails to decode still fails.
pub proof fn lemma_dec_group_list_none(items: Seq<JVal>, k: int)
    requires
        0 <= k <= items.len(),
        dec_group_list(items.take(k)) is None,
    ensures
        dec_group_list(items) is None,
    decreases items.len() - k,
{
    if k == items.len() {
        assert(items.take(k) =~= items);
    } else {
        assert(items.take(k + 1).drop_last() =~= items.take(k));
        lemma_dec_group_list_none(items, k + 1);
    }
}

/// A list of groups as a JSON document.
pub open spec fn spec_group_list_from(j: JVal) -> Option<Seq<SpecGroup>> {
    match j {
        JVal::Arr(items) => dec_group_list(items),
        _ => None,
    }
}

/// Decode a group member.
pub open spec fn spec_member_from(j: JVal) -> Option<SpecMember> {
    match j {
        JVal::Obj(es) => {
            match (jv_get(es, "authority"@), jv_get(es, "username"@), jv_get(es, "userid"@)) {
                (Some(JVal::Str(authority)), Some(JVal::Str(username)), Some(JVal::Str(userid))) => {
                    match crate::annotations::spec_opt_str(jv_get(es, "display_name"@)) {
                        Some(display_name) => Some(
                            SpecMember { authority, username, userid, display_name },
                        ),
                        None => None,
                    }
                },
                _ => None,
            }
        },
        _ => None,
    }
}

/// Decode a list of members, in order.
pub open spec fn dec_member_list(items: Seq<JVal>) -> Option<Seq<SpecMember>>
    decreases items.len(),
{
    if items.len() == 0 {
        Some(Seq::empty())
    } else {
        match (dec_member_list(items.drop_last()), spec_member_from(items.last())) {
            (Some(init), Some(t)) => Some(init.push(t)),
            _ => None,
        }
    }
}

/// Extending a member list that already fails to decode still fails.
pub proof fn lemma_dec_member_list_none(items: Seq<JVal>, k: int)
    requires
        0 <= k <= items.len(),
        dec_member_list(items.take(k)) is None,
    ensures
        dec_member_list(items) is None,
    decreases items.len() - k,
{
    if k == items.len() {
        assert(items.take(k) =~= items);
    } else {
        assert(items.take(k + 1).drop_last() =~= items.take(k));
        lemma_dec_member_list_none(items, k + 1);
    }
}

/// A list of members as a JSON document.
pub open spec fn spec_member_list_from(j: JVal) -> Option<Seq<SpecMember>> {
    match j {
        JVal::Arr(items) => dec_member_list(items),
        _ => None,
    }
}

impl Links {
    /// Decode the group links object from a JSON document.
    pub fn from_json(v: &JsonValue) -> (r: Option<Links>)
        ensures
            match r {
                Some(l) => spec_links_from(jv(*v)) == Some(l.deep_view()),
                None => spec_links_from(jv(*v)) is None,
            },
    {
        match v {
            JsonValue::Obj(entries) => {
                let html = match obj_get(entries, "html") {
                    None => None,
                    Some(JsonValue::Null) => None,
                    Some(JsonValue::Str(s)) => Some(s.clone()),
                    Some(_) => {
                        return None;
                    },
                };
                Some(Links { html })
            },
            _ => None,
        }
    }
}

impl Scope {
    /// Decode a scope from a JSON document.
    pub fn from_json(v: &JsonValue) -> (r: Option<Scope>)
        ensures
            match r {
                Some(s) => spec_scope_from(jv(*v)) == Some(s.deep_view()),
                None => spec_scope_from(jv(*v)) is None,
            },
    {
        match v {
            JsonValue::Obj(entries) => {
                let enforced = match obj_get(entries, "enforced") {
                    Some(JsonValue::Bool(b)) => *b,
                    _ => {
                        return None;
                    },
                };
                let uri_patterns = match obj_get(entries, "uri_patterns") {
                    Some(x) => match crate::json::j_str_list(x) {
                        Some(xs) => xs,
                        None => {
                            return None;
                        },
                    },
                    None => {
                        return None;
                    },
                };
                Some(Scope { enforced, uri_patterns })
            },
            _ => None,
        }
    }
}

impl Type {
    /// Decode a group type from a JSON document.
    pub fn from_json(v: &JsonValue) -> (r: Option<Type>)
        ensures
            match r {
                Some(t) => spec_type_from(jv(*v)) == Some(t),
                None => spec_type_from(jv(*v)) is None,
            },
    {
        match v {
            JsonValue::Str(s) => {
                if str_eq(s.as_str(), "private") {
                    Some(Type::Private)
                } else if str_eq(s.as_str(), "open") {
                    Some(Type::Open)
                } else if str_eq(s.as_str(), "restricted") {
                    Some(Type::Restricted)
                } else {
                    None
                }
            },
            _ => None,
        }
    }
}

impl Org {
    /// Decode an expanded organization object from a JSON document.
    pub fn from_json(v: &JsonValue) -> (r: Option<Org>)
        ensures
            match r {
                Some(o) => spec_org_from(jv(*v)) == Some(o.deep_view()),
                None => spec_org_from(jv(*v)) is None,
            },
    {
        match v {
            JsonValue::Obj(entries) => {
                let id = match obj_get(entries, "id") {
                    Some(JsonValue::Str(s)) => s.clone(),
                    _ => {
                        return None;
                    },
                };
                let default = match obj_get(entries, "default") {
                    Some(JsonValue::Bool(b)) => *b,
                    _ => {
                        return None;
                    },
                };
                let name = match obj_get(entries, "name") {
                    Some(JsonValue::Str(s)) => s.clone(),
                    _ => {
                        return None;
                    },
                };
                let logo = match obj_get(entries, "logo") {
                    None => None,
                    Some(JsonValue::Null) => None,
                    Some(JsonValue::Str(s)) => Some(s.clone()),
                    Some(_) => {
                        return None;
                    },
                };
                Some(Org { id, default, logo, name })
            },
            _ => None,
        }
    }
}

impl Organization {
    /// Decode an organization from its wire position, by JSON shape.
    pub fn from_json(v: &JsonValue) -> (r: Option<Organization>)
        ensures
            match r {
                Some(o) => spec_organization_from(jv(*v)) == Some(o.deep_view()),
                None => spec_organization_from(jv(*v)) is None,
            },
    {
        match v {
            JsonValue::Str(s) => Some(Organization::String(s.clone())),
            JsonValue::Null => Some(Organization::Organization(None)),
            JsonValue::Obj(_) => match Org::from_json(v) {
                Some(o) => Some(Organization::Organization(Some(o))),
                None => None,
            },
            _ => None,
        }
    }
}

impl Group {
    /// Decode a group resource from a JSON document.
    pub fn from_json(v: &JsonValue) -> (r: Option<Group>)
        ensures
            match r {
                Some(g) => spec_group_from(jv(*v)) == Some(g.deep_view()),
                None => spec_group_from(jv(*v)) is None,
            },
    {
        match v {
            JsonValue::Obj(entries) => {
                let id = match obj_get(entries, "id") {
                    Some(JsonValue::Str(s)) => s.clone(),
                    _ => {
                        return None;
                    },
                };
                let name = match obj_get(entries, "name") {
                    Some(JsonValue::Str(s)) => s.clone(),
                    _ => {
                        return None;
                    },
                };
                let links = match obj_get(entries, "links") {
                    Some(x) => match Links::from_json(x) {
                        Some(l) => l,
                        None => {
                            return None;
                        },
                    },
                    None => {
                        return None;
                    },
                };
                let organization = match obj_get(entries, "organization") {
                    Some(x) => match Organization::from_json(x) {
                        Some(o) => o,
                        None => {
                            return None;
                        },
                    },
                    None => {
                        return None;
                    },
                };
                let scoped = match obj_get(entries, "scoped") {
                    Some(JsonValue::Bool(b)) => *b,
                    _ => {
                        return None;
                    },
                };
                let group_type = match obj_get(entries, "type") {
                    Some(x) => match Type::from_json(x) {
                        Some(t) => t,
                        None => {
                            return None;
                        },
                    },
                    None => {
                        return None;
                    },
                };
                let groupid = match obj_get(entries, "groupid") {
                    None => None,
                    Some(JsonValue::Null) => None,
                    Some(JsonValue::Str(s)) => Some(s.clone()),
                    Some(_) => {
                        return None;
                    },
                };
                let scopes = match obj_get(entries, "scopes") {
                    None => None,
                    Some(JsonValue::Null) => None,
                    Some(x) => match Scope::from_json(x) {
                        Some(sc) => Some(sc),
                        None => {
                            return None;
                        },
                    },
                };
                Some(Group { id, groupid, name, links, organization, scopes, scoped, group_type })
            },
            _ => None,
        }
    }
}

/// Decode an array of groups.
pub fn group_list_from_json(v: &JsonValue) -> (r: Option<Vec<Group>>)
    ensures
        match r {
            Some(xs) => spec_group_list_from(jv(*v)) == Some(xs.deep_view()),
            None => spec_group_list_from(jv(*v)) is None,
        },
{
    match v {
        JsonValue::Arr(items) => {
            proof {
                lemma_jv_list_props(items@);
            }
            let ghost model = jv_list(items@);
            let mut out: Vec<Group> = Vec::new();
            let mut i: usize = 0;
            while i < items.len()
                invariant
                    i <= items.len(),
                    *v == JsonValue::Arr(*items),
                    model == jv_list(items@),
                    model.len() == items@.len(),
                    forall|k: int| 0 <= k < items@.len() ==> model[k] == jv(items@[k]),
                    dec_group_list(model.take(i as int)) == Some(out.deep_view()),
                    out@.len() == i,
                decreases items.len() - i,
            {
                proof {
                    assert(model.take(i + 1).drop_last() =~= model.take(i as int));
                    assert(model.take(i + 1).last() == model[i as int]);
                }
                match Group::from_json(&items[i]) {
                    Some(g) => {
                        let ghost pre = out.deep_view();
                        let ghost gv = g.deep_view();
                        out.push(g);
                        proof {
                            assert(out.deep_view() =~= pre.push(gv));
                        }
                    },
                    None => {
                        proof {
                            lemma_dec_group_list_none(model, i + 1);
                            assert(jv(*v) == JVal::Arr(model));
                        }
                        return None;
                    },
                }
                i = i + 1;
            }
            proof {
                assert(model.take(model.len() as int) =~= model);
            }
            Some(out)
        },
        _ => None,
    }
}

impl Member {
    /// Decode a group member from a JSON document.
    pub fn from_json(v: &JsonValue) -> (r: Option<Member>)
        ensures
            match r {
                Some(m) => spec_member_from(jv(*v)) == Some(m.deep_view()),
                None => spec_member_from(jv(*v)) is None,
            },
    {
        match v {
            JsonValue::Obj(entries) => {
                let authority = match obj_get(entries, "authority") {
                    Some(JsonValue::Str(s)) => s.clone(),
                    _ => {
                        return None;
                    },
                };
                let username = match obj_get(entries, "username") {
                    Some(JsonValue::Str(s)) => s.clone(),
                    _ => {
                        return None;
                    },
                };
                let userid = match obj_get(entries, "userid") {
                    Some(JsonValue::Str(s)) => s.clone(),
                    _ => {
                        return None;
                    },
                };
                let display_name = match obj_get(entries, "display_name") {
                    None => None,
                    Some(JsonValue::Null) => None,
                    Some(JsonValue::Str(s)) => Some(s.clone()),
                    Some(_) => {
                        return None;
                    },
                };
                Some(Member { authority, username, userid, display_name })
            },
            _ => None,
        }
    }
}

/// Decode an array of members.
pub fn member_list_from_json(v: &JsonValue) -> (r: Option<Vec<Member>>)
    ensures
        match r {
            Some(xs) => spec_member_list_from(jv(*v)) == Some(xs.deep_view()),
            None => spec_member_list_from(jv(*v)) is None,
        },
{
    match v {
        JsonValue::Arr(items) => {
            proof {
                lemma_jv_list_props(items@);
            }
            let ghost model = jv_list(items@);
            let mut out: Vec<Member> = Vec::new();
            let mut i: usize = 0;
            while i < items.len()
                invariant
                    i <= items.len(),
                    *v == JsonValue::Arr(*items),
                    model == jv_list(items@),
                    model.len() == items@.len(),
                    forall|k: int| 0 <= k < items@.len() ==> model[k] == jv(items@[k]),
                    dec_member_list(model.take(i as int)) == Some(out.deep_view()),
                    out@.len() == i,
                decreases items.len() - i,
            {
                proof {
                    assert(model.take(i + 1).drop_last() =~= model.take(i as int));
                    assert(model.take(i + 1).last() == model[i as int]);
                }
                match Member::from_json(&items[i]) {
                    Some(m) => {
                        let ghost pre = out.deep_view();
                        let ghost mv = m.deep_view();
                        out.push(m);
                        proof {
                            assert(out.deep_view() =~= pre.push(mv));
                        }
                    },
                    None => {
                        proof {
                            lemma_dec_member_list_none(model, i + 1);
                            assert(jv(*v) == JVal::Arr(model));
                        }
                        return None;
                    },
                }
                i = i + 1;
            }
            proof {
                assert(model.take(model.len() as int) =~= model);
            }
            Some(out)
        },
        _ => None,
    }
}

// ---------------------------------------------------------------------------
// Encoding.
// ---------------------------------------------------------------------------

/// Encode the group links object; a missing URL is null.
pub open spec fn spec_links_json(l: SpecLinks) -> JVal {
    JVal::Obj(
        Seq::<(Seq<char>, JVal)>::empty().push(
            (
                "html"@,
                match l.html {
                    Some(h) => JVal::Str(h),
                    None => JVal::Null,
                },
            ),
        ),
    )
}

impl Links {
    /// Encode this links object as a JSON document.
    pub fn to_json(&self) -> (r: JsonValue)
        ensures
            jv(r) == spec_links_json(self.deep_view()),
    {
        let mut out: Vec<(String, JsonValue)> = Vec::new();
        proof {
            assert(jv_entries(out@) =~= Seq::<(Seq<char>, JVal)>::empty());
        }
        let html = match &self.html {
            Some(h) => JsonValue::Str(h.clone()),
            None => JsonValue::Null,
        };
        push_entry(&mut out, "html", html);
        JsonValue::Obj(out)
    }
}

/// Encode a scope.
pub open spec fn spec_scope_json(s: SpecScope) -> JVal {
    JVal::Obj(
        Seq::<(Seq<char>, JVal)>::empty().push(("enforced"@, JVal::Bool(s.enforced))).push(
            ("uri_patterns"@, enc_str_list(s.uri_patterns)),
        ),
    )
}

impl Scope {
    /// Encode this scope as a JSON document.
    pub fn to_json(&self) -> (r: JsonValue)
        ensures
            jv(r) == spec_scope_json(self.deep_view()),
    {
        let mut out: Vec<(String, JsonValue)> = Vec::new();
        proof {
            assert(jv_entries(out@) =~= Seq::<(Seq<char>, JVal)>::empty());
        }
        push_entry(&mut out, "enforced", JsonValue::Bool(self.enforced));
        push_entry(&mut out, "uri_patterns", str_list_to_json(&self.uri_patterns));
        JsonValue::Obj(out)
    }
}

/// Encode an expanded organization object; a missing logo is null.
pub open spec fn spec_org_json(o: SpecOrg) -> JVal {
    JVal::Obj(
        Seq::<(Seq<char>, JVal)>::empty().push(("id"@, JVal::Str(o.id))).push(
            ("default"@, JVal::Bool(o.default)),
        ).push(
            (
                "logo"@,
                match o.logo {
                    Some(l) => JVal::Str(l),
                    None => JVal::Null,
                },
            ),
        ).push(("name"@, JVal::Str(o.name))),
    )
}

impl Org {
    /// Encode this organization as a JSON document.
    pub fn to_json(&self) -> (r: JsonValue)
        ensures
            jv(r) == spec_org_json(self.deep_view()),
    {
        let mut out: Vec<(String, JsonValue)> = Vec::new();
        proof {
            assert(jv_entries(out@) =~= Seq::<(Seq<char>, JVal)>::empty());
        }
        push_entry(&mut out, "id", JsonValue::Str(self.id.clone()));
        push_entry(&mut out, "default", JsonValue::Bool(self.default));
        let logo = match &self.logo {
            Some(l) => JsonValue::Str(l.clone()),
            None => JsonValue::Null,
        };
        push_entry(&mut out, "logo", logo);
        push_entry(&mut out, "name", JsonValue::Str(self.name.clone()));
        JsonValue::Obj(out)
    }
}

/// Encode an organization: the ID string, the expanded object, or null.
pub open spec fn spec_organization_json(o: SpecOrganization) -> JVal {
    match o {
        SpecOrganization::String(s) => JVal::Str(s),
        SpecOrganization::Organization(Some(org)) => spec_org_json(org),
        SpecOrganization::Organization(None) => JVal::Null,
    }
}

impl Organization {
    /// Encode this organization as a JSON document.
    pub fn to_json(&self) -> (r: JsonValue)
        ensures
            jv(r) == spec_organization_json(self.deep_view()),
    {
        match self {
            Organization::String(s) => JsonValue::Str(s.clone()),
            Organization::Organization(Some(org)) => org.to_json(),
            Organization::Organization(None) => JsonValue::Null,
        }
    }
}

/// Encode a group resource; every field appears.
pub open spec fn spec_group_json(g: SpecGroup) -> JVal {
    JVal::Obj(
        Seq::<(Seq<char>, JVal)>::empty().push(("id"@, JVal::Str(g.id))).push(
            (
                "groupid"@,
                match g.groupid {
                    Some(gi) => JVal::Str(gi),
                    None => JVal::Null,
                },
            ),
        ).push(("name"@, JVal::Str(g.name))).push(("links"@, spec_links_json(g.links))).push(
            ("organization"@, spec_organization_json(g.organization)),
        ).push(
            (
                "scopes"@,
                match g.scopes {
                    Some(sc) => spec_scope_json(sc),
                    None => JVal::Null,
                },
            ),
        ).push(("scoped"@, JVal::Bool(g.scoped))).push(("type"@, JVal::Str(g.group_type.spec_name()))),
    )
}

impl Group {
    /// Encode this group as a JSON document.
    pub fn to_json(&self) -> (r: JsonValue)
        ensures
            jv(r) == spec_group_json(self.deep_view()),
    {
        let mut out: Vec<(String, JsonValue)> = Vec::new();
        proof {
            assert(jv_entries(out@) =~= Seq::<(Seq<char>, JVal)>::empty());
        }
        push_entry(&mut out, "id", JsonValue::Str(self.id.clone()));
        let groupid = match &self.groupid {
            Some(gi) => JsonValue::Str(gi.clone()),
            None => JsonValue::Null,
        };
        push_entry(&mut out, "groupid", groupid);
        push_entry(&mut out, "name", JsonValue::Str(self.name.clone()));
        push_entry(&mut out, "links", self.links.to_json());
        push_entry(&mut out, "organization", self.organization.to_json());
        let scopes = match &self.scopes {
            Some(sc) => sc.to_json(),
            None => JsonValue::Null,
        };
        push_entry(&mut out, "scopes", scopes);
        push_entry(&mut out, "scoped", JsonValue::Bool(self.scoped));
        push_entry(&mut out, "type", JsonValue::Str(String::from_str(self.group_type.name())));
        JsonValue::Obj(out)
    }
}

/// Encode a group member; a missing display name is null.
pub open spec fn spec_member_json(m: SpecMember) -> JVal {
    JVal::Obj(
        Seq::<(Seq<char>, JVal)>::empty().push(("authority"@, JVal::Str(m.authority))).push(
            ("username"@, JVal::Str(m.username)),
        ).push(("userid"@, JVal::Str(m.userid))).push(
            (
                "display_name"@,
                match m.display_name {
                    Some(d) => JVal::Str(d),
                    None => JVal::Null,
                },
            ),
        ),
    )
}

impl Member {
    /// Encode this member as a JSON document.
    pub fn to_json(&self) -> (r: JsonValue)
        ensures
            jv(r) == spec_member_json(self.deep_view()),
    {
        let mut out: Vec<(String, JsonValue)> = Vec::new();
        proof {
            assert(jv_entries(out@) =~= Seq::<(Seq<char>, JVal)>::empty());
        }
        push_entry(&mut out, "authority", JsonValue::Str(self.authority.clone()));
        push_entry(&mut out, "username", JsonValue::Str(self.username.clone()));
        push_entry(&mut out, "userid", JsonValue::Str(self.userid.clone()));
        let dn = match &self.display_name {
            Some(d) => JsonValue::Str(d.clone()),
            None => JsonValue::Null,
        };
        push_entry(&mut out, "display_name", dn);
        JsonValue::Obj(out)
    }
}

/// The omit-if-default law for group filters: a parameter appears under a
/// field's key exactly when the field differs from its declared default, and
/// then it carries the field's stringified, unquoted value.
#[verifier::rlimit(100)]
pub proof fn lemma_group_params_omit_default(q: GroupFilters)
    ensures
        params_has_key(spec_group_params(q), "authority"@) <==> (q.authority@.len() != 0),
        (q.authority@.len() != 0) ==> params_has_pair(
            spec_group_params(q),
            ("authority"@, strip_quotes(enc_string(q.authority@))),
        ),
        params_has_key(spec_group_params(q), "document_uri"@) <==> (q.document_uri@.len() != 0),
        (q.document_uri@.len() != 0) ==> params_has_pair(
            spec_group_params(q),
            ("document_uri"@, strip_quotes(enc_string(q.document_uri@))),
        ),
        params_has_key(spec_group_params(q), "expand"@) <==> (q.expand@.len() != 0),
        (q.expand@.len() != 0) ==> params_has_pair(
            spec_group_params(q),
            ("expand"@, strip_quotes(enc_json(enc_str_list(spec_expand_names(q.expand@))))),
        ),
{
    reveal_strlit("authority");
    reveal_strlit("document_uri");
    reveal_strlit("expand");
    assert("authority"@.len() == 9);
    assert("document_uri"@.len() == 12);
    assert("expand"@.len() == 6);
    assert(spec_group_params(q) == param_chain4(
        q.authority@.len() != 0,
        ("authority"@, strip_quotes(enc_string(q.authority@))),
        q.document_uri@.len() != 0,
        ("document_uri"@, strip_quotes(enc_string(q.document_uri@))),
        q.expand@.len() != 0,
        ("expand"@, strip_quotes(enc_json(enc_str_list(spec_expand_names(q.expand@))))),
        false,
        ("authority"@, Seq::empty()),
    ));
    lemma_param_chain4(
        q.authority@.len() != 0,
        ("authority"@, strip_quotes(enc_string(q.authority@))),
        q.document_uri@.len() != 0,
        ("document_uri"@, strip_quotes(enc_string(q.document_uri@))),
        q.expand@.len() != 0,
        ("expand"@, strip_quotes(enc_json(enc_str_list(spec_expand_names(q.expand@))))),
        false,
        ("authority"@, Seq::empty()),
    );
}

} // verus!
