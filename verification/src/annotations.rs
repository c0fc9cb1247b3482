//! Objects related to the "annotations" endpoint.

use vstd::prelude::*;

use crate::errors::{CLIError, HypothesisError};
use crate::json::{entries_sans, entries_without_key, is_digit, j_str_list, j_str_map, jv,
    jv_entries, sp_digits,
    jv_get, jv_list, lemma_jv_list_props, obj_get, spec_str_list_from, spec_str_map_from, str_eq,
    JVal, JsonValue};
use crate::json::{append_entries_cloned, enc_str_list, enc_str_map, lemma_jv_list_push,
    push_entry, str_list_to_json, str_map_to_json};
use crate::json::{dec_rep, enc_json, enc_string, push_param, query_list_value,
    query_string_value, strip_quotes, u64_to_dec};
use crate::json::{lemma_param_chain4, lemma_params_concat, param_chain4, params_has_key,
    params_has_pair};
use crate::UserAccountID;

verus! {

/// Describes a range of text by copying it, together with a snippet of the
/// text immediately before and after it.
#[derive(Debug, Clone, PartialEq)]
pub struct TextQuoteSelector {
    /// A copy of the text being selected.
    pub exact: String,
    /// A snippet of text occurring immediately before the selection.
    pub prefix: String,
    /// A snippet of text occurring immediately after the selection.
    pub suffix: String,
}

/// The model of a [`TextQuoteSelector`].
pub struct SpecTextQuoteSelector {
    pub exact: Seq<char>,
    pub prefix: Seq<char>,
    pub suffix: Seq<char>,
}

impl DeepView for TextQuoteSelector {
    type V = SpecTextQuoteSelector;

    open spec fn deep_view(&self) -> SpecTextQuoteSelector {
        SpecTextQuoteSelector { exact: self.exact@, prefix: self.prefix@, suffix: self.suffix@ }
    }
}

/// A selector describes which part of a document an annotation targets.
/// The wire representation is an object whose `type` field names the kind.
/// Only the quote kind is strongly typed; the other kinds carry their
/// remaining fields as an ordered key-value bag, so unknown payloads
/// round-trip without loss.
#[derive(Debug, Clone, PartialEq)]
pub enum Selector {
    TextQuoteSelector(TextQuoteSelector),
    TextPositionSelector(Vec<(String, JsonValue)>),
    RangeSelector(Vec<(String, JsonValue)>),
    FragmentSelector(Vec<(String, JsonValue)>),
    CssSelector(Vec<(String, JsonValue)>),
    XPathSelector(Vec<(String, JsonValue)>),
    DataPositionSelector(Vec<(String, JsonValue)>),
    SvgSelector(Vec<(String, JsonValue)>),
    PageSelector(Vec<(String, JsonValue)>),
    EPUBContentSelector(Vec<(String, JsonValue)>),
    MediaTimeSelector(Vec<(String, JsonValue)>),
}

/// The model of a [`Selector`].
pub enum SpecSelector {
    TextQuoteSelector(SpecTextQuoteSelector),
    TextPositionSelector(Seq<(Seq<char>, JVal)>),
    RangeSelector(Seq<(Seq<char>, JVal)>),
    FragmentSelector(Seq<(Seq<char>, JVal)>),
    CssSelector(Seq<(Seq<char>, JVal)>),
    XPathSelector(Seq<(Seq<char>, JVal)>),
    DataPositionSelector(Seq<(Seq<char>, JVal)>),
    SvgSelector(Seq<(Seq<char>, JVal)>),
    PageSelector(Seq<(Seq<char>, JVal)>),
    EPUBContentSelector(Seq<(Seq<char>, JVal)>),
    MediaTimeSelector(Seq<(Seq<char>, JVal)>),
}

impl DeepView for Selector {
    type V = SpecSelector;

    open spec fn deep_view(&self) -> SpecSelector {
        match self {
            Selector::TextQuoteSelector(q) => SpecSelector::TextQuoteSelector(q.deep_view()),
            Selector::TextPositionSelector(m) => SpecSelector::TextPositionSelector(jv_entries(m@)),
            Selector::RangeSelector(m) => SpecSelector::RangeSelector(jv_entries(m@)),
            Selector::FragmentSelector(m) => SpecSelector::FragmentSelector(jv_entries(m@)),
            Selector::CssSelector(m) => SpecSelector::CssSelector(jv_entries(m@)),
            Selector::XPathSelector(m) => SpecSelector::XPathSelector(jv_entries(m@)),
            Selector::DataPositionSelector(m) => SpecSelector::DataPositionSelector(jv_entries(m@)),
            Selector::SvgSelector(m) => SpecSelector::SvgSelector(jv_entries(m@)),
            Selector::PageSelector(m) => SpecSelector::PageSelector(jv_entries(m@)),
            Selector::EPUBContentSelector(m) => SpecSelector::EPUBContentSelector(jv_entries(m@)),
            Selector::MediaTimeSelector(m) => SpecSelector::MediaTimeSelector(jv_entries(m@)),
        }
    }
}

impl Selector {
    /// A quote selector from its three snippets.
    pub fn new_quote(exact: &str, prefix: &str, suffix: &str) -> (r: Self)
        ensures
            r.deep_view() == SpecSelector::TextQuoteSelector(
                SpecTextQuoteSelector { exact: exact@, prefix: prefix@, suffix: suffix@ },
            ),
    {
        Selector::TextQuoteSelector(
            TextQuoteSelector {
                exact: String::from_str(exact),
                prefix: String::from_str(prefix),
                suffix: String::from_str(suffix),
            },
        )
    }
}

/// Which part of the document an annotation targets.
#[derive(Debug, Clone, PartialEq)]
pub struct Target {
    /// The target URI for the annotation; empty when creating an annotation.
    pub source: String,
    /// Selectors that refine this annotation's target.
    pub selector: Vec<Selector>,
}

/// The model of a [`Target`].
pub struct SpecTarget {
    pub source: Seq<char>,
    pub selector: Seq<SpecSelector>,
}

impl DeepView for Target {
    type V = SpecTarget;

    open spec fn deep_view(&self) -> SpecTarget {
        SpecTarget { source: self.source@, selector: self.selector.deep_view() }
    }
}

/// A target equal to its default is omitted from the wire form.
pub open spec fn spec_target_is_default(t: SpecTarget) -> bool {
    t.source.len() == 0 && t.selector.len() == 0
}

impl Default for Target {
    /// The empty target: no source, no selectors.
    fn default() -> (r: Self)
        ensures
            spec_target_is_default(r.deep_view()),
            r.source@.len() == 0,
            r.selector@.len() == 0,
    {
        Target { source: String::new(), selector: Vec::new() }
    }
}

/// Dublin Core metadata about a document.
#[derive(Debug, Clone, PartialEq)]
pub struct Dc {
    pub identifier: Vec<String>,
}

/// The model of a [`Dc`].
pub struct SpecDc {
    pub identifier: Seq<Seq<char>>,
}

impl DeepView for Dc {
    type V = SpecDc;

    open spec fn deep_view(&self) -> SpecDc {
        SpecDc { identifier: self.identifier.deep_view() }
    }
}

/// HighWire metadata about a document.
#[derive(Debug, Clone, PartialEq)]
pub struct HighWire {
    pub doi: Vec<String>,
    pub pdf_url: Vec<String>,
}

/// The model of a [`HighWire`].
pub struct SpecHighWire {
    pub doi: Seq<Seq<char>>,
    pub pdf_url: Seq<Seq<char>>,
}

impl DeepView for HighWire {
    type V = SpecHighWire;

    open spec fn deep_view(&self) -> SpecHighWire {
        SpecHighWire { doi: self.doi.deep_view(), pdf_url: self.pdf_url.deep_view() }
    }
}

/// A typed link attached to document metadata.
#[derive(Debug, Clone, PartialEq)]
pub struct Link {
    pub href: String,
    /// Serialized under the key "type".
    pub link_type: String,
}

/// The model of a [`Link`].
pub struct SpecLink {
    pub href: Seq<char>,
    pub link_type: Seq<char>,
}

impl DeepView for Link {
    type V = SpecLink;

    open spec fn deep_view(&self) -> SpecLink {
        SpecLink { href: self.href@, link_type: self.link_type@ }
    }
}

/// Further metadata about the target document.
#[derive(Debug, Clone, PartialEq)]
pub struct Document {
    pub title: Vec<String>,
    pub dc: Option<Dc>,
    pub highwire: Option<HighWire>,
    pub link: Vec<Link>,
}

/// The model of a [`Document`].
pub struct SpecDocument {
    pub title: Seq<Seq<char>>,
    pub dc: Option<SpecDc>,
    pub highwire: Option<SpecHighWire>,
    pub link: Seq<SpecLink>,
}

impl DeepView for Document {
    type V = SpecDocument;

    open spec fn deep_view(&self) -> SpecDocument {
        SpecDocument {
            title: self.title.deep_view(),
            dc: self.dc.deep_view(),
            highwire: self.highwire.deep_view(),
            link: self.link.deep_view(),
        }
    }
}

impl Default for Document {
    /// The empty document: no metadata at all.
    fn default() -> (r: Self)
        ensures
            r.title@.len() == 0,
            r.dc is None,
            r.highwire is None,
            r.link@.len() == 0,
    {
        Document { title: Vec::new(), dc: None, highwire: None, link: Vec::new() }
    }
}

/// The annotation creator's public profile data.
#[derive(Debug, Clone, PartialEq)]
pub struct UserInfo {
    /// The annotation creator's display name.
    pub display_name: Option<String>,
}

/// The model of a [`UserInfo`].
pub struct SpecUserInfo {
    pub display_name: Option<Seq<char>>,
}

impl DeepView for UserInfo {
    type V = SpecUserInfo;

    open spec fn deep_view(&self) -> SpecUserInfo {
        SpecUserInfo { display_name: self.display_name.deep_view() }
    }
}

/// Principals allowed each action on an annotation.
#[derive(Debug, Clone, PartialEq)]
pub struct Permissions {
    pub read: Vec<String>,
    pub delete: Vec<String>,
    pub admin: Vec<String>,
    pub update: Vec<String>,
}

/// The model of a [`Permissions`].
pub struct SpecPermissions {
    pub read: Seq<Seq<char>>,
    pub delete: Seq<Seq<char>>,
    pub admin: Seq<Seq<char>>,
    pub update: Seq<Seq<char>>,
}

impl DeepView for Permissions {
    type V = SpecPermissions;

    open spec fn deep_view(&self) -> SpecPermissions {
        SpecPermissions {
            read: self.read.deep_view(),
            delete: self.delete.deep_view(),
            admin: self.admin.deep_view(),
            update: self.update.deep_view(),
        }
    }
}

/// Full representation of an annotation resource, as the service returns it.
/// Timestamps are carried as the RFC 3339 strings found on the wire; the
/// decoder checks their shape, though not the calendar itself.
#[derive(Debug, Clone, PartialEq)]
pub struct Annotation {
    /// Annotation ID.
    pub id: String,
    /// Date of creation.
    pub created: String,
    /// Date of last update.
    pub updated: String,
    /// Account ID in the format "acct:<username>@<authority>".
    pub user: UserAccountID,
    /// URL of the document this annotation is attached to.
    pub uri: String,
    /// The text content of the annotation body.
    pub text: String,
    /// Tags attached to the annotation.
    pub tags: Vec<String>,
    /// The unique identifier of the annotation's group.
    pub group: String,
    pub permissions: Permissions,
    /// Which part of the document the annotation targets.
    pub target: Vec<Target>,
    /// Hypermedia links for this annotation, as ordered key-value pairs.
    pub links: Vec<(String, String)>,
    /// Whether this annotation is hidden from public view.
    pub hidden: bool,
    /// Whether this annotation has one or more moderation flags.
    pub flagged: bool,
    /// Document information.
    pub document: Option<Document>,
    /// IDs of annotations this annotation references (e.g. replies).
    pub references: Vec<String>,
    pub user_info: Option<UserInfo>,
}

/// The model of an [`Annotation`].
pub struct SpecAnnotation {
    pub id: Seq<char>,
    pub created: Seq<char>,
    pub updated: Seq<char>,
    pub user: Seq<char>,
    pub uri: Seq<char>,
    pub text: Seq<char>,
    pub tags: Seq<Seq<char>>,
    pub group: Seq<char>,
    pub permissions: SpecPermissions,
    pub target: Seq<SpecTarget>,
    pub links: Seq<(Seq<char>, Seq<char>)>,
    pub hidden: bool,
    pub flagged: bool,
    pub document: Option<SpecDocument>,
    pub references: Seq<Seq<char>>,
    pub user_info: Option<SpecUserInfo>,
}

impl DeepView for Annotation {
    type V = SpecAnnotation;

    open spec fn deep_view(&self) -> SpecAnnotation {
        SpecAnnotation {
            id: self.id@,
            created: self.created@,
            updated: self.updated@,
            user: self.user.0@,
            uri: self.uri@,
            text: self.text@,
            tags: self.tags.deep_view(),
            group: self.group@,
            permissions: self.permissions.deep_view(),
            target: self.target.deep_view(),
            links: self.links.deep_view(),
            hidden: self.hidden,
            flagged: self.flagged,
            document: self.document.deep_view(),
            references: self.references.deep_view(),
            user_info: self.user_info.deep_view(),
        }
    }
}

/// Client-side payload for creating or amending an annotation.  Every field
/// is optional: fields left at their default are omitted from the wire form.
#[derive(Debug, Clone, PartialEq)]
pub struct InputAnnotation {
    /// URI that this annotation is attached to.
    pub uri: String,
    /// Annotation text / comment given by the user.
    pub text: String,
    /// Tags attached to the annotation.
    pub tags: Option<Vec<String>>,
    /// Further metadata about the target document.
    pub document: Option<Document>,
    /// The unique identifier of the annotation's group.
    pub group: String,
    /// Which part of the document the annotation targets.
    pub target: Target,
    /// IDs of annotations this annotation references (e.g. is a reply to).
    pub references: Vec<String>,
}

impl Default for InputAnnotation {
    /// The empty payload: every field at its default.
    fn default() -> (r: Self)
        ensures
            r.uri@.len() == 0,
            r.text@.len() == 0,
            r.tags is None,
            r.document is None,
            r.group@.len() == 0,
            spec_target_is_default(r.target.deep_view()),
            r.references@.len() == 0,
    {
        InputAnnotation {
            uri: String::new(),
            text: String::new(),
            tags: None,
            document: None,
            group: String::new(),
            target: Target::default(),
            references: Vec::new(),
        }
    }
}

impl Annotation {
    /// Merge a partial payload into an existing annotation: a field left at
    /// its default in the payload leaves the old value untouched, so a
    /// partial update cannot override server-side values unintentionally.
    pub fn update(&mut self, annotation: InputAnnotation)
        ensures
            final(self).uri@ == if annotation.uri@.len() != 0 {
                annotation.uri@
            } else {
                old(self).uri@
            },
            final(self).text@ == if annotation.text@.len() != 0 {
                annotation.text@
            } else {
                old(self).text@
            },
            final(self).tags.deep_view() == match annotation.tags {
                Some(tags) => tags.deep_view(),
                None => old(self).tags.deep_view(),
            },
            final(self).group@ == if annotation.group@.len() != 0 {
                annotation.group@
            } else {
                old(self).group@
            },
            final(self).references.deep_view() == if annotation.references@.len() != 0 {
                annotation.references.deep_view()
            } else {
                old(self).references.deep_view()
            },
            final(self).id == old(self).id,
            final(self).created == old(self).created,
            final(self).updated == old(self).updated,
            final(self).user == old(self).user,
            final(self).permissions == old(self).permissions,
            final(self).target == old(self).target,
            final(self).links == old(self).links,
            final(self).hidden == old(self).hidden,
            final(self).flagged == old(self).flagged,
            final(self).document == old(self).document,
            final(self).user_info == old(self).user_info,
    {
        if !annotation.uri.as_str().is_empty() {
            self.uri = annotation.uri;
        }
        if !annotation.text.as_str().is_empty() {
            self.text = annotation.text;
        }
        if let Some(tags) = annotation.tags {
            self.tags = tags;
        }
        if !annotation.group.as_str().is_empty() {
            self.group = annotation.group;
        }
        if !annotation.references.is_empty() {
            self.references = annotation.references;
        }
    }
}

/// The field by which search results are sorted.
#[derive(Debug, Clone, Copy, PartialEq, Eq, Structural)]
pub enum Sort {
    Created,
    Updated,
    Id,
    Group,
    User,
}

impl Default for Sort {
    /// Searches sort by update time unless told otherwise.
    fn default() -> (r: Self)
        ensures
            r == Sort::Updated,
    {
        Sort::Updated
    }
}

impl Sort {
    /// The wire name of each variant.
    pub open spec fn spec_name(self) -> Seq<char> {
        match self {
            Sort::Created => "created"@,
            Sort::Updated => "updated"@,
            Sort::Id => "id"@,
            Sort::Group => "group"@,
            Sort::User => "user"@,
        }
    }

    /// The wire name of this variant.
    pub fn name(&self) -> (r: &'static str)
        ensures
            r@ == self.spec_name(),
    {
        match self {
            Sort::Created => "created",
            Sort::Updated => "updated",
            Sort::Id => "id",
            Sort::Group => "group",
            Sort::User => "user",
        }
    }

    /// Parse a wire name; errors list the accepted values.
    pub fn parse(s: &str) -> (r: Result<Self, CLIError>)
        ensures
            match r {
                Ok(v) => s@ == v.spec_name(),
                Err(e) => (forall|v: Sort| s@ != v.spec_name()) && (e matches CLIError::ParseError {
                    name,
                    types,
                } && name@ == "sort"@ && types.deep_view() =~= seq![
                    "created"@,
                    "updated"@,
                    "id"@,
                    "group"@,
                    "user"@,
                ]),
            },
    {
        if crate::json::str_eq(s, "created") {
            Ok(Sort::Created)
        } else if crate::json::str_eq(s, "updated") {
            Ok(Sort::Updated)
        } else if crate::json::str_eq(s, "id") {
            Ok(Sort::Id)
        } else if crate::json::str_eq(s, "group") {
            Ok(Sort::Group)
        } else if crate::json::str_eq(s, "user") {
            Ok(Sort::User)
        } else {
            let mut types: Vec<String> = Vec::new();
            types.push(String::from_str("created"));
            types.push(String::from_str("updated"));
            types.push(String::from_str("id"));
            types.push(String::from_str("group"));
            types.push(String::from_str("user"));
            proof {
                assert(types.deep_view() =~= seq![
                    "created"@,
                    "updated"@,
                    "id"@,
                    "group"@,
                    "user"@,
                ]);
                assert forall|v: Sort| s@ != v.spec_name() by {}
            }
            Err(CLIError::ParseError { name: String::from_str("sort"), types })
        }
    }

    /// A list of the possible variants in `&'static str` form.
    pub fn variants() -> (r: [&'static str; 5])
        ensures
            r@.len() == 5,
            r@[0]@ == "created"@,
            r@[1]@ == "updated"@,
            r@[2]@ == "id"@,
            r@[3]@ == "group"@,
            r@[4]@ == "user"@,
    {
        ["created", "updated", "id", "group", "user"]
    }
}

/// The direction in which search results are sorted.
#[derive(Debug, Clone, Copy, PartialEq, Eq, Structural)]
pub enum Order {
    Asc,
    Desc,
}

impl Default for Order {
    /// Searches sort descending unless told otherwise.
    fn default() -> (r: Self)
        ensures
            r == Order::Desc,
    {
        Order::Desc
    }
}

impl Order {
    /// The wire name of each variant.
    pub open spec fn spec_name(self) -> Seq<char> {
        match self {
            Order::Asc => "asc"@,
            Order::Desc => "desc"@,
        }
    }

    /// The wire name of this variant.
    pub fn name(&self) -> (r: &'static str)
        ensures
            r@ == self.spec_name(),
    {
        match self {
            Order::Asc => "asc",
            Order::Desc => "desc",
        }
    }

    /// Parse a wire name; errors list the accepted values.
    pub fn parse(s: &str) -> (r: Result<Self, CLIError>)
        ensures
            match r {
                Ok(v) => s@ == v.spec_name(),
                Err(e) => (forall|v: Order| s@ != v.spec_name()) && (e matches CLIError::ParseError {
                    name,
                    types,
                } && name@ == "order"@ && types.deep_view() =~= seq!["asc"@, "desc"@]),
            },
    {
        if crate::json::str_eq(s, "desc") {
            Ok(Order::Desc)
        } else if crate::json::str_eq(s, "asc") {
            Ok(Order::Asc)
        } else {
            let mut types: Vec<String> = Vec::new();
            types.push(String::from_str("asc"));
            types.push(String::from_str("desc"));
            proof {
                assert(types.deep_view() =~= seq!["asc"@, "desc"@]);
                assert forall|v: Order| s@ != v.spec_name() by {}
            }
            Err(CLIError::ParseError { name: String::from_str("order"), types })
        }
    }

    /// A list of the possible variants in `&'static str` form.
    pub fn variants() -> (r: [&'static str; 2])
        ensures
            r@.len() == 2,
            r@[0]@ == "asc"@,
            r@[1]@ == "desc"@,
    {
        ["asc", "desc"]
    }
}

/// Options to filter and sort search results.  Every field has a declared
/// default; only fields differing from their default become URL parameters.
#[derive(Debug, Clone, PartialEq)]
pub struct SearchQuery {
    /// The maximum number of annotations to return; default 20, range 0..=200.
    pub limit: u8,
    /// The field by which annotations are sorted; default `updated`.
    pub sort: Sort,
    /// A start point for a page of results: the `updated` timestamp of the
    /// last row of the previous page.  Set the order ascending when paging.
    pub search_after: String,
    /// The number of initial annotations to skip; default 0.
    pub offset: usize,
    /// The order of the results; default `desc`.
    pub order: Order,
    /// Limit the results to this URI or equivalent URIs.
    pub uri: String,
    /// Limit the results to a keyword in the URI; key "uri.parts".
    pub uri_parts: String,
    /// Limit the results to URIs matching this wildcard pattern.
    pub wildcard_uri: String,
    /// Limit the results to annotations by this user.
    pub user: String,
    /// Limit the results to annotations in these groups.
    pub group: Vec<String>,
    /// Limit the results to annotations with this tag.
    pub tag: String,
    /// Like `tag`, but all of several tags.
    pub tags: Vec<String>,
    /// Limit the results to this keyword in quote, tags, text or url.
    pub any: String,
    /// Limit the results to annotations quoting this text.
    pub quote: String,
    /// Return annotations that are replies to this annotation ID.
    pub references: String,
    /// Limit the results to annotations whose body contains this text.
    pub text: String,
}

impl Default for SearchQuery {
    /// The documented defaults: limit 20, sorted descending by update time,
    /// every filter blank.
    fn default() -> (r: Self)
        ensures
            r.limit == 20,
            r.sort == Sort::Updated,
            r.search_after@.len() == 0,
            r.offset == 0,
            r.order == Order::Desc,
            r.uri@.len() == 0,
            r.uri_parts@.len() == 0,
            r.wildcard_uri@.len() == 0,
            r.user@.len() == 0,
            r.group@.len() == 0,
            r.tag@.len() == 0,
            r.tags@.len() == 0,
            r.any@.len() == 0,
            r.quote@.len() == 0,
            r.references@.len() == 0,
            r.text@.len() == 0,
    {
        SearchQuery {
            limit: 20,
            sort: Sort::Updated,
            search_after: String::new(),
            offset: 0,
            order: Order::Desc,
            uri: String::new(),
            uri_parts: String::new(),
            wildcard_uri: String::new(),
            user: String::new(),
            group: Vec::new(),
            tag: String::new(),
            tags: Vec::new(),
            any: String::new(),
            quote: String::new(),
            references: String::new(),
            text: String::new(),
        }
    }
}

// ---------------------------------------------------------------------------
// Decoding: from JSON documents to domain values.
// ---------------------------------------------------------------------------

/// The trailing offset of a timestamp: `Z` (either case) at the end, or a
/// sign with a two-digit hour, a colon and a two-digit minute at the end.
pub open spec fn rfc3339_offset_ok(s: Seq<char>, i: int) -> bool {
    if !(0 <= i < s.len()) {
        false
    } else if i + 1 == s.len() {
        s[i] == 'Z' || s[i] == 'z'
    } else if i + 6 == s.len() {
        (s[i] == '+' || s[i] == '-') && is_digit(s[i + 1]) && is_digit(s[i + 2]) && s[i + 3] == ':'
            && is_digit(s[i + 4]) && is_digit(s[i + 5])
    } else {
        false
    }
}

/// What may follow the seconds of a timestamp: an optional fraction of one
/// or more digits, then the offset.
pub open spec fn rfc3339_tail_ok(s: Seq<char>, i: int) -> bool {
    if 0 <= i < s.len() && s[i] == '.' {
        let j = sp_digits(s, i + 1);
        j > i + 1 && rfc3339_offset_ok(s, j)
    } else {
        rfc3339_offset_ok(s, i)
    }
}

/// The shape of an RFC 3339 timestamp: date, separator, time, optional
/// fraction, offset.  This checks digits and separators only; the calendar
/// itself (month and day ranges and the like) is not validated.
pub open spec fn is_rfc3339_shape(s: Seq<char>) -> bool {
    s.len() >= 20 && is_digit(s[0]) && is_digit(s[1]) && is_digit(s[2]) && is_digit(s[3]) && s[4]
        == '-' && is_digit(s[5]) && is_digit(s[6]) && s[7] == '-' && is_digit(s[8]) && is_digit(
        s[9],
    ) && (s[10] == 'T' || s[10] == 't' || s[10] == ' ') && is_digit(s[11]) && is_digit(s[12])
        && s[13] == ':' && is_digit(s[14]) && is_digit(s[15]) && s[16] == ':' && is_digit(s[17])
        && is_digit(s[18]) && rfc3339_tail_ok(s, 19)
}

fn digit_at(s: &str, i: usize) -> (r: bool)
    requires
        i < s@.len(),
    ensures
        r == is_digit(s@[i as int]),
{
    let u = s.get_char(i) as u32;
    48 <= u && u <= 57
}

fn rfc3339_offset_at(s: &str, n: usize, i: usize) -> (r: bool)
    requires
        n == s@.len(),
        i <= n,
    ensures
        r == rfc3339_offset_ok(s@, i as int),
{
    if i >= n {
        false
    } else if i + 1 == n {
        let c = s.get_char(i);
        c == 'Z' || c == 'z'
    } else if n - i == 6 {
        let c = s.get_char(i);
        (c == '+' || c == '-') && digit_at(s, i + 1) && digit_at(s, i + 2) && s.get_char(i + 3)
            == ':' && digit_at(s, i + 4) && digit_at(s, i + 5)
    } else {
        false
    }
}

/// Check that a string has the RFC 3339 timestamp shape.
pub fn rfc3339_shape(s: &str) -> (r: bool)
    ensures
        r == is_rfc3339_shape(s@),
{
    let n = s.unicode_len();
    if n < 20 {
        return false;
    }
    if !(digit_at(s, 0) && digit_at(s, 1) && digit_at(s, 2) && digit_at(s, 3)) {
        return false;
    }
    if s.get_char(4) != '-' || !digit_at(s, 5) || !digit_at(s, 6) || s.get_char(7) != '-' {
        return false;
    }
    if !digit_at(s, 8) || !digit_at(s, 9) {
        return false;
    }
    let sep = s.get_char(10);
    if !(sep == 'T' || sep == 't' || sep == ' ') {
        return false;
    }
    if !digit_at(s, 11) || !digit_at(s, 12) || s.get_char(13) != ':' || !digit_at(s, 14)
        || !digit_at(s, 15) || s.get_char(16) != ':' || !digit_at(s, 17) || !digit_at(s, 18) {
        return false;
    }
    if s.get_char(19) == '.' {
        let j = crate::json::p_digits(s, n, 20);
        if j <= 20 {
            return false;
        }
        rfc3339_offset_at(s, n, j)
    } else {
        rfc3339_offset_at(s, n, 19)
    }
}

/// An optional string field: absent or null means none.
pub open spec fn spec_opt_str(o: Option<JVal>) -> Option<Option<Seq<char>>> {
    match o {
        None => Some(None),
        Some(JVal::Null) => Some(None),
        Some(JVal::Str(s)) => Some(Some(s)),
        Some(_) => None,
    }
}

/// An optional list-of-strings field: absent means empty.
pub open spec fn spec_opt_str_list(o: Option<JVal>) -> Option<Seq<Seq<char>>> {
    match o {
        None => Some(Seq::empty()),
        Some(j) => spec_str_list_from(j),
    }
}

/// The quote fields of a selector object.
pub open spec fn spec_quote_from(es: Seq<(Seq<char>, JVal)>) -> Option<SpecTextQuoteSelector> {
    match (jv_get(es, "exact"@), jv_get(es, "prefix"@), jv_get(es, "suffix"@)) {
        (Some(JVal::Str(e)), Some(JVal::Str(p)), Some(JVal::Str(su))) => Some(
            SpecTextQuoteSelector { exact: e, prefix: p, suffix: su },
        ),
        _ => None,
    }
}

/// Decode a selector: the `type` field picks the variant; the quote kind is
/// fully typed, every other known kind keeps its remaining fields verbatim.
pub open spec fn spec_selector_from(j: JVal) -> Option<SpecSelector> {
    match j {
        JVal::Obj(es) => match jv_get(es, "type"@) {
            Some(JVal::Str(tag)) => {
                if tag == "TextQuoteSelector"@ {
                    match spec_quote_from(es) {
                        Some(q) => Some(SpecSelector::TextQuoteSelector(q)),
                        None => None,
                    }
                } else if tag == "TextPositionSelector"@ {
                    Some(SpecSelector::TextPositionSelector(entries_sans(es, "type"@)))
                } else if tag == "RangeSelector"@ {
                    Some(SpecSelector::RangeSelector(entries_sans(es, "type"@)))
                } else if tag == "FragmentSelector"@ {
                    Some(SpecSelector::FragmentSelector(entries_sans(es, "type"@)))
                } else if tag == "CssSelector"@ {
                    Some(SpecSelector::CssSelector(entries_sans(es, "type"@)))
                } else if tag == "XPathSelector"@ {
                    Some(SpecSelector::XPathSelector(entries_sans(es, "type"@)))
                } else if tag == "DataPositionSelector"@ {
                    Some(SpecSelector::DataPositionSelector(entries_sans(es, "type"@)))
                } else if tag == "SvgSelector"@ {
                    Some(SpecSelector::SvgSelector(entries_sans(es, "type"@)))
                } else if tag == "PageSelector"@ {
                    Some(SpecSelector::PageSelector(entries_sans(es, "type"@)))
                } else if tag == "EPUBContentSelector"@ {
                    Some(SpecSelector::EPUBContentSelector(entries_sans(es, "type"@)))
                } else if tag == "MediaTimeSelector"@ {
                    Some(SpecSelector::MediaTimeSelector(entries_sans(es, "type"@)))
                } else {
                    None
                }
            },
            _ => None,
        },
        _ => None,
    }
}

/// Decode a list of selectors, in order.
pub open spec fn dec_selector_list(items: Seq<JVal>) -> Option<Seq<SpecSelector>>
    decreases items.len(),
{
    if items.len() == 0 {
        Some(Seq::empty())
    } else {
        match (dec_selector_list(items.drop_last()), spec_selector_from(items.last())) {
            (Some(init), Some(t)) => Some(init.push(t)),
            _ => None,
        }
    }
}

/// Extending a selector list that already fails to decode still fails.
pub proof fn lemma_dec_selector_list_none(items: Seq<JVal>, k: int)
    requires
        0 <= k <= items.len(),
        dec_selector_list(items.take(k)) is None,
    ensures
        dec_selector_list(items) is None,
    decreases items.len() - k,
{
    if k == items.len() {
        assert(items.take(k) =~= items);
    } else {
        assert(items.take(k + 1).drop_last() =~= items.take(k));
        lemma_dec_selector_list_none(items, k + 1);
    }
}

/// A list of selectors as a JSON document.
pub open spec fn spec_selector_list_from(j: JVal) -> Option<Seq<SpecSelector>> {
    match j {
        JVal::Arr(items) => dec_selector_list(items),
        _ => None,
    }
}

/// Decode a target: a required `source` string and an optional selector list.
pub open spec fn spec_target_from(j: JVal) -> Option<SpecTarget> {
    match j {
        JVal::Obj(es) => match jv_get(es, "source"@) {
            Some(JVal::Str(src)) => match jv_get(es, "selector"@) {
                None => Some(SpecTarget { source: src, selector: Seq::empty() }),
                Some(sel_j) => match spec_selector_list_from(sel_j) {
                    Some(sels) => Some(SpecTarget { source: src, selector: sels }),
                    None => None,
                },
            },
            _ => None,
        },
        _ => None,
    }
}

/// Decode a list of targets, in order.
pub open spec fn dec_target_list(items: Seq<JVal>) -> Option<Seq<SpecTarget>>
    decreases items.len(),
{
    if items.len() == 0 {
        Some(Seq::empty())
    } else {
        match (dec_target_list(items.drop_last()), spec_target_from(items.last())) {
            (Some(init), Some(t)) => Some(init.push(t)),
            _ => None,
        }
    }
}

/// Extending a target list that already fails to decode still fails.
pub proof fn lemma_dec_target_list_none(items: Seq<JVal>, k: int)
    requires
        0 <= k <= items.len(),
        dec_target_list(items.take(k)) is None,
    ensures
        dec_target_list(items) is None,
    decreases items.len() - k,
{
    if k == items.len() {
        assert(items.take(k) =~= items);
    } else {
        assert(items.take(k + 1).drop_last() =~= items.take(k));
        lemma_dec_target_list_none(items, k + 1);
    }
}

/// A list of targets as a JSON document.
pub open spec fn spec_target_list_from(j: JVal) -> Option<Seq<SpecTarget>> {
    match j {
        JVal::Arr(items) => dec_target_list(items),
        _ => None,
    }
}

/// Decode a document link: a required `href` and an optional `type`.
pub open spec fn spec_link_from(j: JVal) -> Option<SpecLink> {
    match j {
        JVal::Obj(es) => match jv_get(es, "href"@) {
            Some(JVal::Str(h)) => match jv_get(es, "type"@) {
                None => Some(SpecLink { href: h, link_type: Seq::empty() }),
                Some(JVal::Str(t)) => Some(SpecLink { href: h, link_type: t }),
                Some(_) => None,
            },
            _ => None,
        },
        _ => None,
    }
}

/// Decode a list of document links, in order.
pub open spec fn dec_link_list(items: Seq<JVal>) -> Option<Seq<SpecLink>>
    decreases items.len(),
{
    if items.len() == 0 {
        Some(Seq::empty())
    } else {
        match (dec_link_list(items.drop_last()), spec_link_from(items.last())) {
            (Some(init), Some(t)) => Some(init.push(t)),
            _ => None,
        }
    }
}

/// Extending a link list that already fails to decode still fails.
pub proof fn lemma_dec_link_list_none(items: Seq<JVal>, k: int)
    requires
        0 <= k <= items.len(),
        dec_link_list(items.take(k)) is None,
    ensures
        dec_link_list(items) is None,
    decreases items.len() - k,
{
    if k == items.len() {
        assert(items.take(k) =~= items);
    } else {
        assert(items.take(k + 1).drop_last() =~= items.take(k));
        lemma_dec_link_list_none(items, k + 1);
    }
}

/// A list of document links as a JSON document.
pub open spec fn spec_link_list_from(j: JVal) -> Option<Seq<SpecLink>> {
    match j {
        JVal::Arr(items) => dec_link_list(items),
        _ => None,
    }
}

/// Decode Dublin Core metadata: an optional identifier list.
pub open spec fn spec_dc_from(j: JVal) -> Option<SpecDc> {
    match j {
        JVal::Obj(es) => match spec_opt_str_list(jv_get(es, "identifier"@)) {
            Some(ids) => Some(SpecDc { identifier: ids }),
            None => None,
        },
        _ => None,
    }
}

/// Decode HighWire metadata: optional doi and pdf_url lists.
pub open spec fn spec_highwire_from(j: JVal) -> Option<SpecHighWire> {
    match j {
        JVal::Obj(es) => match (spec_opt_str_list(jv_get(es, "doi"@)), spec_opt_str_list(
            jv_get(es, "pdf_url"@),
        )) {
            (Some(doi), Some(pdf_url)) => Some(SpecHighWire { doi, pdf_url }),
            _ => None,
        },
        _ => None,
    }
}

/// Decode document metadata; every field is optional.
pub open spec fn spec_document_from(j: JVal) -> Option<SpecDocument> {
    match j {
        JVal::Obj(es) => {
            let title = spec_opt_str_list(jv_get(es, "title"@));
            let dc = match jv_get(es, "dc"@) {
                None => Some(None),
                Some(JVal::Null) => Some(None),
                Some(x) => match spec_dc_from(x) {
                    Some(d) => Some(Some(d)),
                    None => None,
                },
            };
            let highwire = match jv_get(es, "highwire"@) {
                None => Some(None),
                Some(JVal::Null) => Some(None),
                Some(x) => match spec_highwire_from(x) {
                    Some(h) => Some(Some(h)),
                    None => None,
                },
            };
            let link = match jv_get(es, "link"@) {
                None => Some(Seq::<SpecLink>::empty()),
                Some(x) => spec_link_list_from(x),
            };
            match (title, dc, highwire, link) {
                (Some(title), Some(dc), Some(highwire), Some(link)) => Some(
                    SpecDocument { title, dc, highwire, link },
                ),
                _ => None,
            }
        },
        _ => None,
    }
}

/// Decode the creator's public profile data.
pub open spec fn spec_userinfo_from(j: JVal) -> Option<SpecUserInfo> {
    match j {
        JVal::Obj(es) => match spec_opt_str(jv_get(es, "display_name"@)) {
            Some(dn) => Some(SpecUserInfo { display_name: dn }),
            None => None,
        },
        _ => None,
    }
}

/// Decode the permission lists; all four are required.
pub open spec fn spec_permissions_from(j: JVal) -> Option<SpecPermissions> {
    match j {
        JVal::Obj(es) => {
            match (jv_get(es, "read"@), jv_get(es, "delete"@), jv_get(es, "admin"@), jv_get(
                es,
                "update"@,
            )) {
                (Some(r), Some(d), Some(a), Some(u)) => {
                    match (spec_str_list_from(r), spec_str_list_from(d), spec_str_list_from(a),
                    spec_str_list_from(u)) {
                        (Some(read), Some(delete), Some(admin), Some(update)) => Some(
                            SpecPermissions { read, delete, admin, update },
                        ),
                        _ => None,
                    }
                },
                _ => None,
            }
        },
        _ => None,
    }
}

/// Decode a full annotation resource.  The string, list and boolean fields
/// shown are required, and both timestamps must have the RFC 3339 shape;
/// `document`, `references` and `user_info` may be absent, and absent or
/// null optional values decode to their defaults.
pub open spec fn spec_annotation_from(j: JVal) -> Option<SpecAnnotation> {
    match j {
        JVal::Obj(es) => {
            match (jv_get(es, "id"@), jv_get(es, "created"@), jv_get(es, "updated"@), jv_get(
                es,
                "user"@,
            ), jv_get(es, "uri"@), jv_get(es, "text"@), jv_get(es, "group"@)) {
                (
                    Some(JVal::Str(id)),
                    Some(JVal::Str(created)),
                    Some(JVal::Str(updated)),
                    Some(JVal::Str(user)),
                    Some(JVal::Str(uri)),
                    Some(JVal::Str(text)),
                    Some(JVal::Str(group)),
                ) => {
                    if !(is_rfc3339_shape(created) && is_rfc3339_shape(updated)) {
                        None
                    } else {
                        match (jv_get(es, "tags"@), jv_get(es, "permissions"@), jv_get(
                            es,
                            "target"@,
                        ), jv_get(es, "links"@), jv_get(es, "hidden"@), jv_get(es, "flagged"@)) {
                            (
                            Some(tags_j),
                            Some(perm_j),
                            Some(target_j),
                            Some(links_j),
                            Some(JVal::Bool(hidden)),
                            Some(JVal::Bool(flagged)),
                        ) => {
                            let tags = spec_str_list_from(tags_j);
                            let permissions = spec_permissions_from(perm_j);
                            let target = spec_target_list_from(target_j);
                            let links = spec_str_map_from(links_j);
                            let document = match jv_get(es, "document"@) {
                                None => Some(None),
                                Some(JVal::Null) => Some(None),
                                Some(x) => match spec_document_from(x) {
                                    Some(d) => Some(Some(d)),
                                    None => None,
                                },
                            };
                            let references = spec_opt_str_list(jv_get(es, "references"@));
                            let user_info = match jv_get(es, "user_info"@) {
                                None => Some(None),
                                Some(JVal::Null) => Some(None),
                                Some(x) => match spec_userinfo_from(x) {
                                    Some(u) => Some(Some(u)),
                                    None => None,
                                },
                            };
                            match (tags, permissions, target, links, document, references,
                            user_info) {
                                (
                                    Some(tags),
                                    Some(permissions),
                                    Some(target),
                                    Some(links),
                                    Some(document),
                                    Some(references),
                                    Some(user_info),
                                ) => Some(
                                    SpecAnnotation {
                                        id,
                                        created,
                                        updated,
                                        user,
                                        uri,
                                        text,
                                        tags,
                                        group,
                                        permissions,
                                        target,
                                        links,
                                        hidden,
                                        flagged,
                                        document,
                                        references,
                                        user_info,
                                    },
                                ),
                                _ => None,
                            }
                        },
                            _ => None,
                        }
                    }
                },
                _ => None,
            }
        },
        _ => None,
    }
}

/// Decode a list of annotations, in order.
pub open spec fn dec_annotation_list(items: Seq<JVal>) -> Option<Seq<SpecAnnotation>>
    decreases items.len(),
{
    if items.len() == 0 {
        Some(Seq::empty())
    } else {
        match (dec_annotation_list(items.drop_last()), spec_annotation_from(items.last())) {
            (Some(init), Some(t)) => Some(init.push(t)),
            _ => None,
        }
    }
}

/// Extending an annotation list that already fails to decode still fails.
pub proof fn lemma_dec_annotation_list_none(items: Seq<JVal>, k: int)
    requires
        0 <= k <= items.len(),
        dec_annotation_list(items.take(k)) is None,
    ensures
        dec_annotation_list(items) is None,
    decreases items.len() - k,
{
    if k == items.len() {
        assert(items.take(k) =~= items);
    } else {
        assert(items.take(k + 1).drop_last() =~= items.take(k));
        lemma_dec_annotation_list_none(items, k + 1);
    }
}

/// A list of annotations as a JSON document.
pub open spec fn spec_annotation_list_from(j: JVal) -> Option<Seq<SpecAnnotation>> {
    match j {
        JVal::Arr(items) => dec_annotation_list(items),
        _ => None,
    }
}

impl TextQuoteSelector {
    /// Decode the quote fields of a selector object.
    pub fn from_entries(entries: &Vec<(String, JsonValue)>) -> (r: Option<TextQuoteSelector>)
        ensures
            match r {
                Some(q) => spec_quote_from(jv_entries(entries@)) == Some(q.deep_view()),
                None => spec_quote_from(jv_entries(entries@)) is None,
            },
    {
        let exact = match obj_get(entries, "exact") {
            Some(JsonValue::Str(s)) => s.clone(),
            _ => {
                return None;
            },
        };
        let prefix = match obj_get(entries, "prefix") {
            Some(JsonValue::Str(s)) => s.clone(),
            _ => {
                return None;
            },
        };
        let suffix = match obj_get(entries, "suffix") {
            Some(JsonValue::Str(s)) => s.clone(),
            _ => {
                return None;
            },
        };
        Some(TextQuoteSelector { exact, prefix, suffix })
    }
}

impl Selector {
    /// Decode a selector from a JSON document.
    pub fn from_json(v: &JsonValue) -> (r: Option<Selector>)
        ensures
            match r {
                Some(s) => spec_selector_from(jv(*v)) == Some(s.deep_view()),
                None => spec_selector_from(jv(*v)) is None,
            },
    {
        match v {
            JsonValue::Obj(entries) => {
                let tag = match obj_get(entries, "type") {
                    Some(JsonValue::Str(s)) => s.clone(),
                    _ => {
                        return None;
                    },
                };
                let t = tag.as_str();
                if str_eq(t, "TextQuoteSelector") {
                    match TextQuoteSelector::from_entries(entries) {
                        Some(q) => Some(Selector::TextQuoteSelector(q)),
                        None => None,
                    }
                } else if str_eq(t, "TextPositionSelector") {
                    Some(Selector::TextPositionSelector(entries_without_key(entries, "type")))
                } else if str_eq(t, "RangeSelector") {
                    Some(Selector::RangeSelector(entries_without_key(entries, "type")))
                } else if str_eq(t, "FragmentSelector") {
                    Some(Selector::FragmentSelector(entries_without_key(entries, "type")))
                } else if str_eq(t, "CssSelector") {
                    Some(Selector::CssSelector(entries_without_key(entries, "type")))
                } else if str_eq(t, "XPathSelector") {
                    Some(Selector::XPathSelector(entries_without_key(entries, "type")))
                } else if str_eq(t, "DataPositionSelector") {
                    Some(Selector::DataPositionSelector(entries_without_key(entries, "type")))
                } else if str_eq(t, "SvgSelector") {
                    Some(Selector::SvgSelector(entries_without_key(entries, "type")))
                } else if str_eq(t, "PageSelector") {
                    Some(Selector::PageSelector(entries_without_key(entries, "type")))
                } else if str_eq(t, "EPUBContentSelector") {
                    Some(Selector::EPUBContentSelector(entries_without_key(entries, "type")))
                } else if str_eq(t, "MediaTimeSelector") {
                    Some(Selector::MediaTimeSelector(entries_without_key(entries, "type")))
                } else {
                    None
                }
            },
            _ => None,
        }
    }
}

/// Decode an array of selectors.
pub fn selector_list_from_json(v: &JsonValue) -> (r: Option<Vec<Selector>>)
    ensures
        match r {
            Some(xs) => spec_selector_list_from(jv(*v)) == Some(xs.deep_view()),
            None => spec_selector_list_from(jv(*v)) is None,
        },
{
    match v {
        JsonValue::Arr(items) => {
            proof {
                lemma_jv_list_props(items@);
            }
            let ghost model = jv_list(items@);
            let mut out: Vec<Selector> = Vec::new();
            let mut i: usize = 0;
            while i < items.len()
                invariant
                    i <= items.len(),
                    *v == JsonValue::Arr(*items),
                    model == jv_list(items@),
                    model.len() == items@.len(),
                    forall|k: int| 0 <= k < items@.len() ==> model[k] == jv(items@[k]),
                    dec_selector_list(model.take(i as int)) == Some(out.deep_view()),
                    out@.len() == i,
                decreases items.len() - i,
            {
                proof {
                    assert(model.take(i + 1).drop_last() =~= model.take(i as int));
                    assert(model.take(i + 1).last() == model[i as int]);
                }
                match Selector::from_json(&items[i]) {
                    Some(s) => {
                        let ghost pre = out.deep_view();
                        let ghost sv = s.deep_view();
                        out.push(s);
                        proof {
                            assert(out.deep_view() =~= pre.push(sv));
                        }
                    },
                    None => {
                        proof {
                            lemma_dec_selector_list_none(model, i + 1);
                            assert(jv(*v) == JVal::Arr(model));
                        }
                        return None;
                    },
                }
                i = i + 1;
            }
            proof {
                assert(model.take(model.len() as int) =~= model);
            }
            Some(out)
        },
        _ => None,
    }
}

impl Target {
    /// Decode a target from a JSON document.
    pub fn from_json(v: &JsonValue) -> (r: Option<Target>)
        ensures
            match r {
                Some(t) => spec_target_from(jv(*v)) == Some(t.deep_view()),
                None => spec_target_from(jv(*v)) is None,
            },
    {
        match v {
            JsonValue::Obj(entries) => {
                let source = match obj_get(entries, "source") {
                    Some(JsonValue::Str(s)) => s.clone(),
                    _ => {
                        return None;
                    },
                };
                let selector = match obj_get(entries, "selector") {
                    None => {
                        let tmp: Vec<Selector> = Vec::new();
                        proof {
                            assert(tmp.deep_view() =~= Seq::<SpecSelector>::empty());
                        }
                        tmp
                    },
                    Some(sel_j) => match selector_list_from_json(sel_j) {
                        Some(sels) => sels,
                        None => {
                            return None;
                        },
                    },
                };
                Some(Target { source, selector })
            },
            _ => None,
        }
    }
}

/// Decode an array of targets.
pub fn target_list_from_json(v: &JsonValue) -> (r: Option<Vec<Target>>)
    ensures
        match r {
            Some(xs) => spec_target_list_from(jv(*v)) == Some(xs.deep_view()),
            None => spec_target_list_from(jv(*v)) is None,
        },
{
    match v {
        JsonValue::Arr(items) => {
            proof {
                lemma_jv_list_props(items@);
            }
            let ghost model = jv_list(items@);
            let mut out: Vec<Target> = Vec::new();
            let mut i: usize = 0;
            while i < items.len()
                invariant
                    i <= items.len(),
                    *v == JsonValue::Arr(*items),
                    model == jv_list(items@),
                    model.len() == items@.len(),
                    forall|k: int| 0 <= k < items@.len() ==> model[k] == jv(items@[k]),
                    dec_target_list(model.take(i as int)) == Some(out.deep_view()),
                    out@.len() == i,
                decreases items.len() - i,
            {
                proof {
                    assert(model.take(i + 1).drop_last() =~= model.take(i as int));
                    assert(model.take(i + 1).last() == model[i as int]);
                }
                match Target::from_json(&items[i]) {
                    Some(t) => {
                        let ghost pre = out.deep_view();
                        let ghost tv = t.deep_view();
                        out.push(t);
                        proof {
                            assert(out.deep_view() =~= pre.push(tv));
                        }
                    },
                    None => {
                        proof {
                            lemma_dec_target_list_none(model, i + 1);
                            assert(jv(*v) == JVal::Arr(model));
                        }
                        return None;
                    },
                }
                i = i + 1;
            }
            proof {
                assert(model.take(model.len() as int) =~= model);
            }
            Some(out)
        },
        _ => None,
    }
}

impl Link {
    /// Decode a document link from a JSON document.
    pub fn from_json(v: &JsonValue) -> (r: Option<Link>)
        ensures
            match r {
                Some(l) => spec_link_from(jv(*v)) == Some(l.deep_view()),
                None => spec_link_from(jv(*v)) is None,
            },
    {
        match v {
            JsonValue::Obj(entries) => {
                let href = match obj_get(entries, "href") {
                    Some(JsonValue::Str(s)) => s.clone(),
                    _ => {
                        return None;
                    },
                };
                let link_type = match obj_get(entries, "type") {
                    None => String::new(),
                    Some(JsonValue::Str(s)) => s.clone(),
                    Some(_) => {
                        return None;
                    },
                };
                Some(Link { href, link_type })
            },
            _ => None,
        }
    }
}

/// Decode an array of document links.
pub fn link_list_from_json(v: &JsonValue) -> (r: Option<Vec<Link>>)
    ensures
        match r {
            Some(xs) => spec_link_list_from(jv(*v)) == Some(xs.deep_view()),
            None => spec_link_list_from(jv(*v)) is None,
        },
{
    match v {
        JsonValue::Arr(items) => {
            proof {
                lemma_jv_list_props(items@);
            }
            let ghost model = jv_list(items@);
            let mut out: Vec<Link> = Vec::new();
            let mut i: usize = 0;
            while i < items.len()
                invariant
                    i <= items.len(),
                    *v == JsonValue::Arr(*items),
                    model == jv_list(items@),
                    model.len() == items@.len(),
                    forall|k: int| 0 <= k < items@.len() ==> model[k] == jv(items@[k]),
                    dec_link_list(model.take(i as int)) == Some(out.deep_view()),
                    out@.len() == i,
                decreases items.len() - i,
            {
                proof {
                    assert(model.take(i + 1).drop_last() =~= model.take(i as int));
                    assert(model.take(i + 1).last() == model[i as int]);
                }
                match Link::from_json(&items[i]) {
                    Some(l) => {
                        let ghost pre = out.deep_view();
                        let ghost lv = l.deep_view();
                        out.push(l);
                        proof {
                            assert(out.deep_view() =~= pre.push(lv));
                        }
                    },
                    None => {
                        proof {
                            lemma_dec_link_list_none(model, i + 1);
                            assert(jv(*v) == JVal::Arr(model));
                        }
                        return None;
                    },
                }
                i = i + 1;
            }
            proof {
                assert(model.take(model.len() as int) =~= model);
            }
            Some(out)
        },
        _ => None,
    }
}

impl Dc {
    /// Decode Dublin Core metadata from a JSON document.
    pub fn from_json(v: &JsonValue) -> (r: Option<Dc>)
        ensures
            match r {
                Some(d) => spec_dc_from(jv(*v)) == Some(d.deep_view()),
                None => spec_dc_from(jv(*v)) is None,
            },
    {
        match v {
            JsonValue::Obj(entries) => {
                let identifier = match obj_get(entries, "identifier") {
                    None => {
                        let tmp: Vec<String> = Vec::new();
                        proof {
                            assert(tmp.deep_view() =~= Seq::<Seq<char>>::empty());
                        }
                        tmp
                    },
                    Some(x) => match j_str_list(x) {
                        Some(xs) => xs,
                        None => {
                            return None;
                        },
                    },
                };
                Some(Dc { identifier })
            },
            _ => None,
        }
    }
}

impl HighWire {
    /// Decode HighWire metadata from a JSON document.
    pub fn from_json(v: &JsonValue) -> (r: Option<HighWire>)
        ensures
            match r {
                Some(h) => spec_highwire_from(jv(*v)) == Some(h.deep_view()),
                None => spec_highwire_from(jv(*v)) is None,
            },
    {
        match v {
            JsonValue::Obj(entries) => {
                let doi = match obj_get(entries, "doi") {
                    None => {
                        let tmp: Vec<String> = Vec::new();
                        proof {
                            assert(tmp.deep_view() =~= Seq::<Seq<char>>::empty());
                        }
                        tmp
                    },
                    Some(x) => match j_str_list(x) {
                        Some(xs) => xs,
                        None => {
                            return None;
                        },
                    },
                };
                let pdf_url = match obj_get(entries, "pdf_url") {
                    None => {
                        let tmp: Vec<String> = Vec::new();
                        proof {
                            assert(tmp.deep_view() =~= Seq::<Seq<char>>::empty());
                        }
                        tmp
                    },
                    Some(x) => match j_str_list(x) {
                        Some(xs) => xs,
                        None => {
                            return None;
                        },
                    },
                };
                Some(HighWire { doi, pdf_url })
            },
            _ => None,
        }
    }
}

impl Document {
    /// Decode document metadata from a JSON document.
    pub fn from_json(v: &JsonValue) -> (r: Option<Document>)
        ensures
            match r {
                Some(d) => spec_document_from(jv(*v)) == Some(d.deep_view()),
                None => spec_document_from(jv(*v)) is None,
            },
    {
        match v {
            JsonValue::Obj(entries) => {
                let title = match obj_get(entries, "title") {
                    None => {
                        let tmp: Vec<String> = Vec::new();
                        proof {
                            assert(tmp.deep_view() =~= Seq::<Seq<char>>::empty());
                        }
                        tmp
                    },
                    Some(x) => match j_str_list(x) {
                        Some(xs) => xs,
                        None => {
                            return None;
                        },
                    },
                };
                let dc = match obj_get(entries, "dc") {
                    None => None,
                    Some(JsonValue::Null) => None,
                    Some(x) => match Dc::from_json(x) {
                        Some(d) => Some(d),
                        None => {
                            return None;
                        },
                    },
                };
                let highwire = match obj_get(entries, "highwire") {
                    None => None,
                    Some(JsonValue::Null) => None,
                    Some(x) => match HighWire::from_json(x) {
                        Some(h) => Some(h),
                        None => {
                            return None;
                        },
                    },
                };
                let link = match obj_get(entries, "link") {
                    None => {
                        let tmp: Vec<Link> = Vec::new();
                        proof {
                            assert(tmp.deep_view() =~= Seq::<SpecLink>::empty());
                        }
                        tmp
                    },
                    Some(x) => match link_list_from_json(x) {
                        Some(ls) => ls,
                        None => {
                            return None;
                        },
                    },
                };
                Some(Document { title, dc, highwire, link })
            },
            _ => None,
        }
    }
}

impl UserInfo {
    /// Decode the creator's public profile data from a JSON document.
    pub fn from_json(v: &JsonValue) -> (r: Option<UserInfo>)
        ensures
            match r {
                Some(u) => spec_userinfo_from(jv(*v)) == Some(u.deep_view()),
                None => spec_userinfo_from(jv(*v)) is None,
            },
    {
        match v {
            JsonValue::Obj(entries) => {
                let display_name = match obj_get(entries, "display_name") {
                    None => None,
                    Some(JsonValue::Null) => None,
                    Some(JsonValue::Str(s)) => Some(s.clone()),
                    Some(_) => {
                        return None;
                    },
                };
                Some(UserInfo { display_name })
            },
            _ => None,
        }
    }
}

impl Permissions {
    /// Decode the permission lists from a JSON document.
    pub fn from_json(v: &JsonValue) -> (r: Option<Permissions>)
        ensures
            match r {
                Some(p) => spec_permissions_from(jv(*v)) == Some(p.deep_view()),
                None => spec_permissions_from(jv(*v)) is None,
            },
    {
        match v {
            JsonValue::Obj(entries) => {
                let read = match obj_get(entries, "read") {
                    Some(x) => match j_str_list(x) {
                        Some(xs) => xs,
                        None => {
                            return None;
                        },
                    },
                    None => {
                        return None;
                    },
                };
                let delete = match obj_get(entries, "delete") {
                    Some(x) => match j_str_list(x) {
                        Some(xs) => xs,
                        None => {
                            return None;
                        },
                    },
                    None => {
                        return None;
                    },
                };
                let admin = match obj_get(entries, "admin") {
                    Some(x) => match j_str_list(x) {
                        Some(xs) => xs,
                        None => {
                            return None;
                        },
                    },
                    None => {
                        return None;
                    },
                };
                let update = match obj_get(entries, "update") {
                    Some(x) => match j_str_list(x) {
                        Some(xs) => xs,
                        None => {
                            return None;
                        },
                    },
                    None => {
                        return None;
                    },
                };
                Some(Permissions { read, delete, admin, update })
            },
            _ => None,
        }
    }
}

impl Annotation {
    /// Decode a full annotation resource from a JSON document.
    pub fn from_json(v: &JsonValue) -> (r: Option<Annotation>)
        ensures
            match r {
                Some(a) => spec_annotation_from(jv(*v)) == Some(a.deep_view()),
                None => spec_annotation_from(jv(*v)) is None,
            },
    {
        match v {
            JsonValue::Obj(entries) => {
                let id = match obj_get(entries, "id") {
                    Some(JsonValue::Str(s)) => s.clone(),
                    _ => {
                        return None;
                    },
                };
                let created = match obj_get(entries, "created") {
                    Some(JsonValue::Str(s)) => s.clone(),
                    _ => {
                        return None;
                    },
                };
                let updated = match obj_get(entries, "updated") {
                    Some(JsonValue::Str(s)) => s.clone(),
                    _ => {
                        return None;
                    },
                };
                if !(rfc3339_shape(created.as_str()) && rfc3339_shape(updated.as_str())) {
                    return None;
                }
                let user = match obj_get(entries, "user") {
                    Some(JsonValue::Str(s)) => UserAccountID(s.clone()),
                    _ => {
                        return None;
                    },
                };
                let uri = match obj_get(entries, "uri") {
                    Some(JsonValue::Str(s)) => s.clone(),
                    _ => {
                        return None;
                    },
                };
                let text = match obj_get(entries, "text") {
                    Some(JsonValue::Str(s)) => s.clone(),
                    _ => {
                        return None;
                    },
                };
                let group = match obj_get(entries, "group") {
                    Some(JsonValue::Str(s)) => s.clone(),
                    _ => {
                        return None;
                    },
                };
                let tags = match obj_get(entries, "tags") {
                    Some(x) => match j_str_list(x) {
                        Some(xs) => xs,
                        None => {
                            return None;
                        },
                    },
                    None => {
                        return None;
                    },
                };
                let permissions = match obj_get(entries, "permissions") {
                    Some(x) => match Permissions::from_json(x) {
                        Some(p) => p,
                        None => {
                            return None;
                        },
                    },
                    None => {
                        return None;
                    },
                };
                let target = match obj_get(entries, "target") {
                    Some(x) => match target_list_from_json(x) {
                        Some(t) => t,
                        None => {
                            return None;
                        },
                    },
                    None => {
                        return None;
                    },
                };
                let links = match obj_get(entries, "links") {
                    Some(x) => match j_str_map(x) {
                        Some(m) => m,
                        None => {
                            return None;
                        },
                    },
                    None => {
                        return None;
                    },
                };
                let hidden = match obj_get(entries, "hidden") {
                    Some(JsonValue::Bool(b)) => *b,
                    _ => {
                        return None;
                    },
                };
                let flagged = match obj_get(entries, "flagged") {
                    Some(JsonValue::Bool(b)) => *b,
                    _ => {
                        return None;
                    },
                };
                let document = match obj_get(entries, "document") {
                    None => None,
                    Some(JsonValue::Null) => None,
                    Some(x) => match Document::from_json(x) {
                        Some(d) => Some(d),
                        None => {
                            return None;
                        },
                    },
                };
                let references = match obj_get(entries, "references") {
                    None => {
                        let tmp: Vec<String> = Vec::new();
                        proof {
                            assert(tmp.deep_view() =~= Seq::<Seq<char>>::empty());
                        }
                        tmp
                    },
                    Some(x) => match j_str_list(x) {
                        Some(xs) => xs,
                        None => {
                            return None;
                        },
                    },
                };
                let user_info = match obj_get(entries, "user_info") {
                    None => None,
                    Some(JsonValue::Null) => None,
                    Some(x) => match UserInfo::from_json(x) {
                        Some(u) => Some(u),
                        None => {
                            return None;
                        },
                    },
                };
                Some(
                    Annotation {
                        id,
                        created,
                        updated,
                        user,
                        uri,
                        text,
                        tags,
                        group,
                        permissions,
                        target,
                        links,
                        hidden,
                        flagged,
                        document,
                        references,
                        user_info,
                    },
                )
            },
            _ => None,
        }
    }
}

/// Decode an array of annotations.
pub fn annotation_list_from_json(v: &JsonValue) -> (r: Option<Vec<Annotation>>)
    ensures
        match r {
            Some(xs) => spec_annotation_list_from(jv(*v)) == Some(xs.deep_view()),
            None => spec_annotation_list_from(jv(*v)) is None,
        },
{
    match v {
        JsonValue::Arr(items) => {
            proof {
                lemma_jv_list_props(items@);
            }
            let ghost model = jv_list(items@);
            let mut out: Vec<Annotation> = Vec::new();
            let mut i: usize = 0;
            while i < items.len()
                invariant
                    i <= items.len(),
                    *v == JsonValue::Arr(*items),
                    model == jv_list(items@),
                    model.len() == items@.len(),
                    forall|k: int| 0 <= k < items@.len() ==> model[k] == jv(items@[k]),
                    dec_annotation_list(model.take(i as int)) == Some(out.deep_view()),
                    out@.len() == i,
                decreases items.len() - i,
            {
                proof {
                    assert(model.take(i + 1).drop_last() =~= model.take(i as int));
                    assert(model.take(i + 1).last() == model[i as int]);
                }
                match Annotation::from_json(&items[i]) {
                    Some(a) => {
                        let ghost pre = out.deep_view();
                        let ghost av = a.deep_view();
                        out.push(a);
                        proof {
                            assert(out.deep_view() =~= pre.push(av));
                        }
                    },
                    None => {
                        proof {
                            lemma_dec_annotation_list_none(model, i + 1);
                            assert(jv(*v) == JVal::Arr(model));
                        }
                        return None;
                    },
                }
                i = i + 1;
            }
            proof {
                assert(model.take(model.len() as int) =~= model);
            }
            Some(out)
        },
        _ => None,
    }
}

// ---------------------------------------------------------------------------
// Encoding: from domain values to JSON documents.
// ---------------------------------------------------------------------------

/// Encode a selector: a `type` tag naming the kind, then the kind's fields.
pub open spec fn spec_selector_json(s: SpecSelector) -> JVal {
    match s {
        SpecSelector::TextQuoteSelector(q) => JVal::Obj(
            Seq::<(Seq<char>, JVal)>::empty().push(("type"@, JVal::Str("TextQuoteSelector"@))).push(
                ("exact"@, JVal::Str(q.exact)),
            ).push(("prefix"@, JVal::Str(q.prefix))).push(("suffix"@, JVal::Str(q.suffix))),
        ),
        SpecSelector::TextPositionSelector(m) => JVal::Obj(
            seq![("type"@, JVal::Str("TextPositionSelector"@))] + m,
        ),
        SpecSelector::RangeSelector(m) => JVal::Obj(seq![("type"@, JVal::Str("RangeSelector"@))] + m),
        SpecSelector::FragmentSelector(m) => JVal::Obj(
            seq![("type"@, JVal::Str("FragmentSelector"@))] + m,
        ),
        SpecSelector::CssSelector(m) => JVal::Obj(seq![("type"@, JVal::Str("CssSelector"@))] + m),
        SpecSelector::XPathSelector(m) => JVal::Obj(seq![("type"@, JVal::Str("XPathSelector"@))] + m),
        SpecSelector::DataPositionSelector(m) => JVal::Obj(
            seq![("type"@, JVal::Str("DataPositionSelector"@))] + m,
        ),
        SpecSelector::SvgSelector(m) => JVal::Obj(seq![("type"@, JVal::Str("SvgSelector"@))] + m),
        SpecSelector::PageSelector(m) => JVal::Obj(seq![("type"@, JVal::Str("PageSelector"@))] + m),
        SpecSelector::EPUBContentSelector(m) => JVal::Obj(
            seq![("type"@, JVal::Str("EPUBContentSelector"@))] + m,
        ),
        SpecSelector::MediaTimeSelector(m) => JVal::Obj(
            seq![("type"@, JVal::Str("MediaTimeSelector"@))] + m,
        ),
    }
}

impl Selector {
    /// Encode this selector as a JSON document.
    pub fn to_json(&self) -> (r: JsonValue)
        ensures
            jv(r) == spec_selector_json(self.deep_view()),
    {
        match self {
            Selector::TextQuoteSelector(q) => {
                let mut out: Vec<(String, JsonValue)> = Vec::new();
                proof {
                    assert(jv_entries(out@) =~= Seq::<(Seq<char>, JVal)>::empty());
                }
                push_entry(&mut out, "type", JsonValue::Str(String::from_str("TextQuoteSelector")));
                push_entry(&mut out, "exact", JsonValue::Str(q.exact.clone()));
                push_entry(&mut out, "prefix", JsonValue::Str(q.prefix.clone()));
                push_entry(&mut out, "suffix", JsonValue::Str(q.suffix.clone()));
                JsonValue::Obj(out)
            },
            Selector::TextPositionSelector(m) => tagged_map_json("TextPositionSelector", m),
            Selector::RangeSelector(m) => tagged_map_json("RangeSelector", m),
            Selector::FragmentSelector(m) => tagged_map_json("FragmentSelector", m),
            Selector::CssSelector(m) => tagged_map_json("CssSelector", m),
            Selector::XPathSelector(m) => tagged_map_json("XPathSelector", m),
            Selector::DataPositionSelector(m) => tagged_map_json("DataPositionSelector", m),
            Selector::SvgSelector(m) => tagged_map_json("SvgSelector", m),
            Selector::PageSelector(m) => tagged_map_json("PageSelector", m),
            Selector::EPUBContentSelector(m) => tagged_map_json("EPUBContentSelector", m),
            Selector::MediaTimeSelector(m) => tagged_map_json("MediaTimeSelector", m),
        }
    }
}

/// Build a tagged object: a `type` entry, then the given entries verbatim.
fn tagged_map_json(tag: &str, m: &Vec<(String, JsonValue)>) -> (r: JsonValue)
    ensures
        jv(r) == JVal::Obj(seq![(("type"@, JVal::Str(tag@)))] + jv_entries(m@)),
{
    let mut out: Vec<(String, JsonValue)> = Vec::new();
    proof {
        assert(jv_entries(out@) =~= Seq::<(Seq<char>, JVal)>::empty());
    }
    push_entry(&mut out, "type", JsonValue::Str(String::from_str(tag)));
    proof {
        assert(jv_entries(out@) =~= seq![(("type"@, JVal::Str(tag@)))]);
    }
    append_entries_cloned(&mut out, m);
    JsonValue::Obj(out)
}

/// Encode a list of selectors as a JSON array document.
pub open spec fn enc_selector_list(ss: Seq<SpecSelector>) -> JVal {
    JVal::Arr(ss.map_values(|x: SpecSelector| spec_selector_json(x)))
}

/// Encode a list of selectors as a JSON array.
pub fn selector_list_to_json(items: &Vec<Selector>) -> (r: JsonValue)
    ensures
        jv(r) == enc_selector_list(items.deep_view()),
{
    let mut out: Vec<JsonValue> = Vec::new();
    let mut i: usize = 0;
    while i < items.len()
        invariant
            i <= items.len(),
            jv_list(out@) =~= items.deep_view().take(i as int).map_values(
                |x: SpecSelector| spec_selector_json(x),
            ),
        decreases items.len() - i,
    {
        let e = items[i].to_json();
        proof {
            lemma_jv_list_push(out@, e);
        }
        out.push(e);
        proof {
            assert(jv_list(out@) =~= items.deep_view().take(i + 1).map_values(
                |x: SpecSelector| spec_selector_json(x),
            ));
        }
        i = i + 1;
    }
    proof {
        assert(items.deep_view().take(items@.len() as int) =~= items.deep_view());
    }
    JsonValue::Arr(out)
}

/// Encode a target, omitting fields equal to their default.
pub open spec fn spec_target_json(t: SpecTarget) -> JVal {
    let s0 = Seq::<(Seq<char>, JVal)>::empty();
    let s1 = if t.source.len() != 0 {
        s0.push(("source"@, JVal::Str(t.source)))
    } else {
        s0
    };
    let s2 = if t.selector.len() != 0 {
        s1.push(("selector"@, enc_selector_list(t.selector)))
    } else {
        s1
    };
    JVal::Obj(s2)
}

impl Target {
    /// Encode this target as a JSON document.
    pub fn to_json(&self) -> (r: JsonValue)
        ensures
            jv(r) == spec_target_json(self.deep_view()),
    {
        let mut out: Vec<(String, JsonValue)> = Vec::new();
        proof {
            assert(jv_entries(out@) =~= Seq::<(Seq<char>, JVal)>::empty());
        }
        if !self.source.as_str().is_empty() {
            push_entry(&mut out, "source", JsonValue::Str(self.source.clone()));
        }
        if self.selector.len() != 0 {
            push_entry(&mut out, "selector", selector_list_to_json(&self.selector));
        }
        JsonValue::Obj(out)
    }
}

/// Encode a list of targets as a JSON array document.
pub open spec fn enc_target_list(ts: Seq<SpecTarget>) -> JVal {
    JVal::Arr(ts.map_values(|x: SpecTarget| spec_target_json(x)))
}

/// Encode a list of targets as a JSON array.
pub fn target_list_to_json(items: &Vec<Target>) -> (r: JsonValue)
    ensures
        jv(r) == enc_target_list(items.deep_view()),
{
    let mut out: Vec<JsonValue> = Vec::new();
    let mut i: usize = 0;
    while i < items.len()
        invariant
            i <= items.len(),
            jv_list(out@) =~= items.deep_view().take(i as int).map_values(
                |x: SpecTarget| spec_target_json(x),
            ),
        decreases items.len() - i,
    {
        let e = items[i].to_json();
        proof {
            lemma_jv_list_push(out@, e);
        }
        out.push(e);
        proof {
            assert(jv_list(out@) =~= items.deep_view().take(i + 1).map_values(
                |x: SpecTarget| spec_target_json(x),
            ));
        }
        i = i + 1;
    }
    proof {
        assert(items.deep_view().take(items@.len() as int) =~= items.deep_view());
    }
    JsonValue::Arr(out)
}

/// Encode a document link: `href` always, `type` only when non-empty.
pub open spec fn spec_link_json(l: SpecLink) -> JVal {
    let s0 = Seq::<(Seq<char>, JVal)>::empty().push(("href"@, JVal::Str(l.href)));
    let s1 = if l.link_type.len() != 0 {
        s0.push(("type"@, JVal::Str(l.link_type)))
    } else {
        s0
    };
    JVal::Obj(s1)
}

impl Link {
    /// Encode this link as a JSON document.
    pub fn to_json(&self) -> (r: JsonValue)
        ensures
            jv(r) == spec_link_json(self.deep_view()),
    {
        let mut out: Vec<(String, JsonValue)> = Vec::new();
        proof {
            assert(jv_entries(out@) =~= Seq::<(Seq<char>, JVal)>::empty());
        }
        push_entry(&mut out, "href", JsonValue::Str(self.href.clone()));
        if !self.link_type.as_str().is_empty() {
            push_entry(&mut out, "type", JsonValue::Str(self.link_type.clone()));
        }
        JsonValue::Obj(out)
    }
}

/// Encode a list of document links as a JSON array document.
pub open spec fn enc_link_list(ls: Seq<SpecLink>) -> JVal {
    JVal::Arr(ls.map_values(|x: SpecLink| spec_link_json(x)))
}

/// Encode a list of document links as a JSON array.
pub fn link_list_to_json(items: &Vec<Link>) -> (r: JsonValue)
    ensures
        jv(r) == enc_link_list(items.deep_view()),
{
    let mut out: Vec<JsonValue> = Vec::new();
    let mut i: usize = 0;
    while i < items.len()
        invariant
            i <= items.len(),
            jv_list(out@) =~= items.deep_view().take(i as int).map_values(
                |x: SpecLink| spec_link_json(x),
            ),
        decreases items.len() - i,
    {
        let e = items[i].to_json();
        proof {
            lemma_jv_list_push(out@, e);
        }
        out.push(e);
        proof {
            assert(jv_list(out@) =~= items.deep_view().take(i + 1).map_values(
                |x: SpecLink| spec_link_json(x),
            ));
        }
        i = i + 1;
    }
    proof {
        assert(items.deep_view().take(items@.len() as int) =~= items.deep_view());
    }
    JsonValue::Arr(out)
}

/// Encode Dublin Core metadata, omitting an empty identifier list.
pub open spec fn spec_dc_json(d: SpecDc) -> JVal {
    let s0 = Seq::<(Seq<char>, JVal)>::empty();
    let s1 = if d.identifier.len() != 0 {
        s0.push(("identifier"@, enc_str_list(d.identifier)))
    } else {
        s0
    };
    JVal::Obj(s1)
}

impl Dc {
    /// Encode this metadata as a JSON document.
    pub fn to_json(&self) -> (r: JsonValue)
        ensures
            jv(r) == spec_dc_json(self.deep_view()),
    {
        let mut out: Vec<(String, JsonValue)> = Vec::new();
        proof {
            assert(jv_entries(out@) =~= Seq::<(Seq<char>, JVal)>::empty());
        }
        if self.identifier.len() != 0 {
            push_entry(&mut out, "identifier", str_list_to_json(&self.identifier));
        }
        JsonValue::Obj(out)
    }
}

/// Encode HighWire metadata, omitting empty lists.
pub open spec fn spec_highwire_json(h: SpecHighWire) -> JVal {
    let s0 = Seq::<(Seq<char>, JVal)>::empty();
    let s1 = if h.doi.len() != 0 {
        s0.push(("doi"@, enc_str_list(h.doi)))
    } else {
        s0
    };
    let s2 = if h.pdf_url.len() != 0 {
        s1.push(("pdf_url"@, enc_str_list(h.pdf_url)))
    } else {
        s1
    };
    JVal::Obj(s2)
}

impl HighWire {
    /// Encode this metadata as a JSON document.
    pub fn to_json(&self) -> (r: JsonValue)
        ensures
            jv(r) == spec_highwire_json(self.deep_view()),
    {
        let mut out: Vec<(String, JsonValue)> = Vec::new();
        proof {
            assert(jv_entries(out@) =~= Seq::<(Seq<char>, JVal)>::empty());
        }
        if self.doi.len() != 0 {
            push_entry(&mut out, "doi", str_list_to_json(&self.doi));
        }
        if self.pdf_url.len() != 0 {
            push_entry(&mut out, "pdf_url", str_list_to_json(&self.pdf_url));
        }
        JsonValue::Obj(out)
    }
}

/// Encode document metadata, omitting fields equal to their default.
pub open spec fn spec_document_json(d: SpecDocument) -> JVal {
    let s0 = Seq::<(Seq<char>, JVal)>::empty();
    let s1 = if d.title.len() != 0 {
        s0.push(("title"@, enc_str_list(d.title)))
    } else {
        s0
    };
    let s2 = match d.dc {
        Some(dc) => s1.push(("dc"@, spec_dc_json(dc))),
        None => s1,
    };
    let s3 = match d.highwire {
        Some(h) => s2.push(("highwire"@, spec_highwire_json(h))),
        None => s2,
    };
    let s4 = if d.link.len() != 0 {
        s3.push(("link"@, enc_link_list(d.link)))
    } else {
        s3
    };
    JVal::Obj(s4)
}

impl Document {
    /// Encode this document metadata as a JSON document.
    pub fn to_json(&self) -> (r: JsonValue)
        ensures
            jv(r) == spec_document_json(self.deep_view()),
    {
        let mut out: Vec<(String, JsonValue)> = Vec::new();
        proof {
            assert(jv_entries(out@) =~= Seq::<(Seq<char>, JVal)>::empty());
        }
        if self.title.len() != 0 {
            push_entry(&mut out, "title", str_list_to_json(&self.title));
        }
        match &self.dc {
            Some(dc) => push_entry(&mut out, "dc", dc.to_json()),
            None => (),
        }
        match &self.highwire {
            Some(h) => push_entry(&mut out, "highwire", h.to_json()),
            None => (),
        }
        if self.link.len() != 0 {
            push_entry(&mut out, "link", link_list_to_json(&self.link));
        }
        JsonValue::Obj(out)
    }
}

/// Encode the creator's public profile data; a missing display name is null.
pub open spec fn spec_userinfo_json(u: SpecUserInfo) -> JVal {
    JVal::Obj(
        Seq::<(Seq<char>, JVal)>::empty().push(
            (
                "display_name"@,
                match u.display_name {
                    Some(n) => JVal::Str(n),
                    None => JVal::Null,
                },
            ),
        ),
    )
}

impl UserInfo {
    /// Encode this profile data as a JSON document.
    pub fn to_json(&self) -> (r: JsonValue)
        ensures
            jv(r) == spec_userinfo_json(self.deep_view()),
    {
        let mut out: Vec<(String, JsonValue)> = Vec::new();
        proof {
            assert(jv_entries(out@) =~= Seq::<(Seq<char>, JVal)>::empty());
        }
        let dn = match &self.display_name {
            Some(n) => JsonValue::Str(n.clone()),
            None => JsonValue::Null,
        };
        push_entry(&mut out, "display_name", dn);
        JsonValue::Obj(out)
    }
}

/// Encode the permission lists; all four fields always appear.
pub open spec fn spec_permissions_json(p: SpecPermissions) -> JVal {
    JVal::Obj(
        Seq::<(Seq<char>, JVal)>::empty().push(("read"@, enc_str_list(p.read))).push(
            ("delete"@, enc_str_list(p.delete)),
        ).push(("admin"@, enc_str_list(p.admin))).push(("update"@, enc_str_list(p.update))),
    )
}

impl Permissions {
    /// Encode these permissions as a JSON document.
    pub fn to_json(&self) -> (r: JsonValue)
        ensures
            jv(r) == spec_permissions_json(self.deep_view()),
    {
        let mut out: Vec<(String, JsonValue)> = Vec::new();
        proof {
            assert(jv_entries(out@) =~= Seq::<(Seq<char>, JVal)>::empty());
        }
        push_entry(&mut out, "read", str_list_to_json(&self.read));
        push_entry(&mut out, "delete", str_list_to_json(&self.delete));
        push_entry(&mut out, "admin", str_list_to_json(&self.admin));
        push_entry(&mut out, "update", str_list_to_json(&self.update));
        JsonValue::Obj(out)
    }
}

/// Encode a full annotation resource; every field appears, optional ones as
/// null when absent.
pub open spec fn spec_annotation_json(a: SpecAnnotation) -> JVal {
    JVal::Obj(
        Seq::<(Seq<char>, JVal)>::empty().push(("id"@, JVal::Str(a.id))).push(
            ("created"@, JVal::Str(a.created)),
        ).push(("updated"@, JVal::Str(a.updated))).push(("user"@, JVal::Str(a.user))).push(
            ("uri"@, JVal::Str(a.uri)),
        ).push(("text"@, JVal::Str(a.text))).push(("tags"@, enc_str_list(a.tags))).push(
            ("group"@, JVal::Str(a.group)),
        ).push(("permissions"@, spec_permissions_json(a.permissions))).push(
            ("target"@, enc_target_list(a.target)),
        ).push(("links"@, enc_str_map(a.links))).push(("hidden"@, JVal::Bool(a.hidden))).push(
            ("flagged"@, JVal::Bool(a.flagged)),
        ).push(
            (
                "document"@,
                match a.document {
                    Some(d) => spec_document_json(d),
                    None => JVal::Null,
                },
            ),
        ).push(("references"@, enc_str_list(a.references))).push(
            (
                "user_info"@,
                match a.user_info {
                    Some(u) => spec_userinfo_json(u),
                    None => JVal::Null,
                },
            ),
        ),
    )
}

impl Annotation {
    /// Encode this annotation as a JSON document.
    pub fn to_json(&self) -> (r: JsonValue)
        ensures
            jv(r) == spec_annotation_json(self.deep_view()),
    {
        let mut out: Vec<(String, JsonValue)> = Vec::new();
        proof {
            assert(jv_entries(out@) =~= Seq::<(Seq<char>, JVal)>::empty());
        }
        push_entry(&mut out, "id", JsonValue::Str(self.id.clone()));
        push_entry(&mut out, "created", JsonValue::Str(self.created.clone()));
        push_entry(&mut out, "updated", JsonValue::Str(self.updated.clone()));
        push_entry(&mut out, "user", JsonValue::Str(self.user.0.clone()));
        push_entry(&mut out, "uri", JsonValue::Str(self.uri.clone()));
        push_entry(&mut out, "text", JsonValue::Str(self.text.clone()));
        push_entry(&mut out, "tags", str_list_to_json(&self.tags));
        push_entry(&mut out, "group", JsonValue::Str(self.group.clone()));
        push_entry(&mut out, "permissions", self.permissions.to_json());
        push_entry(&mut out, "target", target_list_to_json(&self.target));
        push_entry(&mut out, "links", str_map_to_json(&self.links));
        push_entry(&mut out, "hidden", JsonValue::Bool(self.hidden));
        push_entry(&mut out, "flagged", JsonValue::Bool(self.flagged));
        let doc = match &self.document {
            Some(d) => d.to_json(),
            None => JsonValue::Null,
        };
        push_entry(&mut out, "document", doc);
        push_entry(&mut out, "references", str_list_to_json(&self.references));
        let ui = match &self.user_info {
            Some(u) => u.to_json(),
            None => JsonValue::Null,
        };
        push_entry(&mut out, "user_info", ui);
        JsonValue::Obj(out)
    }
}

/// Encode a creation payload: each field appears only when it differs from
/// its default, so that untouched fields cannot override server-side values.
pub open spec fn spec_input_annotation_json(a: InputAnnotation) -> JVal {
    let s0 = Seq::<(Seq<char>, JVal)>::empty();
    let s1 = if a.uri@.len() != 0 {
        s0.push(("uri"@, JVal::Str(a.uri@)))
    } else {
        s0
    };
    let s2 = if a.text@.len() != 0 {
        s1.push(("text"@, JVal::Str(a.text@)))
    } else {
        s1
    };
    let s3 = match a.tags {
        Some(ts) => s2.push(("tags"@, enc_str_list(ts.deep_view()))),
        None => s2,
    };
    let s4 = match a.document {
        Some(d) => s3.push(("document"@, spec_document_json(d.deep_view()))),
        None => s3,
    };
    let s5 = if a.group@.len() != 0 {
        s4.push(("group"@, JVal::Str(a.group@)))
    } else {
        s4
    };
    let s6 = if !spec_target_is_default(a.target.deep_view()) {
        s5.push(("target"@, spec_target_json(a.target.deep_view())))
    } else {
        s5
    };
    let s7 = if a.references@.len() != 0 {
        s6.push(("references"@, enc_str_list(a.references.deep_view())))
    } else {
        s6
    };
    JVal::Obj(s7)
}

impl InputAnnotation {
    /// Encode this payload as a JSON document, omitting defaulted fields.
    pub fn to_json(&self) -> (r: JsonValue)
        ensures
            jv(r) == spec_input_annotation_json(*self),
    {
        let mut out: Vec<(String, JsonValue)> = Vec::new();
        proof {
            assert(jv_entries(out@) =~= Seq::<(Seq<char>, JVal)>::empty());
        }
        if !self.uri.as_str().is_empty() {
            push_entry(&mut out, "uri", JsonValue::Str(self.uri.clone()));
        }
        if !self.text.as_str().is_empty() {
            push_entry(&mut out, "text", JsonValue::Str(self.text.clone()));
        }
        match &self.tags {
            Some(ts) => push_entry(&mut out, "tags", str_list_to_json(ts)),
            None => (),
        }
        match &self.document {
            Some(d) => push_entry(&mut out, "document", d.to_json()),
            None => (),
        }
        if !self.group.as_str().is_empty() {
            push_entry(&mut out, "group", JsonValue::Str(self.group.clone()));
        }
        if !(self.target.source.as_str().is_empty() && self.target.selector.len() == 0) {
            push_entry(&mut out, "target", self.target.to_json());
        }
        if self.references.len() != 0 {
            push_entry(&mut out, "references", str_list_to_json(&self.references));
        }
        JsonValue::Obj(out)
    }
}

// ---------------------------------------------------------------------------
// Query-parameter serialization.
// ---------------------------------------------------------------------------

/// Search parameters for the limit, sort, search_after and offset fields.
pub open spec fn spec_search_params_a(q: SearchQuery) -> Seq<(Seq<char>, Seq<char>)> {
    let s0 = Seq::<(Seq<char>, Seq<char>)>::empty();
    let s1 = if q.limit != 20 {
        s0.push(("limit"@, dec_rep(q.limit as int)))
    } else {
        s0
    };
    let s2 = if q.sort != Sort::Updated {
        s1.push(("sort"@, q.sort.spec_name()))
    } else {
        s1
    };
    let s3 = if q.search_after@.len() != 0 {
        s2.push(("search_after"@, strip_quotes(enc_string(q.search_after@))))
    } else {
        s2
    };
    let s4 = if q.offset != 0 {
        s3.push(("offset"@, dec_rep(q.offset as int)))
    } else {
        s3
    };
    s4
}

/// Search parameters for the order, uri, uri.parts and wildcard_uri fields.
pub open spec fn spec_search_params_b(q: SearchQuery) -> Seq<(Seq<char>, Seq<char>)> {
    let s0 = Seq::<(Seq<char>, Seq<char>)>::empty();
    let s1 = if q.order != Order::Desc {
        s0.push(("order"@, q.order.spec_name()))
    } else {
        s0
    };
    let s2 = if q.uri@.len() != 0 {
        s1.push(("uri"@, strip_quotes(enc_string(q.uri@))))
    } else {
        s1
    };
    let s3 = if q.uri_parts@.len() != 0 {
        s2.push(("uri.parts"@, strip_quotes(enc_string(q.uri_parts@))))
    } else {
        s2
    };
    let s4 = if q.wildcard_uri@.len() != 0 {
        s3.push(("wildcard_uri"@, strip_quotes(enc_string(q.wildcard_uri@))))
    } else {
        s3
    };
    s4
}

/// Search parameters for the user, group, tag and tags fields.
pub open spec fn spec_search_params_c(q: SearchQuery) -> Seq<(Seq<char>, Seq<char>)> {
    let s0 = Seq::<(Seq<char>, Seq<char>)>::empty();
    let s1 = if q.user@.len() != 0 {
        s0.push(("user"@, strip_quotes(enc_string(q.user@))))
    } else {
        s0
    };
    let s2 = if q.group@.len() != 0 {
        s1.push(("group"@, strip_quotes(enc_json(enc_str_list(q.group.deep_view())))))
    } else {
        s1
    };
    let s3 = if q.tag@.len() != 0 {
        s2.push(("tag"@, strip_quotes(enc_string(q.tag@))))
    } else {
        s2
    };
    let s4 = if q.tags@.len() != 0 {
        s3.push(("tags"@, strip_quotes(enc_json(enc_str_list(q.tags.deep_view())))))
    } else {
        s3
    };
    s4
}

/// Search parameters for the any, quote, references and text fields.
pub open spec fn spec_search_params_d(q: SearchQuery) -> Seq<(Seq<char>, Seq<char>)> {
    let s0 = Seq::<(Seq<char>, Seq<char>)>::empty();
    let s1 = if q.any@.len() != 0 {
        s0.push(("any"@, strip_quotes(enc_string(q.any@))))
    } else {
        s0
    };
    let s2 = if q.quote@.len() != 0 {
        s1.push(("quote"@, strip_quotes(enc_string(q.quote@))))
    } else {
        s1
    };
    let s3 = if q.references@.len() != 0 {
        s2.push(("references"@, strip_quotes(enc_string(q.references@))))
    } else {
        s2
    };
    let s4 = if q.text@.len() != 0 {
        s3.push(("text"@, strip_quotes(enc_string(q.text@))))
    } else {
        s3
    };
    s4
}

/// The query parameters of a search: in field order, a parameter appears
/// exactly when the field differs from its declared default, holding the
/// field's JSON encoding with quote characters stripped.
pub open spec fn spec_search_params(q: SearchQuery) -> Seq<(Seq<char>, Seq<char>)> {
    spec_search_params_a(q) + spec_search_params_b(q) + spec_search_params_c(q)
        + spec_search_params_d(q)
}

fn push_search_params_a(q: &SearchQuery, out: &mut Vec<(String, String)>)
    ensures
        final(out).deep_view() == old(out).deep_view() + spec_search_params_a(*q),
{
    let ghost base = out.deep_view();
    if q.limit != 20 {
        push_param(out, "limit", u64_to_dec(q.limit as u64));
    }
    if !matches!(q.sort, Sort::Updated) {
        push_param(out, "sort", String::from_str(q.sort.name()));
    }
    if !q.search_after.as_str().is_empty() {
        push_param(out, "search_after", query_string_value(&q.search_after));
    }
    if q.offset != 0 {
        push_param(out, "offset", u64_to_dec(q.offset as u64));
    }
    proof {
        assert(out.deep_view() =~= base + spec_search_params_a(*q));
    }
}

fn push_search_params_b(q: &SearchQuery, out: &mut Vec<(String, String)>)
    ensures
        final(out).deep_view() == old(out).deep_view() + spec_search_params_b(*q),
{
    let ghost base = out.deep_view();
    if !matches!(q.order, Order::Desc) {
        push_param(out, "order", String::from_str(q.order.name()));
    }
    if !q.uri.as_str().is_empty() {
        push_param(out, "uri", query_string_value(&q.uri));
    }
    if !q.uri_parts.as_str().is_empty() {
        push_param(out, "uri.parts", query_string_value(&q.uri_parts));
    }
    if !q.wildcard_uri.as_str().is_empty() {
        push_param(out, "wildcard_uri", query_string_value(&q.wildcard_uri));
    }
    proof {
        assert(out.deep_view() =~= base + spec_search_params_b(*q));
    }
}

fn push_search_params_c(q: &SearchQuery, out: &mut Vec<(String, String)>)
    ensures
        final(out).deep_view() == old(out).deep_view() + spec_search_params_c(*q),
{
    let ghost base = out.deep_view();
    if !q.user.as_str().is_empty() {
        push_param(out, "user", query_string_value(&q.user));
    }
    if q.group.len() != 0 {
        push_param(out, "group", query_list_value(&q.group));
    }
    if !q.tag.as_str().is_empty() {
        push_param(out, "tag", query_string_value(&q.tag));
    }
    if q.tags.len() != 0 {
        push_param(out, "tags", query_list_value(&q.tags));
    }
    proof {
        assert(out.deep_view() =~= base + spec_search_params_c(*q));
    }
}

fn push_search_params_d(q: &SearchQuery, out: &mut Vec<(String, String)>)
    ensures
        final(out).deep_view() == old(out).deep_view() + spec_search_params_d(*q),
{
    let ghost base = out.deep_view();
    if !q.any.as_str().is_empty() {
        push_param(out, "any", query_string_value(&q.any));
    }
    if !q.quote.as_str().is_empty() {
        push_param(out, "quote", query_string_value(&q.quote));
    }
    if !q.references.as_str().is_empty() {
        push_param(out, "references", query_string_value(&q.references));
    }
    if !q.text.as_str().is_empty() {
        push_param(out, "text", query_string_value(&q.text));
    }
    proof {
        assert(out.deep_view() =~= base + spec_search_params_d(*q));
    }
}

impl SearchQuery {
    /// The URL query parameters of this search: one per non-default field.
    pub fn query_params(&self) -> (r: Vec<(String, String)>)
        ensures
            r.deep_view() == spec_search_params(*self),
    {
        let mut out: Vec<(String, String)> = Vec::new();
        proof {
            assert(out.deep_view() =~= Seq::<(Seq<char>, Seq<char>)>::empty());
        }
        push_search_params_a(self, &mut out);
        push_search_params_b(self, &mut out);
        push_search_params_c(self, &mut out);
        push_search_params_d(self, &mut out);
        proof {
            assert(out.deep_view() =~= spec_search_params(*self));
        }
        out
    }
}


/// The omit-if-default law for search queries: a parameter appears under a
/// field's key exactly when the field differs from its declared default, and
/// then it carries the field's stringified, unquoted value.
#[verifier::rlimit(100)]
proof fn lemma_search_chunk_a(q: SearchQuery)
    ensures
        forall|k: Seq<char>| #![trigger params_has_key(spec_search_params_a(q), k)]
            params_has_key(spec_search_params_a(q), k) <==> (((q.limit != 20) && "limit"@ == k) || ((q.sort != Sort::Updated) && "sort"@ == k) || ((q.search_after@.len() != 0) && "search_after"@ == k) || ((q.offset != 0) && "offset"@ == k)),
        forall|r: (Seq<char>, Seq<char>)|
            #![trigger params_has_pair(spec_search_params_a(q), r)]
            params_has_pair(spec_search_params_a(q), r) <==> (((q.limit != 20) && ("limit"@, dec_rep(q.limit as int)) == r) || ((q.sort != Sort::Updated) && ("sort"@, q.sort.spec_name()) == r) || ((q.search_after@.len() != 0) && ("search_after"@, strip_quotes(enc_string(q.search_after@))) == r) || ((q.offset != 0) && ("offset"@, dec_rep(q.offset as int)) == r)),
{
    assert(spec_search_params_a(q) == param_chain4(
        q.limit != 20,
        ("limit"@, dec_rep(q.limit as int)),
        q.sort != Sort::Updated,
        ("sort"@, q.sort.spec_name()),
        q.search_after@.len() != 0,
        ("search_after"@, strip_quotes(enc_string(q.search_after@))),
        q.offset != 0,
        ("offset"@, dec_rep(q.offset as int)),
    ));
    lemma_param_chain4(
        q.limit != 20,
        ("limit"@, dec_rep(q.limit as int)),
        q.sort != Sort::Updated,
        ("sort"@, q.sort.spec_name()),
        q.search_after@.len() != 0,
        ("search_after"@, strip_quotes(enc_string(q.search_after@))),
        q.offset != 0,
        ("offset"@, dec_rep(q.offset as int)),
    );
}

#[verifier::rlimit(100)]
proof fn lemma_search_chunk_b(q: SearchQuery)
    ensures
        forall|k: Seq<char>| #![trigger params_has_key(spec_search_params_b(q), k)]
            params_has_key(spec_search_params_b(q), k) <==> (((q.order != Order::Desc) && "order"@ == k) || ((q.uri@.len() != 0) && "uri"@ == k) || ((q.uri_parts@.len() != 0) && "uri.parts"@ == k) || ((q.wildcard_uri@.len() != 0) && "wildcard_uri"@ == k)),
        forall|r: (Seq<char>, Seq<char>)|
            #![trigger params_has_pair(spec_search_params_b(q), r)]
            params_has_pair(spec_search_params_b(q), r) <==> (((q.order != Order::Desc) && ("order"@, q.order.spec_name()) == r) || ((q.uri@.len() != 0) && ("uri"@, strip_quotes(enc_string(q.uri@))) == r) || ((q.uri_parts@.len() != 0) && ("uri.parts"@, strip_quotes(enc_string(q.uri_parts@))) == r) || ((q.wildcard_uri@.len() != 0) && ("wildcard_uri"@, strip_quotes(enc_string(q.wildcard_uri@))) == r)),
{
    assert(spec_search_params_b(q) == param_chain4(
        q.order != Order::Desc,
        ("order"@, q.order.spec_name()),
        q.uri@.len() != 0,
        ("uri"@, strip_quotes(enc_string(q.uri@))),
        q.uri_parts@.len() != 0,
        ("uri.parts"@, strip_quotes(enc_string(q.uri_parts@))),
        q.wildcard_uri@.len() != 0,
        ("wildcard_uri"@, strip_quotes(enc_string(q.wildcard_uri@))),
    ));
    lemma_param_chain4(
        q.order != Order::Desc,
        ("order"@, q.order.spec_name()),
        q.uri@.len() != 0,
        ("uri"@, strip_quotes(enc_string(q.uri@))),
        q.uri_parts@.len() != 0,
        ("uri.parts"@, strip_quotes(enc_string(q.uri_parts@))),
        q.wildcard_uri@.len() != 0,
        ("wildcard_uri"@, strip_quotes(enc_string(q.wildcard_uri@))),
    );
}

#[verifier::rlimit(100)]
proof fn lemma_search_chunk_c(q: SearchQuery)
    ensures
        forall|k: Seq<char>| #![trigger params_has_key(spec_search_params_c(q), k)]
            params_has_key(spec_search_params_c(q), k) <==> (((q.user@.len() != 0) && "user"@ == k) || ((q.group@.len() != 0) && "group"@ == k) || ((q.tag@.len() != 0) && "tag"@ == k) || ((q.tags@.len() != 0) && "tags"@ == k)),
        forall|r: (Seq<char>, Seq<char>)|
            #![trigger params_has_pair(spec_search_params_c(q), r)]
            params_has_pair(spec_search_params_c(q), r) <==> (((q.user@.len() != 0) && ("user"@, strip_quotes(enc_string(q.user@))) == r) || ((q.group@.len() != 0) && ("group"@, strip_quotes(enc_json(enc_str_list(q.group.deep_view())))) == r) || ((q.tag@.len() != 0) && ("tag"@, strip_quotes(enc_string(q.tag@))) == r) || ((q.tags@.len() != 0) && ("tags"@, strip_quotes(enc_json(enc_str_list(q.tags.deep_view())))) == r)),
{
    assert(spec_search_params_c(q) == param_chain4(
        q.user@.len() != 0,
        ("user"@, strip_quotes(enc_string(q.user@))),
        q.group@.len() != 0,
        ("group"@, strip_quotes(enc_json(enc_str_list(q.group.deep_view())))),
        q.tag@.len() != 0,
        ("tag"@, strip_quotes(enc_string(q.tag@))),
        q.tags@.len() != 0,
        ("tags"@, strip_quotes(enc_json(enc_str_list(q.tags.deep_view())))),
    ));
    lemma_param_chain4(
        q.user@.len() != 0,
        ("user"@, strip_quotes(enc_string(q.user@))),
        q.group@.len() != 0,
        ("group"@, strip_quotes(enc_json(enc_str_list(q.group.deep_view())))),
        q.tag@.len() != 0,
        ("tag"@, strip_quotes(enc_string(q.tag@))),
        q.tags@.len() != 0,
        ("tags"@, strip_quotes(enc_json(enc_str_list(q.tags.deep_view())))),
    );
}

#[verifier::rlimit(100)]
proof fn lemma_search_chunk_d(q: SearchQuery)
    ensures
        forall|k: Seq<char>| #![trigger params_has_key(spec_search_params_d(q), k)]
            params_has_key(spec_search_params_d(q), k) <==> (((q.any@.len() != 0) && "any"@ == k) || ((q.quote@.len() != 0) && "quote"@ == k) || ((q.references@.len() != 0) && "references"@ == k) || ((q.text@.len() != 0) && "text"@ == k)),
        forall|r: (Seq<char>, Seq<char>)|
            #![trigger params_has_pair(spec_search_params_d(q), r)]
            params_has_pair(spec_search_params_d(q), r) <==> (((q.any@.len() != 0) && ("any"@, strip_quotes(enc_string(q.any@))) == r) || ((q.quote@.len() != 0) && ("quote"@, strip_quotes(enc_string(q.quote@))) == r) || ((q.references@.len() != 0) && ("references"@, strip_quotes(enc_string(q.references@))) == r) || ((q.text@.len() != 0) && ("text"@, strip_quotes(enc_string(q.text@))) == r)),
{
    assert(spec_search_params_d(q) == param_chain4(
        q.any@.len() != 0,
        ("any"@, strip_quotes(enc_string(q.any@))),
        q.quote@.len() != 0,
        ("quote"@, strip_quotes(enc_string(q.quote@))),
        q.references@.len() != 0,
        ("references"@, strip_quotes(enc_string(q.references@))),
        q.text@.len() != 0,
        ("text"@, strip_quotes(enc_string(q.text@))),
    ));
    lemma_param_chain4(
        q.any@.len() != 0,
        ("any"@, strip_quotes(enc_string(q.any@))),
        q.quote@.len() != 0,
        ("quote"@, strip_quotes(enc_string(q.quote@))),
        q.references@.len() != 0,
        ("references"@, strip_quotes(enc_string(q.references@))),
        q.text@.len() != 0,
        ("text"@, strip_quotes(enc_string(q.text@))),
    );
}

#[verifier::rlimit(100)]
proof fn lemma_search_params_fields_a(q: SearchQuery)
    ensures
        params_has_key(spec_search_params(q), "limit"@) <==> (q.limit != 20),
        (q.limit != 20) ==> params_has_pair(spec_search_params(q), ("limit"@, dec_rep(q.limit as int))),
        params_has_key(spec_search_params(q), "sort"@) <==> (q.sort != Sort::Updated),
        (q.sort != Sort::Updated) ==> params_has_pair(spec_search_params(q), ("sort"@, q.sort.spec_name())),
        params_has_key(spec_search_params(q), "search_after"@) <==> (q.search_after@.len() != 0),
        (q.search_after@.len() != 0) ==> params_has_pair(spec_search_params(q), ("search_after"@, strip_quotes(enc_string(q.search_after@)))),
        params_has_key(spec_search_params(q), "offset"@) <==> (q.offset != 0),
        (q.offset != 0) ==> params_has_pair(spec_search_params(q), ("offset"@, dec_rep(q.offset as int))),
{
    reveal_strlit("limit");
    reveal_strlit("sort");
    reveal_strlit("search_after");
    reveal_strlit("offset");
    reveal_strlit("order");
    reveal_strlit("uri");
    reveal_strlit("uri.parts");
    reveal_strlit("wildcard_uri");
    reveal_strlit("user");
    reveal_strlit("group");
    reveal_strlit("tag");
    reveal_strlit("tags");
    reveal_strlit("any");
    reveal_strlit("quote");
    reveal_strlit("references");
    reveal_strlit("text");
    assert("limit"@.len() == 5);
    assert("sort"@.len() == 4);
    assert("search_after"@.len() == 12);
    assert("offset"@.len() == 6);
    assert("order"@.len() == 5);
    assert("uri"@.len() == 3);
    assert("uri.parts"@.len() == 9);
    assert("wildcard_uri"@.len() == 12);
    assert("user"@.len() == 4);
    assert("group"@.len() == 5);
    assert("tag"@.len() == 3);
    assert("tags"@.len() == 4);
    assert("any"@.len() == 3);
    assert("quote"@.len() == 5);
    assert("references"@.len() == 10);
    assert("text"@.len() == 4);
    assert("limit"@[0] == 'l');
    assert("sort"@[0] == 's');
    assert("search_after"@[0] == 's');
    assert("offset"@[0] == 'o');
    assert("order"@[0] == 'o');
    assert("uri"@[0] == 'u');
    assert("uri.parts"@[0] == 'u');
    assert("wildcard_uri"@[0] == 'w');
    assert("user"@[0] == 'u');
    assert("group"@[0] == 'g');
    assert("tag"@[0] == 't');
    assert("tags"@[0] == 't');
    assert("any"@[0] == 'a');
    assert("quote"@[0] == 'q');
    assert("references"@[0] == 'r');
    assert("text"@[0] == 't');
    assert("tags"@[1] == 'a');
    assert("text"@[1] == 'e');
    lemma_search_chunk_a(q);
    lemma_search_chunk_b(q);
    lemma_search_chunk_c(q);
    lemma_search_chunk_d(q);
    lemma_params_concat(spec_search_params_a(q), spec_search_params_b(q));
    lemma_params_concat(spec_search_params_a(q) + spec_search_params_b(q), spec_search_params_c(q));
    lemma_params_concat(
        spec_search_params_a(q) + spec_search_params_b(q) + spec_search_params_c(q),
        spec_search_params_d(q),
    );
}

#[verifier::rlimit(100)]
proof fn lemma_search_params_fields_b(q: SearchQuery)
    ensures
        params_has_key(spec_search_params(q), "order"@) <==> (q.order != Order::Desc),
        (q.order != Order::Desc) ==> params_has_pair(spec_search_params(q), ("order"@, q.order.spec_name())),
        params_has_key(spec_search_params(q), "uri"@) <==> (q.uri@.len() != 0),
        (q.uri@.len() != 0) ==> params_has_pair(spec_search_params(q), ("uri"@, strip_quotes(enc_string(q.uri@)))),
        params_has_key(spec_search_params(q), "uri.parts"@) <==> (q.uri_parts@.len() != 0),
        (q.uri_parts@.len() != 0) ==> params_has_pair(spec_search_params(q), ("uri.parts"@, strip_quotes(enc_string(q.uri_parts@)))),
        params_has_key(spec_search_params(q), "wildcard_uri"@) <==> (q.wildcard_uri@.len() != 0),
        (q.wildcard_uri@.len() != 0) ==> params_has_pair(spec_search_params(q), ("wildcard_uri"@, strip_quotes(enc_string(q.wildcard_uri@)))),
{
    reveal_strlit("limit");
    reveal_strlit("sort");
    reveal_strlit("search_after");
    reveal_strlit("offset");
    reveal_strlit("order");
    reveal_strlit("uri");
    reveal_strlit("uri.parts");
    reveal_strlit("wildcard_uri");
    reveal_strlit("user");
    reveal_strlit("group");
    reveal_strlit("tag");
    reveal_strlit("tags");
    reveal_strlit("any");
    reveal_strlit("quote");
    reveal_strlit("references");
    reveal_strlit("text");
    assert("limit"@.len() == 5);
    assert("sort"@.len() == 4);
    assert("search_after"@.len() == 12);
    assert("offset"@.len() == 6);
    assert("order"@.len() == 5);
    assert("uri"@.len() == 3);
    assert("uri.parts"@.len() == 9);
    assert("wildcard_uri"@.len() == 12);
    assert("user"@.len() == 4);
    assert("group"@.len() == 5);
    assert("tag"@.len() == 3);
    assert("tags"@.len() == 4);
    assert("any"@.len() == 3);
    assert("quote"@.len() == 5);
    assert("references"@.len() == 10);
    assert("text"@.len() == 4);
    assert("limit"@[0] == 'l');
    assert("sort"@[0] == 's');
    assert("search_after"@[0] == 's');
    assert("offset"@[0] == 'o');
    assert("order"@[0] == 'o');
    assert("uri"@[0] == 'u');
    assert("uri.parts"@[0] == 'u');
    assert("wildcard_uri"@[0] == 'w');
    assert("user"@[0] == 'u');
    assert("group"@[0] == 'g');
    assert("tag"@[0] == 't');
    assert("tags"@[0] == 't');
    assert("any"@[0] == 'a');
    assert("quote"@[0] == 'q');
    assert("references"@[0] == 'r');
    assert("text"@[0] == 't');
    assert("tags"@[1] == 'a');
    assert("text"@[1] == 'e');
    lemma_search_chunk_a(q);
    lemma_search_chunk_b(q);
    lemma_search_chunk_c(q);
    lemma_search_chunk_d(q);
    lemma_params_concat(spec_search_params_a(q), spec_search_params_b(q));
    lemma_params_concat(spec_search_params_a(q) + spec_search_params_b(q), spec_search_params_c(q));
    lemma_params_concat(
        spec_search_params_a(q) + spec_search_params_b(q) + spec_search_params_c(q),
        spec_search_params_d(q),
    );
}

#[verifier::rlimit(100)]
proof fn lemma_search_params_fields_c(q: SearchQuery)
    ensures
        params_has_key(spec_search_params(q), "user"@) <==> (q.user@.len() != 0),
        (q.user@.len() != 0) ==> params_has_pair(spec_search_params(q), ("user"@, strip_quotes(enc_string(q.user@)))),
        params_has_key(spec_search_params(q), "group"@) <==> (q.group@.len() != 0),
        (q.group@.len() != 0) ==> params_has_pair(spec_search_params(q), ("group"@, strip_quotes(enc_json(enc_str_list(q.group.deep_view()))))),
        params_has_key(spec_search_params(q), "tag"@) <==> (q.tag@.len() != 0),
        (q.tag@.len() != 0) ==> params_has_pair(spec_search_params(q), ("tag"@, strip_quotes(enc_string(q.tag@)))),
        params_has_key(spec_search_params(q), "tags"@) <==> (q.tags@.len() != 0),
        (q.tags@.len() != 0) ==> params_has_pair(spec_search_params(q), ("tags"@, strip_quotes(enc_json(enc_str_list(q.tags.deep_view()))))),
{
    reveal_strlit("limit");
    reveal_strlit("sort");
    reveal_strlit("search_after");
    reveal_strlit("offset");
    reveal_strlit("order");
    reveal_strlit("uri");
    reveal_strlit("uri.parts");
    reveal_strlit("wildcard_uri");
    reveal_strlit("user");
    reveal_strlit("group");
    reveal_strlit("tag");
    reveal_strlit("tags");
    reveal_strlit("any");
    reveal_strlit("quote");
    reveal_strlit("references");
    reveal_strlit("text");
    assert("limit"@.len() == 5);
    assert("sort"@.len() == 4);
    assert("search_after"@.len() == 12);
    assert("offset"@.len() == 6);
    assert("order"@.len() == 5);
    assert("uri"@.len() == 3);
    assert("uri.parts"@.len() == 9);
    assert("wildcard_uri"@.len() == 12);
    assert("user"@.len() == 4);
    assert("group"@.len() == 5);
    assert("tag"@.len() == 3);
    assert("tags"@.len() == 4);
    assert("any"@.len() == 3);
    assert("quote"@.len() == 5);
    assert("references"@.len() == 10);
    assert("text"@.len() == 4);
    assert("limit"@[0] == 'l');
    assert("sort"@[0] == 's');
    assert("search_after"@[0] == 's');
    assert("offset"@[0] == 'o');
    assert("order"@[0] == 'o');
    assert("uri"@[0] == 'u');
    assert("uri.parts"@[0] == 'u');
    assert("wildcard_uri"@[0] == 'w');
    assert("user"@[0] == 'u');
    assert("group"@[0] == 'g');
    assert("tag"@[0] == 't');
    assert("tags"@[0] == 't');
    assert("any"@[0] == 'a');
    assert("quote"@[0] == 'q');
    assert("references"@[0] == 'r');
    assert("text"@[0] == 't');
    assert("tags"@[1] == 'a');
    assert("text"@[1] == 'e');
    lemma_search_chunk_a(q);
    lemma_search_chunk_b(q);
    lemma_search_chunk_c(q);
    lemma_search_chunk_d(q);
    lemma_params_concat(spec_search_params_a(q), spec_search_params_b(q));
    lemma_params_concat(spec_search_params_a(q) + spec_search_params_b(q), spec_search_params_c(q));
    lemma_params_concat(
        spec_search_params_a(q) + spec_search_params_b(q) + spec_search_params_c(q),
        spec_search_params_d(q),
    );
}

#[verifier::rlimit(100)]
proof fn lemma_search_params_fields_d(q: SearchQuery)
    ensures
        params_has_key(spec_search_params(q), "any"@) <==> (q.any@.len() != 0),
        (q.any@.len() != 0) ==> params_has_pair(spec_search_params(q), ("any"@, strip_quotes(enc_string(q.any@)))),
        params_has_key(spec_search_params(q), "quote"@) <==> (q.quote@.len() != 0),
        (q.quote@.len() != 0) ==> params_has_pair(spec_search_params(q), ("quote"@, strip_quotes(enc_string(q.quote@)))),
        params_has_key(spec_search_params(q), "references"@) <==> (q.references@.len() != 0),
        (q.references@.len() != 0) ==> params_has_pair(spec_search_params(q), ("references"@, strip_quotes(enc_string(q.references@)))),
        params_has_key(spec_search_params(q), "text"@) <==> (q.text@.len() != 0),
        (q.text@.len() != 0) ==> params_has_pair(spec_search_params(q), ("text"@, strip_quotes(enc_string(q.text@)))),
{
    reveal_strlit("limit");
    reveal_strlit("sort");
    reveal_strlit("search_after");
    reveal_strlit("offset");
    reveal_strlit("order");
    reveal_strlit("uri");
    reveal_strlit("uri.parts");
    reveal_strlit("wildcard_uri");
    reveal_strlit("user");
    reveal_strlit("group");
    reveal_strlit("tag");
    reveal_strlit("tags");
    reveal_strlit("any");
    reveal_strlit("quote");
    reveal_strlit("references");
    reveal_strlit("text");
    assert("limit"@.len() == 5);
    assert("sort"@.len() == 4);
    assert("search_after"@.len() == 12);
    assert("offset"@.len() == 6);
    assert("order"@.len() == 5);
    assert("uri"@.len() == 3);
    assert("uri.parts"@.len() == 9);
    assert("wildcard_uri"@.len() == 12);
    assert("user"@.len() == 4);
    assert("group"@.len() == 5);
    assert("tag"@.len() == 3);
    assert("tags"@.len() == 4);
    assert("any"@.len() == 3);
    assert("quote"@.len() == 5);
    assert("references"@.len() == 10);
    assert("text"@.len() == 4);
    assert("limit"@[0] == 'l');
    assert("sort"@[0] == 's');
    assert("search_after"@[0] == 's');
    assert("offset"@[0] == 'o');
    assert("order"@[0] == 'o');
    assert("uri"@[0] == 'u');
    assert("uri.parts"@[0] == 'u');
    assert("wildcard_uri"@[0] == 'w');
    assert("user"@[0] == 'u');
    assert("group"@[0] == 'g');
    assert("tag"@[0] == 't');
    assert("tags"@[0] == 't');
    assert("any"@[0] == 'a');
    assert("quote"@[0] == 'q');
    assert("references"@[0] == 'r');
    assert("text"@[0] == 't');
    assert("tags"@[1] == 'a');
    assert("text"@[1] == 'e');
    lemma_search_chunk_a(q);
    lemma_search_chunk_b(q);
    lemma_search_chunk_c(q);
    lemma_search_chunk_d(q);
    lemma_params_concat(spec_search_params_a(q), spec_search_params_b(q));
    lemma_params_concat(spec_search_params_a(q) + spec_search_params_b(q), spec_search_params_c(q));
    lemma_params_concat(
        spec_search_params_a(q) + spec_search_params_b(q) + spec_search_params_c(q),
        spec_search_params_d(q),
    );
}

/// The omit-if-default law for search queries: a parameter appears under a
/// field's key exactly when the field differs from its declared default, and
/// then it carries the field's stringified, unquoted value.
/// The omit-if-default law for search queries: a parameter appears under a
/// field's key exactly when the field differs from its declared default, and
/// then it carries the field's stringified, unquoted value.
pub proof fn lemma_search_params_omit_default(q: SearchQuery)
    ensures
        params_has_key(spec_search_params(q), "limit"@) <==> (q.limit != 20),
        (q.limit != 20) ==> params_has_pair(spec_search_params(q), ("limit"@, dec_rep(q.limit as int))),
        params_has_key(spec_search_params(q), "sort"@) <==> (q.sort != Sort::Updated),
        (q.sort != Sort::Updated) ==> params_has_pair(spec_search_params(q), ("sort"@, q.sort.spec_name())),
        params_has_key(spec_search_params(q), "search_after"@) <==> (q.search_after@.len() != 0),
        (q.search_after@.len() != 0) ==> params_has_pair(spec_search_params(q), ("search_after"@, strip_quotes(enc_string(q.search_after@)))),
        params_has_key(spec_search_params(q), "offset"@) <==> (q.offset != 0),
        (q.offset != 0) ==> params_has_pair(spec_search_params(q), ("offset"@, dec_rep(q.offset as int))),
        params_has_key(spec_search_params(q), "order"@) <==> (q.order != Order::Desc),
        (q.order != Order::Desc) ==> params_has_pair(spec_search_params(q), ("order"@, q.order.spec_name())),
        params_has_key(spec_search_params(q), "uri"@) <==> (q.uri@.len() != 0),
        (q.uri@.len() != 0) ==> params_has_pair(spec_search_params(q), ("uri"@, strip_quotes(enc_string(q.uri@)))),
        params_has_key(spec_search_params(q), "uri.parts"@) <==> (q.uri_parts@.len() != 0),
        (q.uri_parts@.len() != 0) ==> params_has_pair(spec_search_params(q), ("uri.parts"@, strip_quotes(enc_string(q.uri_parts@)))),
        params_has_key(spec_search_params(q), "wildcard_uri"@) <==> (q.wildcard_uri@.len() != 0),
        (q.wildcard_uri@.len() != 0) ==> params_has_pair(spec_search_params(q), ("wildcard_uri"@, strip_quotes(enc_string(q.wildcard_uri@)))),
        params_has_key(spec_search_params(q), "user"@) <==> (q.user@.len() != 0),
        (q.user@.len() != 0) ==> params_has_pair(spec_search_params(q), ("user"@, strip_quotes(enc_string(q.user@)))),
        params_has_key(spec_search_params(q), "group"@) <==> (q.group@.len() != 0),
        (q.group@.len() != 0) ==> params_has_pair(spec_search_params(q), ("group"@, strip_quotes(enc_json(enc_str_list(q.group.deep_view()))))),
        params_has_key(spec_search_params(q), "tag"@) <==> (q.tag@.len() != 0),
        (q.tag@.len() != 0) ==> params_has_pair(spec_search_params(q), ("tag"@, strip_quotes(enc_string(q.tag@)))),
        params_has_key(spec_search_params(q), "tags"@) <==> (q.tags@.len() != 0),
        (q.tags@.len() != 0) ==> params_has_pair(spec_search_params(q), ("tags"@, strip_quotes(enc_json(enc_str_list(q.tags.deep_view()))))),
        params_has_key(spec_search_params(q), "any"@) <==> (q.any@.len() != 0),
        (q.any@.len() != 0) ==> params_has_pair(spec_search_params(q), ("any"@, strip_quotes(enc_string(q.any@)))),
        params_has_key(spec_search_params(q), "quote"@) <==> (q.quote@.len() != 0),
        (q.quote@.len() != 0) ==> params_has_pair(spec_search_params(q), ("quote"@, strip_quotes(enc_string(q.quote@)))),
        params_has_key(spec_search_params(q), "references"@) <==> (q.references@.len() != 0),
        (q.references@.len() != 0) ==> params_has_pair(spec_search_params(q), ("references"@, strip_quotes(enc_string(q.references@)))),
        params_has_key(spec_search_params(q), "text"@) <==> (q.text@.len() != 0),
        (q.text@.len() != 0) ==> params_has_pair(spec_search_params(q), ("text"@, strip_quotes(enc_string(q.text@)))),
{
    lemma_search_params_fields_a(q);
    lemma_search_params_fields_b(q);
    lemma_search_params_fields_c(q);
    lemma_search_params_fields_d(q);
}

/// Builder for [`InputAnnotation`]: unset fields fall back to defaults.
#[derive(Debug, Clone)]
pub struct InputAnnotationBuilder {
    pub uri: Option<String>,
    pub text: Option<String>,
    pub tags: Option<Vec<String>>,
    pub document: Option<Document>,
    pub group: Option<String>,
    pub target: Option<Target>,
    pub references: Option<Vec<String>>,
}

impl Default for InputAnnotationBuilder {
    /// A builder with no field set.
    fn default() -> (r: Self)
        ensures
            r.uri is None,
            r.text is None,
            r.tags is None,
            r.document is None,
            r.group is None,
            r.target is None,
            r.references is None,
    {
        InputAnnotationBuilder {
            uri: None,
            text: None,
            tags: None,
            document: None,
            group: None,
            target: None,
            references: None,
        }
    }
}

impl InputAnnotation {
    /// Start building a payload.
    pub fn builder() -> (r: InputAnnotationBuilder)
        ensures
            r.uri is None,
            r.text is None,
            r.tags is None,
            r.document is None,
            r.group is None,
            r.target is None,
            r.references is None,
    {
        InputAnnotationBuilder::default()
    }
}

impl InputAnnotationBuilder {
    /// Set the `uri` field.
    pub fn uri(self, uri: &str) -> (r: Self)
        ensures
            r.uri matches Some(v) && v@ == uri@,
            r.text == self.text,
            r.tags == self.tags,
            r.document == self.document,
            r.group == self.group,
            r.target == self.target,
            r.references == self.references,
    {
        InputAnnotationBuilder { uri: Some(String::from_str(uri)), ..self }
    }

    /// Set the `text` field.
    pub fn text(self, text: &str) -> (r: Self)
        ensures
            r.text matches Some(v) && v@ == text@,
            r.uri == self.uri,
            r.tags == self.tags,
            r.document == self.document,
            r.group == self.group,
            r.target == self.target,
            r.references == self.references,
    {
        InputAnnotationBuilder { text: Some(String::from_str(text)), ..self }
    }

    /// Set the `tags` field.
    pub fn tags(self, tags: Vec<String>) -> (r: Self)
        ensures
            r.tags matches Some(v) && v == tags,
            r.uri == self.uri,
            r.text == self.text,
            r.document == self.document,
            r.group == self.group,
            r.target == self.target,
            r.references == self.references,
    {
        InputAnnotationBuilder { tags: Some(tags), ..self }
    }

    /// Set the `document` field.
    pub fn document(self, document: Document) -> (r: Self)
        ensures
            r.document matches Some(v) && v == document,
            r.uri == self.uri,
            r.text == self.text,
            r.tags == self.tags,
            r.group == self.group,
            r.target == self.target,
            r.references == self.references,
    {
        InputAnnotationBuilder { document: Some(document), ..self }
    }

    /// Set the `group` field.
    pub fn group(self, group: &str) -> (r: Self)
        ensures
            r.group matches Some(v) && v@ == group@,
            r.uri == self.uri,
            r.text == self.text,
            r.tags == self.tags,
            r.document == self.document,
            r.target == self.target,
            r.references == self.references,
    {
        InputAnnotationBuilder { group: Some(String::from_str(group)), ..self }
    }

    /// Set the `target` field.
    pub fn target(self, target: Target) -> (r: Self)
        ensures
            r.target matches Some(v) && v == target,
            r.uri == self.uri,
            r.text == self.text,
            r.tags == self.tags,
            r.document == self.document,
            r.group == self.group,
            r.references == self.references,
    {
        InputAnnotationBuilder { target: Some(target), ..self }
    }

    /// Set the `references` field.
    pub fn references(self, references: Vec<String>) -> (r: Self)
        ensures
            r.references matches Some(v) && v == references,
            r.uri == self.uri,
            r.text == self.text,
            r.tags == self.tags,
            r.document == self.document,
            r.group == self.group,
            r.target == self.target,
    {
        InputAnnotationBuilder { references: Some(references), ..self }
    }

    /// Build the payload: every unset field takes its default.
    pub fn build(self) -> (r: Result<InputAnnotation, HypothesisError>)
        ensures
            r matches Ok(a) && a.uri@ == (match self.uri {
                Some(u) => u@,
                None => Seq::<char>::empty(),
            }) && a.text@ == (match self.text {
                Some(t) => t@,
                None => Seq::<char>::empty(),
            }) && a.tags == self.tags && a.document == self.document && a.group@ == (
            match self.group {
                Some(g) => g@,
                None => Seq::<char>::empty(),
            }) && (match self.target {
                Some(t) => a.target == t,
                None => spec_target_is_default(a.target.deep_view()),
            }) && (match self.references {
                Some(rs) => a.references == rs,
                None => a.references@.len() == 0,
            }),
    {
        let uri = match self.uri {
            Some(u) => u,
            None => String::new(),
        };
        let text = match self.text {
            Some(t) => t,
            None => String::new(),
        };
        let group = match self.group {
            Some(g) => g,
            None => String::new(),
        };
        let target = match self.target {
            Some(t) => t,
            None => Target::default(),
        };
        let references = match self.references {
            Some(rs) => rs,
            None => Vec::new(),
        };
        Ok(
            InputAnnotation {
                uri,
                text,
                tags: self.tags,
                document: self.document,
                group,
                target,
                references,
            },
        )
    }
}

/// Builder for [`Document`]: `title` and `link` must be set.
#[derive(Debug, Clone)]
pub struct DocumentBuilder {
    pub title: Option<Vec<String>>,
    pub dc: Option<Dc>,
    pub highwire: Option<HighWire>,
    pub link: Option<Vec<Link>>,
}

impl Default for DocumentBuilder {
    /// A builder with no field set.
    fn default() -> (r: Self)
        ensures
            r.title is None,
            r.dc is None,
            r.highwire is None,
            r.link is None,
    {
        DocumentBuilder { title: None, dc: None, highwire: None, link: None }
    }
}

impl Document {
    /// Start building document metadata.
    pub fn builder() -> (r: DocumentBuilder)
        ensures
            r.title is None,
            r.dc is None,
            r.highwire is None,
            r.link is None,
    {
        DocumentBuilder::default()
    }
}

impl DocumentBuilder {
    /// Set the `title` field.
    pub fn title(self, title: Vec<String>) -> (r: Self)
        ensures
            r.title matches Some(v) && v == title,
            r.dc == self.dc,
            r.highwire == self.highwire,
            r.link == self.link,
    {
        DocumentBuilder { title: Some(title), ..self }
    }

    /// Set the `dc` field.
    pub fn dc(self, dc: Dc) -> (r: Self)
        ensures
            r.dc matches Some(v) && v == dc,
            r.title == self.title,
            r.highwire == self.highwire,
            r.link == self.link,
    {
        DocumentBuilder { dc: Some(dc), ..self }
    }

    /// Set the `highwire` field.
    pub fn highwire(self, highwire: HighWire) -> (r: Self)
        ensures
            r.highwire matches Some(v) && v == highwire,
            r.title == self.title,
            r.dc == self.dc,
            r.link == self.link,
    {
        DocumentBuilder { highwire: Some(highwire), ..self }
    }

    /// Set the `link` field.
    pub fn link(self, link: Vec<Link>) -> (r: Self)
        ensures
            r.link matches Some(v) && v == link,
            r.title == self.title,
            r.dc == self.dc,
            r.highwire == self.highwire,
    {
        DocumentBuilder { link: Some(link), ..self }
    }

    /// Build the document: fails naming the first required field left unset.
    pub fn build(self) -> (r: Result<Document, HypothesisError>)
        ensures
            match r {
                Ok(d) => (self.title matches Some(t) && d.title == t) && (self.link
                    matches Some(l) && d.link == l) && d.dc == self.dc && d.highwire
                    == self.highwire,
                Err(e) => (self.title is None || self.link is None) && (e
                    matches HypothesisError::BuilderError(m) && m@ == (if self.title is None {
                    "`title` must be initialized"@
                } else {
                    "`link` must be initialized"@
                })),
            },
    {
        let title = match self.title {
            Some(t) => t,
            None => {
                return Err(
                    HypothesisError::BuilderError(String::from_str("`title` must be initialized")),
                );
            },
        };
        let link = match self.link {
            Some(l) => l,
            None => {
                return Err(
                    HypothesisError::BuilderError(String::from_str("`link` must be initialized")),
                );
            },
        };
        Ok(Document { title, dc: self.dc, highwire: self.highwire, link })
    }
}

/// Builder for [`Target`]: `source` and `selector` must be set.
#[derive(Debug, Clone)]
pub struct TargetBuilder {
    pub source: Option<String>,
    pub selector: Option<Vec<Selector>>,
}

impl Default for TargetBuilder {
    /// A builder with no field set.
    fn default() -> (r: Self)
        ensures
            r.source is None,
            r.selector is None,
    {
        TargetBuilder { source: None, selector: None }
    }
}

impl Target {
    /// Start building a target.
    pub fn builder() -> (r: TargetBuilder)
        ensures
            r.source is None,
            r.selector is None,
    {
        TargetBuilder::default()
    }
}

impl TargetBuilder {
    /// Set the `source` field.
    pub fn source(self, source: &str) -> (r: Self)
        ensures
            r.source matches Some(v) && v@ == source@,
            r.selector == self.selector,
    {
        TargetBuilder { source: Some(String::from_str(source)), ..self }
    }

    /// Set the `selector` field.
    pub fn selector(self, selector: Vec<Selector>) -> (r: Self)
        ensures
            r.selector matches Some(v) && v == selector,
            r.source == self.source,
    {
        TargetBuilder { selector: Some(selector), ..self }
    }

    /// Build the target: fails naming the first required field left unset.
    pub fn build(self) -> (r: Result<Target, HypothesisError>)
        ensures
            match r {
                Ok(t) => (self.source matches Some(s) && t.source == s) && (self.selector
                    matches Some(sel) && t.selector == sel),
                Err(e) => (self.source is None || self.selector is None) && (e
                    matches HypothesisError::BuilderError(m) && m@ == (if self.source is None {
                    "`source` must be initialized"@
                } else {
                    "`selector` must be initialized"@
                })),
            },
    {
        let source = match self.source {
            Some(s) => s,
            None => {
                return Err(
                    HypothesisError::BuilderError(String::from_str("`source` must be initialized")),
                );
            },
        };
        let selector = match self.selector {
            Some(s) => s,
            None => {
                return Err(
                    HypothesisError::BuilderError(
                        String::from_str("`selector` must be initialized"),
                    ),
                );
            },
        };
        Ok(Target { source, selector })
    }
}

/// Builder for [`SearchQuery`]: unset fields fall back to the documented
/// defaults.
#[derive(Debug, Clone)]
pub struct SearchQueryBuilder {
    pub limit: Option<u8>,
    pub sort: Option<Sort>,
    pub search_after: Option<String>,
    pub offset: Option<usize>,
    pub order: Option<Order>,
    pub uri: Option<String>,
    pub uri_parts: Option<String>,
    pub wildcard_uri: Option<String>,
    pub user: Option<String>,
    pub group: Option<Vec<String>>,
    pub tag: Option<String>,
    pub tags: Option<Vec<String>>,
    pub any: Option<String>,
    pub quote: Option<String>,
    pub references: Option<String>,
    pub text: Option<String>,
}

impl Default for SearchQueryBuilder {
    /// A builder with no field set.
    fn default() -> (r: Self)
        ensures
            r.limit is None,
            r.sort is None,
            r.search_after is None,
            r.offset is None,
            r.order is None,
            r.uri is None,
            r.uri_parts is None,
            r.wildcard_uri is None,
            r.user is None,
            r.group is None,
            r.tag is None,
            r.tags is None,
            r.any is None,
            r.quote is None,
            r.references is None,
            r.text is None,
    {
        SearchQueryBuilder {
            limit: None,
            sort: None,
            search_after: None,
            offset: None,
            order: None,
            uri: None,
            uri_parts: None,
            wildcard_uri: None,
            user: None,
            group: None,
            tag: None,
            tags: None,
            any: None,
            quote: None,
            references: None,
            text: None,
        }
    }
}

impl SearchQuery {
    /// Start building a search query.
    pub fn builder() -> (r: SearchQueryBuilder)
        ensures
            r.limit is None,
            r.sort is None,
            r.search_after is None,
            r.offset is None,
            r.order is None,
            r.uri is None,
            r.uri_parts is None,
            r.wildcard_uri is None,
            r.user is None,
            r.group is None,
            r.tag is None,
            r.tags is None,
            r.any is None,
            r.quote is None,
            r.references is None,
            r.text is None,
    {
        SearchQueryBuilder::default()
    }
}

impl SearchQueryBuilder {
    /// Set the `limit` field.
    pub fn limit(self, limit: u8) -> (r: Self)
        ensures
            r.limit == Some(limit),
            r.sort == self.sort,
            r.search_after == self.search_after,
            r.offset == self.offset,
            r.order == self.order,
            r.uri == self.uri,
            r.uri_parts == self.uri_parts,
            r.wildcard_uri == self.wildcard_uri,
            r.user == self.user,
            r.group == self.group,
            r.tag == self.tag,
            r.tags == self.tags,
            r.any == self.any,
            r.quote == self.quote,
            r.references == self.references,
            r.text == self.text,
    {
        SearchQueryBuilder { limit: Some(limit), ..self }
    }

    /// Set the `sort` field.
    pub fn sort(self, sort: Sort) -> (r: Self)
        ensures
            r.sort == Some(sort),
            r.limit == self.limit,
            r.search_after == self.search_after,
            r.offset == self.offset,
            r.order == self.order,
            r.uri == self.uri,
            r.uri_parts == self.uri_parts,
            r.wildcard_uri == self.wildcard_uri,
            r.user == self.user,
            r.group == self.group,
            r.tag == self.tag,
            r.tags == self.tags,
            r.any == self.any,
            r.quote == self.quote,
            r.references == self.references,
            r.text == self.text,
    {
        SearchQueryBuilder { sort: Some(sort), ..self }
    }

    /// Set the `search_after` field.
    pub fn search_after(self, search_after: &str) -> (r: Self)
        ensures
            r.search_after matches Some(v) && v@ == search_after@,
            r.limit == self.limit,
            r.sort == self.sort,
            r.offset == self.offset,
            r.order == self.order,
            r.uri == self.uri,
            r.uri_parts == self.uri_parts,
            r.wildcard_uri == self.wildcard_uri,
            r.user == self.user,
            r.group == self.group,
            r.tag == self.tag,
            r.tags == self.tags,
            r.any == self.any,
            r.quote == self.quote,
            r.references == self.references,
            r.text == self.text,
    {
        SearchQueryBuilder { search_after: Some(String::from_str(search_after)), ..self }
    }

    /// Set the `offset` field.
    pub fn offset(self, offset: usize) -> (r: Self)
        ensures
            r.offset == Some(offset),
            r.limit == self.limit,
            r.sort == self.sort,
            r.search_after == self.search_after,
            r.order == self.order,
            r.uri == self.uri,
            r.uri_parts == self.uri_parts,
            r.wildcard_uri == self.wildcard_uri,
            r.user == self.user,
            r.group == self.group,
            r.tag == self.tag,
            r.tags == self.tags,
            r.any == self.any,
            r.quote == self.quote,
            r.references == self.references,
            r.text == self.text,
    {
        SearchQueryBuilder { offset: Some(offset), ..self }
    }

    /// Set the `order` field.
    pub fn order(self, order: Order) -> (r: Self)
        ensures
            r.order == Some(order),
            r.limit == self.limit,
            r.sort == self.sort,
            r.search_after == self.search_after,
            r.offset == self.offset,
            r.uri == self.uri,
            r.uri_parts == self.uri_parts,
            r.wildcard_uri == self.wildcard_uri,
            r.user == self.user,
            r.group == self.group,
            r.tag == self.tag,
            r.tags == self.tags,
            r.any == self.any,
            r.quote == self.quote,
            r.references == self.references,
            r.text == self.text,
    {
        SearchQueryBuilder { order: Some(order), ..self }
    }

    /// Set the `uri` field.
    pub fn uri(self, uri: &str) -> (r: Self)
        ensures
            r.uri matches Some(v) && v@ == uri@,
            r.limit == self.limit,
            r.sort == self.sort,
            r.search_after == self.search_after,
            r.offset == self.offset,
            r.order == self.order,
            r.uri_parts == self.uri_parts,
            r.wildcard_uri == self.wildcard_uri,
            r.user == self.user,
            r.group == self.group,
            r.tag == self.tag,
            r.tags == self.tags,
            r.any == self.any,
            r.quote == self.quote,
            r.references == self.references,
            r.text == self.text,
    {
        SearchQueryBuilder { uri: Some(String::from_str(uri)), ..self }
    }

    /// Set the `uri_parts` field.
    pub fn uri_parts(self, uri_parts: &str) -> (r: Self)
        ensures
            r.uri_parts matches Some(v) && v@ == uri_parts@,
            r.limit == self.limit,
            r.sort == self.sort,
            r.search_after == self.search_after,
            r.offset == self.offset,
            r.order == self.order,
            r.uri == self.uri,
            r.wildcard_uri == self.wildcard_uri,
            r.user == self.user,
            r.group == self.group,
            r.tag == self.tag,
            r.tags == self.tags,
            r.any == self.any,
            r.quote == self.quote,
            r.references == self.references,
            r.text == self.text,
    {
        SearchQueryBuilder { uri_parts: Some(String::from_str(uri_parts)), ..self }
    }

    /// Set the `wildcard_uri` field.
    pub fn wildcard_uri(self, wildcard_uri: &str) -> (r: Self)
        ensures
            r.wildcard_uri matches Some(v) && v@ == wildcard_uri@,
            r.limit == self.limit,
            r.sort == self.sort,
            r.search_after == self.search_after,
            r.offset == self.offset,
            r.order == self.order,
            r.uri == self.uri,
            r.uri_parts == self.uri_parts,
            r.user == self.user,
            r.group == self.group,
            r.tag == self.tag,
            r.tags == self.tags,
            r.any == self.any,
            r.quote == self.quote,
            r.references == self.references,
            r.text == self.text,
    {
        SearchQueryBuilder { wildcard_uri: Some(String::from_str(wildcard_uri)), ..self }
    }

    /// Set the `user` field.
    pub fn user(self, user: &str) -> (r: Self)
        ensures
            r.user matches Some(v) && v@ == user@,
            r.limit == self.limit,
            r.sort == self.sort,
            r.search_after == self.search_after,
            r.offset == self.offset,
            r.order == self.order,
            r.uri == self.uri,
            r.uri_parts == self.uri_parts,
            r.wildcard_uri == self.wildcard_uri,
            r.group == self.group,
            r.tag == self.tag,
            r.tags == self.tags,
            r.any == self.any,
            r.quote == self.quote,
            r.references == self.references,
            r.text == self.text,
    {
        SearchQueryBuilder { user: Some(String::from_str(user)), ..self }
    }

    /// Set the `tag` field.
    pub fn tag(self, tag: &str) -> (r: Self)
        ensures
            r.tag matches Some(v) && v@ == tag@,
            r.limit == self.limit,
            r.sort == self.sort,
            r.search_after == self.search_after,
            r.offset == self.offset,
            r.order == self.order,
            r.uri == self.uri,
            r.uri_parts == self.uri_parts,
            r.wildcard_uri == self.wildcard_uri,
            r.user == self.user,
            r.group == self.group,
            r.tags == self.tags,
            r.any == self.any,
            r.quote == self.quote,
            r.references == self.references,
            r.text == self.text,
    {
        SearchQueryBuilder { tag: Some(String::from_str(tag)), ..self }
    }

    /// Set the `any` field.
    pub fn any(self, any: &str) -> (r: Self)
        ensures
            r.any matches Some(v) && v@ == any@,
            r.limit == self.limit,
            r.sort == self.sort,
            r.search_after == self.search_after,
            r.offset == self.offset,
            r.order == self.order,
            r.uri == self.uri,
            r.uri_parts == self.uri_parts,
            r.wildcard_uri == self.wildcard_uri,
            r.user == self.user,
            r.group == self.group,
            r.tag == self.tag,
            r.tags == self.tags,
            r.quote == self.quote,
            r.references == self.references,
            r.text == self.text,
    {
        SearchQueryBuilder { any: Some(String::from_str(any)), ..self }
    }

    /// Set the `quote` field.
    pub fn quote(self, quote: &str) -> (r: Self)
        ensures
            r.quote matches Some(v) && v@ == quote@,
            r.limit == self.limit,
            r.sort == self.sort,
            r.search_after == self.search_after,
            r.offset == self.offset,
            r.order == self.order,
            r.uri == self.uri,
            r.uri_parts == self.uri_parts,
            r.wildcard_uri == self.wildcard_uri,
            r.user == self.user,
            r.group == self.group,
            r.tag == self.tag,
            r.tags == self.tags,
            r.any == self.any,
            r.references == self.references,
            r.text == self.text,
    {
        SearchQueryBuilder { quote: Some(String::from_str(quote)), ..self }
    }

    /// Set the `references` field.
    pub fn references(self, references: &str) -> (r: Self)
        ensures
            r.references matches Some(v) && v@ == references@,
            r.limit == self.limit,
            r.sort == self.sort,
            r.search_after == self.search_after,
            r.offset == self.offset,
            r.order == self.order,
            r.uri == self.uri,
            r.uri_parts == self.uri_parts,
            r.wildcard_uri == self.wildcard_uri,
            r.user == self.user,
            r.group == self.group,
            r.tag == self.tag,
            r.tags == self.tags,
            r.any == self.any,
            r.quote == self.quote,
            r.text == self.text,
    {
        SearchQueryBuilder { references: Some(String::from_str(references)), ..self }
    }

    /// Set the `text` field.
    pub fn text(self, text: &str) -> (r: Self)
        ensures
            r.text matches Some(v) && v@ == text@,
            r.limit == self.limit,
            r.sort == self.sort,
            r.search_after == self.search_after,
            r.offset == self.offset,
            r.order == self.order,
            r.uri == self.uri,
            r.uri_parts == self.uri_parts,
            r.wildcard_uri == self.wildcard_uri,
            r.user == self.user,
            r.group == self.group,
            r.tag == self.tag,
            r.tags == self.tags,
            r.any == self.any,
            r.quote == self.quote,
            r.references == self.references,
    {
        SearchQueryBuilder { text: Some(String::from_str(text)), ..self }
    }

    /// Set the `group` field.
    pub fn group(self, group: Vec<String>) -> (r: Self)
        ensures
            r.group matches Some(v) && v == group,
            r.limit == self.limit,
            r.sort == self.sort,
            r.search_after == self.search_after,
            r.offset == self.offset,
            r.order == self.order,
            r.uri == self.uri,
            r.uri_parts == self.uri_parts,
            r.wildcard_uri == self.wildcard_uri,
            r.user == self.user,
            r.tag == self.tag,
            r.tags == self.tags,
            r.any == self.any,
            r.quote == self.quote,
            r.references == self.references,
            r.text == self.text,
    {
        SearchQueryBuilder { group: Some(group), ..self }
    }

    /// Set the `tags` field.
    pub fn tags(self, tags: Vec<String>) -> (r: Self)
        ensures
            r.tags matches Some(v) && v == tags,
            r.limit == self.limit,
            r.sort == self.sort,
            r.search_after == self.search_after,
            r.offset == self.offset,
            r.order == self.order,
            r.uri == self.uri,
            r.uri_parts == self.uri_parts,
            r.wildcard_uri == self.wildcard_uri,
            r.user == self.user,
            r.group == self.group,
            r.tag == self.tag,
            r.any == self.any,
            r.quote == self.quote,
            r.references == self.references,
            r.text == self.text,
    {
        SearchQueryBuilder { tags: Some(tags), ..self }
    }

    /// Build the query: every unset field takes its documented default.
    pub fn build(self) -> (r: Result<SearchQuery, HypothesisError>)
        ensures
            r matches Ok(q) && q.limit == (match self.limit { Some(l) => l, None => 20 }) && q.sort == (match self.sort { Some(s) => s, None => Sort::Updated }) && q.search_after@ == (match self.search_after { Some(s) => s@, None => Seq::<char>::empty() }) && q.offset == (match self.offset { Some(o) => o, None => 0 }) && q.order == (match self.order { Some(o) => o, None => Order::Desc }) && q.uri@ == (match self.uri { Some(s) => s@, None => Seq::<char>::empty() }) && q.uri_parts@ == (match self.uri_parts { Some(s) => s@, None => Seq::<char>::empty() }) && q.wildcard_uri@ == (match self.wildcard_uri { Some(s) => s@, None => Seq::<char>::empty() }) && q.user@ == (match self.user { Some(s) => s@, None => Seq::<char>::empty() }) && q.tag@ == (match self.tag { Some(s) => s@, None => Seq::<char>::empty() }) && q.any@ == (match self.any { Some(s) => s@, None => Seq::<char>::empty() }) && q.quote@ == (match self.quote { Some(s) => s@, None => Seq::<char>::empty() }) && q.references@ == (match self.references { Some(s) => s@, None => Seq::<char>::empty() }) && q.text@ == (match self.text { Some(s) => s@, None => Seq::<char>::empty() }) && (match self.group { Some(g) => q.group == g, None => q.group@.len() == 0 }) && (match self.tags { Some(t) => q.tags == t, None => q.tags@.len() == 0 }),
    {
        let limit = match self.limit {
            Some(v) => v,
            None => 20,
        };
        let offset = match self.offset {
            Some(v) => v,
            None => 0,
        };
        let sort = match self.sort {
            Some(v) => v,
            None => Sort::Updated,
        };
        let order = match self.order {
            Some(v) => v,
            None => Order::Desc,
        };
        let search_after = match self.search_after {
            Some(v) => v,
            None => String::new(),
        };
        let uri = match self.uri {
            Some(v) => v,
            None => String::new(),
        };
        let uri_parts = match self.uri_parts {
            Some(v) => v,
            None => String::new(),
        };
        let wildcard_uri = match self.wildcard_uri {
            Some(v) => v,
            None => String::new(),
        };
        let user = match self.user {
            Some(v) => v,
            None => String::new(),
        };
        let tag = match self.tag {
            Some(v) => v,
            None => String::new(),
        };
        let any = match self.any {
            Some(v) => v,
            None => String::new(),
        };
        let quote = match self.quote {
            Some(v) => v,
            None => String::new(),
        };
        let references = match self.references {
            Some(v) => v,
            None => String::new(),
        };
        let text = match self.text {
            Some(v) => v,
            None => String::new(),
        };
        let group = match self.group {
            Some(v) => v,
            None => Vec::new(),
        };
        let tags = match self.tags {
            Some(v) => v,
            None => Vec::new(),
        };
        Ok(SearchQuery { limit, sort, search_after, offset, order, uri, uri_parts, wildcard_uri, user, group, tag, tags, any, quote, references, text })
    }
}

impl core::str::FromStr for Sort {
    type Err = CLIError;

    fn from_str(s: &str) -> Result<Self, CLIError> {
        Sort::parse(s)
    }
}

impl core::str::FromStr for Order {
    type Err = CLIError;

    fn from_str(s: &str) -> Result<Self, CLIError> {
        Order::parse(s)
    }
}

} // verus!
