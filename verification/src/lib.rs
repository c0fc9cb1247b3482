//! A typed client binding for the Hypothesis annotation-management web API.
//!
//! The crate models the wire format (JSON), the domain objects (annotations,
//! groups, profiles), the query serialization rules, and the request/response
//! logic of every endpoint.  Network transport is left to the caller: each
//! endpoint is exposed as a request builder plus a response interpreter, both
//! verified against an exact specification of the wire format.

use vstd::prelude::*;

pub mod annotations;
pub mod bulk;
pub mod errors;
pub mod groups;
pub mod json;
pub mod profile;
pub mod response;

use crate::annotations::{spec_input_annotation_json, Annotation, InputAnnotation, SearchQuery};
use crate::errors::HypothesisError;
use crate::groups::{Expand, GroupFilters};
use crate::json::{enc_json, enc_string, jv_entries, jv_list, push_entry, to_text, JVal, JsonValue};

verus! {

/// Stores a user account ID in the form "acct:{username}@hypothes.is".
#[derive(Debug, Clone, PartialEq)]
pub struct UserAccountID(pub String);

impl UserAccountID {
    /// Format a bare username as the service's canonical account identifier.
    pub fn from_username(username: &str) -> (r: UserAccountID)
        ensures
            r.0@ == "acct:"@ + username@ + "@hypothes.is"@,
    {
        let mut s = String::from_str("acct:");
        s.append(username);
        s.append("@hypothes.is");
        UserAccountID(s)
    }
}

impl core::str::FromStr for UserAccountID {
    type Err = core::convert::Infallible;

    fn from_str(s: &str) -> Result<Self, Self::Err> {
        Ok(UserAccountID::from_username(s))
    }
}

/// Hypothesis API URL.
pub const API_URL: &'static str = "https://api.hypothes.is/api";

/// An HTTP method.
#[derive(Debug, Clone, Copy, PartialEq, Eq, Structural)]
pub enum Method {
    Get,
    Post,
    Patch,
    Put,
    Delete,
}

/// One HTTP call, fully determined: the transport performs it verbatim.
/// The body, when present, is complete JSON text.
#[derive(Debug, Clone)]
pub struct ApiRequest {
    pub method: Method,
    /// The full URL, without the query string.
    pub url: String,
    /// Query parameters, in order.
    pub query: Vec<(String, String)>,
    /// The JSON body text, for requests that carry one.
    pub body: Option<String>,
}

/// Whether a character may appear in an HTTP header value: horizontal tab,
/// or any character other than the other controls and delete.
pub open spec fn header_char_ok(c: char) -> bool {
    c == '\t' || ((c as u32) >= 32 && (c as u32) != 127)
}

/// Whether a whole header value is acceptable.
pub open spec fn header_value_ok(s: Seq<char>) -> bool {
    forall|i: int| 0 <= i < s.len() ==> header_char_ok(s[i])
}

/// The authorization header value for a developer key.
pub open spec fn spec_auth_header(key: Seq<char>) -> Seq<char> {
    "Bearer "@ + key
}

/// The Hypothesis client state: the authenticated identity and the headers
/// every request carries.  The transport is the caller's: each endpoint is
/// a request builder here plus a response interpreter in `response`.
#[derive(Debug, Clone)]
pub struct Hypothesis {
    /// Authenticated user.
    pub username: String,
    /// "acct:{username}@hypothes.is".
    pub user: UserAccountID,
    /// The Authorization header value, "Bearer {key}".
    pub auth_header: String,
}

impl Hypothesis {
    /// A new client from a username and developer key.  Fails with a header
    /// error exactly when the key would produce an invalid header value.
    pub fn new(username: &str, developer_key: &str) -> (r: Result<Self, HypothesisError>)
        ensures
            match r {
                Ok(c) => header_value_ok(spec_auth_header(developer_key@)) && c.username@
                    == username@ && c.user.0@ == "acct:"@ + username@ + "@hypothes.is"@
                    && c.auth_header@ == spec_auth_header(developer_key@),
                Err(e) => !header_value_ok(spec_auth_header(developer_key@)) && e
                    matches HypothesisError::HeaderError(_),
            },
    {
        let mut header = String::from_str("Bearer ");
        header.append(developer_key);
        let h = header.as_str();
        let n = h.unicode_len();
        let mut i: usize = 0;
        while i < n
            invariant
                n == h@.len(),
                h@ == header@,
                header@ == spec_auth_header(developer_key@),
                i <= n,
                forall|k: int| 0 <= k < i ==> header_char_ok(h@[k]),
            decreases n - i,
        {
            let c = h.get_char(i);
            let u = c as u32;
            if !(c == '\t' || (u >= 32 && u != 127)) {
                return Err(
                    HypothesisError::HeaderError(
                        String::from_str("the developer key holds characters that cannot appear in a header value"),
                    ),
                );
            }
            i = i + 1;
        }
        let user = UserAccountID::from_username(username);
        Ok(Hypothesis { username: String::from_str(username), user, auth_header: header })
    }

    /// The Accept header value pinning the API version.
    pub fn accept_header(&self) -> (r: &'static str)
        ensures
            r@ == "application/vnd.hypothesis.v1+json"@,
    {
        "application/vnd.hypothesis.v1+json"
    }

    /// POST /annotations with the payload as the body.
    pub fn create_annotation_request(&self, annotation: &InputAnnotation) -> (r: ApiRequest)
        ensures
            r.method == Method::Post,
            r.url@ == API_URL@ + "/annotations"@,
            r.query@.len() == 0,
            r.body matches Some(b) && b@ == enc_json(spec_input_annotation_json(*annotation)),
    {
        let mut url = String::from_str(API_URL);
        url.append("/annotations");
        let body = to_text(&annotation.to_json());
        ApiRequest { method: Method::Post, url, query: Vec::new(), body: Some(body) }
    }

    /// PATCH /annotations/{id} with the full annotation as the body.
    pub fn update_annotation_request(&self, annotation: &Annotation) -> (r: ApiRequest)
        ensures
            r.method == Method::Patch,
            r.url@ == API_URL@ + "/annotations/"@ + annotation.id@,
            r.query@.len() == 0,
            r.body matches Some(b) && b@ == enc_json(
                crate::annotations::spec_annotation_json(annotation.deep_view()),
            ),
    {
        let mut url = String::from_str(API_URL);
        url.append("/annotations/");
        url.append(annotation.id.as_str());
        let body = to_text(&annotation.to_json());
        ApiRequest { method: Method::Patch, url, query: Vec::new(), body: Some(body) }
    }

    /// GET /search with one query parameter per non-default field.
    pub fn search_annotations_request(&self, query: &SearchQuery) -> (r: ApiRequest)
        ensures
            r.method == Method::Get,
            r.url@ == API_URL@ + "/search"@,
            r.query.deep_view() == crate::annotations::spec_search_params(*query),
            r.body is None,
    {
        let mut url = String::from_str(API_URL);
        url.append("/search");
        ApiRequest { method: Method::Get, url, query: query.query_params(), body: None }
    }

    /// GET /annotations/{id}.
    pub fn fetch_annotation_request(&self, id: &str) -> (r: ApiRequest)
        ensures
            r.method == Method::Get,
            r.url@ == API_URL@ + "/annotations/"@ + id@,
            r.query@.len() == 0,
            r.body is None,
    {
        let mut url = String::from_str(API_URL);
        url.append("/annotations/");
        url.append(id);
        ApiRequest { method: Method::Get, url, query: Vec::new(), body: None }
    }

    /// DELETE /annotations/{id}.
    pub fn delete_annotation_request(&self, id: &str) -> (r: ApiRequest)
        ensures
            r.method == Method::Delete,
            r.url@ == API_URL@ + "/annotations/"@ + id@,
            r.query@.len() == 0,
            r.body is None,
    {
        let mut url = String::from_str(API_URL);
        url.append("/annotations/");
        url.append(id);
        ApiRequest { method: Method::Delete, url, query: Vec::new(), body: None }
    }

    /// PUT /annotations/{id}/flag.
    pub fn flag_annotation_request(&self, id: &str) -> (r: ApiRequest)
        ensures
            r.method == Method::Put,
            r.url@ == API_URL@ + "/annotations/"@ + id@ + "/flag"@,
            r.query@.len() == 0,
            r.body is None,
    {
        let mut url = String::from_str(API_URL);
        url.append("/annotations/");
        url.append(id);
        url.append("/flag");
        ApiRequest { method: Method::Put, url, query: Vec::new(), body: None }
    }

    /// PUT /annotations/{id}/hide.
    pub fn hide_annotation_request(&self, id: &str) -> (r: ApiRequest)
        ensures
            r.method == Method::Put,
            r.url@ == API_URL@ + "/annotations/"@ + id@ + "/hide"@,
            r.query@.len() == 0,
            r.body is None,
    {
        let mut url = String::from_str(API_URL);
        url.append("/annotations/");
        url.append(id);
        url.append("/hide");
        ApiRequest { method: Method::Put, url, query: Vec::new(), body: None }
    }

    /// DELETE /annotations/{id}/hide.
    pub fn show_annotation_request(&self, id: &str) -> (r: ApiRequest)
        ensures
            r.method == Method::Delete,
            r.url@ == API_URL@ + "/annotations/"@ + id@ + "/hide"@,
            r.query@.len() == 0,
            r.body is None,
    {
        let mut url = String::from_str(API_URL);
        url.append("/annotations/");
        url.append(id);
        url.append("/hide");
        ApiRequest { method: Method::Delete, url, query: Vec::new(), body: None }
    }

    /// GET /groups with one query parameter per non-default filter field.
    pub fn get_groups_request(&self, query: &GroupFilters) -> (r: ApiRequest)
        ensures
            r.method == Method::Get,
            r.url@ == API_URL@ + "/groups"@,
            r.query.deep_view() == crate::groups::spec_group_params(*query),
            r.body is None,
    {
        let mut url = String::from_str(API_URL);
        url.append("/groups");
        ApiRequest { method: Method::Get, url, query: query.query_params(), body: None }
    }

    /// POST /groups with the name and optional description as the body.
    pub fn create_group_request(&self, name: &str, description: Option<&str>) -> (r: ApiRequest)
        ensures
            r.method == Method::Post,
            r.url@ == API_URL@ + "/groups"@,
            r.query@.len() == 0,
            r.body matches Some(b) && b@ == enc_json(spec_group_body(name@, match description {
                Some(d) => Some(d@),
                None => None,
            })),
    {
        let mut url = String::from_str(API_URL);
        url.append("/groups");
        let mut entries: Vec<(String, JsonValue)> = Vec::new();
        proof {
            assert(jv_entries(entries@) =~= Seq::<(Seq<char>, JVal)>::empty());
        }
        push_entry(&mut entries, "name", JsonValue::Str(String::from_str(name)));
        match description {
            Some(d) => push_entry(&mut entries, "description", JsonValue::Str(String::from_str(d))),
            None => (),
        }
        let body = to_text(&JsonValue::Obj(entries));
        ApiRequest { method: Method::Post, url, query: Vec::new(), body: Some(body) }
    }

    /// GET /groups/{id}, with the expansions as a body document.
    pub fn fetch_group_request(&self, id: &str, expand: Vec<Expand>) -> (r: ApiRequest)
        ensures
            r.method == Method::Get,
            r.url@ == API_URL@ + "/groups/"@ + id@,
            r.query@.len() == 0,
            r.body matches Some(b) && b@ == enc_json(spec_expand_body(expand@)),
    {
        let mut url = String::from_str(API_URL);
        url.append("/groups/");
        url.append(id);
        let mut entries: Vec<(String, JsonValue)> = Vec::new();
        proof {
            assert(jv_entries(entries@) =~= Seq::<(Seq<char>, JVal)>::empty());
        }
        if expand.len() != 0 {
            let mut items: Vec<JsonValue> = Vec::new();
            let mut i: usize = 0;
            while i < expand.len()
                invariant
                    i <= expand.len(),
                    jv_list(items@) =~= expand@.take(i as int).map_values(
                        |e: Expand| JVal::Str(enc_string(e.spec_name())),
                    ),
                decreases expand.len() - i,
            {
                let serialized = to_text(&JsonValue::Str(String::from_str(expand[i].name())));
                let e = JsonValue::Str(serialized);
                proof {
                    crate::json::lemma_jv_list_push(items@, e);
                }
                items.push(e);
                proof {
                    assert(jv_list(items@) =~= expand@.take(i + 1).map_values(
                        |e: Expand| JVal::Str(enc_string(e.spec_name())),
                    ));
                }
                i = i + 1;
            }
            proof {
                assert(expand@.take(expand@.len() as int) =~= expand@);
            }
            push_entry(&mut entries, "expand", JsonValue::Arr(items));
        }
        let body = to_text(&JsonValue::Obj(entries));
        ApiRequest { method: Method::Get, url, query: Vec::new(), body: Some(body) }
    }

    /// PATCH /groups/{id} with the optional new name and description.
    pub fn update_group_request(
        &self,
        id: &str,
        name: Option<&str>,
        description: Option<&str>,
    ) -> (r: ApiRequest)
        ensures
            r.method == Method::Patch,
            r.url@ == API_URL@ + "/groups/"@ + id@,
            r.query@.len() == 0,
            r.body matches Some(b) && b@ == enc_json(spec_group_update_body(match name {
                Some(n) => Some(n@),
                None => None,
            }, match description {
                Some(d) => Some(d@),
                None => None,
            })),
    {
        let mut url = String::from_str(API_URL);
        url.append("/groups/");
        url.append(id);
        let mut entries: Vec<(String, JsonValue)> = Vec::new();
        proof {
            assert(jv_entries(entries@) =~= Seq::<(Seq<char>, JVal)>::empty());
        }
        match name {
            Some(n) => push_entry(&mut entries, "name", JsonValue::Str(String::from_str(n))),
            None => (),
        }
        match description {
            Some(d) => push_entry(&mut entries, "description", JsonValue::Str(String::from_str(d))),
            None => (),
        }
        let body = to_text(&JsonValue::Obj(entries));
        ApiRequest { method: Method::Patch, url, query: Vec::new(), body: Some(body) }
    }

    /// GET /groups/{id}/members.
    pub fn get_group_members_request(&self, id: &str) -> (r: ApiRequest)
        ensures
            r.method == Method::Get,
            r.url@ == API_URL@ + "/groups/"@ + id@ + "/members"@,
            r.query@.len() == 0,
            r.body is None,
    {
        let mut url = String::from_str(API_URL);
        url.append("/groups/");
        url.append(id);
        url.append("/members");
        ApiRequest { method: Method::Get, url, query: Vec::new(), body: None }
    }

    /// DELETE /groups/{id}/members/me.
    pub fn leave_group_request(&self, id: &str) -> (r: ApiRequest)
        ensures
            r.method == Method::Delete,
            r.url@ == API_URL@ + "/groups/"@ + id@ + "/members/me"@,
            r.query@.len() == 0,
            r.body is None,
    {
        let mut url = String::from_str(API_URL);
        url.append("/groups/");
        url.append(id);
        url.append("/members/me");
        ApiRequest { method: Method::Delete, url, query: Vec::new(), body: None }
    }

    /// GET /profile.
    pub fn fetch_user_profile_request(&self) -> (r: ApiRequest)
        ensures
            r.method == Method::Get,
            r.url@ == API_URL@ + "/profile"@,
            r.query@.len() == 0,
            r.body is None,
    {
        let mut url = String::from_str(API_URL);
        url.append("/profile");
        ApiRequest { method: Method::Get, url, query: Vec::new(), body: None }
    }

    /// GET /profile/groups.
    pub fn fetch_user_groups_request(&self) -> (r: ApiRequest)
        ensures
            r.method == Method::Get,
            r.url@ == API_URL@ + "/profile/groups"@,
            r.query@.len() == 0,
            r.body is None,
    {
        let mut url = String::from_str(API_URL);
        url.append("/profile/groups");
        ApiRequest { method: Method::Get, url, query: Vec::new(), body: None }
    }
}

/// The body of a group creation: the name, and the description when given.
pub open spec fn spec_group_body(name: Seq<char>, description: Option<Seq<char>>) -> JVal {
    let s0 = Seq::<(Seq<char>, JVal)>::empty().push(("name"@, JVal::Str(name)));
    let s1 = match description {
        Some(d) => s0.push(("description"@, JVal::Str(d))),
        None => s0,
    };
    JVal::Obj(s1)
}

/// The body of a group update: each field only when given.
pub open spec fn spec_group_update_body(
    name: Option<Seq<char>>,
    description: Option<Seq<char>>,
) -> JVal {
    let s0 = Seq::<(Seq<char>, JVal)>::empty();
    let s1 = match name {
        Some(n) => s0.push(("name"@, JVal::Str(n))),
        None => s0,
    };
    let s2 = match description {
        Some(d) => s1.push(("description"@, JVal::Str(d))),
        None => s1,
    };
    JVal::Obj(s2)
}

/// The body of a group fetch: the expansions, each as its serialized (and
/// therefore quoted) wire name; an empty object when none are requested.
pub open spec fn spec_expand_body(es: Seq<Expand>) -> JVal {
    if es.len() == 0 {
        JVal::Obj(Seq::empty())
    } else {
        JVal::Obj(
            Seq::<(Seq<char>, JVal)>::empty().push(
                ("expand"@, JVal::Arr(es.map_values(|e: Expand| JVal::Str(enc_string(e.spec_name()))))),
            ),
        )
    }
}

/// One step of the search pagination loop.  An empty page ends the loop and
/// changes nothing.  A non-empty page is appended to the accumulator and
/// the cursor advances to the `updated` timestamp of the page's last row.
/// Correct paging requires the caller to have set the sort order ascending;
/// with a descending order the cursor walks backwards and rows repeat.
pub fn search_pagination_step(
    query: &mut SearchQuery,
    annotations: &mut Vec<Annotation>,
    page: Vec<Annotation>,
) -> (done: bool)
    ensures
        done <==> page@.len() == 0,
        done ==> *final(query) == *old(query) && final(annotations)@ == old(annotations)@,
        !done ==> final(annotations)@ == old(annotations)@ + page@,
        !done ==> final(query).search_after@ == page@.last().updated@,
        !done ==> final(query).limit == old(query).limit && final(query).sort == old(query).sort
            && final(query).offset == old(query).offset && final(query).order == old(query).order
            && final(query).uri == old(query).uri && final(query).uri_parts == old(
            query,
        ).uri_parts && final(query).wildcard_uri == old(query).wildcard_uri && final(query).user
            == old(query).user && final(query).group == old(query).group && final(query).tag
            == old(query).tag && final(query).tags == old(query).tags && final(query).any == old(
            query,
        ).any && final(query).quote == old(query).quote && final(query).references == old(
            query,
        ).references && final(query).text == old(query).text,
{
    if page.len() == 0 {
        return true;
    }
    let last_updated = page[page.len() - 1].updated.clone();
    let mut page = page;
    annotations.append(&mut page);
    query.search_after = last_updated;
    false
}

} // verus!
