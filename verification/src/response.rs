//! Interpretation of response bodies.
//!
//! Every operation reads the response body as text and first tries the
//! operation's success shape.  If that fails, the same text is read as the
//! service's error-body shape and surfaced as a typed API error; if even
//! that fails, the API error carries an empty status and reason.  The raw
//! text always travels with the error for diagnosis, and interpretation
//! never panics, whatever the body holds.

use vstd::prelude::*;

use crate::annotations::{spec_annotation_from, spec_annotation_list_from, annotation_list_from_json,
    Annotation, SpecAnnotation};
use crate::errors::{spec_api_error_empty, spec_api_error_from, APIError, HypothesisError,
    SpecHypothesisError};
use crate::groups::{group_list_from_json, member_list_from_json, spec_group_from,
    spec_group_list_from, spec_member_list_from, Group, Member, SpecGroup, SpecMember};
use crate::json::{is_digit, json_decode, jv, jv_get, obj_get, parse_json, JVal, JsonValue};
use crate::profile::{spec_profile_from, SpecUserProfile, UserProfile};

verus! {

/// The typed API error carried by a failure body: the parsed status and
/// reason when the body has the error shape, empty ones otherwise, with the
/// raw text kept either way.
pub open spec fn spec_api_failure(s: Seq<char>) -> SpecHypothesisError {
    match json_decode(s) {
        Some(j) => match spec_api_error_from(j) {
            Some(e) => SpecHypothesisError::APIError { source: e, raw_text: s },
            None => SpecHypothesisError::APIError { source: spec_api_error_empty(), raw_text: s },
        },
        None => SpecHypothesisError::APIError { source: spec_api_error_empty(), raw_text: s },
    }
}

/// Build the API error for a failure body whose parse outcome is `j`.
fn api_failure(text: &str, j: Option<&JsonValue>) -> (r: HypothesisError)
    requires
        match j {
            Some(v) => json_decode(text@) matches Some(sj) && jv(*v) == sj,
            None => json_decode(text@) is None,
        },
    ensures
        r.deep_view() == spec_api_failure(text@),
{
    let raw_text = String::from_str(text);
    match j {
        Some(v) => match APIError::from_json(v) {
            Some(e) => HypothesisError::APIError { source: e, raw_text },
            None => HypothesisError::APIError { source: APIError::default(), raw_text },
        },
        None => HypothesisError::APIError { source: APIError::default(), raw_text },
    }
}

/// Interpret a body as one annotation, with error-shape fallback.
pub open spec fn spec_annotation_response(s: Seq<char>) -> Result<
    SpecAnnotation,
    SpecHypothesisError,
> {
    match json_decode(s) {
        Some(j) => match spec_annotation_from(j) {
            Some(a) => Ok(a),
            None => Err(spec_api_failure(s)),
        },
        None => Err(spec_api_failure(s)),
    }
}

/// Read a response body as an annotation; on failure surface the typed API
/// error for the same text.
pub fn parse_annotation_response(text: &str) -> (r: Result<Annotation, HypothesisError>)
    ensures
        match (r, spec_annotation_response(text@)) {
            (Ok(a), Ok(sa)) => a.deep_view() == sa,
            (Err(e), Err(se)) => e.deep_view() == se,
            _ => false,
        },
{
    match parse_json(text) {
        Some(j) => match Annotation::from_json(&j) {
            Some(a) => Ok(a),
            None => Err(api_failure(text, Some(&j))),
        },
        None => Err(api_failure(text, None)),
    }
}

/// An unsigned integer literal: one or more decimal digits.
pub open spec fn all_digits(s: Seq<char>) -> bool {
    s.len() > 0 && forall|i: int| 0 <= i < s.len() ==> is_digit(s[i])
}

fn all_digits_exec(s: &String) -> (r: bool)
    ensures
        r == all_digits(s@),
{
    let st = s.as_str();
    let n = st.unicode_len();
    if n == 0 {
        return false;
    }
    let mut i: usize = 0;
    while i < n
        invariant
            n == st@.len(),
            st@ == s@,
            i <= n,
            forall|k: int| 0 <= k < i ==> is_digit(s@[k]),
        decreases n - i,
    {
        let c = st.get_char(i);
        let u = c as u32;
        if !(48 <= u && u <= 57) {
            return false;
        }
        i = i + 1;
    }
    true
}

/// The success shape of a search: an object with the matching rows and a
/// count under `total`, an unsigned integer.
pub open spec fn spec_search_result_from(j: JVal) -> Option<Seq<SpecAnnotation>> {
    match j {
        JVal::Obj(es) => match (jv_get(es, "rows"@), jv_get(es, "total"@)) {
            (Some(rows_j), Some(JVal::Num(total))) => if all_digits(total) {
                spec_annotation_list_from(rows_j)
            } else {
                None
            },
            _ => None,
        },
        _ => None,
    }
}

/// Interpret a body as a page of search results, with error-shape fallback.
pub open spec fn spec_search_response(s: Seq<char>) -> Result<
    Seq<SpecAnnotation>,
    SpecHypothesisError,
> {
    match json_decode(s) {
        Some(j) => match spec_search_result_from(j) {
            Some(rows) => Ok(rows),
            None => Err(spec_api_failure(s)),
        },
        None => Err(spec_api_failure(s)),
    }
}

/// Read a search response body; the rows are returned, the total is checked
/// and dropped.
pub fn parse_search_response(text: &str) -> (r: Result<Vec<Annotation>, HypothesisError>)
    ensures
        match (r, spec_search_response(text@)) {
            (Ok(a), Ok(sa)) => a.deep_view() == sa,
            (Err(e), Err(se)) => e.deep_view() == se,
            _ => false,
        },
{
    match parse_json(text) {
        Some(j) => {
            let rows = match &j {
                JsonValue::Obj(entries) => {
                    let total_ok = match obj_get(entries, "total") {
                        Some(JsonValue::Num(t)) => all_digits_exec(t),
                        _ => false,
                    };
                    if total_ok {
                        match obj_get(entries, "rows") {
                            Some(rows_j) => annotation_list_from_json(rows_j),
                            None => None,
                        }
                    } else {
                        None
                    }
                },
                _ => None,
            };
            match rows {
                Some(a) => Ok(a),
                None => Err(api_failure(text, Some(&j))),
            }
        },
        None => Err(api_failure(text, None)),
    }
}

/// Interpret a body as one group, with error-shape fallback.
pub open spec fn spec_group_response(s: Seq<char>) -> Result<SpecGroup, SpecHypothesisError> {
    match json_decode(s) {
        Some(j) => match spec_group_from(j) {
            Some(g) => Ok(g),
            None => Err(spec_api_failure(s)),
        },
        None => Err(spec_api_failure(s)),
    }
}

/// Read a response body as a group.
pub fn parse_group_response(text: &str) -> (r: Result<Group, HypothesisError>)
    ensures
        match (r, spec_group_response(text@)) {
            (Ok(g), Ok(sg)) => g.deep_view() == sg,
            (Err(e), Err(se)) => e.deep_view() == se,
            _ => false,
        },
{
    match parse_json(text) {
        Some(j) => match Group::from_json(&j) {
            Some(g) => Ok(g),
            None => Err(api_failure(text, Some(&j))),
        },
        None => Err(api_failure(text, None)),
    }
}

/// Interpret a body as a list of groups, with error-shape fallback.
pub open spec fn spec_group_list_response(s: Seq<char>) -> Result<
    Seq<SpecGroup>,
    SpecHypothesisError,
> {
    match json_decode(s) {
        Some(j) => match spec_group_list_from(j) {
            Some(gs) => Ok(gs),
            None => Err(spec_api_failure(s)),
        },
        None => Err(spec_api_failure(s)),
    }
}

/// Read a response body as a list of groups.
pub fn parse_group_list_response(text: &str) -> (r: Result<Vec<Group>, HypothesisError>)
    ensures
        match (r, spec_group_list_response(text@)) {
            (Ok(g), Ok(sg)) => g.deep_view() == sg,
            (Err(e), Err(se)) => e.deep_view() == se,
            _ => false,
        },
{
    match parse_json(text) {
        Some(j) => match group_list_from_json(&j) {
            Some(g) => Ok(g),
            None => Err(api_failure(text, Some(&j))),
        },
        None => Err(api_failure(text, None)),
    }
}

/// Interpret a body as a list of members, with error-shape fallback.
pub open spec fn spec_member_list_response(s: Seq<char>) -> Result<
    Seq<SpecMember>,
    SpecHypothesisError,
> {
    match json_decode(s) {
        Some(j) => match spec_member_list_from(j) {
            Some(ms) => Ok(ms),
            None => Err(spec_api_failure(s)),
        },
        None => Err(spec_api_failure(s)),
    }
}

/// Read a response body as a list of group members.
pub fn parse_member_list_response(text: &str) -> (r: Result<Vec<Member>, HypothesisError>)
    ensures
        match (r, spec_member_list_response(text@)) {
            (Ok(m), Ok(sm)) => m.deep_view() == sm,
            (Err(e), Err(se)) => e.deep_view() == se,
            _ => false,
        },
{
    match parse_json(text) {
        Some(j) => match member_list_from_json(&j) {
            Some(m) => Ok(m),
            None => Err(api_failure(text, Some(&j))),
        },
        None => Err(api_failure(text, None)),
    }
}

/// Interpret a body as a user profile, with error-shape fallback.
pub open spec fn spec_profile_response(s: Seq<char>) -> Result<
    SpecUserProfile,
    SpecHypothesisError,
> {
    match json_decode(s) {
        Some(j) => match spec_profile_from(j) {
            Some(p) => Ok(p),
            None => Err(spec_api_failure(s)),
        },
        None => Err(spec_api_failure(s)),
    }
}

/// Read a response body as a user profile.
pub fn parse_profile_response(text: &str) -> (r: Result<UserProfile, HypothesisError>)
    ensures
        match (r, spec_profile_response(text@)) {
            (Ok(p), Ok(sp)) => p.deep_view() == sp,
            (Err(e), Err(se)) => e.deep_view() == se,
            _ => false,
        },
{
    match parse_json(text) {
        Some(j) => match UserProfile::from_json(&j) {
            Some(p) => Ok(p),
            None => Err(api_failure(text, Some(&j))),
        },
        None => Err(api_failure(text, None)),
    }
}

/// The success shape of a deletion: an object naming the deleted ID and a
/// boolean confirmation, which is the returned value.
pub open spec fn spec_deletion_from(j: JVal) -> Option<bool> {
    match j {
        JVal::Obj(es) => match (jv_get(es, "id"@), jv_get(es, "deleted"@)) {
            (Some(JVal::Str(_)), Some(JVal::Bool(b))) => Some(b),
            _ => None,
        },
        _ => None,
    }
}

/// Interpret a body as a deletion confirmation, with error-shape fallback.
pub open spec fn spec_deletion_response(s: Seq<char>) -> Result<bool, SpecHypothesisError> {
    match json_decode(s) {
        Some(j) => match spec_deletion_from(j) {
            Some(b) => Ok(b),
            None => Err(spec_api_failure(s)),
        },
        None => Err(spec_api_failure(s)),
    }
}

/// Read a deletion response body; returns whether the service confirmed the
/// deletion.
pub fn parse_deletion_response(text: &str) -> (r: Result<bool, HypothesisError>)
    ensures
        match (r, spec_deletion_response(text@)) {
            (Ok(b), Ok(sb)) => b == sb,
            (Err(e), Err(se)) => e.deep_view() == se,
            _ => false,
        },
{
    match parse_json(text) {
        Some(j) => {
            let deleted = match &j {
                JsonValue::Obj(entries) => {
                    let id_ok = match obj_get(entries, "id") {
                        Some(JsonValue::Str(_)) => true,
                        _ => false,
                    };
                    if id_ok {
                        match obj_get(entries, "deleted") {
                            Some(JsonValue::Bool(b)) => Some(*b),
                            _ => None,
                        }
                    } else {
                        None
                    }
                },
                _ => None,
            };
            match deleted {
                Some(b) => Ok(b),
                None => Err(api_failure(text, Some(&j))),
            }
        },
        None => Err(api_failure(text, None)),
    }
}

/// Interpret a body from an operation that succeeds with an empty response:
/// a body that parses as the error shape is a failure carrying that error,
/// and anything else means success.
pub open spec fn spec_empty_response(s: Seq<char>) -> Result<(), SpecHypothesisError> {
    match json_decode(s) {
        Some(j) => match spec_api_error_from(j) {
            Some(e) => Err(SpecHypothesisError::APIError { source: e, raw_text: s }),
            None => Ok(()),
        },
        None => Ok(()),
    }
}

/// Read the response body of an operation with no success payload.
pub fn parse_empty_response(text: &str) -> (r: Result<(), HypothesisError>)
    ensures
        match (r, spec_empty_response(text@)) {
            (Ok(_), Ok(_)) => true,
            (Err(e), Err(se)) => e.deep_view() == se,
            _ => false,
        },
{
    match parse_json(text) {
        Some(j) => match APIError::from_json(&j) {
            Some(e) => Err(
                HypothesisError::APIError { source: e, raw_text: String::from_str(text) },
            ),
            None => Ok(()),
        },
        None => Ok(()),
    }
}

} // verus!
