//! Objects related to the "profile" endpoint.

use vstd::prelude::*;

use crate::json::{bool_map_to_json, enc_bool_map, j_bool_map, jv, jv_entries, jv_get, obj_get,
    push_entry, spec_bool_map_from, JVal, JsonValue};
use crate::UserAccountID;

verus! {

/// User profile information.
#[derive(Debug, Clone, PartialEq)]
pub struct UserProfile {
    /// The profile's authority, e.g. "hypothes.is".
    pub authority: String,
    /// Feature flags, as ordered key-value pairs.
    pub features: Vec<(String, bool)>,
    /// Preference flags, as ordered key-value pairs.
    pub preferences: Vec<(String, bool)>,
    /// The account ID when the request is authenticated, null otherwise.
    pub userid: Option<UserAccountID>,
}

/// The model of a [`UserProfile`].
pub struct SpecUserProfile {
    pub authority: Seq<char>,
    pub features: Seq<(Seq<char>, bool)>,
    pub preferences: Seq<(Seq<char>, bool)>,
    pub userid: Option<Seq<char>>,
}

impl DeepView for UserProfile {
    type V = SpecUserProfile;

    open spec fn deep_view(&self) -> SpecUserProfile {
        SpecUserProfile {
            authority: self.authority@,
            features: self.features.deep_view(),
            preferences: self.preferences.deep_view(),
            userid: match self.userid {
                Some(u) => Some(u.0@),
                None => None,
            },
        }
    }
}

/// Decode a user profile: authority and both flag maps are required, and a
/// missing or null userid means the request was not authenticated.
pub open spec fn spec_profile_from(j: JVal) -> Option<SpecUserProfile> {
    match j {
        JVal::Obj(es) => {
            match (jv_get(es, "authority"@), jv_get(es, "features"@), jv_get(es, "preferences"@)) {
                (Some(JVal::Str(authority)), Some(features_j), Some(preferences_j)) => {
                    let features = spec_bool_map_from(features_j);
                    let preferences = spec_bool_map_from(preferences_j);
                    let userid = match jv_get(es, "userid"@) {
                        None => Some(None),
                        Some(JVal::Null) => Some(None),
                        Some(JVal::Str(u)) => Some(Some(u)),
                        Some(_) => None,
                    };
                    match (features, preferences, userid) {
                        (Some(features), Some(preferences), Some(userid)) => Some(
                            SpecUserProfile { authority, features, preferences, userid },
                        ),
                        _ => None,
                    }
                },
                _ => None,
            }
        },
        _ => None,
    }
}

impl UserProfile {
    /// Decode a user profile from a JSON document.
    pub fn from_json(v: &JsonValue) -> (r: Option<UserProfile>)
        ensures
            match r {
                Some(p) => spec_profile_from(jv(*v)) == Some(p.deep_view()),
                None => spec_profile_from(jv(*v)) is None,
            },
    {
        match v {
            JsonValue::Obj(entries) => {
                let authority = match obj_get(entries, "authority") {
                    Some(JsonValue::Str(s)) => s.clone(),
                    _ => {
                        return None;
                    },
                };
                let features = match obj_get(entries, "features") {
                    Some(x) => match j_bool_map(x) {
                        Some(m) => m,
                        None => {
                            return None;
                        },
                    },
                    None => {
                        return None;
                    },
                };
                let preferences = match obj_get(entries, "preferences") {
                    Some(x) => match j_bool_map(x) {
                        Some(m) => m,
                        None => {
                            return None;
                        },
                    },
                    None => {
                        return None;
                    },
                };
                let userid = match obj_get(entries, "userid") {
                    None => None,
                    Some(JsonValue::Null) => None,
                    Some(JsonValue::Str(s)) => Some(UserAccountID(s.clone())),
                    Some(_) => {
                        return None;
                    },
                };
                Some(UserProfile { authority, features, preferences, userid })
            },
            _ => None,
        }
    }

    /// Encode this profile as a JSON document; a missing userid is null.
    pub fn to_json(&self) -> (r: JsonValue)
        ensures
            jv(r) == spec_profile_json(self.deep_view()),
    {
        let mut out: Vec<(String, JsonValue)> = Vec::new();
        proof {
            assert(jv_entries(out@) =~= Seq::<(Seq<char>, JVal)>::empty());
        }
        push_entry(&mut out, "authority", JsonValue::Str(self.authority.clone()));
        push_entry(&mut out, "features", bool_map_to_json(&self.features));
        push_entry(&mut out, "preferences", bool_map_to_json(&self.preferences));
        let uid = match &self.userid {
            Some(u) => JsonValue::Str(u.0.clone()),
            None => JsonValue::Null,
        };
        push_entry(&mut out, "userid", uid);
        JsonValue::Obj(out)
    }
}

/// Encode a user profile; every field appears.
pub open spec fn spec_profile_json(p: SpecUserProfile) -> JVal {
    JVal::Obj(
        Seq::<(Seq<char>, JVal)>::empty().push(("authority"@, JVal::Str(p.authority))).push(
            ("features"@, enc_bool_map(p.features)),
        ).push(("preferences"@, enc_bool_map(p.preferences))).push(
            (
                "userid"@,
                match p.userid {
                    Some(u) => JVal::Str(u),
                    None => JVal::Null,
                },
            ),
        ),
    )
}

} // verus!
