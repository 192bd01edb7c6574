//! The contract with the remote index service: request paths and
//! bodies, the error taxonomy, and the decoding of its JSON response
//! envelopes. One trusted wrapper parses a body into the library's
//! value tree (`crate::json`); every decision about what a response
//! means is made here in verified code, pinned to that parse by the
//! name `json_of`. No networking happens in this module: the host
//! hands in the HTTP status and body text of each response.

use crate::json::{
    get_field, is_null_tree, json_of, parse_document, spec_as_bool, spec_as_int, spec_as_str,
    spec_get, JsonValue,
};
use crate::model::{Dependency, Incompatibility, Page, PlatformTargets, Submission, Version};
use crate::render::spec_dec;
use crate::render::u64_to_string;
use vstd::prelude::*;

verus! {

/// How a remote operation fails. Every variant but the operator
/// warnings of the review loop is fatal to the session.
#[derive(Debug, PartialEq, Eq)]
pub enum IndexError {
    /// No authentication token is present; detected before any network
    /// call.
    NotLoggedIn,
    /// The transport failed; carries the transport's own description.
    Transport(String),
    /// The service answered with a failure status and a decodable
    /// error envelope; carries the envelope's message verbatim.
    Server(String),
    /// The service answered with a failure status and no decodable
    /// error envelope.
    BadResponse,
    /// A success response whose body does not match the expected JSON
    /// shape.
    Decode,
}

pub open spec fn spec_error_message(e: IndexError) -> Seq<char> {
    match e {
        IndexError::NotLoggedIn => "You are not logged in!"@,
        IndexError::Transport(cause) => "Failed to connect to the Geode Index: "@ + cause@,
        IndexError::Server(msg) => msg@,
        IndexError::BadResponse => "Bad response from Geode Index"@,
        IndexError::Decode => "Failed to parse response from the Geode Index"@,
    }
}

impl IndexError {
    /// The text shown to the operator for this failure; a server
    /// envelope's message is reported verbatim.
    pub fn message(&self) -> (r: String)
        ensures
            r@ == spec_error_message(*self),
    {
        match self {
            IndexError::NotLoggedIn => "You are not logged in!".to_owned(),
            IndexError::Transport(cause) => {
                let mut out = "Failed to connect to the Geode Index: ".to_owned();
                out.append(cause.as_str());
                out
            },
            IndexError::Server(msg) => msg.clone(),
            IndexError::BadResponse => "Bad response from Geode Index".to_owned(),
            IndexError::Decode => "Failed to parse response from the Geode Index".to_owned(),
        }
    }
}

/// Both remote operations demand a token before any network call; its
/// absence is the immediate not-logged-in failure.
pub fn require_token(token: &Option<String>) -> (r: Result<String, IndexError>)
    ensures
        r is Ok <==> token is Some,
        r matches Ok(t) ==> Some(t) == *token,
        r matches Err(e) ==> e == IndexError::NotLoggedIn,
{
    match token {
        Some(t) => Ok(t.clone()),
        None => Err(IndexError::NotLoggedIn),
    }
}

/// The query path that fetches one page of pending submissions: one
/// submission per page, so the page number is the cursor itself.
pub fn pending_mods_path(page: i32) -> (r: String)
    requires
        page >= 0,
    ensures
        r@ == "v1/mods?pending_validation=true&page="@ + spec_dec(page as int) + "&per_page=1"@,
{
    let mut out = "v1/mods?pending_validation=true&page=".to_owned();
    let num = u64_to_string(page as u64);
    out.append(num.as_str());
    out.append("&per_page=1");
    proof {
        assert(out@ =~= "v1/mods?pending_validation=true&page="@ + spec_dec(page as int)
            + "&per_page=1"@);
    }
    out
}

/// The path that approves one version of one submission.
pub fn validate_path(id: &str, version: &str) -> (r: String)
    ensures
        r@ == "v1/mods/"@ + id@ + "/versions/"@ + version@,
{
    let mut out = "v1/mods/".to_owned();
    out.append(id);
    out.append("/versions/");
    out.append(version);
    proof {
        assert(out@ =~= "v1/mods/"@ + id@ + "/versions/"@ + version@);
    }
    out
}

/// The JSON body of the approval call.
pub fn validated_body() -> (r: String)
    ensures
        r@ == "{\"validated\":true}"@,
{
    "{\"validated\":true}".to_owned()
}

/// An optional text field of the model, as the decoded text it came
/// from.
pub open spec fn opt_view(o: Option<String>) -> Option<Seq<char>> {
    match o {
        Some(s) => Some(s@),
        None => None,
    }
}

/// A required string field: the text under the key, when it holds a
/// string.
pub open spec fn spec_req_str(v: JsonValue, key: Seq<char>) -> Option<Seq<char>> {
    match spec_get(v, key) {
        Some(f) => spec_as_str(f),
        None => None,
    }
}

/// An optional string field: an absent or null key is an accepted
/// absence, a string is its text, any other kind fails the decode.
pub open spec fn spec_opt_str(v: JsonValue, key: Seq<char>) -> Option<Option<Seq<char>>> {
    match spec_get(v, key) {
        None => Some(None),
        Some(f) => if f is Null {
            Some(None)
        } else {
            match spec_as_str(f) {
                Some(s) => Some(Some(s)),
                None => None,
            }
        },
    }
}

/// A required boolean field.
pub open spec fn spec_req_bool(v: JsonValue, key: Seq<char>) -> Option<bool> {
    match spec_get(v, key) {
        Some(f) => spec_as_bool(f),
        None => None,
    }
}

fn tree_req_str(v: &JsonValue, key: &str) -> (r: Option<String>)
    ensures
        match r {
            Some(s) => spec_req_str(*v, key@) == Some(s@),
            None => spec_req_str(*v, key@) is None,
        },
{
    match get_field(v, key) {
        Some(f) => match f {
            JsonValue::Str(s) => Some(s.clone()),
            _ => None,
        },
        None => None,
    }
}

fn tree_opt_str(v: &JsonValue, key: &str) -> (r: Option<Option<String>>)
    ensures
        match r {
            Some(o) => spec_opt_str(*v, key@) == Some(opt_view(o)),
            None => spec_opt_str(*v, key@) is None,
        },
{
    match get_field(v, key) {
        None => Some(None),
        Some(f) => match f {
            JsonValue::Null => Some(None),
            JsonValue::Str(s) => Some(Some(s.clone())),
            _ => None,
        },
    }
}

fn tree_req_bool(v: &JsonValue, key: &str) -> (r: Option<bool>)
    ensures
        r == spec_req_bool(*v, key@),
{
    match get_field(v, key) {
        Some(f) => match f {
            JsonValue::Bool(b) => Some(*b),
            _ => None,
        },
        None => None,
    }
}

pub open spec fn dependency_decodable(v: JsonValue) -> bool {
    spec_req_str(v, "mod_id"@) is Some && spec_req_str(v, "version"@) is Some && spec_req_str(
        v,
        "importance"@,
    ) is Some
}

pub open spec fn decodes_to_dependency(v: JsonValue, d: Dependency) -> bool {
    spec_req_str(v, "mod_id"@) == Some(d.mod_id@) && spec_req_str(v, "version"@) == Some(
        d.version@,
    ) && spec_req_str(v, "importance"@) == Some(d.importance@)
}

pub open spec fn decodes_to_incompatibility(v: JsonValue, d: Incompatibility) -> bool {
    spec_req_str(v, "mod_id"@) == Some(d.mod_id@) && spec_req_str(v, "version"@) == Some(
        d.version@,
    ) && spec_req_str(v, "importance"@) == Some(d.importance@)
}

fn decode_dependency(v: &JsonValue) -> (r: Option<Dependency>)
    ensures
        r matches Some(d) ==> decodes_to_dependency(*v, d),
        r is Some <==> dependency_decodable(*v),
{
    let mod_id = match tree_req_str(v, "mod_id") {
        Some(s) => s,
        None => {
            return None;
        },
    };
    let version = match tree_req_str(v, "version") {
        Some(s) => s,
        None => {
            return None;
        },
    };
    let importance = match tree_req_str(v, "importance") {
        Some(s) => s,
        None => {
            return None;
        },
    };
    Some(Dependency { mod_id, version, importance })
}

fn decode_incompatibility(v: &JsonValue) -> (r: Option<Incompatibility>)
    ensures
        r matches Some(d) ==> decodes_to_incompatibility(*v, d),
        r is Some <==> dependency_decodable(*v),
{
    let mod_id = match tree_req_str(v, "mod_id") {
        Some(s) => s,
        None => {
            return None;
        },
    };
    let version = match tree_req_str(v, "version") {
        Some(s) => s,
        None => {
            return None;
        },
    };
    let importance = match tree_req_str(v, "importance") {
        Some(s) => s,
        None => {
            return None;
        },
    };
    Some(Incompatibility { mod_id, version, importance })
}

pub open spec fn all_dependencies_decodable(items: Seq<JsonValue>) -> bool {
    forall|i: int| 0 <= i < items.len() ==> dependency_decodable(items[i])
}

pub open spec fn decode_to_dependencies(items: Seq<JsonValue>, out: Seq<Dependency>) -> bool {
    out.len() == items.len() && (forall|i: int|
        0 <= i < items.len() ==> decodes_to_dependency(items[i], out[i]))
}

pub open spec fn decode_to_incompatibilities(
    items: Seq<JsonValue>,
    out: Seq<Incompatibility>,
) -> bool {
    out.len() == items.len() && (forall|i: int|
        0 <= i < items.len() ==> decodes_to_incompatibility(items[i], out[i]))
}

fn decode_dependency_list(items: &Vec<JsonValue>) -> (r: Option<Vec<Dependency>>)
    ensures
        r matches Some(out) ==> decode_to_dependencies(items@, out@),
        r is Some <==> all_dependencies_decodable(items@),
{
    let mut out: Vec<Dependency> = Vec::new();
    let n = items.len();
    let mut i: usize = 0;
    while i < n
        invariant
            0 <= i <= n,
            n == items@.len(),
            out@.len() == i,
            forall|j: int| 0 <= j < i ==> dependency_decodable(items@[j]),
            forall|j: int| 0 <= j < i ==> decodes_to_dependency(items@[j], out@[j]),
        decreases n - i,
    {
        match decode_dependency(&items[i]) {
            Some(d) => out.push(d),
            None => {
                return None;
            },
        }
        i = i + 1;
    }
    Some(out)
}

fn decode_incompatibility_list(items: &Vec<JsonValue>) -> (r: Option<Vec<Incompatibility>>)
    ensures
        r matches Some(out) ==> decode_to_incompatibilities(items@, out@),
        r is Some <==> all_dependencies_decodable(items@),
{
    let mut out: Vec<Incompatibility> = Vec::new();
    let n = items.len();
    let mut i: usize = 0;
    while i < n
        invariant
            0 <= i <= n,
            n == items@.len(),
            out@.len() == i,
            forall|j: int| 0 <= j < i ==> dependency_decodable(items@[j]),
            forall|j: int| 0 <= j < i ==> decodes_to_incompatibility(items@[j], out@[j]),
        decreases n - i,
    {
        match decode_incompatibility(&items[i]) {
            Some(d) => out.push(d),
            None => {
                return None;
            },
        }
        i = i + 1;
    }
    Some(out)
}

pub open spec fn platforms_decodable(v: JsonValue) -> bool {
    spec_opt_str(v, "win"@) is Some && spec_opt_str(v, "mac"@) is Some && spec_opt_str(
        v,
        "android32"@,
    ) is Some && spec_opt_str(v, "android64"@) is Some && spec_opt_str(v, "ios"@) is Some
}

pub open spec fn decodes_to_platforms(v: JsonValue, p: PlatformTargets) -> bool {
    spec_opt_str(v, "win"@) == Some(opt_view(p.win)) && spec_opt_str(v, "mac"@) == Some(
        opt_view(p.mac),
    ) && spec_opt_str(v, "android32"@) == Some(opt_view(p.android32)) && spec_opt_str(
        v,
        "android64"@,
    ) == Some(opt_view(p.android64)) && spec_opt_str(v, "ios"@) == Some(opt_view(p.ios))
}

fn decode_platforms(v: &JsonValue) -> (r: Option<PlatformTargets>)
    ensures
        r matches Some(p) ==> decodes_to_platforms(*v, p),
        r is Some <==> platforms_decodable(*v),
{
    let win = match tree_opt_str(v, "win") {
        Some(o) => o,
        None => {
            return None;
        },
    };
    let mac = match tree_opt_str(v, "mac") {
        Some(o) => o,
        None => {
            return None;
        },
    };
    let android32 = match tree_opt_str(v, "android32") {
        Some(o) => o,
        None => {
            return None;
        },
    };
    let android64 = match tree_opt_str(v, "android64") {
        Some(o) => o,
        None => {
            return None;
        },
    };
    let ios = match tree_opt_str(v, "ios") {
        Some(o) => o,
        None => {
            return None;
        },
    };
    Some(PlatformTargets { win, mac, android32, android64, ios })
}

/// An optional entry list under a key: absent or null is an accepted
/// absence; anything else must be an array whose entries all decode.
pub open spec fn dependency_field_decodable(v: JsonValue, key: Seq<char>) -> bool {
    match spec_get(v, key) {
        None => true,
        Some(f) => f is Null || (f matches JsonValue::Arr(items) && all_dependencies_decodable(
            items@,
        )),
    }
}

pub open spec fn version_decodable(v: JsonValue) -> bool {
    spec_req_str(v, "name"@) is Some && spec_req_str(v, "version"@) is Some && spec_opt_str(
        v,
        "description"@,
    ) is Some && spec_req_str(v, "geode"@) is Some && spec_req_bool(v, "early_load"@) is Some
        && spec_req_bool(v, "api"@) is Some && (match spec_get(v, "gd"@) {
        Some(g) => platforms_decodable(g),
        None => false,
    }) && dependency_field_decodable(v, "dependencies"@) && dependency_field_decodable(
        v,
        "incompatibilities"@,
    )
}

pub open spec fn decodes_to_version(v: JsonValue, ver: Version) -> bool {
    spec_req_str(v, "name"@) == Some(ver.name@) && spec_req_str(v, "version"@) == Some(
        ver.version@,
    ) && spec_opt_str(v, "description"@) == Some(opt_view(ver.description)) && spec_req_str(
        v,
        "geode"@,
    ) == Some(ver.geode@) && spec_req_bool(v, "early_load"@) == Some(ver.early_load)
        && spec_req_bool(v, "api"@) == Some(ver.api) && (match spec_get(v, "gd"@) {
        Some(g) => decodes_to_platforms(g, ver.gd),
        None => false,
    }) && (match spec_get(v, "dependencies"@) {
        None => ver.dependencies is None,
        Some(f) => if f is Null {
            ver.dependencies is None
        } else {
            match (f, ver.dependencies) {
                (JsonValue::Arr(items), Some(ds)) => decode_to_dependencies(items@, ds@),
                _ => false,
            }
        },
    }) && (match spec_get(v, "incompatibilities"@) {
        None => ver.incompatibilities is None,
        Some(f) => if f is Null {
            ver.incompatibilities is None
        } else {
            match (f, ver.incompatibilities) {
                (JsonValue::Arr(items), Some(ds)) => decode_to_incompatibilities(items@, ds@),
                _ => false,
            }
        },
    })
}

fn decode_version(v: &JsonValue) -> (r: Option<Version>)
    ensures
        r matches Some(ver) ==> decodes_to_version(*v, ver),
        r is Some <==> version_decodable(*v),
{
    let name = match tree_req_str(v, "name") {
        Some(s) => s,
        None => {
            return None;
        },
    };
    let version = match tree_req_str(v, "version") {
        Some(s) => s,
        None => {
            return None;
        },
    };
    let description = match tree_opt_str(v, "description") {
        Some(o) => o,
        None => {
            return None;
        },
    };
    let geode = match tree_req_str(v, "geode") {
        Some(s) => s,
        None => {
            return None;
        },
    };
    let early_load = match tree_req_bool(v, "early_load") {
        Some(b) => b,
        None => {
            return None;
        },
    };
    let api = match tree_req_bool(v, "api") {
        Some(b) => b,
        None => {
            return None;
        },
    };
    let gd = match get_field(v, "gd") {
        Some(g) => match decode_platforms(g) {
            Some(p) => p,
            None => {
                return None;
            },
        },
        None => {
            return None;
        },
    };
    let dependencies = match get_field(v, "dependencies") {
        None => None,
        Some(f) => {
            if is_null_tree(f) {
                None
            } else {
                let items = match f {
                    JsonValue::Arr(items) => items,
                    _ => {
                        return None;
                    },
                };
                match decode_dependency_list(items) {
                    Some(ds) => Some(ds),
                    None => {
                        return None;
                    },
                }
            }
        },
    };
    let incompatibilities = match get_field(v, "incompatibilities") {
        None => None,
        Some(f) => {
            if is_null_tree(f) {
                None
            } else {
                let items = match f {
                    JsonValue::Arr(items) => items,
                    _ => {
                        return None;
                    },
                };
                match decode_incompatibility_list(items) {
                    Some(ds) => Some(ds),
                    None => {
                        return None;
                    },
                }
            }
        },
    };
    Some(
        Version {
            name,
            version,
            description,
            geode,
            early_load,
            api,
            gd,
            dependencies,
            incompatibilities,
        },
    )
}

pub open spec fn all_versions_decodable(items: Seq<JsonValue>) -> bool {
    forall|i: int| 0 <= i < items.len() ==> version_decodable(items[i])
}

pub open spec fn decode_to_versions(items: Seq<JsonValue>, out: Seq<Version>) -> bool {
    out.len() == items.len() && (forall|i: int|
        0 <= i < items.len() ==> decodes_to_version(items[i], out[i]))
}

fn decode_version_list(items: &Vec<JsonValue>) -> (r: Option<Vec<Version>>)
    ensures
        r matches Some(out) ==> decode_to_versions(items@, out@),
        r is Some <==> all_versions_decodable(items@),
{
    let mut out: Vec<Version> = Vec::new();
    let n = items.len();
    let mut i: usize = 0;
    while i < n
        invariant
            0 <= i <= n,
            n == items@.len(),
            out@.len() == i,
            forall|j: int| 0 <= j < i ==> version_decodable(items@[j]),
            forall|j: int| 0 <= j < i ==> decodes_to_version(items@[j], out@[j]),
        decreases n - i,
    {
        match decode_version(&items[i]) {
            Some(d) => out.push(d),
            None => {
                return None;
            },
        }
        i = i + 1;
    }
    Some(out)
}

pub open spec fn all_tags_decodable(items: Seq<JsonValue>) -> bool {
    forall|i: int| 0 <= i < items.len() ==> spec_as_str(items[i]) is Some
}

pub open spec fn decode_to_tags(items: Seq<JsonValue>, out: Seq<String>) -> bool {
    out.len() == items.len() && (forall|i: int|
        0 <= i < items.len() ==> spec_as_str(items[i]) == Some(out[i]@))
}

fn decode_tag_list(items: &Vec<JsonValue>) -> (r: Option<Vec<String>>)
    ensures
        r matches Some(out) ==> decode_to_tags(items@, out@),
        r is Some <==> all_tags_decodable(items@),
{
    let mut out: Vec<String> = Vec::new();
    let n = items.len();
    let mut i: usize = 0;
    while i < n
        invariant
            0 <= i <= n,
            n == items@.len(),
            out@.len() == i,
            forall|j: int| 0 <= j < i ==> spec_as_str(items@[j]) is Some,
            forall|j: int| 0 <= j < i ==> spec_as_str(items@[j]) == Some(out@[j]@),
        decreases n - i,
    {
        match &items[i] {
            JsonValue::Str(s) => out.push(s.clone()),
            _ => {
                return None;
            },
        }
        i = i + 1;
    }
    Some(out)
}

pub open spec fn submission_decodable(v: JsonValue) -> bool {
    spec_req_str(v, "id"@) is Some && spec_opt_str(v, "repository"@) is Some && (match spec_get(
        v,
        "versions"@,
    ) {
        Some(f) => f matches JsonValue::Arr(items) && all_versions_decodable(items@),
        None => false,
    }) && (match spec_get(v, "tags"@) {
        Some(f) => f matches JsonValue::Arr(items) && all_tags_decodable(items@),
        None => false,
    }) && spec_opt_str(v, "about"@) is Some && spec_opt_str(v, "changelog"@) is Some
}

pub open spec fn decodes_to_submission(v: JsonValue, s: Submission) -> bool {
    spec_req_str(v, "id"@) == Some(s.id@) && spec_opt_str(v, "repository"@) == Some(
        opt_view(s.repository),
    ) && (match spec_get(v, "versions"@) {
        Some(f) => match f {
            JsonValue::Arr(items) => decode_to_versions(items@, s.versions@),
            _ => false,
        },
        None => false,
    }) && (match spec_get(v, "tags"@) {
        Some(f) => match f {
            JsonValue::Arr(items) => decode_to_tags(items@, s.tags@),
            _ => false,
        },
        None => false,
    }) && spec_opt_str(v, "about"@) == Some(opt_view(s.about)) && spec_opt_str(v, "changelog"@)
        == Some(opt_view(s.changelog))
}

fn decode_submission(v: &JsonValue) -> (r: Option<Submission>)
    ensures
        r matches Some(s) ==> decodes_to_submission(*v, s),
        r is Some <==> submission_decodable(*v),
{
    let id = match tree_req_str(v, "id") {
        Some(s) => s,
        None => {
            return None;
        },
    };
    let repository = match tree_opt_str(v, "repository") {
        Some(o) => o,
        None => {
            return None;
        },
    };
    let versions = match get_field(v, "versions") {
        Some(f) => {
            let items = match f {
                JsonValue::Arr(items) => items,
                _ => {
                    return None;
                },
            };
            match decode_version_list(items) {
                Some(vs) => vs,
                None => {
                    return None;
                },
            }
        },
        None => {
            return None;
        },
    };
    let tags = match get_field(v, "tags") {
        Some(f) => {
            let items = match f {
                JsonValue::Arr(items) => items,
                _ => {
                    return None;
                },
            };
            match decode_tag_list(items) {
                Some(ts) => ts,
                None => {
                    return None;
                },
            }
        },
        None => {
            return None;
        },
    };
    let about = match tree_opt_str(v, "about") {
        Some(o) => o,
        None => {
            return None;
        },
    };
    let changelog = match tree_opt_str(v, "changelog") {
        Some(o) => o,
        None => {
            return None;
        },
    };
    Some(Submission { id, repository, versions, tags, about, changelog })
}

pub open spec fn all_submissions_decodable(items: Seq<JsonValue>) -> bool {
    forall|i: int| 0 <= i < items.len() ==> submission_decodable(items[i])
}

pub open spec fn decode_to_submissions(items: Seq<JsonValue>, out: Seq<Submission>) -> bool {
    out.len() == items.len() && (forall|i: int|
        0 <= i < items.len() ==> decodes_to_submission(items[i], out[i]))
}

fn decode_submission_list(items: &Vec<JsonValue>) -> (r: Option<Vec<Submission>>)
    ensures
        r matches Some(out) ==> decode_to_submissions(items@, out@),
        r is Some <==> all_submissions_decodable(items@),
{
    let mut out: Vec<Submission> = Vec::new();
    let n = items.len();
    let mut i: usize = 0;
    while i < n
        invariant
            0 <= i <= n,
            n == items@.len(),
            out@.len() == i,
            forall|j: int| 0 <= j < i ==> submission_decodable(items@[j]),
            forall|j: int| 0 <= j < i ==> decodes_to_submission(items@[j], out@[j]),
        decreases n - i,
    {
        match decode_submission(&items[i]) {
            Some(d) => out.push(d),
            None => {
                return None;
            },
        }
        i = i + 1;
    }
    Some(out)
}

/// The success envelope shape of a page fetch:
/// `{payload: {data: [submission, ...], count: n}}` with a
/// non-negative total that fits the cursor's type.
pub open spec fn page_decodable(doc: JsonValue) -> bool {
    match spec_get(doc, "payload"@) {
        Some(payload) => (match spec_get(payload, "count"@) {
            Some(c) => match spec_as_int(c) {
                Some(c64) => 0 <= c64 <= 0x7FFF_FFFFi64,
                None => false,
            },
            None => false,
        }) && (match spec_get(payload, "data"@) {
            Some(f) => f matches JsonValue::Arr(items) && all_submissions_decodable(items@),
            None => false,
        }),
        None => false,
    }
}

/// The page a well-shaped success envelope denotes, field for field.
pub open spec fn decodes_to_page(doc: JsonValue, p: Page) -> bool {
    match spec_get(doc, "payload"@) {
        Some(payload) => (match spec_get(payload, "count"@) {
            Some(c) => spec_as_int(c) == Some(p.count as i64),
            None => false,
        }) && (match spec_get(payload, "data"@) {
            Some(f) => match f {
                JsonValue::Arr(items) => decode_to_submissions(items@, p.data@),
                _ => false,
            },
            None => false,
        }),
        None => false,
    }
}

/// Decode the success envelope of a page fetch. The result is pinned
/// to the body's parse: a page comes back exactly when the parsed
/// document is well shaped, and then it is that document's page.
pub fn decode_page_body(body: &str) -> (r: Option<Page>)
    ensures
        r is Some <==> (json_of(body@) matches Some(doc) && page_decodable(doc)),
        r matches Some(p) ==> decodes_to_page(json_of(body@)->Some_0, p) && p.count >= 0,
{
    let doc = match parse_document(body) {
        Some(d) => d,
        None => {
            return None;
        },
    };
    let payload = match get_field(&doc, "payload") {
        Some(p) => p,
        None => {
            return None;
        },
    };
    let count64 = match get_field(payload, "count") {
        Some(c) => match c {
            JsonValue::Num(Some(c64)) => *c64,
            _ => {
                return None;
            },
        },
        None => {
            return None;
        },
    };
    if count64 < 0 || count64 > 0x7FFF_FFFFi64 {
        return None;
    }
    let count: i32 = count64 as i32;
    let data = match get_field(payload, "data") {
        Some(f) => {
            let items = match f {
                JsonValue::Arr(items) => items,
                _ => {
                    return None;
                },
            };
            match decode_submission_list(items) {
                Some(subs) => subs,
                None => {
                    return None;
                },
            }
        },
        None => {
            return None;
        },
    };
    Some(Page { data, count })
}

/// The message of the failure envelope `{error: message}` a body
/// denotes, if the body parses to one.
pub open spec fn error_text_of(body: Seq<char>) -> Option<Seq<char>> {
    match json_of(body) {
        Some(doc) => spec_req_str(doc, "error"@),
        None => None,
    }
}

/// Decode the failure envelope `{error: message}`; nothing when the
/// body is not JSON or carries no error string.
pub fn decode_error_body(body: &str) -> (r: Option<String>)
    ensures
        match r {
            Some(m) => error_text_of(body@) == Some(m@),
            None => error_text_of(body@) is None,
        },
{
    let doc = match parse_document(body) {
        Some(d) => d,
        None => {
            return None;
        },
    };
    tree_req_str(&doc, "error")
}

/// A failure status turns into the envelope's message verbatim when
/// one decoded, and into the generic bad-response failure otherwise.
pub fn classify_server_failure(decoded: Option<String>) -> (e: IndexError)
    ensures
        e == match decoded {
            Some(msg) => IndexError::Server(msg),
            None => IndexError::BadResponse,
        },
{
    match decoded {
        Some(msg) => IndexError::Server(msg),
        None => IndexError::BadResponse,
    }
}

/// Interpret a page-fetch response. Success is status 200 with a
/// well-shaped envelope exactly, and yields that envelope's page; a
/// malformed success body is a decode failure; any other status
/// surfaces the body's error message verbatim when one decodes, and
/// the generic bad-response failure otherwise.
pub fn interpret_fetch_response(status: u16, body: &str) -> (r: Result<Page, IndexError>)
    ensures
        r is Ok <==> status == 200 && (json_of(body@) matches Some(doc) && page_decodable(doc)),
        r matches Ok(p) ==> decodes_to_page(json_of(body@)->Some_0, p) && p.count >= 0,
        status == 200 && r is Err ==> r->Err_0 == IndexError::Decode,
        status != 200 ==> (match error_text_of(body@) {
            Some(m) => (r->Err_0 matches IndexError::Server(s) && s@ == m),
            None => r->Err_0 == IndexError::BadResponse,
        }),
{
    if status != 200 {
        return Err(classify_server_failure(decode_error_body(body)));
    }
    match decode_page_body(body) {
        Some(p) => Ok(p),
        None => Err(IndexError::Decode),
    }
}

/// Interpret a validation response. Success is status 204 exactly;
/// every other status surfaces the body's error message verbatim when
/// one decodes, and the generic bad-response failure otherwise. No
/// local state is touched either way.
pub fn interpret_validate_response(status: u16, body: &str) -> (r: Result<(), IndexError>)
    ensures
        r is Ok <==> status == 204,
        status != 204 ==> (match error_text_of(body@) {
            Some(m) => (r->Err_0 matches IndexError::Server(s) && s@ == m),
            None => r->Err_0 == IndexError::BadResponse,
        }),
{
    if status != 204 {
        return Err(classify_server_failure(decode_error_body(body)));
    }
    Ok(())
}

/// A validation failure whose envelope decoded is reported with the
/// envelope's message, verbatim; one whose envelope did not decode is
/// reported with the generic bad-response text.
pub proof fn lemma_server_failure_verbatim(msg: Seq<char>)
    ensures
        forall|m: String| m@ == msg ==> spec_error_message(IndexError::Server(m)) == msg,
        spec_error_message(IndexError::BadResponse) == "Bad response from Geode Index"@,
{
}

} // verus!
