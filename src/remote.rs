use vstd::prelude::*;

use crate::text::{decimal, to_decimal};

verus! {

/// What a JSON document holds at one place, as far as the subtitle protocol reads it.
#[derive(Debug, PartialEq, Eq)]
pub enum JsonItem {
    /// An array, with its length.
    Array(usize),
    /// A number that is a non-negative integer fitting in 64 bits.
    UInt(u64),
    /// A string.
    Text(String),
    /// Anything else: null, a boolean, an object, or another number.
    Other,
}

/// What `text`, parsed as JSON, holds at the JSON Pointer (RFC 6901) `pointer`;
/// `None` where `text` is not JSON or nothing is there.
pub uninterp spec fn json_item_at(text: Seq<char>, pointer: Seq<char>) -> Option<JsonItem>;

/// Relies on serde_json::from_str, to parse `text` into a `serde_json::Value`, and on
/// `Value::pointer`, to look up `pointer` in it; both depend on their arguments alone.
#[verifier::external_body]
fn json_at(text: &str, pointer: &str) -> (r: Option<JsonItem>)
    ensures
        r == json_item_at(text@, pointer@),
{
    let value: serde_json::Value = serde_json::from_str(text).ok()?;
    Some(match value.pointer(pointer)? {
        serde_json::Value::Array(a) => JsonItem::Array(a.len()),
        serde_json::Value::Number(n) => n.as_u64().map_or(JsonItem::Other, JsonItem::UInt),
        serde_json::Value::String(s) => JsonItem::Text(s.clone()),
        _ => JsonItem::Other,
    })
}

/// The URL that `base` names with `pairs` appended as its form-encoded query;
/// `None` where `base` is not a URL.
pub uninterp spec fn url_with_query(base: Seq<char>, pairs: Seq<(Seq<char>, Seq<char>)>) -> Option<
    Seq<char>,
>;

/// The view of a list of query pairs.
pub open spec fn pairs_view(pairs: Seq<(String, String)>) -> Seq<(Seq<char>, Seq<char>)> {
    pairs.map_values(|p: (String, String)| (p.0@, p.1@))
}

/// Relies on reqwest::Url::parse_with_params, to parse `base` and append `pairs`
/// as its query, and on the URL's serialisation; both depend on their arguments alone.
#[verifier::external_body]
fn url_with_params(base: &str, pairs: &Vec<(String, String)>) -> (r: Option<String>)
    ensures
        match r {
            Some(u) => url_with_query(base@, pairs_view(pairs@)) == Some(u@),
            None => url_with_query(base@, pairs_view(pairs@)) is None,
        },
{
    reqwest::Url::parse_with_params(base, pairs.iter()).ok().map(|u| u.to_string())
}

/// A response of the service that does not have the shape the protocol fixes.
#[derive(Clone, Copy, Debug, PartialEq, Eq, Structural)]
pub enum ProtocolError {
    /// The lookup response lacks a `data` array, or an element of it lacks a file id.
    MissingFileIds,
    /// The download response lacks a `link` string.
    MissingLink,
}

/// The endpoint that maps a fingerprint to subtitle candidates.
pub open spec fn lookup_endpoint() -> Seq<char> {
    "https://api.opensubtitles.com/api/v1/subtitles"@
}

/// The endpoint that resolves a file id to a download link.
pub open spec fn download_endpoint() -> Seq<char> {
    "https://api.opensubtitles.com/api/v1/download"@
}

/// The query of a lookup for fingerprint `hash`: English subtitles, machine and AI
/// translations included.
pub open spec fn lookup_query(hash: Seq<char>) -> Seq<(Seq<char>, Seq<char>)> {
    seq![
        ("moviehash"@, hash),
        ("languages"@, "en"@),
        ("ai_translated"@, "include"@),
        ("machine_translated"@, "include"@),
    ]
}

fn pair(k: &str, v: &str) -> (r: (String, String))
    ensures
        r.0@ == k@,
        r.1@ == v@,
{
    (String::from_str(k), String::from_str(v))
}

/// The URL of the lookup request for fingerprint `hash`.
pub fn lookup_url(hash: &str) -> (r: Option<String>)
    ensures
        match r {
            Some(u) => url_with_query(lookup_endpoint(), lookup_query(hash@)) == Some(u@),
            None => url_with_query(lookup_endpoint(), lookup_query(hash@)) is None,
        },
{
    let mut pairs: Vec<(String, String)> = Vec::new();
    pairs.push(pair("moviehash", hash));
    pairs.push(pair("languages", "en"));
    pairs.push(pair("ai_translated", "include"));
    pairs.push(pair("machine_translated", "include"));
    assert(pairs_view(pairs@) =~= lookup_query(hash@));
    url_with_params("https://api.opensubtitles.com/api/v1/subtitles", &pairs)
}

/// The URL of the download-resolution request.
pub fn download_url() -> (r: String)
    ensures
        r@ == download_endpoint(),
{
    String::from_str("https://api.opensubtitles.com/api/v1/download")
}

/// The JSON Pointer to the file id of the `i`-th element of a lookup response.
pub open spec fn file_id_pointer(i: nat) -> Seq<char> {
    "/data/"@ + decimal(i) + "/attributes/files/0/file_id"@
}

fn file_id_pointer_of(i: u64) -> (r: String)
    ensures
        r@ == file_id_pointer(i as nat),
{
    let mut p = String::from_str("/data/");
    let d = to_decimal(i);
    p.append(d.as_str());
    p.append("/attributes/files/0/file_id");
    p
}

/// The file id of the `i`-th element of lookup response `body`, if it has one.
pub open spec fn file_id_at(body: Seq<char>, i: nat) -> Option<u64> {
    match json_item_at(body, file_id_pointer(i)) {
        Some(JsonItem::UInt(id)) => Some(id),
        _ => None,
    }
}

/// The file ids of lookup response `body`, in the service's order: one for each
/// element of its `data` array, taken from the element's first file. `None` where
/// `data` is not an array or an element has no such id.
pub open spec fn file_ids_of(body: Seq<char>) -> Option<Seq<u64>> {
    match json_item_at(body, "/data"@) {
        Some(JsonItem::Array(n)) => if forall|i: nat| i < n ==> (#[trigger] file_id_at(body, i)) is Some {
            Some(Seq::new(n as nat, |i: int| file_id_at(body, i as nat)->Some_0))
        } else {
            None
        },
        _ => None,
    }
}

/// Extracts the candidate file ids from the body of a lookup response.
pub fn file_ids(body: &str) -> (r: Result<Vec<u64>, ProtocolError>)
    ensures
        match r {
            Ok(ids) => file_ids_of(body@) == Some(ids@),
            Err(e) => file_ids_of(body@) is None && e == ProtocolError::MissingFileIds,
        },
{
    let n = match json_at(body, "/data") {
        Some(JsonItem::Array(n)) => n,
        _ => return Err(ProtocolError::MissingFileIds),
    };
    let mut ids: Vec<u64> = Vec::new();
    let mut i: usize = 0;
    while i < n
        invariant
            i <= n,
            json_item_at(body@, "/data"@) == Some(JsonItem::Array(n)),
            ids@.len() == i,
            forall|k: int| 0 <= k < i ==> file_id_at(body@, k as nat) == Some(#[trigger] ids@[k]),
        decreases n - i,
    {
        let p = file_id_pointer_of(i as u64);
        match json_at(body, p.as_str()) {
            Some(JsonItem::UInt(id)) => ids.push(id),
            _ => {
                assert(file_id_at(body@, i as nat) is None);
                return Err(ProtocolError::MissingFileIds);
            },
        }
        i = i + 1;
    }
    assert forall|k: nat| k < n implies (#[trigger] file_id_at(body@, k)) is Some by {
        assert(file_id_at(body@, (k as int) as nat) == Some(ids@[k as int]));
    }
    assert(ids@ =~= Seq::new(n as nat, |k: int| file_id_at(body@, k as nat)->Some_0));
    Ok(ids)
}

/// The body of the download-resolution request for `file_id`: `{"file_id":<id>}`.
pub open spec fn download_body_of(file_id: u64) -> Seq<char> {
    "{\"file_id\":"@ + decimal(file_id as nat) + "}"@
}

/// Builds the JSON body of the download-resolution request for `file_id`.
pub fn download_request_body(file_id: u64) -> (r: String)
    ensures
        r@ == download_body_of(file_id),
{
    let mut b = String::from_str("{\"file_id\":");
    let d = to_decimal(file_id);
    b.append(d.as_str());
    b.append("}");
    b
}

/// The download link in download-resolution response `body`, if it has one.
pub open spec fn link_of(body: Seq<char>) -> Option<Seq<char>> {
    match json_item_at(body, "/link"@) {
        Some(JsonItem::Text(s)) => Some(s@),
        _ => None,
    }
}

/// Extracts the download link from the body of a download-resolution response.
pub fn download_link(body: &str) -> (r: Result<String, ProtocolError>)
    ensures
        match r {
            Ok(s) => link_of(body@) == Some(s@),
            Err(e) => link_of(body@) is None && e == ProtocolError::MissingLink,
        },
{
    match json_at(body, "/link") {
        Some(JsonItem::Text(s)) => Ok(s),
        _ => Err(ProtocolError::MissingLink),
    }
}

} // verus!
