//! Reading the JSON answers of the upload endpoints.
use vstd::prelude::*;
use crate::error::UploadError;
use crate::protocol::{decimal, decimal_text};

verus! {

/// Member of the upload-link answer that holds the upload URL.
pub const URL_MEMBER: &'static str = "url";

/// Members of one entry of the upload answer.
pub const NAME_MEMBER: &'static str = "name";
pub const ID_MEMBER: &'static str = "id";
pub const SIZE_MEMBER: &'static str = "size";

/// The string held by member `key` of the JSON object `body`, as serde_json
/// reads it; `None` when `body` is no JSON object or the member is absent or
/// no string.
pub uninterp spec fn json_str_member(body: Seq<char>, key: Seq<char>) -> Option<Seq<char>>;

/// The unsigned integer held by member `key` of the JSON object `body`, as
/// serde_json reads it; `None` when there is none that fits in 64 bits.
pub uninterp spec fn json_u64_member(body: Seq<char>, key: Seq<char>) -> Option<u64>;

/// The elements of the JSON array `body`, each written back as JSON text by
/// serde_json; `None` when `body` is no JSON array.
pub uninterp spec fn json_array_elements(body: Seq<char>) -> Option<Seq<Seq<char>>>;

/// Relies on `serde_json::from_str` into a `serde_json::Value`,
/// `Value::get` and `Value::as_str`.
#[verifier::external_body]
fn json_string_member(body: &str, key: &str) -> (r: Option<String>)
    ensures
        match json_str_member(body@, key@) {
            Some(s) => r is Some && r->0@ == s,
            None => r is None,
        },
{
    let v: serde_json::Value = serde_json::from_str(body).ok()?;
    v.get(key)?.as_str().map(String::from)
}

/// Relies on `serde_json::from_str` into a `serde_json::Value`,
/// `Value::get` and `Value::as_u64`.
#[verifier::external_body]
fn json_unsigned_member(body: &str, key: &str) -> (r: Option<u64>)
    ensures
        r == json_u64_member(body@, key@),
{
    let v: serde_json::Value = serde_json::from_str(body).ok()?;
    v.get(key)?.as_u64()
}

/// Relies on `serde_json::from_str` into a `serde_json::Value`,
/// `Value::as_array`, and `Value`'s `to_string` for each element.
#[verifier::external_body]
fn json_array_texts(body: &str) -> (r: Option<Vec<String>>)
    ensures
        match json_array_elements(body@) {
            Some(items) => r is Some && r->0@.map_values(|s: String| s@) == items,
            None => r is None,
        },
{
    let v: serde_json::Value = serde_json::from_str(body).ok()?;
    Some(v.as_array()?.iter().map(|e| e.to_string()).collect())
}

/// The upload URL named by the answer of the upload-link endpoint.
pub open spec fn upload_url_of(body: Seq<char>) -> Result<Seq<char>, UploadError> {
    match json_str_member(body, URL_MEMBER@) {
        Some(u) => Ok(u),
        None => Err(UploadError::MalformedResponse),
    }
}

/// Turns the `url` member, when there is one, into the upload URL.
pub fn url_from_member(member: Option<String>) -> (r: Result<String, UploadError>)
    ensures
        match member {
            Some(u) => r == Ok::<String, UploadError>(u),
            None => r == Err::<String, UploadError>(UploadError::MalformedResponse),
        },
{
    match member {
        Some(u) => Ok(u),
        None => Err(UploadError::MalformedResponse),
    }
}

/// Reads the upload URL from the answer of the upload-link endpoint.
pub fn parse_upload_url(body: &str) -> (r: Result<String, UploadError>)
    ensures
        match upload_url_of(body@) {
            Ok(u) => r is Ok && r->Ok_0@ == u,
            Err(e) => r == Err::<String, UploadError>(e),
        },
{
    url_from_member(json_string_member(body, URL_MEMBER))
}

/// One file entry of the upload answer.
pub struct UploadResult {
    pub id: String,
    pub name: String,
    pub size: u64,
}

impl UploadResult {
    pub open spec fn view(&self) -> (Seq<char>, Seq<char>, u64) {
        (self.id@, self.name@, self.size)
    }

    /// The entry as one line: id, name and size separated by single spaces.
    pub fn summary(&self) -> (r: String)
        ensures
            r@ == self.id@ + " "@ + self.name@ + " "@ + decimal(self.size as nat),
    {
        let mut s = self.id.clone();
        s.append(" ");
        s.append(self.name.as_str());
        s.append(" ");
        let digits = decimal_text(self.size);
        s.append(digits.as_str());
        s
    }
}

/// The entry `(id, name, size)` described by the JSON object `item`, when all
/// three members are present with the right types.
pub open spec fn entry_of(item: Seq<char>) -> Option<(Seq<char>, Seq<char>, u64)> {
    match (json_str_member(item, ID_MEMBER@), json_str_member(item, NAME_MEMBER@), json_u64_member(item, SIZE_MEMBER@)) {
        (Some(id), Some(name), Some(size)) => Some((id, name, size)),
        _ => None,
    }
}

/// The entries of the upload answer `body`, in order; `MalformedResponse`
/// when it is no array or one element is no well-formed entry.
pub open spec fn entries_of(body: Seq<char>) -> Result<Seq<(Seq<char>, Seq<char>, u64)>, UploadError> {
    match json_array_elements(body) {
        None => Err(UploadError::MalformedResponse),
        Some(items) => if forall|k: int| 0 <= k < items.len() ==> (#[trigger] entry_of(items[k])) is Some {
            Ok(items.map_values(|item: Seq<char>| entry_of(item)->0))
        } else {
            Err(UploadError::MalformedResponse)
        },
    }
}

pub open spec fn entry_views(v: Seq<UploadResult>) -> Seq<(Seq<char>, Seq<char>, u64)> {
    v.map_values(|e: UploadResult| e.view())
}

/// Builds an entry from its three members, when all are present.
pub fn entry_from_members(id: Option<String>, name: Option<String>, size: Option<u64>) -> (r: Option<UploadResult>)
    ensures
        match (id, name, size) {
            (Some(i), Some(n), Some(s)) => r is Some && r->0.view() == (i@, n@, s),
            _ => r is None,
        },
{
    match (id, name, size) {
        (Some(id), Some(name), Some(size)) => Some(UploadResult { id, name, size }),
        _ => None,
    }
}

/// Reads the entries of the upload answer.
pub fn parse_upload_entries(body: &str) -> (r: Result<Vec<UploadResult>, UploadError>)
    ensures
        match entries_of(body@) {
            Ok(es) => r is Ok && entry_views(r->Ok_0@) == es,
            Err(e) => r is Err && r->Err_0 == e,
        },
{
    let items = match json_array_texts(body) {
        Some(items) => items,
        None => return Err(UploadError::MalformedResponse),
    };
    let ghost views = items@.map_values(|s: String| s@);
    let mut out: Vec<UploadResult> = Vec::new();
    let mut i: usize = 0;
    while i < items.len()
        invariant
            0 <= i <= items.len(),
            views == items@.map_values(|s: String| s@),
            json_array_elements(body@) == Some(views),
            out@.len() == i,
            forall|k: int| 0 <= k < i ==> (#[trigger] entry_of(views[k])) is Some,
            forall|k: int| 0 <= k < i ==> #[trigger] out@[k].view() == entry_of(views[k])->0,
        decreases items.len() - i,
    {
        let item = items[i].as_str();
        let id = json_string_member(item, ID_MEMBER);
        let name = json_string_member(item, NAME_MEMBER);
        let size = json_unsigned_member(item, SIZE_MEMBER);
        assert(views[i as int] == item@);
        match entry_from_members(id, name, size) {
            Some(e) => out.push(e),
            None => {
                assert(entry_of(views[i as int]) is None);
                return Err(UploadError::MalformedResponse);
            },
        }
        i = i + 1;
    }
    assert(entry_views(out@) =~= views.map_values(|item: Seq<char>| entry_of(item)->0));
    Ok(out)
}

/// Takes the last entry of the upload answer; an empty answer means that the
/// upload failed.
pub fn last_upload_result(entries: Vec<UploadResult>) -> (r: Result<UploadResult, UploadError>)
    ensures
        entries@.len() == 0 ==> r is Err && r->Err_0 == UploadError::EmptyResponse,
        entries@.len() > 0 ==> r is Ok && r->Ok_0.view() == entries@.last().view(),
{
    let mut entries = entries;
    match entries.pop() {
        Some(e) => Ok(e),
        None => Err(UploadError::EmptyResponse),
    }
}

/// The file entry that the upload answer `body` reports.
pub open spec fn upload_result_of(body: Seq<char>) -> Result<(Seq<char>, Seq<char>, u64), UploadError> {
    match entries_of(body) {
        Err(e) => Err(e),
        Ok(es) => if es.len() == 0 {
            Err(UploadError::EmptyResponse)
        } else {
            Ok(es.last())
        },
    }
}

/// Reads the upload answer and returns its last entry.
pub fn parse_upload_result(body: &str) -> (r: Result<UploadResult, UploadError>)
    ensures
        match upload_result_of(body@) {
            Ok(v) => r is Ok && r->Ok_0.view() == v,
            Err(e) => r is Err && r->Err_0 == e,
        },
{
    let entries = parse_upload_entries(body)?;
    last_upload_result(entries)
}

} // verus!
