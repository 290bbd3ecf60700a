//! Reading the two HTML pages of the protocol.
use vstd::prelude::*;
use crate::error::UploadError;
use crate::pattern::{
    capture_session_id, first_session_id, is_lower_hex, is_uuid_shape, lemma_quoted_upload_path_matches,
    quoted_upload_path, SESSION_REGEX,
};

verus! {

/// CSS selector of the share-password form on the landing page.
pub const PASSWORD_FORM_SELECTOR: &'static str = "form#share-passwd-form";

/// CSS selector of the form's input that carries the anti-forgery token.
pub const TOKEN_INPUT_SELECTOR: &'static str = "input";

/// Attribute of that input that holds the token.
pub const TOKEN_ATTRIBUTE: &'static str = "value";

/// CSS selector of the script elements scanned for the upload session id.
pub const SCRIPT_SELECTOR: &'static str = "script";

/// What scraper finds in the document `html` for the selector `outer`, then
/// for `inner` inside the first element it picks, then for the attribute
/// `attr` of the first inner element: `None` when no outer element is found,
/// `Some(None)` when it holds no inner element, `Some(Some(None))` when that
/// element lacks the attribute. A selector that does not parse finds nothing.
pub uninterp spec fn nested_attr_of(
    html: Seq<char>,
    outer: Seq<char>,
    inner: Seq<char>,
    attr: Seq<char>,
) -> Option<Option<Option<Seq<char>>>>;

/// The text nodes of the elements of the document `html` that `selector`
/// picks, in the order that scraper yields them (document order).
pub uninterp spec fn selected_texts(html: Seq<char>, selector: Seq<char>) -> Seq<Seq<char>>;

pub open spec fn string_views(v: Seq<String>) -> Seq<Seq<char>> {
    v.map_values(|s: String| s@)
}

pub open spec fn nested_view(o: Option<Option<Option<String>>>) -> Option<Option<Option<Seq<char>>>> {
    match o {
        None => None,
        Some(None) => Some(None),
        Some(Some(None)) => Some(Some(None)),
        Some(Some(Some(s))) => Some(Some(Some(s@))),
    }
}

pub open spec fn result_view(r: Result<String, UploadError>) -> Result<Seq<char>, UploadError> {
    match r {
        Ok(s) => Ok(s@),
        Err(e) => Err(e),
    }
}

/// Relies on scraper's `Html::parse_document`, `Selector::parse`,
/// `Html::select`, `ElementRef::select` and `ElementRef::attr`: the attribute
/// of the first inner element of the first outer element. A selector that
/// does not parse finds nothing.
#[verifier::external_body]
fn select_nested_attr(html: &str, outer: &str, inner: &str, attr: &str) -> (r: Option<Option<Option<String>>>)
    ensures
        nested_view(r) == nested_attr_of(html@, outer@, inner@, attr@),
{
    let doc = scraper::Html::parse_document(html);
    let (Ok(outer), Ok(inner)) = (scraper::Selector::parse(outer), scraper::Selector::parse(inner)) else {
        return None;
    };
    let first = doc.select(&outer).next()?;
    Some(first.select(&inner).next().map(|e| e.attr(attr).map(String::from)))
}

/// Relies on scraper's `Html::parse_document`, `Selector::parse`,
/// `Html::select` and `ElementRef::text`: the text nodes of every element the
/// selector picks. A selector that does not parse picks nothing.
#[verifier::external_body]
fn select_texts(html: &str, selector: &str) -> (r: Vec<String>)
    ensures
        string_views(r@) == selected_texts(html@, selector@),
{
    let doc = scraper::Html::parse_document(html);
    match scraper::Selector::parse(selector) {
        Ok(sel) => doc.select(&sel).flat_map(|e| e.text()).map(String::from).collect(),
        Err(_) => Vec::new(),
    }
}

/// The outcome of reading the anti-forgery token from what the page lookup found.
pub open spec fn form_token_result(found: Option<Option<Option<Seq<char>>>>) -> Result<Seq<char>, UploadError> {
    match found {
        None => Err(UploadError::FormNotFound),
        Some(None) => Err(UploadError::InputNotFound),
        Some(Some(None)) => Err(UploadError::TokenMissing),
        Some(Some(Some(v))) => Ok(v),
    }
}

/// The anti-forgery token of the landing page `html`.
pub open spec fn form_token_of(html: Seq<char>) -> Result<Seq<char>, UploadError> {
    form_token_result(nested_attr_of(html, PASSWORD_FORM_SELECTOR@, TOKEN_INPUT_SELECTOR@, TOKEN_ATTRIBUTE@))
}

/// Turns the lookup of form, first input and `value` attribute into the token,
/// or the error that names the first missing piece.
pub fn form_token_from_lookup(found: Option<Option<Option<String>>>) -> (r: Result<String, UploadError>)
    ensures
        result_view(r) == form_token_result(nested_view(found)),
{
    match found {
        None => Err(UploadError::FormNotFound),
        Some(None) => Err(UploadError::InputNotFound),
        Some(Some(None)) => Err(UploadError::TokenMissing),
        Some(Some(Some(v))) => Ok(v),
    }
}

/// Reads the anti-forgery token from the share-password form of the landing page.
pub fn extract_form_token(html: &str) -> (r: Result<String, UploadError>)
    ensures
        result_view(r) == form_token_of(html@),
{
    let found = select_nested_attr(html, PASSWORD_FORM_SELECTOR, TOKEN_INPUT_SELECTOR, TOKEN_ATTRIBUTE);
    form_token_from_lookup(found)
}

/// The session id of the first script text, in order, in which the pattern
/// matches; `InvalidCredentials` when it matches in none.
pub open spec fn session_id_in(texts: Seq<Seq<char>>) -> Result<Seq<char>, UploadError>
    decreases texts.len(),
{
    if texts.len() == 0 {
        Err(UploadError::InvalidCredentials)
    } else {
        match first_session_id(texts[0]) {
            Some(id) => Ok(id),
            None => session_id_in(texts.drop_first()),
        }
    }
}

/// The upload session id of the authenticated page `html`.
pub open spec fn session_id_of(html: Seq<char>) -> Result<Seq<char>, UploadError> {
    session_id_in(selected_texts(html, SCRIPT_SELECTOR@))
}

/// Scans script texts in order and returns the id of the first match.
pub fn session_id_from_texts(texts: &Vec<String>) -> (r: Result<String, UploadError>)
    ensures
        result_view(r) == session_id_in(string_views(texts@)),
{
    let ghost all = string_views(texts@);
    assert(all.subrange(0, all.len() as int) =~= all);
    let mut i: usize = 0;
    while i < texts.len()
        invariant
            0 <= i <= texts.len(),
            all == string_views(texts@),
            session_id_in(all) == session_id_in(all.subrange(i as int, all.len() as int)),
        decreases texts.len() - i,
    {
        let ghost rest = all.subrange(i as int, all.len() as int);
        assert(rest[0] == texts@[i as int]@);
        assert(rest.drop_first() =~= all.subrange(i + 1, all.len() as int));
        if let Some(id) = capture_session_id(SESSION_REGEX, texts[i].as_str()) {
            return Ok(id);
        }
        i = i + 1;
    }
    assert(all.subrange(i as int, all.len() as int).len() == 0);
    Err(UploadError::InvalidCredentials)
}

/// Finds the upload session id in the inline scripts of the authenticated page.
pub fn extract_session_id(html: &str) -> (r: Result<String, UploadError>)
    ensures
        result_view(r) == session_id_of(html@),
{
    let texts = select_texts(html, SCRIPT_SELECTOR);
    session_id_from_texts(&texts)
}

/// Scripts are scanned in order: when script `k` is the first in which the
/// pattern matches, its id is the one returned, whatever follows it.
pub proof fn lemma_first_matching_script_wins(texts: Seq<Seq<char>>, k: int)
    requires
        0 <= k < texts.len(),
        first_session_id(texts[k]) is Some,
        forall|j: int| 0 <= j < k ==> first_session_id(#[trigger] texts[j]) is None,
    ensures
        session_id_in(texts) == Ok::<Seq<char>, UploadError>(first_session_id(texts[k])->0),
    decreases k,
{
    if k > 0 {
        let rest = texts.drop_first();
        assert forall|j: int| 0 <= j < k - 1 implies first_session_id(#[trigger] rest[j]) is None by {
            assert(rest[j] == texts[j + 1]);
        }
        assert(first_session_id(texts[0]) is None);
        lemma_first_matching_script_wins(rest, k - 1);
    }
}

/// A script text that is a quoted upload path with a canonical UUID, after
/// scripts in which the pattern does not match, yields exactly that UUID.
pub proof fn lemma_quoted_path_script_yields_id(texts: Seq<Seq<char>>, k: int, hex: Seq<char>, id: Seq<char>)
    requires
        0 <= k < texts.len(),
        texts[k] == quoted_upload_path(hex, id),
        hex.len() == 20,
        forall|j: int| 0 <= j < 20 ==> is_lower_hex(#[trigger] hex[j]),
        is_uuid_shape(id),
        forall|j: int| 0 <= j < k ==> first_session_id(#[trigger] texts[j]) is None,
    ensures
        session_id_in(texts) == Ok::<Seq<char>, UploadError>(id),
{
    lemma_quoted_upload_path_matches(hex, id);
    lemma_first_matching_script_wins(texts, k);
}

/// Scripts in which the pattern never matches lead to `InvalidCredentials`.
pub proof fn lemma_no_matching_script(texts: Seq<Seq<char>>)
    requires
        forall|j: int| 0 <= j < texts.len() ==> first_session_id(#[trigger] texts[j]) is None,
    ensures
        session_id_in(texts) == Err::<Seq<char>, UploadError>(UploadError::InvalidCredentials),
    decreases texts.len(),
{
    if texts.len() > 0 {
        let rest = texts.drop_first();
        assert forall|j: int| 0 <= j < rest.len() implies first_session_id(#[trigger] rest[j]) is None by {
            assert(rest[j] == texts[j + 1]);
        }
        assert(first_session_id(texts[0]) is None);
        lemma_no_matching_script(rest);
    }
}

} // verus!
