use share_upload::html::{form_token_from_lookup, session_id_from_texts};
use share_upload::{extract_form_token, extract_session_id, UploadError};

const SESSION: &str = "12345678-1234-1234-1234-123456789012";

fn script_with(id: &str) -> String {
    format!(
        "<script>var opts = {{ uploadUrl: '/ajax/u/d/0123456789abcdef0123/upload/?r={}' }};</script>",
        id
    )
}

fn page(body: &str) -> String {
    format!("<!DOCTYPE html><html><head><title>share</title></head><body>{}</body></html>", body)
}

#[test]
fn form_token_is_value_of_first_input() {
    let html = page(
        "<form id=\"share-passwd-form\" method=\"post\">\
         <input type=\"hidden\" name=\"csrfmiddlewaretoken\" value=\"tok-42XY\">\
         <input type=\"password\" name=\"password\" value=\"other\"></form>",
    );
    assert_eq!(extract_form_token(&html), Ok("tok-42XY".to_string()));
}

#[test]
fn form_token_missing_form() {
    let html = page("<form id=\"login\"><input value=\"x\"></form>");
    assert_eq!(extract_form_token(&html), Err(UploadError::FormNotFound));
}

#[test]
fn form_token_missing_input() {
    let html = page("<form id=\"share-passwd-form\"><button>go</button></form>");
    assert_eq!(extract_form_token(&html), Err(UploadError::InputNotFound));
}

#[test]
fn form_token_missing_value() {
    let html = page("<form id=\"share-passwd-form\"><input name=\"csrfmiddlewaretoken\"></form>");
    assert_eq!(extract_form_token(&html), Err(UploadError::TokenMissing));
}

#[test]
fn form_token_from_each_lookup() {
    assert_eq!(form_token_from_lookup(None), Err(UploadError::FormNotFound));
    assert_eq!(form_token_from_lookup(Some(None)), Err(UploadError::InputNotFound));
    assert_eq!(form_token_from_lookup(Some(Some(None))), Err(UploadError::TokenMissing));
    assert_eq!(form_token_from_lookup(Some(Some(Some("v".to_string())))), Ok("v".to_string()));
}

#[test]
fn session_id_found_in_script() {
    let html = page(&script_with(SESSION));
    assert_eq!(extract_session_id(&html), Ok(SESSION.to_string()));
}

#[test]
fn session_id_absent_means_bad_credentials() {
    let html = page("<script>var x = 1;</script><p>Please enter the password</p>");
    assert_eq!(extract_session_id(&html), Err(UploadError::InvalidCredentials));
}

#[test]
fn session_id_with_wrong_group_lengths_does_not_match() {
    for id in [
        "1234567-1234-1234-1234-123456789012",
        "12345678-123-1234-1234-123456789012",
        "12345678-1234-12345-1234-123456789012",
        "12345678-1234-1234-123-123456789012",
        "12345678-1234-1234-1234-1234567890123",
        "12345678-1234-1234-1234-12345678901",
    ] {
        let html = page(&script_with(id));
        assert_eq!(extract_session_id(&html), Err(UploadError::InvalidCredentials), "{}", id);
    }
}

#[test]
fn session_id_upper_case_hex_does_not_match() {
    let html = page(&script_with("ABCDEF12-1234-1234-1234-123456789012"));
    assert_eq!(extract_session_id(&html), Err(UploadError::InvalidCredentials));
}

#[test]
fn session_id_needs_quotes_and_placeholder() {
    let unquoted = page(&format!(
        "<script>u = /ajax/u/d/0123456789abcdef0123/upload/?r={};</script>",
        SESSION
    ));
    assert_eq!(extract_session_id(&unquoted), Err(UploadError::InvalidCredentials));
    let short = page(&format!(
        "<script>u = '/ajax/u/d/0123456789abcdef012/upload/?r={}';</script>",
        SESSION
    ));
    assert_eq!(extract_session_id(&short), Err(UploadError::InvalidCredentials));
}

#[test]
fn session_id_from_second_script() {
    let html = page(&format!(
        "<script>var first = '/ajax/u/d/short/upload/?r=nope';</script>{}",
        script_with("abcdef01-2345-6789-abcd-ef0123456789")
    ));
    assert_eq!(
        extract_session_id(&html),
        Ok("abcdef01-2345-6789-abcd-ef0123456789".to_string())
    );
}

#[test]
fn session_id_first_script_wins() {
    let html = page(&format!(
        "{}{}",
        script_with("11111111-2222-3333-4444-555555555555"),
        script_with("aaaaaaaa-bbbb-cccc-dddd-eeeeeeeeeeee")
    ));
    assert_eq!(
        extract_session_id(&html),
        Ok("11111111-2222-3333-4444-555555555555".to_string())
    );
}

#[test]
fn session_id_from_texts_in_order() {
    let texts = vec![
        "nothing here".to_string(),
        format!("x = '/ajax/u/d/0123456789abcdef0123/upload/?r={}';", SESSION),
    ];
    assert_eq!(session_id_from_texts(&texts), Ok(SESSION.to_string()));
    assert_eq!(session_id_from_texts(&Vec::new()), Err(UploadError::InvalidCredentials));
}
