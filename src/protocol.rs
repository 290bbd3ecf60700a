//! The addresses and request contents of the share-folder protocol.
use vstd::prelude::*;

verus! {

/// Root of the file-sharing service.
pub const BASE_URL: &'static str = "https://cloud.tsinghua.edu.cn";

/// Header, and its value, that marks the upload-link request as a script call.
pub const AJAX_HEADER_NAME: &'static str = "X-Requested-With";
pub const AJAX_HEADER_VALUE: &'static str = "XMLHttpRequest";

/// Folder of the share into which the file is put.
pub const UPLOAD_PARENT_DIR: &'static str = "/";

/// Names of the multipart fields of the upload.
pub const PARENT_DIR_FIELD: &'static str = "parent_dir";
pub const FILE_FIELD: &'static str = "file";

/// Names of the fields of the password form.
pub const CSRF_FIELD: &'static str = "csrfmiddlewaretoken";
pub const TOKEN_FIELD: &'static str = "token";
pub const PASSWORD_FIELD: &'static str = "password";

pub open spec fn digit_char(d: nat) -> char {
    seq!['0', '1', '2', '3', '4', '5', '6', '7', '8', '9'][d as int]
}

/// The decimal digits of `n`, without sign or leading zeros.
pub open spec fn decimal(n: nat) -> Seq<char>
    decreases n,
{
    if n < 10 {
        seq![digit_char(n)]
    } else {
        decimal(n / 10).push(digit_char(n % 10))
    }
}

/// Relies on std's `ToString` through `Display` for `u64`, which writes the
/// number in decimal.
#[verifier::external_body]
pub(crate) fn decimal_text(n: u64) -> (r: String)
    ensures
        r@ == decimal(n as nat),
{
    n.to_string()
}

/// Address of the landing page of the share `token`; the password form is
/// posted back to it.
pub open spec fn share_page_url(token: Seq<char>) -> Seq<char> {
    BASE_URL@ + "/u/d/"@ + token + "/"@
}

/// Address of the endpoint that hands out an upload URL for the session
/// `session_id`; `millis` keeps caches from answering it.
pub open spec fn upload_link_url(token: Seq<char>, session_id: Seq<char>, millis: nat) -> Seq<char> {
    BASE_URL@ + "/ajax/u/d/"@ + token + "/upload/?r="@ + session_id + "&_="@ + decimal(millis)
}

pub fn share_page(token: &str) -> (r: String)
    ensures
        r@ == share_page_url(token@),
{
    let mut s = String::from_str(BASE_URL);
    s.append("/u/d/");
    s.append(token);
    s.append("/");
    s
}

pub fn upload_link(token: &str, session_id: &str, millis: u64) -> (r: String)
    ensures
        r@ == upload_link_url(token@, session_id@, millis as nat),
{
    let mut s = String::from_str(BASE_URL);
    s.append("/ajax/u/d/");
    s.append(token);
    s.append("/upload/?r=");
    s.append(session_id);
    s.append("&_=");
    let digits = decimal_text(millis);
    s.append(digits.as_str());
    s
}

pub open spec fn field_views(v: Seq<(String, String)>) -> Seq<(Seq<char>, Seq<char>)> {
    v.map_values(|f: (String, String)| (f.0@, f.1@))
}

/// The form-encoded fields of the password submission.
pub open spec fn password_fields(csrf: Seq<char>, token: Seq<char>, password: Seq<char>) -> Seq<(Seq<char>, Seq<char>)> {
    seq![(CSRF_FIELD@, csrf), (TOKEN_FIELD@, token), (PASSWORD_FIELD@, password)]
}

/// Builds the fields of the password submission; any password, the empty one
/// included, is sent as it is.
pub fn password_form(csrf: &str, token: &str, password: &str) -> (r: Vec<(String, String)>)
    ensures
        field_views(r@) == password_fields(csrf@, token@, password@),
{
    let mut v: Vec<(String, String)> = Vec::new();
    v.push((String::from_str(CSRF_FIELD), String::from_str(csrf)));
    v.push((String::from_str(TOKEN_FIELD), String::from_str(token)));
    v.push((String::from_str(PASSWORD_FIELD), String::from_str(password)));
    assert(field_views(v@) =~= password_fields(csrf@, token@, password@));
    v
}

} // verus!
