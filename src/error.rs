use vstd::prelude::*;

verus! {

/// Why an upload failed; each variant is tied to the stage that reports it.
#[derive(Clone, Copy, Debug, PartialEq, Eq)]
pub enum UploadError {
    /// A request failed in transport or was answered with an error status.
    Network,
    /// A page could not be read as HTML.
    Parse,
    /// The share-password form is absent from the landing page.
    FormNotFound,
    /// The share-password form holds no input element.
    InputNotFound,
    /// The first input of the form carries no `value` attribute.
    TokenMissing,
    /// No script of the authenticated page names an upload session: the
    /// password or the share token is wrong.
    InvalidCredentials,
    /// A JSON answer does not have the expected shape.
    MalformedResponse,
    /// The upload answer lists no file.
    EmptyResponse,
    /// The local file to upload does not exist.
    FileNotFound,
}

/// The text by which each failure is reported.
pub open spec fn message_of(e: UploadError) -> Seq<char> {
    match e {
        UploadError::Network => "network request failed"@,
        UploadError::Parse => "page is not valid HTML"@,
        UploadError::FormNotFound => "no such form"@,
        UploadError::InputNotFound => "no such input"@,
        UploadError::TokenMissing => "no csrfmiddlewaretoken"@,
        UploadError::InvalidCredentials => "invalid token/password"@,
        UploadError::MalformedResponse => "malformed response"@,
        UploadError::EmptyResponse => "file upload failed"@,
        UploadError::FileNotFound => "no such file"@,
    }
}

impl UploadError {
    /// A short human-readable description of the failure.
    pub fn message(&self) -> (r: &'static str)
        ensures
            r@ == message_of(*self),
    {
        match self {
            UploadError::Network => "network request failed",
            UploadError::Parse => "page is not valid HTML",
            UploadError::FormNotFound => "no such form",
            UploadError::InputNotFound => "no such input",
            UploadError::TokenMissing => "no csrfmiddlewaretoken",
            UploadError::InvalidCredentials => "invalid token/password",
            UploadError::MalformedResponse => "malformed response",
            UploadError::EmptyResponse => "file upload failed",
            UploadError::FileNotFound => "no such file",
        }
    }
}

} // verus!
