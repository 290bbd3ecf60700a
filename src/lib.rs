//! Uploads a file into a password-protected shared folder of a web file-sharing
//! service, by replaying the requests that a browser makes.
//!
//! The library holds the protocol: the addresses and form fields it sends, the
//! extraction of the anti-forgery token and the upload session id from the
//! pages it receives, the parsing of the JSON answers, and the state machine
//! that chains the stages. Performing the requests is left to the caller.
pub mod error;
pub mod html;
pub mod pattern;
pub mod pipeline;
pub mod protocol;
pub mod response;

pub use error::UploadError;
pub use html::{extract_form_token, extract_session_id};
pub use pipeline::{Action, Event, Phase, Pipeline};
pub use response::{parse_upload_result, parse_upload_url, UploadResult};
