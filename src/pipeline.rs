//! The upload as a state machine: the caller performs each action it returns
//! and reports what came of it as the next event.
use vstd::prelude::*;
use crate::error::UploadError;
use crate::html::{
    extract_form_token, extract_session_id, form_token_of, lemma_no_matching_script, selected_texts,
    session_id_of, SCRIPT_SELECTOR,
};
use crate::pattern::first_session_id;
use crate::protocol::{
    field_views, password_fields, password_form, share_page, share_page_url, upload_link,
    upload_link_url, UPLOAD_PARENT_DIR,
};
use crate::response::{parse_upload_result, parse_upload_url, upload_result_of, upload_url_of, UploadResult};

verus! {

/// Where the upload stands.
#[derive(Clone, Copy, Debug, PartialEq, Eq)]
pub enum Phase {
    /// Nothing done yet; the local file is checked first.
    Start,
    /// The landing page has been requested.
    FetchingPage,
    /// The password has been posted.
    SubmittingPassword,
    /// The upload link has been requested.
    ResolvingUploadUrl,
    /// The file has been sent.
    Uploading,
    /// The upload succeeded.
    Done,
    /// A stage failed; nothing more is done.
    Failed,
}

/// What the caller reports after performing an action.
pub enum Event {
    /// Whether the local file exists.
    FileChecked { exists: bool },
    /// The landing page, and the password that the user typed.
    FirstPage { html: String, password: String },
    /// The page answered to the password, and the time in milliseconds since
    /// the Unix epoch.
    AuthenticatedPage { html: String, millis: u64 },
    /// The answer of the upload-link endpoint.
    UploadLink { body: String },
    /// The answer of the upload.
    UploadAnswer { body: String },
    /// The pending request failed.
    NetworkFailure,
}

/// What the caller is to do next.
pub enum Action {
    /// GET `url`.
    Fetch { url: String },
    /// POST the form-encoded `fields` to `url`.
    SubmitPassword { url: String, fields: Vec<(String, String)> },
    /// GET `url` as a script call.
    RequestUploadLink { url: String },
    /// POST the file to `url` as multipart, into the folder `parent_dir`.
    Upload { url: String, parent_dir: String },
    /// Report this entry: the upload is complete.
    Finish(UploadResult),
    /// Report this error: the upload failed.
    Abort(UploadError),
}

/// The events that are awaited in `phase`.
pub open spec fn accepts(phase: Phase, ev: Event) -> bool {
    match ev {
        Event::FileChecked { .. } => phase == Phase::Start,
        Event::FirstPage { .. } => phase == Phase::FetchingPage,
        Event::AuthenticatedPage { .. } => phase == Phase::SubmittingPassword,
        Event::UploadLink { .. } => phase == Phase::ResolvingUploadUrl,
        Event::UploadAnswer { .. } => phase == Phase::Uploading,
        Event::NetworkFailure => phase == Phase::FetchingPage || phase == Phase::SubmittingPassword
            || phase == Phase::ResolvingUploadUrl || phase == Phase::Uploading,
    }
}

pub open spec fn is_abort(a: Action, e: UploadError) -> bool {
    match a {
        Action::Abort(x) => x == e,
        _ => false,
    }
}

/// The move from an awaited event for the share `token`: the next phase and the action.
pub open spec fn transition(token: Seq<char>, ev: Event, next: Phase, a: Action) -> bool {
    match ev {
        Event::FileChecked { exists } => if exists {
            next == Phase::FetchingPage && match a {
                Action::Fetch { url } => url@ == share_page_url(token),
                _ => false,
            }
        } else {
            next == Phase::Failed && is_abort(a, UploadError::FileNotFound)
        },
        Event::FirstPage { html, password } => match form_token_of(html@) {
            Ok(csrf) => next == Phase::SubmittingPassword && match a {
                Action::SubmitPassword { url, fields } => url@ == share_page_url(token)
                    && field_views(fields@) == password_fields(csrf, token, password@),
                _ => false,
            },
            Err(e) => next == Phase::Failed && is_abort(a, e),
        },
        Event::AuthenticatedPage { html, millis } => match session_id_of(html@) {
            Ok(id) => next == Phase::ResolvingUploadUrl && match a {
                Action::RequestUploadLink { url } => url@ == upload_link_url(token, id, millis as nat),
                _ => false,
            },
            Err(e) => next == Phase::Failed && is_abort(a, e),
        },
        Event::UploadLink { body } => match upload_url_of(body@) {
            Ok(u) => next == Phase::Uploading && match a {
                Action::Upload { url, parent_dir } => url@ == u && parent_dir@ == UPLOAD_PARENT_DIR@,
                _ => false,
            },
            Err(e) => next == Phase::Failed && is_abort(a, e),
        },
        Event::UploadAnswer { body } => match upload_result_of(body@) {
            Ok(v) => next == Phase::Done && match a {
                Action::Finish(r) => r.view() == v,
                _ => false,
            },
            Err(e) => next == Phase::Failed && is_abort(a, e),
        },
        Event::NetworkFailure => next == Phase::Failed && is_abort(a, UploadError::Network),
    }
}

/// One upload into the share named by `token`.
pub struct Pipeline {
    pub token: String,
    pub phase: Phase,
}

impl Pipeline {
    pub fn new(token: String) -> (r: Pipeline)
        ensures
            r.token == token,
            r.phase == Phase::Start,
    {
        Pipeline { token, phase: Phase::Start }
    }

    /// Whether `ev` is awaited now.
    pub fn accepts(&self, ev: &Event) -> (r: bool)
        ensures
            r == accepts(self.phase, *ev),
    {
        match ev {
            Event::FileChecked { .. } => matches!(self.phase, Phase::Start),
            Event::FirstPage { .. } => matches!(self.phase, Phase::FetchingPage),
            Event::AuthenticatedPage { .. } => matches!(self.phase, Phase::SubmittingPassword),
            Event::UploadLink { .. } => matches!(self.phase, Phase::ResolvingUploadUrl),
            Event::UploadAnswer { .. } => matches!(self.phase, Phase::Uploading),
            Event::NetworkFailure => matches!(
                self.phase,
                Phase::FetchingPage | Phase::SubmittingPassword | Phase::ResolvingUploadUrl | Phase::Uploading
            ),
        }
    }

    fn fail(&mut self, e: UploadError) -> (a: Action)
        ensures
            final(self).token == old(self).token,
            final(self).phase == Phase::Failed,
            is_abort(a, e),
    {
        self.phase = Phase::Failed;
        Action::Abort(e)
    }

    /// Takes in the outcome of the last action and decides the next one.
    pub fn step(&mut self, ev: Event) -> (a: Action)
        requires
            accepts(old(self).phase, ev),
        ensures
            final(self).token == old(self).token,
            transition(old(self).token@, ev, final(self).phase, a),
    {
        match ev {
            Event::FileChecked { exists } => {
                if exists {
                    self.phase = Phase::FetchingPage;
                    Action::Fetch { url: share_page(self.token.as_str()) }
                } else {
                    self.fail(UploadError::FileNotFound)
                }
            },
            Event::FirstPage { html, password } => {
                let r = extract_form_token(html.as_str());
                match r {
                    Ok(csrf) => {
                        self.phase = Phase::SubmittingPassword;
                        let url = share_page(self.token.as_str());
                        let fields = password_form(csrf.as_str(), self.token.as_str(), password.as_str());
                        Action::SubmitPassword { url, fields }
                    },
                    Err(e) => self.fail(e),
                }
            },
            Event::AuthenticatedPage { html, millis } => {
                let r = extract_session_id(html.as_str());
                match r {
                    Ok(id) => {
                        self.phase = Phase::ResolvingUploadUrl;
                        Action::RequestUploadLink { url: upload_link(self.token.as_str(), id.as_str(), millis) }
                    },
                    Err(e) => self.fail(e),
                }
            },
            Event::UploadLink { body } => {
                match parse_upload_url(body.as_str()) {
                    Ok(url) => {
                        self.phase = Phase::Uploading;
                        Action::Upload { url, parent_dir: String::from_str(UPLOAD_PARENT_DIR) }
                    },
                    Err(e) => self.fail(e),
                }
            },
            Event::UploadAnswer { body } => {
                match parse_upload_result(body.as_str()) {
                    Ok(r) => {
                        self.phase = Phase::Done;
                        Action::Finish(r)
                    },
                    Err(e) => self.fail(e),
                }
            },
            Event::NetworkFailure => self.fail(UploadError::Network),
        }
    }
}

/// A failed upload awaits nothing more, so it makes no further request.
pub proof fn lemma_failed_is_final(ev: Event)
    ensures
        !accepts(Phase::Failed, ev),
{
}

/// A missing local file ends the upload at once, before any request is made.
pub proof fn lemma_missing_file_makes_no_request(token: Seq<char>, next: Phase, a: Action)
    requires
        transition(token, Event::FileChecked { exists: false }, next, a),
    ensures
        next == Phase::Failed,
        is_abort(a, UploadError::FileNotFound),
        forall|ev: Event| !accepts(next, ev),
{
}

/// When no script of the page answered to the password matches the session
/// pattern, the password or token was wrong: the upload fails with
/// `InvalidCredentials` and no upload is ever requested.
pub proof fn lemma_wrong_password_never_uploads(token: Seq<char>, html: String, millis: u64, next: Phase, a: Action)
    requires
        forall|j: int| 0 <= j < selected_texts(html@, SCRIPT_SELECTOR@).len()
            ==> first_session_id(#[trigger] selected_texts(html@, SCRIPT_SELECTOR@)[j]) is None,
        transition(token, Event::AuthenticatedPage { html, millis }, next, a),
    ensures
        next == Phase::Failed,
        is_abort(a, UploadError::InvalidCredentials),
        forall|ev: Event| !accepts(next, ev),
{
    lemma_no_matching_script(selected_texts(html@, SCRIPT_SELECTOR@));
}

} // verus!
