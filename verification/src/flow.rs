use vstd::prelude::*;

use crate::auth::{LoginAction, LoginActionSpec, LoginEvent, LoginEventSpec, LoginState, login_step, login_step_exec};
use crate::configuration::{Configuration, Credentials};
use crate::env::{Env, EnvSpec};
use crate::error::{ErrorSpec, NeboError, result_view};
use crate::http::{HttpReply, HttpRequest, ReplySpec, RequestSpec, opt_view, sent_view};
use crate::page::Page;
use crate::upload::{ManagerSpec, RegionChoice, RegionChoiceSpec, TransferManager};

verus! {

/// Strings as character sequences.
pub open spec fn strings_view(v: Seq<String>) -> Seq<Seq<char>> {
    v.map_values(|s: String| s@)
}

/// What to send to the storage, and how to reach it.
#[derive(Debug)]
pub struct UploadJob {
    /// The file to send.
    pub filename: String,
    /// Where the storage is.
    pub region: RegionChoice,
    /// The identity to obtain storage credentials with.
    pub credentials: Credentials,
    /// The region of the identity service, by its canonical name.
    pub identity_region: String,
    /// Where the file goes and what is stored with it.
    pub manager: TransferManager,
}

/// What an [`UploadJob`] holds, its texts as character sequences.
pub struct UploadJobSpec {
    pub filename: Seq<char>,
    pub region: RegionChoiceSpec,
    pub credentials: Credentials,
    pub identity_region: Seq<char>,
    pub manager: ManagerSpec,
}

impl View for UploadJob {
    type V = UploadJobSpec;

    open spec fn view(&self) -> UploadJobSpec {
        UploadJobSpec {
            filename: self.filename@,
            region: self.region@,
            credentials: self.credentials,
            identity_region: self.identity_region@,
            manager: self.manager@,
        }
    }
}

/// The files of a directory to share, with what sharing each of them needs.
#[derive(Debug)]
pub struct ShareBatch {
    pub token: String,
    pub configuration: Configuration,
    pub identity_region: String,
    pub email: Option<String>,
    pub files: Vec<String>,
}

/// What a [`ShareBatch`] holds, its texts as character sequences.
pub struct ShareBatchSpec {
    pub token: Seq<char>,
    pub configuration: Configuration,
    pub identity_region: Seq<char>,
    pub email: Option<Seq<char>>,
    pub files: Seq<Seq<char>>,
}

impl View for ShareBatch {
    type V = ShareBatchSpec;

    open spec fn view(&self) -> ShareBatchSpec {
        ShareBatchSpec {
            token: self.token@,
            configuration: self.configuration,
            identity_region: self.identity_region@,
            email: opt_view(self.email),
            files: strings_view(self.files@),
        }
    }
}

/// What happened since the last step of an operation.
#[derive(Debug)]
pub enum Event {
    /// The operation starts.
    Begin,
    /// The last request was answered, or could not be sent.
    Reply(Result<HttpReply, String>),
    /// The password of the user, or why there is none.
    Password(Result<String, String>),
    /// The decoded configuration, or why it could not be decoded.
    Configuration(Result<Configuration, String>),
    /// The decoded list of pages, or why it could not be decoded.
    Pages(Result<Vec<Page>, String>),
    /// The files found in the directory, or why it could not be read.
    Files(Result<Vec<String>, String>),
    /// The file was sent to the storage, or why not.
    Uploaded(Result<(), NeboError>),
    /// The work handed out has been done.
    Dispatched,
}

/// What an operation asks for next.
#[derive(Debug)]
pub enum Action {
    /// Send this request.
    Send(HttpRequest),
    /// Obtain the password of the user.
    AskPassword,
    /// Decode this text as the configuration.
    DecodeConfiguration(String),
    /// Decode this text as the list of pages.
    DecodePages(String),
    /// Find the page files under this directory.
    ScanDir(String),
    /// Send a file to the storage.
    Upload(UploadJob),
    /// Delete these pages side by side on behalf of the holder of the token; a failure is
    /// reported and does not stop the others.
    DeleteEach { token: String, uuids: Vec<String> },
    /// Share these files side by side; a failure is reported and does not stop the others.
    ShareEach(ShareBatch),
    /// The operation is over.
    Finish(Result<(), NeboError>),
}

/// An [`Event`] with its texts as character sequences.
pub enum EventSpec {
    Begin,
    Reply(Result<ReplySpec, Seq<char>>),
    Password(Result<Seq<char>, Seq<char>>),
    Configuration(Result<Configuration, Seq<char>>),
    Pages(Result<Seq<Page>, Seq<char>>),
    Files(Result<Seq<Seq<char>>, Seq<char>>),
    Uploaded(Result<(), ErrorSpec>),
    Dispatched,
}

/// An [`Action`] with its texts as character sequences.
pub enum ActionSpec {
    Send(RequestSpec),
    AskPassword,
    DecodeConfiguration(Seq<char>),
    DecodePages(Seq<char>),
    ScanDir(Seq<char>),
    Upload(UploadJobSpec),
    DeleteEach { token: Seq<char>, uuids: Seq<Seq<char>> },
    ShareEach(ShareBatchSpec),
    Finish(Result<(), ErrorSpec>),
}

/// A result with a text error, by the view of the error.
pub open spec fn text_err_view<T>(r: Result<T, String>) -> Result<T, Seq<char>> {
    match r {
        Ok(v) => Ok(v),
        Err(e) => Err(e@),
    }
}

impl View for Event {
    type V = EventSpec;

    open spec fn view(&self) -> EventSpec {
        match self {
            Event::Begin => EventSpec::Begin,
            Event::Reply(r) => EventSpec::Reply(sent_view(*r)),
            Event::Password(p) => EventSpec::Password(
                match p {
                    Ok(s) => Ok(s@),
                    Err(e) => Err(e@),
                },
            ),
            Event::Configuration(c) => EventSpec::Configuration(text_err_view(*c)),
            Event::Pages(p) => EventSpec::Pages(
                match p {
                    Ok(v) => Ok(v@),
                    Err(e) => Err(e@),
                },
            ),
            Event::Files(f) => EventSpec::Files(
                match f {
                    Ok(v) => Ok(strings_view(v@)),
                    Err(e) => Err(e@),
                },
            ),
            Event::Uploaded(u) => EventSpec::Uploaded(result_view(*u)),
            Event::Dispatched => EventSpec::Dispatched,
        }
    }
}

impl View for Action {
    type V = ActionSpec;

    open spec fn view(&self) -> ActionSpec {
        match self {
            Action::Send(r) => ActionSpec::Send(r@),
            Action::AskPassword => ActionSpec::AskPassword,
            Action::DecodeConfiguration(t) => ActionSpec::DecodeConfiguration(t@),
            Action::DecodePages(t) => ActionSpec::DecodePages(t@),
            Action::ScanDir(d) => ActionSpec::ScanDir(d@),
            Action::Upload(j) => ActionSpec::Upload(j@),
            Action::DeleteEach { token, uuids } => ActionSpec::DeleteEach { token: token@, uuids: strings_view(uuids@) },
            Action::ShareEach(b) => ActionSpec::ShareEach(b@),
            Action::Finish(r) => ActionSpec::Finish(result_view(*r)),
        }
    }
}

/// The event of the login that an operation's event stands for, if any.
pub open spec fn as_login_event(ev: EventSpec) -> Option<LoginEventSpec> {
    match ev {
        EventSpec::Begin => Some(LoginEventSpec::Begin),
        EventSpec::Reply(r) => Some(LoginEventSpec::Reply(r)),
        EventSpec::Password(p) => Some(LoginEventSpec::Password(p)),
        _ => None,
    }
}

/// Where the login phase of an operation leads.
pub enum LoginPhase {
    /// The login goes on from this state with this action.
    Continue(LoginState, Action),
    /// The user is authenticated with this authorization value.
    Authenticated(String),
    /// The login failed.
    Failed(NeboError),
}

/// A [`LoginPhase`] with its texts as character sequences.
pub enum LoginPhaseSpec {
    Continue(LoginState, ActionSpec),
    Authenticated(Seq<char>),
    Failed(ErrorSpec),
}

impl View for LoginPhase {
    type V = LoginPhaseSpec;

    open spec fn view(&self) -> LoginPhaseSpec {
        match self {
            LoginPhase::Continue(s, a) => LoginPhaseSpec::Continue(*s, a@),
            LoginPhase::Authenticated(t) => LoginPhaseSpec::Authenticated(t@),
            LoginPhase::Failed(e) => LoginPhaseSpec::Failed(e@),
        }
    }
}

/// The login phase of an operation, one step on.
pub open spec fn login_phase(env: EnvSpec, login: Seq<char>, state: LoginState, ev: EventSpec) -> LoginPhaseSpec {
    match as_login_event(ev) {
        None => LoginPhaseSpec::Failed(ErrorSpec::OutOfOrder),
        Some(lev) => {
            let (next, act) = login_step(env, login, state, lev);
            match act {
                LoginActionSpec::Send(req) => LoginPhaseSpec::Continue(next, ActionSpec::Send(req)),
                LoginActionSpec::AskPassword => LoginPhaseSpec::Continue(next, ActionSpec::AskPassword),
                LoginActionSpec::Finish(Ok(t)) => LoginPhaseSpec::Authenticated(t),
                LoginActionSpec::Finish(Err(e)) => LoginPhaseSpec::Failed(e),
            }
        },
    }
}

/// The login phase of an operation on `env` for `login`, one step on from `state` when
/// `event` happens.
pub fn login_phase_exec(env: &Env, login: &str, state: LoginState, event: Event) -> (r: LoginPhase)
    ensures
        r@ == login_phase(env@, login@, state, event@),
{
    let lev = match event {
        Event::Begin => LoginEvent::Begin,
        Event::Reply(r) => LoginEvent::Reply(r),
        Event::Password(p) => LoginEvent::Password(p),
        _ => {
            return LoginPhase::Failed(NeboError::OutOfOrder);
        },
    };
    let (next, act) = login_step_exec(env, login, state, lev);
    match act {
        LoginAction::Send(req) => LoginPhase::Continue(next, Action::Send(req)),
        LoginAction::AskPassword => LoginPhase::Continue(next, Action::AskPassword),
        LoginAction::Finish(Ok(t)) => LoginPhase::Authenticated(t),
        LoginAction::Finish(Err(e)) => LoginPhase::Failed(e),
    }
}

/// Ends an operation with an error.
pub fn fail(e: NeboError) -> (r: Action)
    ensures
        r@ == ActionSpec::Finish(Err(e@)),
{
    Action::Finish(Err(e))
}

} // verus!
