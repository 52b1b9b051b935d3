use vstd::prelude::*;

use crate::auth::{LoginAction, LoginEvent, LoginState, login_step, login_step_exec};
use crate::configuration::{Configuration, configuration_outcome_spec, configuration_request_spec};
use crate::contacts::{
    add_contact_outcome, add_contact_outcome_spec, add_contact_request, add_contact_request_spec,
    opt_str_view, remove_contact_outcome, remove_contact_outcome_spec, remove_contact_request,
    remove_contact_request_spec,
};
use crate::env::{Env, EnvSpec, env_config, env_of, is_known_env};
use crate::error::{ErrorSpec, NeboError};
use crate::flow::{
    Action, ActionSpec, Event, EventSpec, LoginPhase, LoginPhaseSpec, ShareBatch, ShareBatchSpec, fail,
    login_phase, login_phase_exec, strings_view,
};
use crate::page::{
    delete_page_outcome, delete_page_outcome_spec, delete_page_request, delete_page_request_spec,
    list_pages_outcome, list_pages_outcome_spec, list_pages_request, list_pages_request_spec, page_uuids,
};
use crate::share::{PageShareState, ShareInput, ShareInputSpec, page_share_step, share_page_step};
use crate::upload::{identity_region, identity_region_spec};

verus! {

/// The deployment called `name`, which the tool knows.
pub fn known_env(name: &str) -> (r: Env)
    requires
        is_known_env(name@),
    ensures
        env_of(name@) == Some(r@),
{
    match env_config(name) {
        Some(e) => e,
        None => {
            proof {
                assert(false);
            }
            Env { sso_url: "", neboapp_url: "", client_id: "", sso_redirect_uri: "" }
        },
    }
}

/// The deployment a known name stands for.
pub open spec fn env_spec(name: Seq<char>) -> EnvSpec {
    env_of(name)->Some_0
}

/// One step of obtaining the authorization value of `login` on deployment `env`: from
/// `state`, when `event` happens, the next state and what to do.
pub fn token(env: &str, login: &str, state: LoginState, event: LoginEvent) -> (r: (LoginState, LoginAction))
    requires
        is_known_env(env@),
    ensures
        (r.0, r.1@) == login_step(env_spec(env@), login@, state, event@),
{
    let e = known_env(env);
    login_step_exec(&e, login, state, event)
}

/// The steps of an operation made of one call to the service after the login.
#[derive(PartialEq, Eq, Structural, Clone, Copy, Debug)]
pub enum CallState {
    /// The user is logging in.
    Login(LoginState),
    /// The call was sent.
    Calling,
    /// The operation is over.
    Finished,
}

/// What ends an operation with an error.
pub open spec fn call_fails(e: ErrorSpec) -> (CallState, ActionSpec) {
    (CallState::Finished, ActionSpec::Finish(Err(e)))
}

/// The next step of an operation made of one call, from `state` when `ev` happens: the
/// login, then `request` with the authorization value, whose reply `outcome` judges.
pub open spec fn call_step(
    env: EnvSpec,
    login: Seq<char>,
    state: CallState,
    ev: EventSpec,
    request: spec_fn(Seq<char>) -> crate::http::RequestSpec,
    outcome: spec_fn(Result<crate::http::ReplySpec, Seq<char>>) -> Result<(), ErrorSpec>,
) -> (CallState, ActionSpec) {
    match state {
        CallState::Login(ls) => match login_phase(env, login, ls, ev) {
            LoginPhaseSpec::Continue(next, a) => (CallState::Login(next), a),
            LoginPhaseSpec::Authenticated(t) => (CallState::Calling, ActionSpec::Send(request(t))),
            LoginPhaseSpec::Failed(e) => call_fails(e),
        },
        CallState::Calling => match ev {
            EventSpec::Reply(r) => (CallState::Finished, ActionSpec::Finish(outcome(r))),
            _ => call_fails(ErrorSpec::OutOfOrder),
        },
        CallState::Finished => call_fails(ErrorSpec::OutOfOrder),
    }
}

fn call_stop(e: NeboError) -> (r: (CallState, Action))
    ensures
        r.0 == CallState::Finished,
        r.1@ == ActionSpec::Finish(Err(e@)),
{
    (CallState::Finished, fail(e))
}

/// The next step of deleting page `uuid` of `login` on `env`, from `state` when `ev`
/// happens: the login, then the deletion.
pub open spec fn delete_page_step(env: EnvSpec, login: Seq<char>, uuid: Seq<char>, state: CallState, ev: EventSpec) -> (CallState, ActionSpec) {
    call_step(
        env,
        login,
        state,
        ev,
        |t: Seq<char>| delete_page_request_spec(env, t, uuid),
        |rep: Result<crate::http::ReplySpec, Seq<char>>| delete_page_outcome_spec(uuid, rep),
    )
}

/// One step of deleting page `uuid` of `login` on deployment `env`: the login, then the
/// deletion, which succeeds also when the page is already gone.
pub fn delete_page(env: &str, login: &str, uuid: &str, state: CallState, event: Event) -> (r: (CallState, Action))
    requires
        is_known_env(env@),
    ensures
        (r.0, r.1@) == delete_page_step(env_spec(env@), login@, uuid@, state, event@),
{
    let e = known_env(env);
    match state {
        CallState::Login(ls) => match login_phase_exec(&e, login, ls, event) {
            LoginPhase::Continue(next, a) => (CallState::Login(next), a),
            LoginPhase::Authenticated(t) => (CallState::Calling, Action::Send(delete_page_request(&e, t.as_str(), uuid))),
            LoginPhase::Failed(err) => call_stop(err),
        },
        CallState::Calling => match event {
            Event::Reply(reply) => (CallState::Finished, Action::Finish(delete_page_outcome(uuid, reply))),
            _ => call_stop(NeboError::OutOfOrder),
        },
        CallState::Finished => call_stop(NeboError::OutOfOrder),
    }
}

/// The next step of giving `email` read access to page `uuid` of `login` on `env`, under
/// `name`, with `message`, from `state` when `ev` happens: the login, then the sharing.
pub open spec fn add_contact_step(
    env: EnvSpec,
    login: Seq<char>,
    uuid: Seq<char>,
    email: Seq<char>,
    name: Option<Seq<char>>,
    message: Option<Seq<char>>,
    state: CallState,
    ev: EventSpec,
) -> (CallState, ActionSpec) {
    call_step(
        env,
        login,
        state,
        ev,
        |t: Seq<char>| add_contact_request_spec(env, t, uuid, email, name, message),
        |rep: Result<crate::http::ReplySpec, Seq<char>>| add_contact_outcome_spec(rep),
    )
}

/// One step of giving `email` read access to page `uuid` of `login` on deployment `env`,
/// under `name`, with `message`: the login, then the sharing.
pub fn add_contact(
    env: &str,
    login: &str,
    uuid: &str,
    email: &str,
    name: Option<&str>,
    message: Option<&str>,
    state: CallState,
    event: Event,
) -> (r: (CallState, Action))
    requires
        is_known_env(env@),
    ensures
        (r.0, r.1@) == add_contact_step(env_spec(env@), login@, uuid@, email@, opt_str_view(name), opt_str_view(message), state, event@),
{
    let e = known_env(env);
    match state {
        CallState::Login(ls) => match login_phase_exec(&e, login, ls, event) {
            LoginPhase::Continue(next, a) => (CallState::Login(next), a),
            LoginPhase::Authenticated(t) => {
                let req = add_contact_request(&e, t.as_str(), uuid, email, name, message);
                (CallState::Calling, Action::Send(req))
            },
            LoginPhase::Failed(err) => call_stop(err),
        },
        CallState::Calling => match event {
            Event::Reply(reply) => (CallState::Finished, Action::Finish(add_contact_outcome(reply))),
            _ => call_stop(NeboError::OutOfOrder),
        },
        CallState::Finished => call_stop(NeboError::OutOfOrder),
    }
}

/// The next step of withdrawing the access of `email` to page `uuid` of `login` on
/// `env`, from `state` when `ev` happens: the login, then the removal.
pub open spec fn remove_contact_step(
    env: EnvSpec,
    login: Seq<char>,
    uuid: Seq<char>,
    email: Seq<char>,
    state: CallState,
    ev: EventSpec,
) -> (CallState, ActionSpec) {
    call_step(
        env,
        login,
        state,
        ev,
        |t: Seq<char>| remove_contact_request_spec(env, t, uuid, email),
        |rep: Result<crate::http::ReplySpec, Seq<char>>| remove_contact_outcome_spec(rep),
    )
}

/// One step of withdrawing the access of `email` to page `uuid` of `login` on deployment
/// `env`: the login, then the removal.
pub fn remove_contact(env: &str, login: &str, uuid: &str, email: &str, state: CallState, event: Event) -> (r: (CallState, Action))
    requires
        is_known_env(env@),
    ensures
        (r.0, r.1@) == remove_contact_step(env_spec(env@), login@, uuid@, email@, state, event@),
{
    let e = known_env(env);
    match state {
        CallState::Login(ls) => match login_phase_exec(&e, login, ls, event) {
            LoginPhase::Continue(next, a) => (CallState::Login(next), a),
            LoginPhase::Authenticated(t) => {
                let req = remove_contact_request(&e, t.as_str(), uuid, email);
                (CallState::Calling, Action::Send(req))
            },
            LoginPhase::Failed(err) => call_stop(err),
        },
        CallState::Calling => match event {
            Event::Reply(reply) => (CallState::Finished, Action::Finish(remove_contact_outcome(reply))),
            _ => call_stop(NeboError::OutOfOrder),
        },
        CallState::Finished => call_stop(NeboError::OutOfOrder),
    }
}


/// The steps of deleting all the pages of a user.
#[derive(Debug)]
pub enum DeletePagesState {
    /// The user is logging in.
    Login(LoginState),
    /// The pages are being listed for the holder of the token.
    Listing { token: String },
    /// The list of pages is being decoded.
    Decoding { token: String },
    /// The pages are being deleted.
    Dispatching,
    /// The operation is over.
    Finished,
}

/// A [`DeletePagesState`] with its texts as character sequences.
pub enum DeletePagesStateSpec {
    Login(LoginState),
    Listing { token: Seq<char> },
    Decoding { token: Seq<char> },
    Dispatching,
    Finished,
}

impl View for DeletePagesState {
    type V = DeletePagesStateSpec;

    open spec fn view(&self) -> DeletePagesStateSpec {
        match self {
            DeletePagesState::Login(ls) => DeletePagesStateSpec::Login(*ls),
            DeletePagesState::Listing { token } => DeletePagesStateSpec::Listing { token: token@ },
            DeletePagesState::Decoding { token } => DeletePagesStateSpec::Decoding { token: token@ },
            DeletePagesState::Dispatching => DeletePagesStateSpec::Dispatching,
            DeletePagesState::Finished => DeletePagesStateSpec::Finished,
        }
    }
}

/// What ends deleting the pages with an error.
pub open spec fn delete_pages_fails(e: ErrorSpec) -> (DeletePagesStateSpec, ActionSpec) {
    (DeletePagesStateSpec::Finished, ActionSpec::Finish(Err(e)))
}

/// The next step of deleting all the pages of `login` on `env`, from `state` when `ev`
/// happens: the login, the list of the pages, then the deletion of each listed page; the
/// operation succeeds once the deletions are handed out, whatever each of them gives.
pub open spec fn delete_pages_step(env: EnvSpec, login: Seq<char>, state: DeletePagesStateSpec, ev: EventSpec) -> (DeletePagesStateSpec, ActionSpec) {
    match state {
        DeletePagesStateSpec::Login(ls) => match login_phase(env, login, ls, ev) {
            LoginPhaseSpec::Continue(next, a) => (DeletePagesStateSpec::Login(next), a),
            LoginPhaseSpec::Authenticated(t) => (
                DeletePagesStateSpec::Listing { token: t },
                ActionSpec::Send(list_pages_request_spec(env, t)),
            ),
            LoginPhaseSpec::Failed(e) => delete_pages_fails(e),
        },
        DeletePagesStateSpec::Listing { token } => match ev {
            EventSpec::Reply(r) => match list_pages_outcome_spec(r) {
                Err(e) => delete_pages_fails(e),
                Ok(text) => (DeletePagesStateSpec::Decoding { token: token }, ActionSpec::DecodePages(text)),
            },
            _ => delete_pages_fails(ErrorSpec::OutOfOrder),
        },
        DeletePagesStateSpec::Decoding { token } => match ev {
            EventSpec::Pages(Err(m)) => delete_pages_fails(ErrorSpec::Transport(m)),
            EventSpec::Pages(Ok(pages)) => (
                DeletePagesStateSpec::Dispatching,
                ActionSpec::DeleteEach { token: token, uuids: pages.map_values(|p: crate::page::Page| p.uuid@) },
            ),
            _ => delete_pages_fails(ErrorSpec::OutOfOrder),
        },
        DeletePagesStateSpec::Dispatching => match ev {
            EventSpec::Dispatched => (DeletePagesStateSpec::Finished, ActionSpec::Finish(Ok(()))),
            _ => delete_pages_fails(ErrorSpec::OutOfOrder),
        },
        DeletePagesStateSpec::Finished => delete_pages_fails(ErrorSpec::OutOfOrder),
    }
}

fn delete_pages_stop(e: NeboError) -> (r: (DeletePagesState, Action))
    ensures
        r.0@ == DeletePagesStateSpec::Finished,
        r.1@ == ActionSpec::Finish(Err(e@)),
{
    (DeletePagesState::Finished, fail(e))
}

/// One step of deleting all the pages of `login` on deployment `env`: from `state`, when
/// `event` happens, the next state and what to do.
pub fn delete_pages(env: &str, login: &str, state: DeletePagesState, event: Event) -> (r: (DeletePagesState, Action))
    requires
        is_known_env(env@),
    ensures
        (r.0@, r.1@) == delete_pages_step(env_spec(env@), login@, state@, event@),
{
    let e = known_env(env);
    match state {
        DeletePagesState::Login(ls) => match login_phase_exec(&e, login, ls, event) {
            LoginPhase::Continue(next, a) => (DeletePagesState::Login(next), a),
            LoginPhase::Authenticated(t) => {
                let req = list_pages_request(&e, t.as_str());
                (DeletePagesState::Listing { token: t }, Action::Send(req))
            },
            LoginPhase::Failed(err) => delete_pages_stop(err),
        },
        DeletePagesState::Listing { token } => match event {
            Event::Reply(reply) => match list_pages_outcome(reply) {
                Err(err) => delete_pages_stop(err),
                Ok(text) => (DeletePagesState::Decoding { token: token }, Action::DecodePages(text)),
            },
            _ => delete_pages_stop(NeboError::OutOfOrder),
        },
        DeletePagesState::Decoding { token } => match event {
            Event::Pages(Err(m)) => delete_pages_stop(NeboError::Transport(m)),
            Event::Pages(Ok(pages)) => {
                let ghost pv = pages@;
                let uuids = page_uuids(pages);
                proof {
                    assert(strings_view(uuids@) =~= pv.map_values(|p: crate::page::Page| p.uuid@));
                }
                (DeletePagesState::Dispatching, Action::DeleteEach { token: token, uuids: uuids })
            },
            _ => delete_pages_stop(NeboError::OutOfOrder),
        },
        DeletePagesState::Dispatching => match event {
            Event::Dispatched => (DeletePagesState::Finished, Action::Finish(Ok(()))),
            _ => delete_pages_stop(NeboError::OutOfOrder),
        },
        DeletePagesState::Finished => delete_pages_stop(NeboError::OutOfOrder),
    }
}


/// The steps of sharing a page on behalf of a user.
#[derive(Debug)]
pub enum SharePageState {
    /// The user is logging in.
    Login(LoginState),
    /// The configuration is being fetched for the holder of the token.
    Configuring { token: String },
    /// The configuration is being decoded.
    Decoding { token: String },
    /// The page is being shared with the configuration and the region of the identity
    /// service.
    Sharing { token: String, configuration: Configuration, identity_region: String, page: PageShareState },
    /// The operation is over.
    Finished,
}

/// A [`SharePageState`] with its texts as character sequences.
pub enum SharePageStateSpec {
    Login(LoginState),
    Configuring { token: Seq<char> },
    Decoding { token: Seq<char> },
    Sharing { token: Seq<char>, configuration: Configuration, identity_region: Seq<char>, page: PageShareState },
    Finished,
}

impl View for SharePageState {
    type V = SharePageStateSpec;

    open spec fn view(&self) -> SharePageStateSpec {
        match self {
            SharePageState::Login(ls) => SharePageStateSpec::Login(*ls),
            SharePageState::Configuring { token } => SharePageStateSpec::Configuring { token: token@ },
            SharePageState::Decoding { token } => SharePageStateSpec::Decoding { token: token@ },
            SharePageState::Sharing { token, configuration, identity_region, page } => SharePageStateSpec::Sharing {
                token: token@,
                configuration: *configuration,
                identity_region: identity_region@,
                page: *page,
            },
            SharePageState::Finished => SharePageStateSpec::Finished,
        }
    }
}

/// What ends sharing a page with an error.
pub open spec fn share_page_fails(e: ErrorSpec) -> (SharePageStateSpec, ActionSpec) {
    (SharePageStateSpec::Finished, ActionSpec::Finish(Err(e)))
}

/// Where a step of sharing the page leads the whole operation.
pub open spec fn sharing_goes_on(
    token: Seq<char>,
    configuration: Configuration,
    identity_region: Seq<char>,
    next: (PageShareState, ActionSpec),
) -> (SharePageStateSpec, ActionSpec) {
    match next.1 {
        ActionSpec::Finish(r) => (SharePageStateSpec::Finished, ActionSpec::Finish(r)),
        a => (
            SharePageStateSpec::Sharing {
                token: token,
                configuration: configuration,
                identity_region: identity_region,
                page: next.0,
            },
            a,
        ),
    }
}

/// The next step of sharing a page of `login` on `env`, from `state` when `ev` happens:
/// the login, the configuration, the region of the identity service, then the sharing
/// of the page itself.
pub open spec fn share_page_op_step(
    env: EnvSpec,
    login: Seq<char>,
    input: ShareInputSpec,
    state: SharePageStateSpec,
    ev: EventSpec,
) -> (SharePageStateSpec, ActionSpec) {
    match state {
        SharePageStateSpec::Login(ls) => match login_phase(env, login, ls, ev) {
            LoginPhaseSpec::Continue(next, a) => (SharePageStateSpec::Login(next), a),
            LoginPhaseSpec::Authenticated(t) => (
                SharePageStateSpec::Configuring { token: t },
                ActionSpec::Send(configuration_request_spec(env, t)),
            ),
            LoginPhaseSpec::Failed(e) => share_page_fails(e),
        },
        SharePageStateSpec::Configuring { token } => match ev {
            EventSpec::Reply(r) => match configuration_outcome_spec(r) {
                Err(e) => share_page_fails(e),
                Ok(text) => (SharePageStateSpec::Decoding { token: token }, ActionSpec::DecodeConfiguration(text)),
            },
            _ => share_page_fails(ErrorSpec::OutOfOrder),
        },
        SharePageStateSpec::Decoding { token } => match ev {
            EventSpec::Configuration(Err(m)) => share_page_fails(ErrorSpec::Transport(m)),
            EventSpec::Configuration(Ok(conf)) => match identity_region_spec(conf) {
                Err(e) => share_page_fails(e),
                Ok(ir) => sharing_goes_on(
                    token,
                    conf,
                    ir,
                    page_share_step(env, token, conf, ir, input, PageShareState::Start, EventSpec::Begin),
                ),
            },
            _ => share_page_fails(ErrorSpec::OutOfOrder),
        },
        SharePageStateSpec::Sharing { token, configuration, identity_region, page } => sharing_goes_on(
            token,
            configuration,
            identity_region,
            page_share_step(env, token, configuration, identity_region, input, page, ev),
        ),
        SharePageStateSpec::Finished => share_page_fails(ErrorSpec::OutOfOrder),
    }
}

fn share_page_stop(e: NeboError) -> (r: (SharePageState, Action))
    ensures
        r.0@ == SharePageStateSpec::Finished,
        r.1@ == ActionSpec::Finish(Err(e@)),
{
    (SharePageState::Finished, fail(e))
}

fn go_on_sharing(token: String, configuration: Configuration, identity_region: String, next: (PageShareState, Action)) -> (r: (SharePageState, Action))
    ensures
        (r.0@, r.1@) == sharing_goes_on(token@, configuration, identity_region@, (next.0, next.1@)),
{
    let (page, action) = next;
    match action {
        Action::Finish(res) => (SharePageState::Finished, Action::Finish(res)),
        a => (SharePageState::Sharing { token, configuration, identity_region, page }, a),
    }
}

/// One step of sharing a page of `login` on deployment `env`: from `state`, when `event`
/// happens, the next state and what to do.
pub fn share_page(env: &str, login: &str, input: &ShareInput, state: SharePageState, event: Event) -> (r: (SharePageState, Action))
    requires
        is_known_env(env@),
    ensures
        (r.0@, r.1@) == share_page_op_step(env_spec(env@), login@, input@, state@, event@),
{
    let e = known_env(env);
    match state {
        SharePageState::Login(ls) => match login_phase_exec(&e, login, ls, event) {
            LoginPhase::Continue(next, a) => (SharePageState::Login(next), a),
            LoginPhase::Authenticated(t) => {
                let req = Configuration::request(&e, t.as_str());
                (SharePageState::Configuring { token: t }, Action::Send(req))
            },
            LoginPhase::Failed(err) => share_page_stop(err),
        },
        SharePageState::Configuring { token } => match event {
            Event::Reply(reply) => match Configuration::outcome(reply) {
                Err(err) => share_page_stop(err),
                Ok(text) => (SharePageState::Decoding { token: token }, Action::DecodeConfiguration(text)),
            },
            _ => share_page_stop(NeboError::OutOfOrder),
        },
        SharePageState::Decoding { token } => match event {
            Event::Configuration(Err(m)) => share_page_stop(NeboError::Transport(m)),
            Event::Configuration(Ok(conf)) => match identity_region(&conf) {
                Err(err) => share_page_stop(err),
                Ok(ir) => {
                    let next = share_page_step(&e, token.as_str(), &conf, ir.as_str(), input, PageShareState::Start, Event::Begin);
                    go_on_sharing(token, conf, ir, next)
                },
            },
            _ => share_page_stop(NeboError::OutOfOrder),
        },
        SharePageState::Sharing { token, configuration, identity_region, page } => {
            let next = share_page_step(&e, token.as_str(), &configuration, identity_region.as_str(), input, page, event);
            go_on_sharing(token, configuration, identity_region, next)
        },
        SharePageState::Finished => share_page_stop(NeboError::OutOfOrder),
    }
}

/// The steps of sharing the page files of a directory.
#[derive(Debug)]
pub enum SharePagesState {
    /// Nothing done yet.
    Start,
    /// The directory is being searched.
    Scanning,
    /// The user is logging in; the files found.
    Login { state: LoginState, files: Vec<String> },
    /// The configuration is being fetched for the holder of the token.
    Configuring { token: String, files: Vec<String> },
    /// The configuration is being decoded.
    Decoding { token: String, files: Vec<String> },
    /// The files are being shared.
    Dispatching,
    /// The operation is over.
    Finished,
}

/// A [`SharePagesState`] with its texts as character sequences.
pub enum SharePagesStateSpec {
    Start,
    Scanning,
    Login { state: LoginState, files: Seq<Seq<char>> },
    Configuring { token: Seq<char>, files: Seq<Seq<char>> },
    Decoding { token: Seq<char>, files: Seq<Seq<char>> },
    Dispatching,
    Finished,
}

impl View for SharePagesState {
    type V = SharePagesStateSpec;

    open spec fn view(&self) -> SharePagesStateSpec {
        match self {
            SharePagesState::Start => SharePagesStateSpec::Start,
            SharePagesState::Scanning => SharePagesStateSpec::Scanning,
            SharePagesState::Login { state, files } => SharePagesStateSpec::Login { state: *state, files: strings_view(files@) },
            SharePagesState::Configuring { token, files } => SharePagesStateSpec::Configuring {
                token: token@,
                files: strings_view(files@),
            },
            SharePagesState::Decoding { token, files } => SharePagesStateSpec::Decoding {
                token: token@,
                files: strings_view(files@),
            },
            SharePagesState::Dispatching => SharePagesStateSpec::Dispatching,
            SharePagesState::Finished => SharePagesStateSpec::Finished,
        }
    }
}

/// What ends sharing the files with an error.
pub open spec fn share_pages_fails(e: ErrorSpec) -> (SharePagesStateSpec, ActionSpec) {
    (SharePagesStateSpec::Finished, ActionSpec::Finish(Err(e)))
}

/// Where the login phase of sharing the files leads.
pub open spec fn share_pages_login(env: EnvSpec, files: Seq<Seq<char>>, phase: LoginPhaseSpec) -> (SharePagesStateSpec, ActionSpec) {
    match phase {
        LoginPhaseSpec::Continue(next, a) => (SharePagesStateSpec::Login { state: next, files: files }, a),
        LoginPhaseSpec::Authenticated(t) => (
            SharePagesStateSpec::Configuring { token: t, files: files },
            ActionSpec::Send(configuration_request_spec(env, t)),
        ),
        LoginPhaseSpec::Failed(e) => share_pages_fails(e),
    }
}

/// The next step of sharing the page files under `dir` as `login` on `env`, from `state`
/// when `ev` happens: the search of the directory, the login, the configuration, the
/// region of the identity service, then the sharing of each file found, with `email`
/// when given; the operation succeeds once the files are handed out, whatever sharing
/// each of them gives.
pub open spec fn share_pages_step(
    env: EnvSpec,
    login: Seq<char>,
    dir: Seq<char>,
    email: Option<Seq<char>>,
    state: SharePagesStateSpec,
    ev: EventSpec,
) -> (SharePagesStateSpec, ActionSpec) {
    match state {
        SharePagesStateSpec::Start => match ev {
            EventSpec::Begin => (SharePagesStateSpec::Scanning, ActionSpec::ScanDir(dir)),
            _ => share_pages_fails(ErrorSpec::OutOfOrder),
        },
        SharePagesStateSpec::Scanning => match ev {
            EventSpec::Files(Err(m)) => share_pages_fails(ErrorSpec::Transport(m)),
            EventSpec::Files(Ok(files)) => share_pages_login(env, files, login_phase(env, login, LoginState::Start, EventSpec::Begin)),
            _ => share_pages_fails(ErrorSpec::OutOfOrder),
        },
        SharePagesStateSpec::Login { state: ls, files } => share_pages_login(env, files, login_phase(env, login, ls, ev)),
        SharePagesStateSpec::Configuring { token, files } => match ev {
            EventSpec::Reply(r) => match configuration_outcome_spec(r) {
                Err(e) => share_pages_fails(e),
                Ok(text) => (SharePagesStateSpec::Decoding { token: token, files: files }, ActionSpec::DecodeConfiguration(text)),
            },
            _ => share_pages_fails(ErrorSpec::OutOfOrder),
        },
        SharePagesStateSpec::Decoding { token, files } => match ev {
            EventSpec::Configuration(Err(m)) => share_pages_fails(ErrorSpec::Transport(m)),
            EventSpec::Configuration(Ok(conf)) => match identity_region_spec(conf) {
                Err(e) => share_pages_fails(e),
                Ok(ir) => (
                    SharePagesStateSpec::Dispatching,
                    ActionSpec::ShareEach(
                        ShareBatchSpec { token: token, configuration: conf, identity_region: ir, email: email, files: files },
                    ),
                ),
            },
            _ => share_pages_fails(ErrorSpec::OutOfOrder),
        },
        SharePagesStateSpec::Dispatching => match ev {
            EventSpec::Dispatched => (SharePagesStateSpec::Finished, ActionSpec::Finish(Ok(()))),
            _ => share_pages_fails(ErrorSpec::OutOfOrder),
        },
        SharePagesStateSpec::Finished => share_pages_fails(ErrorSpec::OutOfOrder),
    }
}

/// The step of sharing a directory reaches the login, which needs the deployment: the
/// files were found, or the login is under way. Searching the directory does not.
pub open spec fn share_pages_needs_deployment(state: SharePagesStateSpec, ev: EventSpec) -> bool {
    state is Login || (state is Scanning && ev matches EventSpec::Files(Ok(_)))
}

fn share_pages_stop(e: NeboError) -> (r: (SharePagesState, Action))
    ensures
        r.0@ == SharePagesStateSpec::Finished,
        r.1@ == ActionSpec::Finish(Err(e@)),
{
    (SharePagesState::Finished, fail(e))
}

fn share_pages_after_login(env: &Env, files: Vec<String>, phase: LoginPhase) -> (r: (SharePagesState, Action))
    ensures
        (r.0@, r.1@) == share_pages_login(env@, strings_view(files@), phase@),
{
    match phase {
        LoginPhase::Continue(next, a) => (SharePagesState::Login { state: next, files: files }, a),
        LoginPhase::Authenticated(t) => {
            let req = Configuration::request(env, t.as_str());
            (SharePagesState::Configuring { token: t, files: files }, Action::Send(req))
        },
        LoginPhase::Failed(err) => share_pages_stop(err),
    }
}

/// One step of sharing the page files under `dir` as `login` on deployment `env`, with
/// `email` when given: from `state`, when `event` happens, the next state and what to do.
pub fn share_pages(env: &str, login: &str, dir: &str, email: Option<&str>, state: SharePagesState, event: Event) -> (r: (SharePagesState, Action))
    requires
        is_known_env(env@) || !share_pages_needs_deployment(state@, event@),
    ensures
        (r.0@, r.1@) == share_pages_step(env_spec(env@), login@, dir@, opt_str_view(email), state@, event@),
{
    match state {
        SharePagesState::Start => match event {
            Event::Begin => (SharePagesState::Scanning, Action::ScanDir(String::from_str(dir))),
            _ => share_pages_stop(NeboError::OutOfOrder),
        },
        SharePagesState::Scanning => match event {
            Event::Files(Err(m)) => share_pages_stop(NeboError::Transport(m)),
            Event::Files(Ok(files)) => {
                let e = known_env(env);
                let phase = login_phase_exec(&e, login, LoginState::Start, Event::Begin);
                share_pages_after_login(&e, files, phase)
            },
            _ => share_pages_stop(NeboError::OutOfOrder),
        },
        SharePagesState::Login { state: ls, files } => {
            let e = known_env(env);
            let phase = login_phase_exec(&e, login, ls, event);
            share_pages_after_login(&e, files, phase)
        },
        SharePagesState::Configuring { token, files } => match event {
            Event::Reply(reply) => match Configuration::outcome(reply) {
                Err(err) => share_pages_stop(err),
                Ok(text) => (SharePagesState::Decoding { token: token, files: files }, Action::DecodeConfiguration(text)),
            },
            _ => share_pages_stop(NeboError::OutOfOrder),
        },
        SharePagesState::Decoding { token, files } => match event {
            Event::Configuration(Err(m)) => share_pages_stop(NeboError::Transport(m)),
            Event::Configuration(Ok(conf)) => match identity_region(&conf) {
                Err(err) => share_pages_stop(err),
                Ok(ir) => {
                    let batch = ShareBatch {
                        token: token,
                        configuration: conf,
                        identity_region: ir,
                        email: match email {
                            Some(m) => Some(String::from_str(m)),
                            None => None,
                        },
                        files: files,
                    };
                    (SharePagesState::Dispatching, Action::ShareEach(batch))
                },
            },
            _ => share_pages_stop(NeboError::OutOfOrder),
        },
        SharePagesState::Dispatching => match event {
            Event::Dispatched => (SharePagesState::Finished, Action::Finish(Ok(()))),
            _ => share_pages_stop(NeboError::OutOfOrder),
        },
        SharePagesState::Finished => share_pages_stop(NeboError::OutOfOrder),
    }
}

} // verus!
