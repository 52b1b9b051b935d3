use vstd::prelude::*;

use crate::env::{Env, EnvSpec};
use crate::error::{ErrorSpec, NeboError, text_result_view};
use crate::http::{HttpReply, HttpRequest, Method, RequestSpec, ReplySpec, opt_view, pairs_view, sent_view, FOUND};
use crate::text::{cat, find_char, first_index_of, str_eq};

verus! {

/// The parts of an URL the login uses: its path, its decoded query pairs in order, and
/// its fragment.
pub struct UrlParts {
    pub path: String,
    pub query_pairs: Vec<(String, String)>,
    pub fragment: Option<String>,
}

/// What `url::Url::parse` makes of a text: its path, its decoded query pairs in order
/// and its fragment, or the text of the parse error.
pub uninterp spec fn url_parsed(s: Seq<char>) -> Result<(Seq<char>, Seq<(Seq<char>, Seq<char>)>, Option<Seq<char>>), Seq<char>>;

/// The parts of an URL as character sequences.
pub open spec fn parts_view(p: UrlParts) -> (Seq<char>, Seq<(Seq<char>, Seq<char>)>, Option<Seq<char>>) {
    (p.path@, pairs_view(p.query_pairs@), opt_view(p.fragment))
}

/// Parses `s` with `url::Url::parse` and takes `path()`, the pairs of `query_pairs()`
/// and `fragment()` of the result, or the text of the parse error. The contract claims
/// only that this is `url_parsed` of the characters given.
#[verifier::external_body]
pub(crate) fn parse_url(s: &str) -> (r: Result<UrlParts, String>)
    ensures
        match r {
            Ok(p) => url_parsed(s@) == Ok::<(Seq<char>, Seq<(Seq<char>, Seq<char>)>, Option<Seq<char>>), Seq<char>>(parts_view(p)),
            Err(e) => url_parsed(s@) == Err::<(Seq<char>, Seq<(Seq<char>, Seq<char>)>, Option<Seq<char>>), Seq<char>>(e@),
        },
{
    match url::Url::parse(s) {
        Ok(u) => Ok(UrlParts {
            path: u.path().to_string(),
            query_pairs: u.query_pairs().map(|(k, v)| (k.into_owned(), v.into_owned())).collect(),
            fragment: u.fragment().map(|f| f.to_string()),
        }),
        Err(e) => Err(e.to_string()),
    }
}

/// A query key the authorization grant is repeated with.
pub open spec fn is_grant_key(k: Seq<char>) -> bool {
    k == "client_id"@ || k == "response_type"@ || k == "scope"@ || k == "redirect_uri"@
}

/// The pairs whose key the grant is repeated with, in their order.
pub open spec fn keep_grant_pairs(pairs: Seq<(Seq<char>, Seq<char>)>) -> Seq<(Seq<char>, Seq<char>)>
    decreases pairs.len(),
{
    if pairs.len() == 0 {
        Seq::empty()
    } else {
        let rest = keep_grant_pairs(pairs.drop_last());
        if is_grant_key(pairs.last().0) {
            rest.push(pairs.last())
        } else {
            rest
        }
    }
}

/// The pairs of `pairs` whose key is one the grant is repeated with, in their order.
pub fn grant_pairs(pairs: &Vec<(String, String)>) -> (r: Vec<(String, String)>)
    ensures
        pairs_view(r@) == keep_grant_pairs(pairs_view(pairs@)),
{
    let mut r: Vec<(String, String)> = Vec::new();
    let n = pairs.len();
    let mut i: usize = 0;
    let ghost all = pairs_view(pairs@);
    while i < n
        invariant
            n == pairs@.len(),
            all == pairs_view(pairs@),
            i <= n,
            pairs_view(r@) == keep_grant_pairs(all.take(i as int)),
        decreases n - i,
    {
        let key = pairs[i].0.as_str();
        let keep = str_eq(key, "client_id") || str_eq(key, "response_type") || str_eq(key, "scope")
            || str_eq(key, "redirect_uri");
        proof {
            assert(all.take(i + 1).drop_last() =~= all.take(i as int));
            assert(all.take(i + 1).last() == all[i as int]);
        }
        if keep {
            let pair = (pairs[i].0.clone(), pairs[i].1.clone());
            let ghost before = r@;
            r.push(pair);
            proof {
                assert(pairs_view(r@) =~= pairs_view(before).push(all[i as int]));
            }
        }
        i = i + 1;
    }
    proof {
        assert(all.take(n as int) =~= all);
    }
    r
}

/// Where the access token starts in the callback fragment: after `access_token=`.
pub open spec fn token_start() -> int {
    13
}

/// The access token held by the callback fragment: from its fourteenth character up to
/// the first `&`, or to the end when there is none; nothing when the fragment is too
/// short for that.
pub open spec fn access_token_of(fragment: Seq<char>) -> Option<Seq<char>> {
    match first_index_of(fragment, '&') {
        None => if fragment.len() >= token_start() {
            Some(fragment.subrange(token_start(), fragment.len() as int))
        } else {
            None
        },
        Some(i) => if i >= token_start() {
            Some(fragment.subrange(token_start(), i))
        } else {
            None
        },
    }
}

/// The authorization value made of the access token of the callback fragment.
pub open spec fn bearer_of(fragment: Seq<char>) -> Option<Seq<char>> {
    match access_token_of(fragment) {
        Some(t) => Some("Bearer "@ + t),
        None => None,
    }
}

/// The authorization value made of the access token held by `fragment`.
pub fn bearer_token(fragment: &str) -> (r: Option<String>)
    ensures
        opt_view(r) == bearer_of(fragment@),
{
    let n = fragment.unicode_len();
    let end = match find_char(fragment, '&') {
        None => n,
        Some(i) => i,
    };
    if end < 13 {
        None
    } else {
        let t = fragment.substring_char(13, end);
        Some(cat("Bearer ", t))
    }
}

/// The steps of the login.
#[derive(PartialEq, Eq, Structural, Clone, Copy, Debug)]
pub enum LoginState {
    /// Nothing sent yet.
    Start,
    /// The authorization page was asked for.
    Authorizing,
    /// The password is awaited.
    AwaitingPassword,
    /// The login form was sent.
    LoggingIn,
    /// The authorization grant was sent.
    Granting,
    /// The login is over.
    Finished,
}

/// What happened since the last step of the login.
#[derive(Debug)]
pub enum LoginEvent {
    /// The login starts.
    Begin,
    /// The last request was answered, or could not be sent.
    Reply(Result<HttpReply, String>),
    /// The password, or why there is none.
    Password(Result<String, String>),
}

/// What the login asks for next.
#[derive(Debug)]
pub enum LoginAction {
    /// Send this request, without following redirections, keeping cookies between requests.
    Send(HttpRequest),
    /// Obtain the password of the user.
    AskPassword,
    /// The login is over: the authorization value, or why there is none.
    Finish(Result<String, NeboError>),
}

/// A [`LoginEvent`] with its texts as character sequences.
pub enum LoginEventSpec {
    Begin,
    Reply(Result<ReplySpec, Seq<char>>),
    Password(Result<Seq<char>, Seq<char>>),
}

/// A [`LoginAction`] with its texts as character sequences.
pub enum LoginActionSpec {
    Send(RequestSpec),
    AskPassword,
    Finish(Result<Seq<char>, ErrorSpec>),
}

impl View for LoginEvent {
    type V = LoginEventSpec;

    open spec fn view(&self) -> LoginEventSpec {
        match self {
            LoginEvent::Begin => LoginEventSpec::Begin,
            LoginEvent::Reply(r) => LoginEventSpec::Reply(sent_view(*r)),
            LoginEvent::Password(p) => LoginEventSpec::Password(
                match p {
                    Ok(s) => Ok(s@),
                    Err(e) => Err(e@),
                },
            ),
        }
    }
}

impl View for LoginAction {
    type V = LoginActionSpec;

    open spec fn view(&self) -> LoginActionSpec {
        match self {
            LoginAction::Send(req) => LoginActionSpec::Send(req@),
            LoginAction::AskPassword => LoginActionSpec::AskPassword,
            LoginAction::Finish(r) => LoginActionSpec::Finish(text_result_view(*r)),
        }
    }
}

/// A request to the authentication server, outside the service.
pub open spec fn sso_request_spec(
    method: Method,
    url: Seq<char>,
    form: Seq<(Seq<char>, Seq<char>)>,
    query: Seq<(Seq<char>, Seq<char>)>,
) -> RequestSpec {
    RequestSpec { method: method, url: url, authorization: None, json_body: None, form: form, query: query }
}

/// The request for the authorization page of the tool's client.
pub open spec fn authorize_request_spec(env: EnvSpec) -> RequestSpec {
    sso_request_spec(
        Method::Get,
        env.sso_url + "/oauth/authorize"@,
        Seq::empty(),
        seq![
            ("client_id"@, env.client_id),
            ("response_type"@, "token"@),
            ("scope"@, "read"@),
            ("redirect_uri"@, env.sso_redirect_uri),
        ],
    )
}

/// The login form of the user.
pub open spec fn login_request_spec(env: EnvSpec, login: Seq<char>, password: Seq<char>) -> RequestSpec {
    sso_request_spec(
        Method::Post,
        env.sso_url + "/public/customlogin"@,
        seq![("email"@, login), ("password"@, password)],
        Seq::empty(),
    )
}

/// The authorization grant, on the path the login redirected to, with the pairs of its
/// query the grant is repeated with.
pub open spec fn grant_request_spec(env: EnvSpec, path: Seq<char>, pairs: Seq<(Seq<char>, Seq<char>)>) -> RequestSpec {
    sso_request_spec(Method::Get, env.sso_url + path, Seq::empty(), keep_grant_pairs(pairs))
}

/// What ends the login with an error.
pub open spec fn login_fails(e: ErrorSpec) -> (LoginState, LoginActionSpec) {
    (LoginState::Finished, LoginActionSpec::Finish(Err(e)))
}

/// The next step of the login of `login` on `env` from `state` when `ev` happens.
pub open spec fn login_step(env: EnvSpec, login: Seq<char>, state: LoginState, ev: LoginEventSpec) -> (LoginState, LoginActionSpec) {
    match state {
        LoginState::Start => match ev {
            LoginEventSpec::Begin => (LoginState::Authorizing, LoginActionSpec::Send(authorize_request_spec(env))),
            _ => login_fails(ErrorSpec::OutOfOrder),
        },
        LoginState::Authorizing => match ev {
            LoginEventSpec::Reply(Err(e)) => login_fails(ErrorSpec::Transport(e)),
            LoginEventSpec::Reply(Ok(rep)) => if rep.status == FOUND {
                (LoginState::AwaitingPassword, LoginActionSpec::AskPassword)
            } else {
                login_fails(ErrorSpec::FirstCallRefused)
            },
            _ => login_fails(ErrorSpec::OutOfOrder),
        },
        LoginState::AwaitingPassword => match ev {
            LoginEventSpec::Password(Err(e)) => login_fails(ErrorSpec::PasswordUnavailable(e)),
            LoginEventSpec::Password(Ok(pw)) => (LoginState::LoggingIn, LoginActionSpec::Send(login_request_spec(env, login, pw))),
            _ => login_fails(ErrorSpec::OutOfOrder),
        },
        LoginState::LoggingIn => match ev {
            LoginEventSpec::Reply(Err(e)) => login_fails(ErrorSpec::Transport(e)),
            LoginEventSpec::Reply(Ok(rep)) => if rep.status != FOUND {
                login_fails(ErrorSpec::SecondCallRefused)
            } else {
                match rep.location {
                    None => login_fails(ErrorSpec::MissingLocation),
                    Some(loc) => match url_parsed(loc) {
                        Err(m) => login_fails(ErrorSpec::InvalidUrl(m)),
                        Ok(parts) => (LoginState::Granting, LoginActionSpec::Send(grant_request_spec(env, parts.0, parts.1))),
                    },
                }
            },
            _ => login_fails(ErrorSpec::OutOfOrder),
        },
        LoginState::Granting => match ev {
            LoginEventSpec::Reply(Err(e)) => login_fails(ErrorSpec::Transport(e)),
            LoginEventSpec::Reply(Ok(rep)) => if rep.status != FOUND {
                login_fails(ErrorSpec::ThirdCallRefused)
            } else {
                match rep.location {
                    None => login_fails(ErrorSpec::MissingLocation),
                    Some(loc) => match url_parsed(loc) {
                        Err(m) => login_fails(ErrorSpec::InvalidUrl(m)),
                        Ok(parts) => match parts.2 {
                            None => login_fails(ErrorSpec::MissingFragment),
                            Some(f) => match bearer_of(f) {
                                None => login_fails(ErrorSpec::MalformedFragment),
                                Some(t) => (LoginState::Finished, LoginActionSpec::Finish(Ok(t))),
                            },
                        },
                    },
                }
            },
            _ => login_fails(ErrorSpec::OutOfOrder),
        },
        LoginState::Finished => login_fails(ErrorSpec::OutOfOrder),
    }
}

fn fail_login(e: NeboError) -> (r: (LoginState, LoginAction))
    ensures
        r.0 == LoginState::Finished,
        r.1@ == LoginActionSpec::Finish(Err(e@)),
{
    (LoginState::Finished, LoginAction::Finish(Err(e)))
}

fn sso_request(method: Method, url: String, form: Vec<(String, String)>, query: Vec<(String, String)>) -> (r: HttpRequest)
    ensures
        r@ == sso_request_spec(method, url@, pairs_view(form@), pairs_view(query@)),
{
    HttpRequest { method: method, url: url, authorization: None, json_body: None, form: form, query: query }
}

fn pair(k: &str, v: &str) -> (r: (String, String))
    ensures
        r.0@ == k@,
        r.1@ == v@,
{
    (String::from_str(k), String::from_str(v))
}

/// Builds the request for the authorization page of the tool's client.
pub fn authorize_request(env: &Env) -> (r: HttpRequest)
    ensures
        r@ == authorize_request_spec(env@),
{
    let mut query: Vec<(String, String)> = Vec::new();
    query.push(pair("client_id", env.client_id));
    query.push(pair("response_type", "token"));
    query.push(pair("scope", "read"));
    query.push(pair("redirect_uri", env.sso_redirect_uri));
    let form: Vec<(String, String)> = Vec::new();
    let r = sso_request(Method::Get, cat(env.sso_url, "/oauth/authorize"), form, query);
    assert(r@.form =~= Seq::<(Seq<char>, Seq<char>)>::empty());
    assert(r@.query =~= authorize_request_spec(env@).query);
    r
}

/// Builds the login form of `login` with `password`.
pub fn login_request(env: &Env, login: &str, password: &str) -> (r: HttpRequest)
    ensures
        r@ == login_request_spec(env@, login@, password@),
{
    let mut form: Vec<(String, String)> = Vec::new();
    form.push(pair("email", login));
    form.push(pair("password", password));
    let query: Vec<(String, String)> = Vec::new();
    let r = sso_request(Method::Post, cat(env.sso_url, "/public/customlogin"), form, query);
    assert(r@.query =~= Seq::<(Seq<char>, Seq<char>)>::empty());
    assert(r@.form =~= login_request_spec(env@, login@, password@).form);
    r
}

/// Builds the authorization grant on `path` with the grant pairs of `pairs`.
pub fn grant_request(env: &Env, path: &str, pairs: &Vec<(String, String)>) -> (r: HttpRequest)
    ensures
        r@ == grant_request_spec(env@, path@, pairs_view(pairs@)),
{
    let query = grant_pairs(pairs);
    let form: Vec<(String, String)> = Vec::new();
    let r = sso_request(Method::Get, cat(env.sso_url, path), form, query);
    assert(r@.form =~= Seq::<(Seq<char>, Seq<char>)>::empty());
    r
}

/// One step of the login of `login` on `env`: from `state`, when `event` happens, the
/// next state and what to do.
pub fn login_step_exec(env: &Env, login: &str, state: LoginState, event: LoginEvent) -> (r: (LoginState, LoginAction))
    ensures
        (r.0, r.1@) == login_step(env@, login@, state, event@),
{
    match state {
        LoginState::Start => match event {
            LoginEvent::Begin => (LoginState::Authorizing, LoginAction::Send(authorize_request(env))),
            _ => fail_login(NeboError::OutOfOrder),
        },
        LoginState::Authorizing => match event {
            LoginEvent::Reply(Err(e)) => fail_login(NeboError::Transport(e)),
            LoginEvent::Reply(Ok(rep)) => {
                if rep.status == FOUND {
                    (LoginState::AwaitingPassword, LoginAction::AskPassword)
                } else {
                    fail_login(NeboError::FirstCallRefused)
                }
            },
            _ => fail_login(NeboError::OutOfOrder),
        },
        LoginState::AwaitingPassword => match event {
            LoginEvent::Password(Err(e)) => fail_login(NeboError::PasswordUnavailable(e)),
            LoginEvent::Password(Ok(pw)) => (LoginState::LoggingIn, LoginAction::Send(login_request(env, login, pw.as_str()))),
            _ => fail_login(NeboError::OutOfOrder),
        },
        LoginState::LoggingIn => match event {
            LoginEvent::Reply(Err(e)) => fail_login(NeboError::Transport(e)),
            LoginEvent::Reply(Ok(rep)) => {
                if rep.status != FOUND {
                    fail_login(NeboError::SecondCallRefused)
                } else {
                    match rep.location {
                        None => fail_login(NeboError::MissingLocation),
                        Some(loc) => match parse_url(loc.as_str()) {
                            Err(m) => fail_login(NeboError::InvalidUrl(m)),
                            Ok(parts) => {
                                let req = grant_request(env, parts.path.as_str(), &parts.query_pairs);
                                (LoginState::Granting, LoginAction::Send(req))
                            },
                        },
                    }
                }
            },
            _ => fail_login(NeboError::OutOfOrder),
        },
        LoginState::Granting => match event {
            LoginEvent::Reply(Err(e)) => fail_login(NeboError::Transport(e)),
            LoginEvent::Reply(Ok(rep)) => {
                if rep.status != FOUND {
                    fail_login(NeboError::ThirdCallRefused)
                } else {
                    match rep.location {
                        None => fail_login(NeboError::MissingLocation),
                        Some(loc) => match parse_url(loc.as_str()) {
                            Err(m) => fail_login(NeboError::InvalidUrl(m)),
                            Ok(parts) => match parts.fragment {
                                None => fail_login(NeboError::MissingFragment),
                                Some(f) => match bearer_token(f.as_str()) {
                                    None => fail_login(NeboError::MalformedFragment),
                                    Some(t) => (LoginState::Finished, LoginAction::Finish(Ok(t))),
                                },
                            },
                        },
                    }
                }
            },
            _ => fail_login(NeboError::OutOfOrder),
        },
        LoginState::Finished => fail_login(NeboError::OutOfOrder),
    }
}

} // verus!
