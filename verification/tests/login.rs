use nebo_cli::auth::{bearer_token, grant_pairs, LoginAction, LoginEvent, LoginState};
use nebo_cli::error::NeboError;
use nebo_cli::http::{HttpReply, HttpRequest, Method};
use nebo_cli::token;

fn pairs(v: &[(&str, &str)]) -> Vec<(String, String)> {
    v.iter().map(|(k, v)| (k.to_string(), v.to_string())).collect()
}

fn redirect(location: Option<&str>) -> LoginEvent {
    LoginEvent::Reply(Ok(HttpReply { status: 302, location: location.map(|l| l.to_string()), body: Ok(String::new()) }))
}

fn sent(a: LoginAction) -> HttpRequest {
    match a {
        LoginAction::Send(r) => r,
        other => panic!("expected a request, got {:?}", other),
    }
}

fn failure(a: LoginAction) -> NeboError {
    match a {
        LoginAction::Finish(Err(e)) => e,
        other => panic!("expected a failure, got {:?}", other),
    }
}

const GRANT_LOCATION: &str = "https://sso.myscript.com/oauth/authorize?client_id=nebowebap&response_type=token&scope=read&redirect_uri=https%3A%2F%2Fnebo.app%2Fcallback&state=xyz";

#[test]
fn login_runs_through_the_three_calls() {
    let (s, a) = token("prod", "me@example.com", LoginState::Start, LoginEvent::Begin);
    assert_eq!(s, LoginState::Authorizing);
    let r = sent(a);
    assert_eq!(r.method, Method::Get);
    assert_eq!(r.url, "https://sso.myscript.com/oauth/authorize");
    assert!(r.authorization.is_none());
    assert!(r.form.is_empty());
    assert_eq!(
        r.query,
        pairs(&[
            ("client_id", "nebowebap"),
            ("response_type", "token"),
            ("scope", "read"),
            ("redirect_uri", "https://nebo.app/callback"),
        ])
    );

    let (s, a) = token("prod", "me@example.com", s, redirect(None));
    assert_eq!(s, LoginState::AwaitingPassword);
    assert!(matches!(a, LoginAction::AskPassword));

    let (s, a) = token("prod", "me@example.com", s, LoginEvent::Password(Ok("secret".to_string())));
    assert_eq!(s, LoginState::LoggingIn);
    let r = sent(a);
    assert_eq!(r.method, Method::Post);
    assert_eq!(r.url, "https://sso.myscript.com/public/customlogin");
    assert_eq!(r.form, pairs(&[("email", "me@example.com"), ("password", "secret")]));
    assert!(r.query.is_empty());

    let (s, a) = token("prod", "me@example.com", s, redirect(Some(GRANT_LOCATION)));
    assert_eq!(s, LoginState::Granting);
    let r = sent(a);
    assert_eq!(r.method, Method::Get);
    assert_eq!(r.url, "https://sso.myscript.com/oauth/authorize");
    assert_eq!(
        r.query,
        pairs(&[
            ("client_id", "nebowebap"),
            ("response_type", "token"),
            ("scope", "read"),
            ("redirect_uri", "https://nebo.app/callback"),
        ])
    );

    let (s, a) = token(
        "prod",
        "me@example.com",
        s,
        redirect(Some("https://nebo.app/callback#access_token=abc123&token_type=bearer&expires_in=3600")),
    );
    assert_eq!(s, LoginState::Finished);
    match a {
        LoginAction::Finish(Ok(t)) => assert_eq!(t, "Bearer abc123"),
        other => panic!("expected a token, got {:?}", other),
    }
}

#[test]
fn login_token_without_ampersand_runs_to_the_end() {
    let (_, a) = token("local", "u", LoginState::Granting, redirect(Some("http://localhost:8099/ssocallback#access_token=tok")));
    match a {
        LoginAction::Finish(Ok(t)) => assert_eq!(t, "Bearer tok"),
        other => panic!("expected a token, got {:?}", other),
    }
}

#[test]
fn login_refused_at_each_call() {
    let plain_ok = || LoginEvent::Reply(Ok(HttpReply { status: 200, location: None, body: Ok(String::new()) }));
    let (s, a) = token("prod", "u", LoginState::Authorizing, plain_ok());
    assert_eq!(s, LoginState::Finished);
    let e = failure(a);
    assert!(matches!(e, NeboError::FirstCallRefused));
    assert_eq!(e.message(), "wrong answer from first call");

    let e = failure(token("prod", "u", LoginState::LoggingIn, plain_ok()).1);
    assert!(matches!(e, NeboError::SecondCallRefused));
    assert_eq!(e.message(), "wrong answer from second call");

    let e = failure(token("prod", "u", LoginState::Granting, plain_ok()).1);
    assert!(matches!(e, NeboError::ThirdCallRefused));
    assert_eq!(e.message(), "wrong answer from third call");
}

#[test]
fn login_redirect_without_location() {
    let e = failure(token("cloudtest", "u", LoginState::LoggingIn, redirect(None)).1);
    assert!(matches!(e, NeboError::MissingLocation));
    assert_eq!(e.message(), "Second call: No location found in header");
}

#[test]
fn login_location_that_is_no_url() {
    let e = failure(token("cloudtest", "u", LoginState::LoggingIn, redirect(Some("not a url"))).1);
    match e {
        NeboError::InvalidUrl(m) => assert_eq!(m, "relative URL without a base"),
        other => panic!("unexpected {:?}", other),
    }
}

#[test]
fn login_callback_without_fragment() {
    let e = failure(token("cloudtest", "u", LoginState::Granting, redirect(Some("https://nebo.app/callback"))).1);
    assert!(matches!(e, NeboError::MissingFragment));
    assert_eq!(e.message(), "No fragment in callback url");
}

#[test]
fn login_callback_with_short_fragment() {
    let e = failure(token("cloudtest", "u", LoginState::Granting, redirect(Some("https://nebo.app/callback#a=b"))).1);
    assert!(matches!(e, NeboError::MalformedFragment));
}

#[test]
fn login_without_password() {
    let e = failure(token("prod", "u", LoginState::AwaitingPassword, LoginEvent::Password(Err("no tty".to_string()))).1);
    match e {
        NeboError::PasswordUnavailable(m) => assert_eq!(m, "no tty"),
        other => panic!("unexpected {:?}", other),
    }
}

#[test]
fn login_transport_failure() {
    let e = failure(token("prod", "u", LoginState::Authorizing, LoginEvent::Reply(Err("connection refused".to_string()))).1);
    match e {
        NeboError::Transport(m) => assert_eq!(m, "connection refused"),
        other => panic!("unexpected {:?}", other),
    }
}

#[test]
fn login_out_of_order_and_finished() {
    let e = failure(token("prod", "u", LoginState::Start, LoginEvent::Password(Ok("x".to_string()))).1);
    assert!(matches!(e, NeboError::OutOfOrder));
    let (s, a) = token("prod", "u", LoginState::Finished, LoginEvent::Begin);
    assert_eq!(s, LoginState::Finished);
    assert!(matches!(failure(a), NeboError::OutOfOrder));
}

#[test]
fn bearer_token_cuts_at_first_ampersand() {
    assert_eq!(bearer_token("access_token=abc&x=1&y=2"), Some("Bearer abc".to_string()));
    assert_eq!(bearer_token("access_token=abc"), Some("Bearer abc".to_string()));
    assert_eq!(bearer_token("access_token="), Some("Bearer ".to_string()));
    assert_eq!(bearer_token("short"), None);
    assert_eq!(bearer_token("a=b&access_token=abc"), None);
}

#[test]
fn grant_pairs_keep_the_grant_keys_in_order() {
    let all = pairs(&[("state", "s"), ("scope", "read"), ("client_id", "c"), ("x", "y"), ("redirect_uri", "r"), ("response_type", "token")]);
    assert_eq!(
        grant_pairs(&all),
        pairs(&[("scope", "read"), ("client_id", "c"), ("redirect_uri", "r"), ("response_type", "token")])
    );
}
