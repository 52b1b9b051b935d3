use nebo_cli::auth::LoginState;
use nebo_cli::configuration::{Configuration, Credentials, S3Configuration};
use nebo_cli::error::NeboError;
use nebo_cli::flow::{Action, Event};
use nebo_cli::http::{HttpReply, HttpRequest, Method};
use nebo_cli::ops::{CallState, DeletePagesState, SharePageState, SharePagesState};
use nebo_cli::page::Page;
use nebo_cli::share::{PageShareState, ShareInput};
use nebo_cli::upload::RegionChoice;
use nebo_cli::{add_contact, delete_page, delete_pages, remove_contact, share_page, share_pages};

const CALLBACK: &str = "https://nebo.app/callback#access_token=tok&token_type=bearer";

fn redirect(location: &str) -> Event {
    Event::Reply(Ok(HttpReply { status: 302, location: Some(location.to_string()), body: Ok(String::new()) }))
}

fn reply(status: u16, body: &str) -> Event {
    Event::Reply(Ok(HttpReply { status, location: None, body: Ok(body.to_string()) }))
}

fn sent(a: Action) -> HttpRequest {
    match a {
        Action::Send(r) => r,
        other => panic!("expected a request, got {:?}", other),
    }
}

fn failure(a: Action) -> NeboError {
    match a {
        Action::Finish(Err(e)) => e,
        other => panic!("expected a failure, got {:?}", other),
    }
}

fn succeeded(a: &Action) -> bool {
    matches!(a, Action::Finish(Ok(())))
}

fn configuration() -> Configuration {
    Configuration {
        sharing_url_prefix: "https://share/".to_string(),
        s3: S3Configuration {
            bucket: "bucket".to_string(),
            client_directory_prefix: "client/".to_string(),
            region: "eu-west-1".to_string(),
            kms_key: "NO_KMS_KEY".to_string(),
            service_endpoint: None,
        },
        credentials: Credentials {
            access_token: "at".to_string(),
            identity_pool_id: "pool".to_string(),
            region: "eu-central-1".to_string(),
            identity_id: "id".to_string(),
            identity_provider: "provider".to_string(),
        },
    }
}

#[test]
fn delete_page_after_login() {
    let (s, a) = delete_page("prod", "u", "p1", CallState::Login(LoginState::Start), Event::Begin);
    assert_eq!(s, CallState::Login(LoginState::Authorizing));
    assert_eq!(sent(a).url, "https://sso.myscript.com/oauth/authorize");

    let (s, a) = delete_page("prod", "u", "p1", CallState::Login(LoginState::Granting), redirect(CALLBACK));
    assert_eq!(s, CallState::Calling);
    let r = sent(a);
    assert_eq!(r.method, Method::Delete);
    assert_eq!(r.url, "https://www.nebo.app/api/v2.0/nebo/pages/p1");
    assert_eq!(r.authorization.as_deref(), Some("Bearer tok"));

    let (s, a) = delete_page("prod", "u", "p1", CallState::Calling, reply(204, ""));
    assert_eq!(s, CallState::Finished);
    assert!(succeeded(&a));
}

#[test]
fn delete_of_a_gone_page_succeeds() {
    let (s, a) = delete_page("prod", "u", "p1", CallState::Calling, reply(404, "not here"));
    assert_eq!(s, CallState::Finished);
    assert!(succeeded(&a));
}

#[test]
fn delete_page_failures() {
    let e = failure(delete_page("prod", "u", "p1", CallState::Calling, reply(500, "err")).1);
    assert_eq!(e.message(), "error during call to delete api err for p1");
    let e = failure(delete_page("prod", "u", "p1", CallState::Login(LoginState::Authorizing), reply(200, "")).1);
    assert!(matches!(e, NeboError::FirstCallRefused));
    let (s, a) = delete_page("prod", "u", "p1", CallState::Finished, Event::Begin);
    assert_eq!(s, CallState::Finished);
    assert!(matches!(failure(a), NeboError::OutOfOrder));
    let e = failure(delete_page("prod", "u", "p1", CallState::Calling, Event::Dispatched).1);
    assert!(matches!(e, NeboError::OutOfOrder));
}

#[test]
fn add_and_remove_a_contact() {
    let (s, a) = add_contact("local", "u", "p1", "a@b.c", None, Some("hi"), CallState::Login(LoginState::Granting), redirect(CALLBACK));
    assert_eq!(s, CallState::Calling);
    let r = sent(a);
    assert_eq!(r.url, "http://localhost:8899/api/v2.0/nebo/pages/p1/contacts");
    assert_eq!(
        r.json_body.as_deref(),
        Some("{\"message\":\"hi\",\"contacts\":[{\"email\":\"a@b.c\",\"permission\":\"READ\"}]}")
    );
    let (s, a) = add_contact("local", "u", "p1", "a@b.c", None, Some("hi"), s, reply(200, ""));
    assert_eq!(s, CallState::Finished);
    assert!(succeeded(&a));
    let e = failure(add_contact("local", "u", "p1", "a@b.c", None, None, CallState::Calling, reply(404, "")).1);
    assert!(matches!(e, NeboError::PageNotFound));

    let (s, a) = remove_contact("local", "u", "p1", "a@b.c", CallState::Login(LoginState::Granting), redirect(CALLBACK));
    assert_eq!(s, CallState::Calling);
    let r = sent(a);
    assert_eq!(r.method, Method::Delete);
    assert_eq!(r.url, "http://localhost:8899/api/v2.0/nebo/pages/p1/contacts/a@b.c");
    let (s, a) = remove_contact("local", "u", "p1", "a@b.c", s, reply(200, ""));
    assert_eq!(s, CallState::Finished);
    assert!(succeeded(&a));
    let e = failure(remove_contact("local", "u", "p1", "a@b.c", CallState::Calling, reply(403, "no")).1);
    assert_eq!(e.message(), "error during call to api no");
}

#[test]
fn delete_every_listed_page() {
    let (s, a) = delete_pages("prod", "u", DeletePagesState::Login(LoginState::Granting), redirect(CALLBACK));
    assert!(matches!(s, DeletePagesState::Listing { .. }));
    let r = sent(a);
    assert_eq!(r.method, Method::Get);
    assert_eq!(r.url, "https://www.nebo.app/api/v2.0/nebo/pages");

    let (s, a) = delete_pages("prod", "u", s, reply(200, "{\"content\":[]}"));
    assert!(matches!(s, DeletePagesState::Decoding { .. }));
    match a {
        Action::DecodePages(t) => assert_eq!(t, "{\"content\":[]}"),
        other => panic!("unexpected {:?}", other),
    }

    let pages = vec![Page::new("a", "s", "t", "d"), Page::new("b", "s", "t", "d")];
    let (s, a) = delete_pages("prod", "u", s, Event::Pages(Ok(pages)));
    assert!(matches!(s, DeletePagesState::Dispatching));
    match a {
        Action::DeleteEach { token, uuids } => {
            assert_eq!(token, "Bearer tok");
            assert_eq!(uuids, vec!["a".to_string(), "b".to_string()]);
        },
        other => panic!("unexpected {:?}", other),
    }

    let (s, a) = delete_pages("prod", "u", s, Event::Dispatched);
    assert!(matches!(s, DeletePagesState::Finished));
    assert!(succeeded(&a));
}

#[test]
fn delete_pages_failures() {
    let listing = || DeletePagesState::Listing { token: "Bearer tok".to_string() };
    let e = failure(delete_pages("prod", "u", listing(), reply(500, "down")).1);
    assert_eq!(e.message(), "error during call to get pages down");
    let decoding = DeletePagesState::Decoding { token: "Bearer tok".to_string() };
    let e = failure(delete_pages("prod", "u", decoding, Event::Pages(Err("bad json".to_string()))).1);
    assert_eq!(e.message(), "bad json");
    let e = failure(delete_pages("prod", "u", listing(), Event::Dispatched).1);
    assert!(matches!(e, NeboError::OutOfOrder));
}

fn input(email: Option<&str>) -> ShareInput {
    ShareInput {
        uuid: "p1".to_string(),
        signature: None,
        filename: "/tmp/p1.nebo".to_string(),
        title: None,
        share_with_myscript: Some("true".to_string()),
        collect_login: None,
        email: email.map(|e| e.to_string()),
        now: 1600000000,
    }
}

#[test]
fn share_a_page_and_give_it_to_a_contact() {
    let inp = input(Some("a@b.c"));
    let (s, a) = share_page("prod", "u", &inp, SharePageState::Login(LoginState::Granting), redirect(CALLBACK));
    assert!(matches!(s, SharePageState::Configuring { .. }));
    assert_eq!(sent(a).url, "https://www.nebo.app/api/v1.0/nebo/configuration");

    let (s, a) = share_page("prod", "u", &inp, s, reply(200, "{...}"));
    assert!(matches!(s, SharePageState::Decoding { .. }));
    assert!(matches!(a, Action::DecodeConfiguration(ref t) if t == "{...}"));

    let (s, a) = share_page("prod", "u", &inp, s, Event::Configuration(Ok(configuration())));
    match &s {
        SharePageState::Sharing { identity_region, page, .. } => {
            assert_eq!(identity_region, "eu-central-1");
            assert_eq!(*page, PageShareState::Publishing);
        },
        other => panic!("unexpected {:?}", other),
    }
    let r = sent(a);
    assert_eq!(r.method, Method::Post);
    assert_eq!(r.url, "https://www.nebo.app/api/v2.0/nebo/pages");
    assert_eq!(
        r.json_body.as_deref(),
        Some("{\"uuid\":\"p1\",\"signature\":\"1600000000\",\"metadata\":{\"pageTitle\":\"the page p1\",\"pageId\":\"toto\",\"lastModificationDate\":\"2020-09-13T12:26:40Z\",\"creationDate\":\"2020-09-13T12:26:40Z\"}}")
    );

    let (s, a) = share_page("prod", "u", &inp, s, reply(201, ""));
    match a {
        Action::Upload(job) => {
            assert_eq!(job.filename, "/tmp/p1.nebo");
            assert!(matches!(job.region, RegionChoice::Named(ref n) if n == "eu-west-1"));
            assert_eq!(job.identity_region, "eu-central-1");
            assert_eq!(job.manager.key, "client/p1_1600000000.nebo");
            assert!(job.manager.server_side_encryption.is_none());
        },
        other => panic!("unexpected {:?}", other),
    }

    let (s, a) = share_page("prod", "u", &inp, s, Event::Uploaded(Ok(())));
    let r = sent(a);
    assert_eq!(r.method, Method::Put);
    assert_eq!(r.json_body.as_deref(), Some("{\"visibility\":\"PRIVATE\"}"));

    let (s, a) = share_page("prod", "u", &inp, s, reply(200, ""));
    let r = sent(a);
    assert_eq!(r.url, "https://www.nebo.app/api/v2.0/nebo/pages/p1/contacts");

    let (s, a) = share_page("prod", "u", &inp, s, reply(200, ""));
    assert!(matches!(s, SharePageState::Finished));
    assert!(succeeded(&a));
}

#[test]
fn share_a_page_without_contact_ends_after_upload() {
    let inp = input(None);
    let (s, a) = share_page("prod", "u", &inp, SharePageState::Decoding { token: "Bearer tok".to_string() }, Event::Configuration(Ok(configuration())));
    sent(a);
    let (s, a) = share_page("prod", "u", &inp, s, reply(200, ""));
    assert!(matches!(a, Action::Upload(_)));
    let (s, a) = share_page("prod", "u", &inp, s, Event::Uploaded(Ok(())));
    assert!(matches!(s, SharePageState::Finished));
    assert!(succeeded(&a));
}

#[test]
fn share_a_page_failures() {
    let inp = input(None);
    let mut bad = configuration();
    bad.credentials.region = "nowhere".to_string();
    let e = failure(share_page("prod", "u", &inp, SharePageState::Decoding { token: "t".to_string() }, Event::Configuration(Ok(bad))).1);
    assert_eq!(e.message(), "Not a valid AWS region: nowhere");

    let (s, _) = share_page("prod", "u", &inp, SharePageState::Decoding { token: "t".to_string() }, Event::Configuration(Ok(configuration())));
    let e = failure(share_page("prod", "u", &inp, s, reply(400, "refused")).1);
    assert!(matches!(e, NeboError::ShareApi(ref b) if b == "refused"));

    let (s, _) = share_page("prod", "u", &inp, SharePageState::Decoding { token: "t".to_string() }, Event::Configuration(Ok(configuration())));
    let (s, _) = share_page("prod", "u", &inp, s, reply(200, ""));
    let e = failure(share_page("prod", "u", &inp, s, Event::Uploaded(Err(NeboError::Transport("s3 down".to_string())))).1);
    assert_eq!(e.message(), "s3 down");

    let e = failure(share_page("prod", "u", &inp, SharePageState::Configuring { token: "t".to_string() }, reply(500, "")).1);
    assert!(matches!(e, NeboError::ConfigurationApi));
}

#[test]
fn share_the_files_of_a_directory() {
    let (s, a) = share_pages("cloudtest", "u", "/data", Some("a@b.c"), SharePagesState::Start, Event::Begin);
    assert!(matches!(s, SharePagesState::Scanning));
    assert!(matches!(a, Action::ScanDir(ref d) if d == "/data"));

    let files = vec!["/data/x.nebo".to_string(), "/data/sub/y.nebo".to_string()];
    let (s, a) = share_pages("cloudtest", "u", "/data", Some("a@b.c"), s, Event::Files(Ok(files.clone())));
    assert!(matches!(s, SharePagesState::Login { state: LoginState::Authorizing, .. }));
    assert_eq!(sent(a).url, "https://sso.corp.myscript.com/oauth/authorize");

    let s = SharePagesState::Login { state: LoginState::Granting, files: files.clone() };
    let (s, a) = share_pages("cloudtest", "u", "/data", Some("a@b.c"), s, redirect(CALLBACK));
    assert_eq!(sent(a).url, "https://neboapp.corp.myscript.com/api/v1.0/nebo/configuration");
    let (s, a) = share_pages("cloudtest", "u", "/data", Some("a@b.c"), s, reply(200, "{}"));
    assert!(matches!(a, Action::DecodeConfiguration(_)));
    let (s, a) = share_pages("cloudtest", "u", "/data", Some("a@b.c"), s, Event::Configuration(Ok(configuration())));
    match a {
        Action::ShareEach(batch) => {
            assert_eq!(batch.token, "Bearer tok");
            assert_eq!(batch.files, files);
            assert_eq!(batch.email.as_deref(), Some("a@b.c"));
            assert_eq!(batch.identity_region, "eu-central-1");
        },
        other => panic!("unexpected {:?}", other),
    }
    let (s, a) = share_pages("cloudtest", "u", "/data", Some("a@b.c"), s, Event::Dispatched);
    assert!(matches!(s, SharePagesState::Finished));
    assert!(succeeded(&a));
}

#[test]
fn share_the_files_of_an_unreadable_directory() {
    let e = failure(share_pages("prod", "u", "/nope", None, SharePagesState::Scanning, Event::Files(Err("No such file or directory".to_string()))).1);
    assert_eq!(e.message(), "No such file or directory");
}

#[test]
fn share_the_files_with_an_unknown_deployment_reads_the_directory_first() {
    let (s, a) = share_pages("staging", "u", "/data", None, SharePagesState::Start, Event::Begin);
    assert!(matches!(s, SharePagesState::Scanning));
    assert!(matches!(a, Action::ScanDir(_)));
    let e = failure(share_pages("staging", "u", "/nope", None, SharePagesState::Scanning, Event::Files(Err("gone".to_string()))).1);
    assert_eq!(e.message(), "gone");
}
