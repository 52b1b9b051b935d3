use nebo_cli::configuration::Configuration;
use nebo_cli::contacts::{add_contact_outcome, add_contact_request, remove_contact_outcome, remove_contact_request, ContactPayload};
use nebo_cli::env::{env_config, env_names, Env};
use nebo_cli::error::NeboError;
use nebo_cli::http::{is_success, HttpReply, Method};
use nebo_cli::page::{
    delete_page_outcome, delete_page_request, list_pages_outcome, list_pages_request, make_private_outcome,
    make_private_request, page_uuids, share_outcome, share_request, Page, PageOption,
};

fn prod() -> Env {
    env_config("prod").unwrap()
}

fn reply(status: u16, body: &str) -> Result<HttpReply, String> {
    Ok(HttpReply { status, location: None, body: Ok(body.to_string()) })
}

fn unreadable(status: u16) -> Result<HttpReply, String> {
    Ok(HttpReply { status, location: None, body: Err("body lost".to_string()) })
}

#[test]
fn env_config_knows_four_deployments() {
    let e = env_config("local").unwrap();
    assert_eq!(e.sso_url, "http://localhost:8080");
    assert_eq!(e.neboapp_url, "http://localhost:8899");
    assert_eq!(e.client_id, "nebowebap_cloudtest");
    assert_eq!(e.sso_redirect_uri, "http://localhost:8099/ssocallback");
    let e = env_config("cloudtest2").unwrap();
    assert_eq!(e.neboapp_url, "https://neboapp2.corp.myscript.com");
    assert_eq!(e.sso_url, "https://sso.corp.myscript.com");
    assert!(env_config("staging").is_none());
    assert!(env_config("").is_none());
    for name in env_names() {
        assert!(env_config(name).is_some());
    }
    assert_eq!(env_names(), vec!["local", "cloudtest", "cloudtest2", "prod"]);
}

#[test]
fn success_is_the_2xx_range() {
    assert!(is_success(200));
    assert!(is_success(204));
    assert!(is_success(299));
    assert!(!is_success(199));
    assert!(!is_success(300));
    assert!(!is_success(404));
}

#[test]
fn delete_page_request_targets_the_page() {
    let r = delete_page_request(&prod(), "Bearer t", "abc");
    assert_eq!(r.method, Method::Delete);
    assert_eq!(r.url, "https://www.nebo.app/api/v2.0/nebo/pages/abc");
    assert_eq!(r.authorization.as_deref(), Some("Bearer t"));
    assert!(r.json_body.is_none());
}

#[test]
fn delete_page_outcomes() {
    assert!(delete_page_outcome("abc", reply(200, "")).is_ok());
    assert!(delete_page_outcome("abc", reply(404, "gone")).is_ok());
    let e = delete_page_outcome("abc", reply(500, "boom")).unwrap_err();
    assert_eq!(e.message(), "error during call to delete api boom for abc");
    assert!(matches!(delete_page_outcome("abc", unreadable(500)), Err(NeboError::UnreadableBody(_))));
    assert!(matches!(delete_page_outcome("abc", Err("down".to_string())), Err(NeboError::Transport(_))));
}

#[test]
fn page_json_is_camel_case_with_same_dates() {
    let p = Page::new("u1", "sig", "my \"title\"", "2020-01-02T03:04:05Z");
    assert_eq!(p.metadata.creation_date, p.metadata.last_modification_date);
    assert_eq!(
        p.to_json(),
        "{\"uuid\":\"u1\",\"signature\":\"sig\",\"metadata\":{\"pageTitle\":\"my \\\"title\\\"\",\"pageId\":\"toto\",\"lastModificationDate\":\"2020-01-02T03:04:05Z\",\"creationDate\":\"2020-01-02T03:04:05Z\"}}"
    );
    assert_eq!(PageOption { visibility: "PRIVATE".to_string() }.to_json(), "{\"visibility\":\"PRIVATE\"}");
}

#[test]
fn share_request_posts_the_page() {
    let r = share_request(&prod(), "Bearer t", "u1", "sig", "t", "d");
    assert_eq!(r.method, Method::Post);
    assert_eq!(r.url, "https://www.nebo.app/api/v2.0/nebo/pages");
    assert_eq!(r.authorization.as_deref(), Some("Bearer t"));
    assert_eq!(
        r.json_body.as_deref(),
        Some("{\"uuid\":\"u1\",\"signature\":\"sig\",\"metadata\":{\"pageTitle\":\"t\",\"pageId\":\"toto\",\"lastModificationDate\":\"d\",\"creationDate\":\"d\"}}")
    );
}

#[test]
fn share_outcomes() {
    assert!(share_outcome(reply(201, "")).is_ok());
    let e = share_outcome(reply(400, "bad")).unwrap_err();
    assert!(matches!(e, NeboError::ShareApi(_)));
    assert_eq!(e.message(), "error during call to delete api bad");
    assert!(matches!(share_outcome(unreadable(400)), Err(NeboError::UnreadableBody(_))));
}

#[test]
fn make_private_request_and_outcomes() {
    let r = make_private_request(&prod(), "Bearer t", "u1");
    assert_eq!(r.method, Method::Put);
    assert_eq!(r.url, "https://www.nebo.app/api/v2.0/nebo/pages/u1");
    assert_eq!(r.json_body.as_deref(), Some("{\"visibility\":\"PRIVATE\"}"));
    assert!(make_private_outcome(reply(200, "")).is_ok());
    let e = make_private_outcome(reply(403, "no")).unwrap_err();
    assert_eq!(e.message(), "error during setting page private no");
}

#[test]
fn list_pages_request_and_outcomes() {
    let r = list_pages_request(&prod(), "Bearer t");
    assert_eq!(r.method, Method::Get);
    assert_eq!(r.url, "https://www.nebo.app/api/v2.0/nebo/pages");
    assert_eq!(list_pages_outcome(reply(200, "{\"content\":[]}")).unwrap(), "{\"content\":[]}");
    let e = list_pages_outcome(reply(500, "oops")).unwrap_err();
    assert_eq!(e.message(), "error during call to get pages oops");
    assert!(matches!(list_pages_outcome(unreadable(200)), Err(NeboError::Transport(_))));
}

#[test]
fn page_uuids_keep_the_order() {
    let pages = vec![Page::new("a", "s", "t", "d"), Page::new("b", "s", "t", "d")];
    assert_eq!(page_uuids(pages), vec!["a".to_string(), "b".to_string()]);
    assert!(page_uuids(Vec::new()).is_empty());
}

#[test]
fn configuration_request_and_outcomes() {
    let r = Configuration::request(&env_config("cloudtest").unwrap(), "Bearer t");
    assert_eq!(r.method, Method::Get);
    assert_eq!(r.url, "https://neboapp.corp.myscript.com/api/v1.0/nebo/configuration");
    assert_eq!(r.authorization.as_deref(), Some("Bearer t"));
    assert_eq!(Configuration::outcome(reply(200, "{}")).unwrap(), "{}");
    let e = Configuration::outcome(reply(401, "")).unwrap_err();
    assert!(matches!(e, NeboError::ConfigurationApi));
    assert_eq!(e.message(), "error during call to configuration api");
}

#[test]
fn contact_payload_json() {
    let p = ContactPayload::new("a@b.c", None, None);
    assert_eq!(p.contacts.len(), 1);
    assert_eq!(p.contacts[0].permission, "READ");
    assert_eq!(p.to_json(), "{\"contacts\":[{\"email\":\"a@b.c\",\"permission\":\"READ\"}]}");
    let p = ContactPayload::new("a@b.c", Some("Al"), Some("hi"));
    assert_eq!(
        p.to_json(),
        "{\"message\":\"hi\",\"contacts\":[{\"email\":\"a@b.c\",\"name\":\"Al\",\"permission\":\"READ\"}]}"
    );
}

#[test]
fn add_contact_request_and_outcomes() {
    let r = add_contact_request(&prod(), "Bearer t", "u1", "a@b.c", Some("Al"), None);
    assert_eq!(r.method, Method::Post);
    assert_eq!(r.url, "https://www.nebo.app/api/v2.0/nebo/pages/u1/contacts");
    assert_eq!(
        r.json_body.as_deref(),
        Some("{\"contacts\":[{\"email\":\"a@b.c\",\"name\":\"Al\",\"permission\":\"READ\"}]}")
    );
    assert!(add_contact_outcome(reply(200, "")).is_ok());
    let e = add_contact_outcome(reply(404, "")).unwrap_err();
    assert!(matches!(e, NeboError::PageNotFound));
    assert_eq!(e.message(), "page not found");
    let e = add_contact_outcome(reply(500, "bad")).unwrap_err();
    assert_eq!(e.message(), "error duting add contact bad");
    assert!(matches!(add_contact_outcome(unreadable(500)), Err(NeboError::Transport(_))));
}

#[test]
fn remove_contact_request_and_outcomes() {
    let r = remove_contact_request(&prod(), "Bearer t", "u1", "a@b.c");
    assert_eq!(r.method, Method::Delete);
    assert_eq!(r.url, "https://www.nebo.app/api/v2.0/nebo/pages/u1/contacts/a@b.c");
    assert!(r.json_body.is_none());
    assert!(remove_contact_outcome(reply(204, "")).is_ok());
    let e = remove_contact_outcome(reply(404, "nope")).unwrap_err();
    assert_eq!(e.message(), "error during call to api nope");
}

#[test]
fn json_escapes_control_characters() {
    let p = PageOption { visibility: "a\\b\tc\n\u{1}\u{1f}\u{8}\u{c}\r\u{7f}é".to_string() };
    assert_eq!(
        p.to_json(),
        "{\"visibility\":\"a\\\\b\\tc\\n\\u0001\\u001f\\b\\f\\r\u{7f}é\"}"
    );
}
