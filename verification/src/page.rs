use vstd::prelude::*;

use crate::env::{Env, EnvSpec, pages_path, pages_path_spec};
use crate::error::{ErrorSpec, NeboError, result_view, text_result_view};
use crate::http::{HttpReply, HttpRequest, Method, ReplySpec, RequestSpec, sent_view, is_success, is_success_spec, service_request, service_request_spec, NOT_FOUND};
use crate::json::{page_json, page_option_json, push_member};
use crate::text::cat;

verus! {

/// Descriptive data of a published page.
#[derive(Debug)]
pub struct PageMetadata {
    pub page_title: String,
    pub page_id: String,
    pub last_modification_date: String,
    pub creation_date: String,
}

/// A page as the pages collection knows it.
#[derive(Debug)]
pub struct Page {
    pub uuid: String,
    pub signature: String,
    pub metadata: PageMetadata,
}

/// A change of visibility of a page.
pub struct PageOption {
    pub visibility: String,
}

impl Page {
    /// A page published now: it was created and last modified at `date`.
    pub fn new(uuid: &str, signature: &str, title: &str, date: &str) -> (r: Page)
        ensures
            r.uuid@ == uuid@,
            r.signature@ == signature@,
            r.metadata.page_title@ == title@,
            r.metadata.page_id@ == "toto"@,
            r.metadata.last_modification_date@ == date@,
            r.metadata.creation_date@ == date@,
    {
        Page {
            uuid: String::from_str(uuid),
            signature: String::from_str(signature),
            metadata: PageMetadata {
                page_title: String::from_str(title),
                page_id: String::from_str("toto"),
                last_modification_date: String::from_str(date),
                creation_date: String::from_str(date),
            },
        }
    }

    /// The JSON text of the page, members in declaration order, names in camel case.
    pub fn to_json(&self) -> (r: String)
        ensures
            r@ == page_json(
                self.uuid@,
                self.signature@,
                self.metadata.page_title@,
                self.metadata.page_id@,
                self.metadata.last_modification_date@,
                self.metadata.creation_date@,
            ),
    {
        let mut out = String::new();
        push_member(&mut out, "{\"uuid\":", self.uuid.as_str());
        push_member(&mut out, ",\"signature\":", self.signature.as_str());
        push_member(&mut out, ",\"metadata\":{\"pageTitle\":", self.metadata.page_title.as_str());
        push_member(&mut out, ",\"pageId\":", self.metadata.page_id.as_str());
        push_member(&mut out, ",\"lastModificationDate\":", self.metadata.last_modification_date.as_str());
        push_member(&mut out, ",\"creationDate\":", self.metadata.creation_date.as_str());
        out.append("}}");
        out
    }
}

impl PageOption {
    /// The JSON text of the visibility change.
    pub fn to_json(&self) -> (r: String)
        ensures
            r@ == page_option_json(self.visibility@),
    {
        let mut out = String::new();
        push_member(&mut out, "{\"visibility\":", self.visibility.as_str());
        out.append("}");
        out
    }
}

/// URL of the pages collection.
pub open spec fn pages_url_spec(env: EnvSpec) -> Seq<char> {
    env.neboapp_url + pages_path_spec()
}

/// URL of one page.
pub open spec fn page_url_spec(env: EnvSpec, uuid: Seq<char>) -> Seq<char> {
    pages_url_spec(env) + "/"@ + uuid
}

/// URL of the pages collection.
pub fn pages_url(env: &Env) -> (r: String)
    ensures
        r@ == pages_url_spec(env@),
{
    cat(env.neboapp_url, pages_path())
}

/// URL of one page.
pub fn page_url(env: &Env, uuid: &str) -> (r: String)
    ensures
        r@ == page_url_spec(env@, uuid@),
{
    let mut s = pages_url(env);
    s.append("/");
    s.append(uuid);
    s
}

/// The request that publishes a page.
pub open spec fn share_request_spec(env: EnvSpec, token: Seq<char>, uuid: Seq<char>, signature: Seq<char>, title: Seq<char>, date: Seq<char>) -> RequestSpec {
    service_request_spec(Method::Post, pages_url_spec(env), token, Some(page_json(uuid, signature, title, "toto"@, date, date)))
}

/// Builds the request that publishes page `uuid` with its signature, title and date.
pub fn share_request(env: &Env, token: &str, uuid: &str, signature: &str, title: &str, date: &str) -> (r: HttpRequest)
    ensures
        r@ == share_request_spec(env@, token@, uuid@, signature@, title@, date@),
{
    let page = Page::new(uuid, signature, title, date);
    let body = page.to_json();
    service_request(Method::Post, pages_url(env), token, Some(body))
}

/// What the publication of a page gives, by views.
pub open spec fn share_outcome_spec(reply: Result<ReplySpec, Seq<char>>) -> Result<(), ErrorSpec> {
    match reply {
        Err(e) => Err(ErrorSpec::Transport(e)),
        Ok(rep) => if is_success_spec(rep.status) {
            Ok(())
        } else {
            match rep.body {
                Ok(b) => Err(ErrorSpec::ShareApi(b)),
                Err(e) => Err(ErrorSpec::UnreadableBody(e)),
            }
        },
    }
}

/// What the publication of a page gives: success on a 2xx status, else the body of the answer.
pub fn share_outcome(reply: Result<HttpReply, String>) -> (r: Result<(), NeboError>)
    ensures
        result_view(r) == share_outcome_spec(sent_view(reply)),
        match reply {
            Err(e) => r == Err::<(), NeboError>(NeboError::Transport(e)),
            Ok(rep) => if is_success_spec(rep.status) {
                r is Ok
            } else {
                match rep.body {
                    Ok(b) => r == Err::<(), NeboError>(NeboError::ShareApi(b)),
                    Err(e) => r == Err::<(), NeboError>(NeboError::UnreadableBody(e)),
                }
            },
        },
{
    match reply {
        Err(e) => Err(NeboError::Transport(e)),
        Ok(rep) => {
            if is_success(rep.status) {
                Ok(())
            } else {
                match rep.body {
                    Ok(b) => Err(NeboError::ShareApi(b)),
                    Err(e) => Err(NeboError::UnreadableBody(e)),
                }
            }
        },
    }
}

/// The request that makes a page private.
pub open spec fn make_private_request_spec(env: EnvSpec, token: Seq<char>, uuid: Seq<char>) -> RequestSpec {
    service_request_spec(Method::Put, page_url_spec(env, uuid), token, Some(page_option_json("PRIVATE"@)))
}

/// Builds the request that makes page `uuid` private.
pub fn make_private_request(env: &Env, token: &str, uuid: &str) -> (r: HttpRequest)
    ensures
        r@ == make_private_request_spec(env@, token@, uuid@),
{
    let option = PageOption { visibility: String::from_str("PRIVATE") };
    let body = option.to_json();
    service_request(Method::Put, page_url(env, uuid), token, Some(body))
}

/// What making a page private gives, by views.
pub open spec fn make_private_outcome_spec(reply: Result<ReplySpec, Seq<char>>) -> Result<(), ErrorSpec> {
    match reply {
        Err(e) => Err(ErrorSpec::Transport(e)),
        Ok(rep) => if is_success_spec(rep.status) {
            Ok(())
        } else {
            match rep.body {
                Ok(b) => Err(ErrorSpec::SetPrivate(b)),
                Err(e) => Err(ErrorSpec::UnreadableBody(e)),
            }
        },
    }
}

/// What making a page private gives: success on a 2xx status, else the body of the answer.
pub fn make_private_outcome(reply: Result<HttpReply, String>) -> (r: Result<(), NeboError>)
    ensures
        result_view(r) == make_private_outcome_spec(sent_view(reply)),
        match reply {
            Err(e) => r == Err::<(), NeboError>(NeboError::Transport(e)),
            Ok(rep) => if is_success_spec(rep.status) {
                r is Ok
            } else {
                match rep.body {
                    Ok(b) => r == Err::<(), NeboError>(NeboError::SetPrivate(b)),
                    Err(e) => r == Err::<(), NeboError>(NeboError::UnreadableBody(e)),
                }
            },
        },
{
    match reply {
        Err(e) => Err(NeboError::Transport(e)),
        Ok(rep) => {
            if is_success(rep.status) {
                Ok(())
            } else {
                match rep.body {
                    Ok(b) => Err(NeboError::SetPrivate(b)),
                    Err(e) => Err(NeboError::UnreadableBody(e)),
                }
            }
        },
    }
}

/// The request that deletes a page.
pub open spec fn delete_page_request_spec(env: EnvSpec, token: Seq<char>, uuid: Seq<char>) -> RequestSpec {
    service_request_spec(Method::Delete, page_url_spec(env, uuid), token, None)
}

/// Builds the request that deletes page `uuid`.
pub fn delete_page_request(env: &Env, token: &str, uuid: &str) -> (r: HttpRequest)
    ensures
        r@ == delete_page_request_spec(env@, token@, uuid@),
{
    service_request(Method::Delete, page_url(env, uuid), token, None)
}

/// What deleting a page gives, by views.
pub open spec fn delete_page_outcome_spec(uuid: Seq<char>, reply: Result<ReplySpec, Seq<char>>) -> Result<(), ErrorSpec> {
    match reply {
        Err(e) => Err(ErrorSpec::Transport(e)),
        Ok(rep) => if is_success_spec(rep.status) || rep.status == NOT_FOUND {
            Ok(())
        } else {
            match rep.body {
                Ok(b) => Err(ErrorSpec::DeleteApi { body: b, uuid: uuid }),
                Err(e) => Err(ErrorSpec::UnreadableBody(e)),
            }
        },
    }
}

/// What deleting page `uuid` gives: success on a 2xx status and also when the page is
/// already gone (404), else the body of the answer and the page.
pub fn delete_page_outcome(uuid: &str, reply: Result<HttpReply, String>) -> (r: Result<(), NeboError>)
    ensures
        result_view(r) == delete_page_outcome_spec(uuid@, sent_view(reply)),
        match reply {
            Err(e) => r == Err::<(), NeboError>(NeboError::Transport(e)),
            Ok(rep) => if is_success_spec(rep.status) || rep.status == NOT_FOUND {
                r is Ok
            } else {
                match rep.body {
                    Ok(b) => r matches Err(NeboError::DeleteApi { body, uuid: u }) && body == b && u@ == uuid@,
                    Err(e) => r == Err::<(), NeboError>(NeboError::UnreadableBody(e)),
                }
            },
        },
{
    match reply {
        Err(e) => Err(NeboError::Transport(e)),
        Ok(rep) => {
            if is_success(rep.status) || rep.status == NOT_FOUND {
                Ok(())
            } else {
                match rep.body {
                    Ok(b) => Err(NeboError::DeleteApi { body: b, uuid: String::from_str(uuid) }),
                    Err(e) => Err(NeboError::UnreadableBody(e)),
                }
            }
        },
    }
}

/// The request that lists the pages of the holder of the token.
pub open spec fn list_pages_request_spec(env: EnvSpec, token: Seq<char>) -> RequestSpec {
    service_request_spec(Method::Get, pages_url_spec(env), token, None)
}

/// Builds the request that lists the pages of the holder of `token`.
pub fn list_pages_request(env: &Env, token: &str) -> (r: HttpRequest)
    ensures
        r@ == list_pages_request_spec(env@, token@),
{
    service_request(Method::Get, pages_url(env), token, None)
}

/// What listing the pages gives, by views.
pub open spec fn list_pages_outcome_spec(reply: Result<ReplySpec, Seq<char>>) -> Result<Seq<char>, ErrorSpec> {
    match reply {
        Err(e) => Err(ErrorSpec::Transport(e)),
        Ok(rep) => match rep.body {
            Err(e) => Err(ErrorSpec::Transport(e)),
            Ok(b) => if is_success_spec(rep.status) {
                Ok(b)
            } else {
                Err(ErrorSpec::PagesApi(b))
            },
        },
    }
}

/// What listing the pages gives: the body text to decode on a 2xx status; a body that
/// cannot be read fails first, whatever the status.
pub fn list_pages_outcome(reply: Result<HttpReply, String>) -> (r: Result<String, NeboError>)
    ensures
        text_result_view(r) == list_pages_outcome_spec(sent_view(reply)),
        match reply {
            Err(e) => r == Err::<String, NeboError>(NeboError::Transport(e)),
            Ok(rep) => match rep.body {
                Err(e) => r == Err::<String, NeboError>(NeboError::Transport(e)),
                Ok(b) => if is_success_spec(rep.status) {
                    r == Ok::<String, NeboError>(b)
                } else {
                    r == Err::<String, NeboError>(NeboError::PagesApi(b))
                },
            },
        },
{
    match reply {
        Err(e) => Err(NeboError::Transport(e)),
        Ok(rep) => {
            let status = rep.status;
            match rep.body {
                Err(e) => Err(NeboError::Transport(e)),
                Ok(b) => {
                    if is_success(status) {
                        Ok(b)
                    } else {
                        Err(NeboError::PagesApi(b))
                    }
                },
            }
        },
    }
}

/// The pages to delete: the identifiers of the listed pages, in order.
pub fn page_uuids(pages: Vec<Page>) -> (r: Vec<String>)
    ensures
        r@.len() == pages@.len(),
        forall|i: int| 0 <= i < r@.len() ==> r@[i] == #[trigger] pages@[i].uuid,
{
    let mut r: Vec<String> = Vec::new();
    let n = pages.len();
    let mut i: usize = 0;
    while i < n
        invariant
            n == pages@.len(),
            i <= n,
            r@.len() == i,
            forall|j: int| 0 <= j < i ==> r@[j] == #[trigger] pages@[j].uuid,
        decreases n - i,
    {
        r.push(pages[i].uuid.clone());
        i = i + 1;
    }
    r
}

} // verus!
