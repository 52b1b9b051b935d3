use vstd::prelude::*;

use crate::env::{Env, EnvSpec};
use crate::error::{ErrorSpec, NeboError, result_view};
use crate::http::{HttpReply, HttpRequest, Method, ReplySpec, RequestSpec, sent_view, is_success, is_success_spec, service_request, service_request_spec, NOT_FOUND, opt_view};
use crate::json::{contact_json, contact_payload_json, join_commas, json_quoted, push_member};
use crate::page::{page_url, page_url_spec};

verus! {

/// A person a page is shared with.
pub struct Contact {
    pub email: String,
    pub name: Option<String>,
    pub permission: String,
}

/// The contacts to add to a page, with the message they receive.
pub struct ContactPayload {
    pub message: Option<String>,
    pub contacts: Vec<Contact>,
}

/// JSON text of a contact.
pub open spec fn contact_spec(c: Contact) -> Seq<char> {
    contact_json(c.email@, opt_view(c.name), c.permission@)
}

impl Contact {
    /// The JSON text of the contact; the name is left out when there is none.
    pub fn to_json(&self) -> (r: String)
        ensures
            r@ == contact_spec(*self),
    {
        let mut out = String::new();
        push_member(&mut out, "{\"email\":", self.email.as_str());
        match &self.name {
            Some(n) => push_member(&mut out, ",\"name\":", n.as_str()),
            None => {},
        }
        push_member(&mut out, ",\"permission\":", self.permission.as_str());
        out.append("}");
        proof {
            let e = "{\"email\":"@ + json_quoted(self.email@);
            if self.name is None {
                assert(e + Seq::<char>::empty() =~= e);
            }
        }
        out
    }
}

impl ContactPayload {
    /// A payload that gives `mail` read access, under `name`, with `message`.
    pub fn new(mail: &str, name: Option<&str>, message: Option<&str>) -> (r: ContactPayload)
        ensures
            r.contacts@.len() == 1,
            r.contacts@[0].email@ == mail@,
            opt_view(r.contacts@[0].name) == match name {
                Some(n) => Some(n@),
                None => None::<Seq<char>>,
            },
            r.contacts@[0].permission@ == "READ"@,
            opt_view(r.message) == match message {
                Some(m) => Some(m@),
                None => None::<Seq<char>>,
            },
    {
        let contact = Contact {
            email: String::from_str(mail),
            name: match name {
                Some(n) => Some(String::from_str(n)),
                None => None,
            },
            permission: String::from_str("READ"),
        };
        let mut v: Vec<Contact> = Vec::with_capacity(1);
        v.push(contact);
        ContactPayload {
            message: match message {
                Some(m) => Some(String::from_str(m)),
                None => None,
            },
            contacts: v,
        }
    }

    /// The JSON text of the payload; the message is left out when there is none.
    pub fn to_json(&self) -> (r: String)
        ensures
            r@ == contact_payload_json(opt_view(self.message), self.contacts@.map_values(|c: Contact| contact_spec(c))),
    {
        let ghost items = self.contacts@.map_values(|c: Contact| contact_spec(c));
        let mut out = String::from_str("{");
        match &self.message {
            Some(m) => {
                push_member(&mut out, "\"message\":", m.as_str());
                out.append(",");
            },
            None => {},
        }
        let ghost head = out@;
        out.append("\"contacts\":[");
        let n = self.contacts.len();
        let mut i: usize = 0;
        while i < n
            invariant
                n == self.contacts@.len(),
                items == self.contacts@.map_values(|c: Contact| contact_spec(c)),
                i <= n,
                out@ == head + "\"contacts\":["@ + join_commas(items.take(i as int)),
            decreases n - i,
        {
            if i > 0 {
                out.append(",");
            }
            let piece = self.contacts[i].to_json();
            out.append(piece.as_str());
            proof {
                assert(items.take(i + 1).drop_last() =~= items.take(i as int));
                assert(items.take(i + 1).last() == items[i as int]);
                if i == 0 {
                    assert(join_commas(items.take(0)) =~= Seq::<char>::empty());
                }
            }
            i = i + 1;
        }
        out.append("]}");
        proof {
            assert(items.take(n as int) =~= items);
            let m_part = match opt_view(self.message) {
                Some(m) => "\"message\":"@ + json_quoted(m) + ","@,
                None => Seq::<char>::empty(),
            };
            assert(head =~= "{"@ + m_part);
        }
        out
    }
}

/// URL of the contacts of a page.
pub open spec fn contacts_url_spec(env: EnvSpec, uuid: Seq<char>) -> Seq<char> {
    page_url_spec(env, uuid) + "/contacts"@
}

/// URL of one contact of a page.
pub open spec fn contact_url_spec(env: EnvSpec, uuid: Seq<char>, email: Seq<char>) -> Seq<char> {
    contacts_url_spec(env, uuid) + "/"@ + email
}

/// The request that shares a page with a contact.
pub open spec fn add_contact_request_spec(
    env: EnvSpec,
    token: Seq<char>,
    uuid: Seq<char>,
    email: Seq<char>,
    name: Option<Seq<char>>,
    message: Option<Seq<char>>,
) -> RequestSpec {
    service_request_spec(
        Method::Post,
        contacts_url_spec(env, uuid),
        token,
        Some(contact_payload_json(message, seq![contact_json(email, name, "READ"@)])),
    )
}

/// An optional string slice as an optional character sequence.
pub open spec fn opt_str_view(o: Option<&str>) -> Option<Seq<char>> {
    match o {
        Some(s) => Some(s@),
        None => None,
    }
}

/// Builds the request that gives `email` read access to page `uuid`.
pub fn add_contact_request(env: &Env, token: &str, uuid: &str, email: &str, name: Option<&str>, message: Option<&str>) -> (r: HttpRequest)
    ensures
        r@ == add_contact_request_spec(env@, token@, uuid@, email@, opt_str_view(name), opt_str_view(message)),
{
    let payload = ContactPayload::new(email, name, message);
    let body = payload.to_json();
    proof {
        let items = payload.contacts@.map_values(|c: Contact| contact_spec(c));
        assert(items =~= seq![contact_json(email@, opt_str_view(name), "READ"@)]);
    }
    let mut url = page_url(env, uuid);
    url.append("/contacts");
    service_request(Method::Post, url, token, Some(body))
}

/// What sharing with a contact gives, by views.
pub open spec fn add_contact_outcome_spec(reply: Result<ReplySpec, Seq<char>>) -> Result<(), ErrorSpec> {
    match reply {
        Err(e) => Err(ErrorSpec::Transport(e)),
        Ok(rep) => if is_success_spec(rep.status) {
            Ok(())
        } else if rep.status == NOT_FOUND {
            Err(ErrorSpec::PageNotFound)
        } else {
            match rep.body {
                Ok(b) => Err(ErrorSpec::AddContact(b)),
                Err(e) => Err(ErrorSpec::Transport(e)),
            }
        },
    }
}

/// What sharing with a contact gives: success on a 2xx status; a missing page on 404;
/// else the body of the answer, or why it could not be read.
pub fn add_contact_outcome(reply: Result<HttpReply, String>) -> (r: Result<(), NeboError>)
    ensures
        result_view(r) == add_contact_outcome_spec(sent_view(reply)),
        match reply {
            Err(e) => r == Err::<(), NeboError>(NeboError::Transport(e)),
            Ok(rep) => if is_success_spec(rep.status) {
                r is Ok
            } else if rep.status == NOT_FOUND {
                r == Err::<(), NeboError>(NeboError::PageNotFound)
            } else {
                match rep.body {
                    Ok(b) => r == Err::<(), NeboError>(NeboError::AddContact(b)),
                    Err(e) => r == Err::<(), NeboError>(NeboError::Transport(e)),
                }
            },
        },
{
    match reply {
        Err(e) => Err(NeboError::Transport(e)),
        Ok(rep) => {
            if is_success(rep.status) {
                Ok(())
            } else if rep.status == NOT_FOUND {
                Err(NeboError::PageNotFound)
            } else {
                match rep.body {
                    Ok(b) => Err(NeboError::AddContact(b)),
                    Err(e) => Err(NeboError::Transport(e)),
                }
            }
        },
    }
}

/// The request that removes a contact of a page.
pub open spec fn remove_contact_request_spec(env: EnvSpec, token: Seq<char>, uuid: Seq<char>, email: Seq<char>) -> RequestSpec {
    service_request_spec(Method::Delete, contact_url_spec(env, uuid, email), token, None)
}

/// Builds the request that withdraws the access of `email` to page `uuid`.
pub fn remove_contact_request(env: &Env, token: &str, uuid: &str, email: &str) -> (r: HttpRequest)
    ensures
        r@ == remove_contact_request_spec(env@, token@, uuid@, email@),
{
    let mut url = page_url(env, uuid);
    url.append("/contacts");
    url.append("/");
    url.append(email);
    service_request(Method::Delete, url, token, None)
}

/// What removing a contact gives, by views.
pub open spec fn remove_contact_outcome_spec(reply: Result<ReplySpec, Seq<char>>) -> Result<(), ErrorSpec> {
    match reply {
        Err(e) => Err(ErrorSpec::Transport(e)),
        Ok(rep) => if is_success_spec(rep.status) {
            Ok(())
        } else {
            match rep.body {
                Ok(b) => Err(ErrorSpec::RemoveContact(b)),
                Err(e) => Err(ErrorSpec::Transport(e)),
            }
        },
    }
}

/// What removing a contact gives: success on a 2xx status, else the body of the answer,
/// or why it could not be read.
pub fn remove_contact_outcome(reply: Result<HttpReply, String>) -> (r: Result<(), NeboError>)
    ensures
        result_view(r) == remove_contact_outcome_spec(sent_view(reply)),
        match reply {
            Err(e) => r == Err::<(), NeboError>(NeboError::Transport(e)),
            Ok(rep) => if is_success_spec(rep.status) {
                r is Ok
            } else {
                match rep.body {
                    Ok(b) => r == Err::<(), NeboError>(NeboError::RemoveContact(b)),
                    Err(e) => r == Err::<(), NeboError>(NeboError::Transport(e)),
                }
            },
        },
{
    match reply {
        Err(e) => Err(NeboError::Transport(e)),
        Ok(rep) => {
            if is_success(rep.status) {
                Ok(())
            } else {
                match rep.body {
                    Ok(b) => Err(NeboError::RemoveContact(b)),
                    Err(e) => Err(NeboError::Transport(e)),
                }
            }
        },
    }
}

} // verus!
