use vstd::prelude::*;

use crate::configuration::Configuration;
use crate::contacts::{add_contact_outcome, add_contact_request, add_contact_request_spec};
use crate::env::{Env, EnvSpec};
use crate::error::{ErrorSpec, NeboError};
use crate::files::{uuid_from_path, uuid_of_path};
use crate::flow::{Action, ActionSpec, Event, EventSpec, UploadJob, UploadJobSpec, fail};
use crate::http::opt_view;
use crate::page::{make_private_outcome, make_private_request, make_private_request_spec, share_outcome, share_request, share_request_spec};
use crate::text::{cat, decimal_i64, decimal_int};
use crate::upload::{TransferManager, manager_init_spec, opt_str, upload_region, upload_region_spec};

verus! {

/// What `chrono` writes for the instant `secs` seconds after the epoch: the date in
/// RFC 3339 with whole seconds and `Z` for UTC, or nothing when the instant is out of
/// its range.
pub uninterp spec fn rfc3339_utc(secs: int) -> Option<Seq<char>>;

/// Calls `chrono::DateTime::<Utc>::from_timestamp(secs, 0)` and writes the instant with
/// `to_rfc3339_opts(SecondsFormat::Secs, true)`. The contract claims only that this is
/// `rfc3339_utc` of the number given.
#[verifier::external_body]
pub(crate) fn rfc3339(secs: i64) -> (r: Option<String>)
    ensures
        match r {
            Some(d) => rfc3339_utc(secs as int) == Some(d@),
            None => rfc3339_utc(secs as int) is None,
        },
{
    chrono::DateTime::<chrono::Utc>::from_timestamp(secs, 0)
        .map(|d| d.to_rfc3339_opts(chrono::SecondsFormat::Secs, true))
}

/// The signature of a page: the one given, else the current time in seconds.
pub open spec fn signature_spec(signature: Option<Seq<char>>, now: int) -> Seq<char> {
    match signature {
        Some(s) => s,
        None => decimal_int(now),
    }
}

/// The title of a page: the one given, else `the page` followed by its identifier.
pub open spec fn title_spec(uuid: Seq<char>, title: Option<Seq<char>>) -> Seq<char> {
    match title {
        Some(t) => t,
        None => "the page "@ + uuid,
    }
}

/// The signature of a page: the one given, else the current time in seconds.
pub fn page_signature(signature: Option<&str>, now: i64) -> (r: String)
    ensures
        r@ == signature_spec(crate::upload::opt_str(signature), now as int),
{
    match signature {
        Some(s) => String::from_str(s),
        None => decimal_i64(now),
    }
}

/// The title of a page: the one given, else `the page` followed by its identifier.
pub fn page_title(uuid: &str, title: Option<&str>) -> (r: String)
    ensures
        r@ == title_spec(uuid@, crate::upload::opt_str(title)),
{
    match title {
        Some(t) => String::from_str(t),
        None => cat("the page ", uuid),
    }
}

/// The date a page is published at: the current time as an RFC 3339 date.
pub fn page_date(now: i64) -> (r: Result<String, NeboError>)
    ensures
        match rfc3339_utc(now as int) {
            Some(d) => r matches Ok(s) && s@ == d,
            None => r matches Err(e) && e@ == ErrorSpec::ClockOutOfRange,
        },
{
    match rfc3339(now) {
        Some(d) => Ok(d),
        None => Err(NeboError::ClockOutOfRange),
    }
}


/// What sharing one page needs besides the session: the page, its file and what is said
/// of it, whom to share it with, and the current time in seconds.
#[derive(Debug)]
pub struct ShareInput {
    pub uuid: String,
    pub signature: Option<String>,
    pub filename: String,
    pub title: Option<String>,
    pub share_with_myscript: Option<String>,
    pub collect_login: Option<String>,
    pub email: Option<String>,
    pub now: i64,
}

/// What a [`ShareInput`] holds, its texts as character sequences.
pub struct ShareInputSpec {
    pub uuid: Seq<char>,
    pub signature: Option<Seq<char>>,
    pub filename: Seq<char>,
    pub title: Option<Seq<char>>,
    pub share_with_myscript: Option<Seq<char>>,
    pub collect_login: Option<Seq<char>>,
    pub email: Option<Seq<char>>,
    pub now: i64,
}

impl View for ShareInput {
    type V = ShareInputSpec;

    open spec fn view(&self) -> ShareInputSpec {
        ShareInputSpec {
            uuid: self.uuid@,
            signature: opt_view(self.signature),
            filename: self.filename@,
            title: opt_view(self.title),
            share_with_myscript: opt_view(self.share_with_myscript),
            collect_login: opt_view(self.collect_login),
            email: opt_view(self.email),
            now: self.now,
        }
    }
}

/// What sharing one file found in a directory needs: the page named after the file,
/// with neither signature nor title, shared with `email` when given, at `now`; nothing
/// when the path names no file.
pub open spec fn file_share_input_spec(file: Seq<char>, email: Option<Seq<char>>, now: i64) -> Option<ShareInputSpec> {
    match uuid_of_path(file) {
        None => None,
        Some(uuid) => Some(
            ShareInputSpec {
                uuid: uuid,
                signature: None,
                filename: file,
                title: None,
                share_with_myscript: None,
                collect_login: None,
                email: email,
                now: now,
            },
        ),
    }
}

/// What sharing the file `file` of a directory needs: the page named after the file (the
/// part of its name before the first dot), with neither signature nor title, shared with
/// `email` when given, at `now`; nothing when the path names no file.
pub fn file_share_input(file: &str, email: Option<&str>, now: i64) -> (r: Option<ShareInput>)
    ensures
        match r {
            Some(i) => file_share_input_spec(file@, opt_str(email), now) == Some(i@),
            None => file_share_input_spec(file@, opt_str(email), now) is None,
        },
{
    match uuid_from_path(file) {
        None => None,
        Some(uuid) => Some(
            ShareInput {
                uuid: uuid,
                signature: None,
                filename: String::from_str(file),
                title: None,
                share_with_myscript: None,
                collect_login: None,
                email: match email {
                    Some(e) => Some(String::from_str(e)),
                    None => None,
                },
                now: now,
            },
        ),
    }
}

/// The steps of sharing one page.
#[derive(PartialEq, Eq, Structural, Clone, Copy, Debug)]
pub enum PageShareState {
    /// Nothing done yet.
    Start,
    /// The page was sent to the pages collection.
    Publishing,
    /// The file is being sent to the storage.
    Uploading,
    /// The page is being made private.
    MakingPrivate,
    /// The contact is being added.
    AddingContact,
    /// Sharing is over.
    Finished,
}

/// What ends sharing a page with an error.
pub open spec fn share_fails(e: ErrorSpec) -> (PageShareState, ActionSpec) {
    (PageShareState::Finished, ActionSpec::Finish(Err(e)))
}

/// The next step of sharing a page on `env` for the holder of `token`, with the
/// configuration and the region of the identity service, from `state` when `ev` happens.
///
/// The page is published with its signature, title and date; its file goes to the
/// storage under its key with its metadata; when an email is given the page is then made
/// private and shared with that address.
pub open spec fn page_share_step(
    env: EnvSpec,
    token: Seq<char>,
    configuration: Configuration,
    identity_region: Seq<char>,
    input: ShareInputSpec,
    state: PageShareState,
    ev: EventSpec,
) -> (PageShareState, ActionSpec) {
    let signature = signature_spec(input.signature, input.now as int);
    match state {
        PageShareState::Start => match ev {
            EventSpec::Begin => match rfc3339_utc(input.now as int) {
                None => share_fails(ErrorSpec::ClockOutOfRange),
                Some(date) => (
                    PageShareState::Publishing,
                    ActionSpec::Send(
                        share_request_spec(env, token, input.uuid, signature, title_spec(input.uuid, input.title), date),
                    ),
                ),
            },
            _ => share_fails(ErrorSpec::OutOfOrder),
        },
        PageShareState::Publishing => match ev {
            EventSpec::Reply(Err(e)) => share_fails(ErrorSpec::Transport(e)),
            EventSpec::Reply(Ok(rep)) => if !crate::http::is_success_spec(rep.status) {
                match rep.body {
                    Ok(b) => share_fails(ErrorSpec::ShareApi(b)),
                    Err(e) => share_fails(ErrorSpec::UnreadableBody(e)),
                }
            } else {
                match upload_region_spec(configuration) {
                    Err(e) => share_fails(e),
                    Ok(region) => (
                        PageShareState::Uploading,
                        ActionSpec::Upload(
                            UploadJobSpec {
                                filename: input.filename,
                                region: region,
                                credentials: configuration.credentials,
                                identity_region: identity_region,
                                manager: manager_init_spec(
                                    input.uuid,
                                    signature,
                                    configuration.s3,
                                    input.share_with_myscript,
                                    input.collect_login,
                                ),
                            },
                        ),
                    ),
                }
            },
            _ => share_fails(ErrorSpec::OutOfOrder),
        },
        PageShareState::Uploading => match ev {
            EventSpec::Uploaded(Err(e)) => share_fails(e),
            EventSpec::Uploaded(Ok(())) => match input.email {
                Some(_) => (PageShareState::MakingPrivate, ActionSpec::Send(make_private_request_spec(env, token, input.uuid))),
                None => (PageShareState::Finished, ActionSpec::Finish(Ok(()))),
            },
            _ => share_fails(ErrorSpec::OutOfOrder),
        },
        PageShareState::MakingPrivate => match ev {
            EventSpec::Reply(Err(e)) => share_fails(ErrorSpec::Transport(e)),
            EventSpec::Reply(Ok(rep)) => if !crate::http::is_success_spec(rep.status) {
                match rep.body {
                    Ok(b) => share_fails(ErrorSpec::SetPrivate(b)),
                    Err(e) => share_fails(ErrorSpec::UnreadableBody(e)),
                }
            } else {
                match input.email {
                    Some(email) => (
                        PageShareState::AddingContact,
                        ActionSpec::Send(add_contact_request_spec(env, token, input.uuid, email, None, None)),
                    ),
                    None => share_fails(ErrorSpec::OutOfOrder),
                }
            },
            _ => share_fails(ErrorSpec::OutOfOrder),
        },
        PageShareState::AddingContact => match ev {
            EventSpec::Reply(Err(e)) => share_fails(ErrorSpec::Transport(e)),
            EventSpec::Reply(Ok(rep)) => if crate::http::is_success_spec(rep.status) {
                (PageShareState::Finished, ActionSpec::Finish(Ok(())))
            } else if rep.status == crate::http::NOT_FOUND {
                share_fails(ErrorSpec::PageNotFound)
            } else {
                match rep.body {
                    Ok(b) => share_fails(ErrorSpec::AddContact(b)),
                    Err(e) => share_fails(ErrorSpec::Transport(e)),
                }
            },
            _ => share_fails(ErrorSpec::OutOfOrder),
        },
        PageShareState::Finished => share_fails(ErrorSpec::OutOfOrder),
    }
}

/// An optional string as an optional string slice.
pub fn opt_as_str(o: &Option<String>) -> (r: Option<&str>)
    ensures
        opt_str(r) == opt_view(*o),
{
    match o {
        Some(s) => Some(s.as_str()),
        None => None,
    }
}

fn stop(e: NeboError) -> (r: (PageShareState, Action))
    ensures
        r.0 == PageShareState::Finished,
        r.1@ == ActionSpec::Finish(Err(e@)),
{
    (PageShareState::Finished, fail(e))
}

/// One step of sharing a page on `env` for the holder of `token`, with the configuration
/// and the region of the identity service: from `state`, when `event` happens, the next
/// state and what to do.
pub fn share_page_step(
    env: &Env,
    token: &str,
    configuration: &Configuration,
    identity_region: &str,
    input: &ShareInput,
    state: PageShareState,
    event: Event,
) -> (r: (PageShareState, Action))
    ensures
        (r.0, r.1@) == page_share_step(env@, token@, *configuration, identity_region@, input@, state, event@),
{
    match state {
        PageShareState::Start => match event {
            Event::Begin => match page_date(input.now) {
                Err(e) => stop(e),
                Ok(date) => {
                    let signature = page_signature(opt_as_str(&input.signature), input.now);
                    let title = page_title(input.uuid.as_str(), opt_as_str(&input.title));
                    let req = share_request(env, token, input.uuid.as_str(), signature.as_str(), title.as_str(), date.as_str());
                    (PageShareState::Publishing, Action::Send(req))
                },
            },
            _ => stop(NeboError::OutOfOrder),
        },
        PageShareState::Publishing => match event {
            Event::Reply(reply) => match share_outcome(reply) {
                Err(e) => stop(e),
                Ok(()) => match upload_region(configuration) {
                    Err(e) => stop(e),
                    Ok(region) => {
                        let signature = page_signature(opt_as_str(&input.signature), input.now);
                        let manager = TransferManager::init(
                            input.uuid.as_str(),
                            signature.as_str(),
                            &configuration.s3,
                            opt_as_str(&input.share_with_myscript),
                            opt_as_str(&input.collect_login),
                        );
                        let job = UploadJob {
                            filename: input.filename.clone(),
                            region: region,
                            credentials: configuration.credentials.clone(),
                            identity_region: String::from_str(identity_region),
                            manager: manager,
                        };
                        (PageShareState::Uploading, Action::Upload(job))
                    },
                },
            },
            _ => stop(NeboError::OutOfOrder),
        },
        PageShareState::Uploading => match event {
            Event::Uploaded(Err(e)) => stop(e),
            Event::Uploaded(Ok(())) => match &input.email {
                Some(_) => (PageShareState::MakingPrivate, Action::Send(make_private_request(env, token, input.uuid.as_str()))),
                None => (PageShareState::Finished, Action::Finish(Ok(()))),
            },
            _ => stop(NeboError::OutOfOrder),
        },
        PageShareState::MakingPrivate => match event {
            Event::Reply(reply) => match make_private_outcome(reply) {
                Err(e) => stop(e),
                Ok(()) => match &input.email {
                    Some(email) => {
                        let req = add_contact_request(env, token, input.uuid.as_str(), email.as_str(), None, None);
                        (PageShareState::AddingContact, Action::Send(req))
                    },
                    None => stop(NeboError::OutOfOrder),
                },
            },
            _ => stop(NeboError::OutOfOrder),
        },
        PageShareState::AddingContact => match event {
            Event::Reply(reply) => (PageShareState::Finished, Action::Finish(add_contact_outcome(reply))),
            _ => stop(NeboError::OutOfOrder),
        },
        PageShareState::Finished => stop(NeboError::OutOfOrder),
    }
}

} // verus!
