use vstd::prelude::*;

use crate::auth::{
    LoginActionSpec, LoginEventSpec, LoginState, authorize_request_spec, grant_request_spec, login_request_spec,
    login_step,
};
use crate::configuration::{Configuration, S3Configuration, configuration_request_spec};
use crate::contacts::{add_contact_request_spec, remove_contact_request_spec};
use crate::env::EnvSpec;
use crate::error::ErrorSpec;
use crate::flow::{ActionSpec, EventSpec};
use crate::http::{ReplySpec, RequestSpec, is_success_spec, FOUND, NOT_FOUND};
use crate::ops::{
    CallState, DeletePagesStateSpec, SharePageStateSpec, SharePagesStateSpec, call_step, delete_page_step,
    delete_pages_step, share_page_op_step, share_pages_step,
};
use crate::page::{
    delete_page_outcome_spec, delete_page_request_spec, list_pages_request_spec, make_private_request_spec,
    share_request_spec,
};
use crate::share::{PageShareState, ShareInputSpec, page_share_step};
use crate::text::{has_prefix, has_suffix};
use crate::transfer::{TransferActionSpec, TransferEventSpec, TransferStateSpec, transfer_step};
use crate::upload::{
    ManagerSpec, READ_BUFFER_SIZE, manager_init_spec, metadata_spec, needs_abort_spec, no_kms_spec, part_at, part_count,
};

verus! {

/// The login ends exactly when it reaches its final state, and a finished login stays
/// finished, answering anything more with an error.
pub proof fn lemma_login_ends_when_finished(env: EnvSpec, login: Seq<char>, state: LoginState, ev: LoginEventSpec)
    ensures
        (login_step(env, login, state, ev).0 == LoginState::Finished) <==> (login_step(env, login, state, ev).1 is Finish),
        state == LoginState::Finished ==> login_step(env, login, state, ev) == (
            LoginState::Finished,
            LoginActionSpec::Finish(Err(ErrorSpec::OutOfOrder)),
        ),
{
}

/// The authorization value a successful login gives is `Bearer ` followed by the access
/// token.
pub proof fn lemma_login_gives_bearer(env: EnvSpec, login: Seq<char>, state: LoginState, ev: LoginEventSpec)
    ensures
        login_step(env, login, state, ev).1 matches LoginActionSpec::Finish(Ok(t)) ==> has_prefix(t, "Bearer "@),
{
    reveal_strlit("Bearer ");
    match login_step(env, login, state, ev).1 {
        LoginActionSpec::Finish(Ok(t)) => {
            assert(t.subrange(0, 7) =~= "Bearer "@);
        },
        _ => {},
    }
}

/// Each answer of the authentication server moves the login on only when it is a
/// redirection (302); any other status ends the login with an error.
pub proof fn lemma_login_needs_redirections(env: EnvSpec, login: Seq<char>, state: LoginState, rep: ReplySpec)
    requires
        rep.status != FOUND,
    ensures
        login_step(env, login, state, LoginEventSpec::Reply(Ok(rep))).0 == LoginState::Finished,
        login_step(env, login, state, LoginEventSpec::Reply(Ok(rep))).1 matches LoginActionSpec::Finish(Err(_)),
{
}

/// The requests of the login go to the authentication server and carry no authorization
/// value.
pub proof fn lemma_login_requests_unauthorized(env: EnvSpec, login: Seq<char>, password: Seq<char>, path: Seq<char>, pairs: Seq<(Seq<char>, Seq<char>)>)
    ensures
        authorize_request_spec(env).authorization is None,
        login_request_spec(env, login, password).authorization is None,
        grant_request_spec(env, path, pairs).authorization is None,
        has_prefix(authorize_request_spec(env).url, env.sso_url),
        has_prefix(login_request_spec(env, login, password).url, env.sso_url),
        has_prefix(grant_request_spec(env, path, pairs).url, env.sso_url),
{
    assert(authorize_request_spec(env).url.subrange(0, env.sso_url.len() as int) =~= env.sso_url);
    assert(login_request_spec(env, login, password).url.subrange(0, env.sso_url.len() as int) =~= env.sso_url);
    assert(grant_request_spec(env, path, pairs).url.subrange(0, env.sso_url.len() as int) =~= env.sso_url);
}

/// Deleting a page that is already gone (404) succeeds, as deleting it does.
pub proof fn lemma_delete_of_gone_page_succeeds(uuid: Seq<char>, rep: ReplySpec)
    requires
        rep.status == NOT_FOUND,
    ensures
        delete_page_outcome_spec(uuid, Ok(rep)) == Ok::<(), ErrorSpec>(()),
{
}

/// Once logged in, deleting a page that is already gone (404) succeeds.
pub proof fn lemma_delete_page_of_gone_page_succeeds(env: EnvSpec, login: Seq<char>, uuid: Seq<char>, rep: ReplySpec)
    requires
        rep.status == NOT_FOUND,
    ensures
        delete_page_step(env, login, uuid, CallState::Calling, EventSpec::Reply(Ok(rep))) == (
            CallState::Finished,
            ActionSpec::Finish(Ok(())),
        ),
{
}

/// Deleting one page, or sharing or removing a contact, ends exactly when it reaches its
/// final state, which it then keeps.
pub proof fn lemma_call_ends_when_finished(
    env: EnvSpec,
    login: Seq<char>,
    state: CallState,
    ev: EventSpec,
    request: spec_fn(Seq<char>) -> RequestSpec,
    outcome: spec_fn(Result<ReplySpec, Seq<char>>) -> Result<(), ErrorSpec>,
)
    ensures
        (call_step(env, login, state, ev, request, outcome).0 == CallState::Finished)
            <==> (call_step(env, login, state, ev, request, outcome).1 is Finish),
        state == CallState::Finished ==> call_step(env, login, state, ev, request, outcome).0 == CallState::Finished,
{
}

/// Deleting all the pages ends exactly when it reaches its final state, which it then
/// keeps.
pub proof fn lemma_delete_pages_ends_when_finished(env: EnvSpec, login: Seq<char>, state: DeletePagesStateSpec, ev: EventSpec)
    ensures
        (delete_pages_step(env, login, state, ev).0 is Finished) <==> (delete_pages_step(env, login, state, ev).1 is Finish),
        state is Finished ==> delete_pages_step(env, login, state, ev).0 is Finished,
{
}

/// Sharing one page ends exactly when it reaches its final state, which it then keeps.
pub proof fn lemma_page_share_ends_when_finished(
    env: EnvSpec,
    token: Seq<char>,
    configuration: Configuration,
    identity_region: Seq<char>,
    input: ShareInputSpec,
    state: PageShareState,
    ev: EventSpec,
)
    ensures
        (page_share_step(env, token, configuration, identity_region, input, state, ev).0 == PageShareState::Finished)
            <==> (page_share_step(env, token, configuration, identity_region, input, state, ev).1 is Finish),
        state == PageShareState::Finished ==> page_share_step(env, token, configuration, identity_region, input, state, ev).0
            == PageShareState::Finished,
{
}

/// Sharing a page on behalf of a user ends exactly when it reaches its final state,
/// which it then keeps.
pub proof fn lemma_share_page_ends_when_finished(
    env: EnvSpec,
    login: Seq<char>,
    input: ShareInputSpec,
    state: SharePageStateSpec,
    ev: EventSpec,
)
    ensures
        (share_page_op_step(env, login, input, state, ev).0 is Finished) <==> (share_page_op_step(env, login, input, state, ev).1 is Finish),
        state is Finished ==> share_page_op_step(env, login, input, state, ev).0 is Finished,
{
}

/// Sharing the files of a directory ends exactly when it reaches its final state, which
/// it then keeps.
pub proof fn lemma_share_pages_ends_when_finished(
    env: EnvSpec,
    login: Seq<char>,
    dir: Seq<char>,
    email: Option<Seq<char>>,
    state: SharePagesStateSpec,
    ev: EventSpec,
)
    ensures
        (share_pages_step(env, login, dir, email, state, ev).0 is Finished) <==> (share_pages_step(env, login, dir, email, state, ev).1 is Finish),
        state is Finished ==> share_pages_step(env, login, dir, email, state, ev).0 is Finished,
{
}

/// Once the work on each page or file is handed out and done, deleting all the pages and
/// sharing a directory succeed, whatever each page or file gave.
pub proof fn lemma_batches_succeed_once_dispatched(env: EnvSpec, login: Seq<char>, dir: Seq<char>, email: Option<Seq<char>>)
    ensures
        delete_pages_step(env, login, DeletePagesStateSpec::Dispatching, EventSpec::Dispatched) == (
            DeletePagesStateSpec::Finished,
            ActionSpec::Finish(Ok(())),
        ),
        share_pages_step(env, login, dir, email, SharePagesStateSpec::Dispatching, EventSpec::Dispatched) == (
            SharePagesStateSpec::Finished,
            ActionSpec::Finish(Ok(())),
        ),
{
}

/// Every page listed is deleted, and every file found is shared, on behalf of the holder
/// of the token of the login.
pub proof fn lemma_batches_cover_every_item(
    env: EnvSpec,
    login: Seq<char>,
    dir: Seq<char>,
    email: Option<Seq<char>>,
    token: Seq<char>,
    pages: Seq<crate::page::Page>,
    files: Seq<Seq<char>>,
    configuration: Configuration,
)
    requires
        crate::upload::identity_region_spec(configuration) is Ok,
    ensures
        delete_pages_step(env, login, DeletePagesStateSpec::Decoding { token: token }, EventSpec::Pages(Ok(pages))).1
            matches ActionSpec::DeleteEach { token: t, uuids } && t == token && uuids.len() == pages.len()
            && forall|i: int| 0 <= i < pages.len() ==> uuids[i] == pages[i].uuid@,
        share_pages_step(
            env,
            login,
            dir,
            email,
            SharePagesStateSpec::Decoding { token: token, files: files },
            EventSpec::Configuration(Ok(configuration)),
        ).1 matches ActionSpec::ShareEach(b) && b.token == token && b.files == files && b.email == email
            && b.configuration == configuration,
{
}

/// Sharing a page goes in order: the page is published, then its file is stored; only
/// when an email is given is the page then made private, and only then is the contact
/// added. Without an email, sharing succeeds as soon as the file is stored.
pub proof fn lemma_page_share_order(
    env: EnvSpec,
    token: Seq<char>,
    configuration: Configuration,
    identity_region: Seq<char>,
    input: ShareInputSpec,
    state: PageShareState,
    ev: EventSpec,
)
    ensures
        page_share_step(env, token, configuration, identity_region, input, state, ev).0 == PageShareState::Publishing
            ==> state == PageShareState::Start,
        page_share_step(env, token, configuration, identity_region, input, state, ev).0 == PageShareState::Uploading
            ==> state == PageShareState::Publishing && (ev matches EventSpec::Reply(Ok(rep)) && is_success_spec(rep.status)),
        page_share_step(env, token, configuration, identity_region, input, state, ev).0 == PageShareState::MakingPrivate
            ==> state == PageShareState::Uploading && (ev matches EventSpec::Uploaded(Ok(_))) && input.email is Some,
        page_share_step(env, token, configuration, identity_region, input, state, ev).0 == PageShareState::AddingContact
            ==> state == PageShareState::MakingPrivate && input.email is Some,
        page_share_step(env, token, configuration, identity_region, input, state, ev).1 == ActionSpec::Finish(Ok(()))
            ==> (state == PageShareState::Uploading && input.email is None) || state == PageShareState::AddingContact,
        input.email is None ==> page_share_step(
            env,
            token,
            configuration,
            identity_region,
            input,
            PageShareState::Uploading,
            EventSpec::Uploaded(Ok(())),
        ) == (PageShareState::Finished, ActionSpec::Finish(Ok(()))),
{
}

/// Every request sent to the service carries the authorization value of the login and
/// goes to the service of the deployment.
pub proof fn lemma_service_requests_authorized(
    env: EnvSpec,
    token: Seq<char>,
    uuid: Seq<char>,
    signature: Seq<char>,
    title: Seq<char>,
    date: Seq<char>,
    email: Seq<char>,
    name: Option<Seq<char>>,
    message: Option<Seq<char>>,
)
    ensures
        configuration_request_spec(env, token).authorization == Some(token),
        list_pages_request_spec(env, token).authorization == Some(token),
        delete_page_request_spec(env, token, uuid).authorization == Some(token),
        share_request_spec(env, token, uuid, signature, title, date).authorization == Some(token),
        make_private_request_spec(env, token, uuid).authorization == Some(token),
        add_contact_request_spec(env, token, uuid, email, name, message).authorization == Some(token),
        remove_contact_request_spec(env, token, uuid, email).authorization == Some(token),
        has_prefix(configuration_request_spec(env, token).url, env.neboapp_url),
        has_prefix(list_pages_request_spec(env, token).url, env.neboapp_url),
        has_prefix(delete_page_request_spec(env, token, uuid).url, env.neboapp_url),
        has_prefix(share_request_spec(env, token, uuid, signature, title, date).url, env.neboapp_url),
        has_prefix(make_private_request_spec(env, token, uuid).url, env.neboapp_url),
        has_prefix(add_contact_request_spec(env, token, uuid, email, name, message).url, env.neboapp_url),
        has_prefix(remove_contact_request_spec(env, token, uuid, email).url, env.neboapp_url),
{
    let n = env.neboapp_url.len() as int;
    assert(configuration_request_spec(env, token).url.subrange(0, n) =~= env.neboapp_url);
    assert(list_pages_request_spec(env, token).url.subrange(0, n) =~= env.neboapp_url);
    assert(delete_page_request_spec(env, token, uuid).url.subrange(0, n) =~= env.neboapp_url);
    assert(share_request_spec(env, token, uuid, signature, title, date).url.subrange(0, n) =~= env.neboapp_url);
    assert(make_private_request_spec(env, token, uuid).url.subrange(0, n) =~= env.neboapp_url);
    assert(add_contact_request_spec(env, token, uuid, email, name, message).url.subrange(0, n) =~= env.neboapp_url);
    assert(remove_contact_request_spec(env, token, uuid, email).url.subrange(0, n) =~= env.neboapp_url);
}

/// The metadata stored with a page holds its signature first, then whether it is shared
/// with MyScript and the login that collected it, each only when given, under keys that
/// differ from each other.
pub proof fn lemma_metadata_shape(login: Option<Seq<char>>, signature: Seq<char>, share_with_myscript: Option<Seq<char>>)
    ensures
        ({
            let md = metadata_spec(login, signature, share_with_myscript);
            &&& md.len() == 1 + (if share_with_myscript is Some { 1int } else { 0 }) + (if login is Some { 1int } else { 0 })
            &&& md[0] == ("x-amz-meta-content-sha256"@, signature)
            &&& forall|i: int, j: int| 0 <= i < j < md.len() ==> md[i].0 != md[j].0
            &&& (exists|i: int| 0 <= i < md.len() && md[i].0 == "x-amz-meta-share-with-myscript"@) <==> share_with_myscript is Some
            &&& (exists|i: int| 0 <= i < md.len() && md[i].0 == "x-amz-meta-login"@) <==> login is Some
        }),
{
    reveal_strlit("x-amz-meta-content-sha256");
    reveal_strlit("x-amz-meta-share-with-myscript");
    reveal_strlit("x-amz-meta-login");
    let md = metadata_spec(login, signature, share_with_myscript);
    let a = "x-amz-meta-content-sha256"@;
    let b = "x-amz-meta-share-with-myscript"@;
    let c = "x-amz-meta-login"@;
    assert(a != b) by {
        assert(a.len() != b.len());
    }
    assert(a != c) by {
        assert(a.len() != c.len());
    }
    assert(b != c) by {
        assert(b.len() != c.len());
    }
    match share_with_myscript {
        Some(sw) => match login {
            Some(l) => {
                assert(md =~= seq![(a, signature), (b, sw), (c, l)]);
            },
            None => {
                assert(md =~= seq![(a, signature), (b, sw)]);
            },
        },
        None => match login {
            Some(l) => {
                assert(md =~= seq![(a, signature), (c, l)]);
            },
            None => {
                assert(md =~= seq![(a, signature)]);
            },
        },
    }
    if share_with_myscript is Some {
        assert(md[1].0 == b);
    }
    if login is Some {
        assert(md[md.len() - 1].0 == c);
    }
}

/// The plan for storing a page puts its file under the client prefix, named after the
/// page and its signature, stores the same signature in its metadata, encrypts it with
/// the configured key unless that key says not to, and starts with no upload to abort.
pub proof fn lemma_upload_plan(
    uuid: Seq<char>,
    signature: Seq<char>,
    s3: S3Configuration,
    share_with_myscript: Option<Seq<char>>,
    collect_login: Option<Seq<char>>,
)
    ensures
        ({
            let m = manager_init_spec(uuid, signature, s3, share_with_myscript, collect_login);
            &&& has_prefix(m.key, s3.client_directory_prefix@)
            &&& has_suffix(m.key, uuid + "_"@ + signature + ".nebo"@)
            &&& m.bucket == s3.bucket@
            &&& m.metadata matches Some(md) && md.len() > 0 && md[0].1 == signature
            &&& (m.server_side_encryption is Some) == (s3.kms_key@ != no_kms_spec())
            &&& (m.ssekms_key_id is Some) == (s3.kms_key@ != no_kms_spec())
            &&& m.ssekms_key_id matches Some(k) ==> k == s3.kms_key@
            &&& m.upload_id is None
            &&& !m.transfert_done
        }),
{
    let m = manager_init_spec(uuid, signature, s3, share_with_myscript, collect_login);
    let p = s3.client_directory_prefix@;
    let tail = uuid + "_"@ + signature + ".nebo"@;
    assert(m.key =~= p + tail);
    assert(m.key.subrange(0, p.len() as int) =~= p);
    assert(m.key.subrange(m.key.len() - tail.len(), m.key.len() as int) =~= tail);
    lemma_metadata_shape(collect_login, signature, share_with_myscript);
}

/// A storage plan needs no abort before a multipart upload is started under it, needs
/// one as soon as the storage gives the upload an identifier, and needs none once the
/// parts are assembled.
pub proof fn lemma_abort_only_between_start_and_assembly(
    uuid: Seq<char>,
    signature: Seq<char>,
    s3: S3Configuration,
    share_with_myscript: Option<Seq<char>>,
    collect_login: Option<Seq<char>>,
    m: ManagerSpec,
    id: Seq<char>,
)
    ensures
        !needs_abort_spec(manager_init_spec(uuid, signature, s3, share_with_myscript, collect_login)),
        needs_abort_spec(ManagerSpec { upload_id: Some(id), ..manager_init_spec(uuid, signature, s3, share_with_myscript, collect_login) }),
        !needs_abort_spec(ManagerSpec { transfert_done: true, ..m }),
{
}

/// The parts of a multipart upload cover the file exactly: numbered from 1, each one
/// starts where the previous one ends, none is empty or longer than a part, and the last
/// ends with the file; an empty file has no part.
pub proof fn lemma_parts_cover_the_file(len: u64)
    ensures
        (part_count(len) == 0) == (len == 0),
        forall|i: int| 0 <= i < part_count(len) ==> (#[trigger] part_at(len, i)).0 == i + 1,
        forall|i: int|
            0 <= i < part_count(len) ==> 0 < (#[trigger] part_at(len, i)).2 <= READ_BUFFER_SIZE,
        forall|i: int|
            0 <= i < part_count(len) - 1 ==> (#[trigger] part_at(len, i)).1 + part_at(len, i).2 == part_at(len, i + 1).1,
        part_count(len) > 0 ==> part_at(len, part_count(len) - 1).0 == part_count(len)
            && part_at(len, part_count(len) - 1).1 + part_at(len, part_count(len) - 1).2 == len,
{
    let n = part_count(len);
    assert(n * 5242880 >= len && (n == 0 || (n - 1) * 5242880 < len) && n >= 0) by (nonlinear_arith)
        requires
            n == (len + 5242880 - 1) / 5242880,
            len >= 0,
    ;
    assert forall|i: int| 0 <= i < n implies (#[trigger] part_at(len, i)).1 == i * 5242880 && i * 5242880 < len by {
        assert(i * 5242880 <= (n - 1) * 5242880) by (nonlinear_arith)
            requires
                i <= n - 1,
        ;
    }
    assert forall|i: int| 0 <= i < n - 1 implies (#[trigger] part_at(len, i)).2 == 5242880 && (i + 1) * 5242880 < len by {
        assert((i + 1) * 5242880 <= (n - 1) * 5242880) by (nonlinear_arith)
            requires
                i + 1 <= n - 1,
        ;
    }
}

/// Sending a file ends exactly when it reaches its final state, which it then keeps.
pub proof fn lemma_transfer_ends_when_finished(m: ManagerSpec, state: TransferStateSpec, ev: TransferEventSpec)
    ensures
        (transfer_step(m, state, ev).0 is Finished) <==> (transfer_step(m, state, ev).1 is Finish),
        state is Finished ==> transfer_step(m, state, ev).0 is Finished,
{
}

/// A multipart upload is marked done only when the storage answers that it assembled the
/// parts, and a transfer succeeds only when the file was stored in one request or its
/// parts were assembled.
pub proof fn lemma_transfer_done_only_on_completion(m: ManagerSpec, state: TransferStateSpec, ev: TransferEventSpec)
    ensures
        !m.transfert_done && transfer_step(m, state, ev).2.transfert_done ==> state is Completing
            && (ev matches TransferEventSpec::Completed(Ok(_))),
        transfer_step(m, state, ev).1 == TransferActionSpec::Finish(Ok(())) ==> state is Putting
            || (state is Completing && transfer_step(m, state, ev).2.transfert_done),
{
}

/// A transfer that fails while a multipart upload is started and not assembled asks for
/// its abort before it ends; it ends with the error that caused the abort.
pub proof fn lemma_transfer_aborts_before_failing(m: ManagerSpec, state: TransferStateSpec, ev: TransferEventSpec, e: ErrorSpec)
    ensures
        !(state is Aborting) && !(state is Finished) && (transfer_step(m, state, ev).1 matches TransferActionSpec::Finish(Err(_)))
            ==> !needs_abort_spec(transfer_step(m, state, ev).2),
        transfer_step(m, TransferStateSpec::Aborting(e), TransferEventSpec::Aborted) == (
            TransferStateSpec::Finished,
            TransferActionSpec::Finish(Err(e)),
            m,
        ),
{
}

/// The parts a multipart upload sends are sent under the identifier the storage gave the
/// upload, and the same identifier is recorded in the plan.
pub proof fn lemma_transfer_parts_under_recorded_id(m: ManagerSpec, len: u64, id: Seq<char>)
    ensures
        transfer_step(m, TransferStateSpec::Creating { len: len }, TransferEventSpec::Created(Ok(Some(id))))
            matches (TransferStateSpec::Sending, TransferActionSpec::SendParts { upload_id, plan }, m2)
            && upload_id == id && m2.upload_id == Some(id) && plan.len() == part_count(len),
{
}

/// Where the access token of a callback fragment ends: at the first `&` after
/// `access_token=`, or at the end of the fragment when there is none.
pub open spec fn is_token_end(f: Seq<char>, k: int) -> bool {
    &&& 13 <= k <= f.len()
    &&& k == f.len() || f[k] == '&'
    &&& forall|j: int| 0 <= j < k ==> f[j] != '&'
}

/// The authorization value of a callback fragment that starts with `access_token=` is
/// `Bearer ` followed by the whole access token: every character after `access_token=`
/// up to the first `&`, or to the end of the fragment.
pub proof fn lemma_bearer_holds_whole_token(f: Seq<char>, k: int)
    requires
        has_prefix(f, "access_token="@),
        is_token_end(f, k),
    ensures
        crate::auth::bearer_of(f) == Some("Bearer "@ + f.subrange(13, k)),
        ("Bearer "@ + f.subrange(13, k)).len() == 7 + k - 13,
{
    reveal_strlit("access_token=");
    reveal_strlit("Bearer ");
    if exists|i: int| 0 <= i < f.len() && f[i] == '&' {
        assert(k < f.len());
        let i = choose|i: int| 0 <= i < f.len() && f[i] == '&' && forall|j: int| 0 <= j < i ==> f[j] != '&';
        assert(0 <= k < f.len() && f[k] == '&' && forall|j: int| 0 <= j < k ==> f[j] != '&');
        assert(crate::text::first_index_of(f, '&') == Some(i));
        if i < k {
            assert(f[i] != '&');
        }
        if k < i {
            assert(f[k] != '&');
        }
        assert(i == k);
    } else {
        assert(k == f.len());
        assert(crate::text::first_index_of(f, '&') is None);
    }
}

/// Once the authentication server redirects to the callback, the login ends with
/// `Bearer ` followed by the whole access token of the callback's fragment, when that
/// fragment starts with `access_token=`.
pub proof fn lemma_login_gives_whole_token(
    env: EnvSpec,
    login: Seq<char>,
    rep: ReplySpec,
    loc: Seq<char>,
    parts: (Seq<char>, Seq<(Seq<char>, Seq<char>)>, Option<Seq<char>>),
    f: Seq<char>,
    k: int,
)
    requires
        rep.status == FOUND,
        rep.location == Some(loc),
        crate::auth::url_parsed(loc) == Ok::<(Seq<char>, Seq<(Seq<char>, Seq<char>)>, Option<Seq<char>>), Seq<char>>(parts),
        parts.2 == Some(f),
        has_prefix(f, "access_token="@),
        is_token_end(f, k),
    ensures
        login_step(env, login, LoginState::Granting, LoginEventSpec::Reply(Ok(rep))) == (
            LoginState::Finished,
            LoginActionSpec::Finish(Ok("Bearer "@ + f.subrange(13, k))),
        ),
{
    lemma_bearer_holds_whole_token(f, k);
}

/// The signature a page is published with is the signature its file is stored with:
/// the given one, else the current time in seconds. The publish request carries it, and
/// once published the storage plan holds it in its key (prefix, page, `_`, signature,
/// `.nebo`) and as its first metadata value.
pub proof fn lemma_published_and_stored_signatures_agree(
    env: EnvSpec,
    token: Seq<char>,
    configuration: Configuration,
    identity_region: Seq<char>,
    input: ShareInputSpec,
    rep: ReplySpec,
    date: Seq<char>,
)
    requires
        is_success_spec(rep.status),
        crate::upload::upload_region_spec(configuration) is Ok,
        crate::share::rfc3339_utc(input.now as int) == Some(date),
    ensures
        ({
            let sig = match input.signature {
                Some(s) => s,
                None => crate::text::decimal_int(input.now as int),
            };
            let title = match input.title {
                Some(t) => t,
                None => "the page "@ + input.uuid,
            };
            &&& page_share_step(env, token, configuration, identity_region, input, PageShareState::Start, EventSpec::Begin).1
                matches ActionSpec::Send(req)
                && req.json_body == Some(crate::json::page_json(input.uuid, sig, title, "toto"@, date, date))
            &&& page_share_step(
                env,
                token,
                configuration,
                identity_region,
                input,
                PageShareState::Publishing,
                EventSpec::Reply(Ok(rep)),
            ).1 matches ActionSpec::Upload(job)
                && job.manager.key == configuration.s3.client_directory_prefix@ + input.uuid + "_"@ + sig + ".nebo"@
                && job.filename == input.filename
                && (job.manager.metadata matches Some(md) && md.len() > 0 && md[0].1 == sig)
        }),
{
}

/// The files a step of sharing a directory holds, if it holds any.
pub open spec fn files_held(state: SharePagesStateSpec) -> Option<Seq<Seq<char>>> {
    match state {
        SharePagesStateSpec::Login { files, .. } => Some(files),
        SharePagesStateSpec::Configuring { files, .. } => Some(files),
        SharePagesStateSpec::Decoding { files, .. } => Some(files),
        _ => None,
    }
}

/// The files found in the directory are carried unchanged, in their order, through the
/// login and the configuration, and the files handed out to be shared are exactly them:
/// a step holds files only when it held the same files before, or when they were just
/// found; a batch handed out lists exactly the files held.
pub proof fn lemma_found_files_all_shared(
    env: EnvSpec,
    login: Seq<char>,
    dir: Seq<char>,
    email: Option<Seq<char>>,
    state: SharePagesStateSpec,
    ev: EventSpec,
)
    ensures
        files_held(share_pages_step(env, login, dir, email, state, ev).0) matches Some(f2) ==> (files_held(state) == Some(f2)
            || (state is Scanning && ev == EventSpec::Files(Ok(f2)))),
        share_pages_step(env, login, dir, email, state, ev).1 matches ActionSpec::ShareEach(b) ==> files_held(state) == Some(
            b.files,
        ) && b.email == email,
{
}

/// Deleting a page succeeds exactly when the service answers with a 2xx status or 404;
/// any other answer ends the operation with an error, which names the page when the
/// answer could be read.
pub proof fn lemma_delete_page_refused(env: EnvSpec, login: Seq<char>, uuid: Seq<char>, rep: ReplySpec)
    ensures
        (delete_page_step(env, login, uuid, CallState::Calling, EventSpec::Reply(Ok(rep))).1 == ActionSpec::Finish(Ok(())))
            <==> ((200 <= rep.status < 300) || rep.status == 404),
        !((200 <= rep.status < 300) || rep.status == 404) ==> delete_page_step(
            env,
            login,
            uuid,
            CallState::Calling,
            EventSpec::Reply(Ok(rep)),
        ).0 == CallState::Finished && (delete_page_step(env, login, uuid, CallState::Calling, EventSpec::Reply(Ok(rep))).1
            matches ActionSpec::Finish(Err(e)) && (rep.body matches Ok(b) ==> e == ErrorSpec::DeleteApi {
            body: b,
            uuid: uuid,
        })),
{
}

/// Once logged in, the request that shares a page with a contact goes to the contacts of
/// that page with the login's authorization, and its body names the contact with
/// exactly the email and name given, read access, and the message given.
pub proof fn lemma_add_contact_request_is_the_callers(
    env: EnvSpec,
    login: Seq<char>,
    uuid: Seq<char>,
    email: Seq<char>,
    name: Option<Seq<char>>,
    message: Option<Seq<char>>,
    ls: LoginState,
    ev: EventSpec,
    t: Seq<char>,
)
    requires
        crate::flow::login_phase(env, login, ls, ev) == crate::flow::LoginPhaseSpec::Authenticated(t),
    ensures
        crate::ops::add_contact_step(env, login, uuid, email, name, message, CallState::Login(ls), ev) == (
            CallState::Calling,
            ActionSpec::Send(
                RequestSpec {
                    method: crate::http::Method::Post,
                    url: env.neboapp_url + "/api/v2.0/nebo/pages"@ + "/"@ + uuid + "/contacts"@,
                    authorization: Some(t),
                    json_body: Some(
                        "{"@ + match message {
                            Some(m) => "\"message\":"@ + crate::json::json_quoted(m) + ","@,
                            None => Seq::empty(),
                        } + "\"contacts\":["@ + ("{\"email\":"@ + crate::json::json_quoted(email) + match name {
                            Some(n) => ",\"name\":"@ + crate::json::json_quoted(n),
                            None => Seq::empty(),
                        } + ",\"permission\":"@ + crate::json::json_quoted("READ"@) + "}"@) + "]}"@,
                    ),
                    form: Seq::empty(),
                    query: Seq::empty(),
                },
            ),
        ),
{
    let items = seq![crate::json::contact_json(email, name, "READ"@)];
    assert(crate::json::join_commas(items) == items[0]);
    assert(crate::contacts::contacts_url_spec(env, uuid) =~= env.neboapp_url + "/api/v2.0/nebo/pages"@ + "/"@ + uuid
        + "/contacts"@);
    let head = "{"@ + match message {
        Some(m) => "\"message\":"@ + crate::json::json_quoted(m) + ","@,
        None => Seq::empty(),
    };
    let c = "{\"email\":"@ + crate::json::json_quoted(email) + match name {
        Some(n) => ",\"name\":"@ + crate::json::json_quoted(n),
        None => Seq::empty(),
    } + ",\"permission\":"@ + crate::json::json_quoted("READ"@) + "}"@;
    assert(crate::json::contact_json(email, name, "READ"@) == c);
    assert(crate::json::contact_payload_json(message, items) =~= head + "\"contacts\":["@ + c + "]}"@);
    assert(crate::ops::add_contact_step(env, login, uuid, email, name, message, CallState::Login(ls), ev) == (
        CallState::Calling,
        ActionSpec::Send(add_contact_request_spec(env, t, uuid, email, name, message)),
    ));
}

/// Once logged in, deleting a page sends `DELETE` on that page of the deployment's
/// service with the login's authorization, and withdrawing a contact sends `DELETE` on
/// that contact of that page.
pub proof fn lemma_delete_requests_are_the_callers(
    env: EnvSpec,
    login: Seq<char>,
    uuid: Seq<char>,
    email: Seq<char>,
    ls: LoginState,
    ev: EventSpec,
    t: Seq<char>,
)
    requires
        crate::flow::login_phase(env, login, ls, ev) == crate::flow::LoginPhaseSpec::Authenticated(t),
    ensures
        delete_page_step(env, login, uuid, CallState::Login(ls), ev) == (
            CallState::Calling,
            ActionSpec::Send(
                RequestSpec {
                    method: crate::http::Method::Delete,
                    url: env.neboapp_url + "/api/v2.0/nebo/pages"@ + "/"@ + uuid,
                    authorization: Some(t),
                    json_body: None,
                    form: Seq::empty(),
                    query: Seq::empty(),
                },
            ),
        ),
        crate::ops::remove_contact_step(env, login, uuid, email, CallState::Login(ls), ev) == (
            CallState::Calling,
            ActionSpec::Send(
                RequestSpec {
                    method: crate::http::Method::Delete,
                    url: env.neboapp_url + "/api/v2.0/nebo/pages"@ + "/"@ + uuid + "/contacts"@ + "/"@ + email,
                    authorization: Some(t),
                    json_body: None,
                    form: Seq::empty(),
                    query: Seq::empty(),
                },
            ),
        ),
{
}

/// The login asks for the authorization page of the deployment's client, then sends the
/// login form with exactly the login and the password given.
pub proof fn lemma_login_sends_the_callers_credentials(env: EnvSpec, login: Seq<char>, password: Seq<char>)
    ensures
        login_step(env, login, LoginState::Start, LoginEventSpec::Begin) == (
            LoginState::Authorizing,
            LoginActionSpec::Send(
                RequestSpec {
                    method: crate::http::Method::Get,
                    url: env.sso_url + "/oauth/authorize"@,
                    authorization: None,
                    json_body: None,
                    form: Seq::empty(),
                    query: seq![
                        ("client_id"@, env.client_id),
                        ("response_type"@, "token"@),
                        ("scope"@, "read"@),
                        ("redirect_uri"@, env.sso_redirect_uri),
                    ],
                },
            ),
        ),
        login_step(env, login, LoginState::AwaitingPassword, LoginEventSpec::Password(Ok(password))) == (
            LoginState::LoggingIn,
            LoginActionSpec::Send(
                RequestSpec {
                    method: crate::http::Method::Post,
                    url: env.sso_url + "/public/customlogin"@,
                    authorization: None,
                    json_body: None,
                    form: seq![("email"@, login), ("password"@, password)],
                    query: Seq::empty(),
                },
            ),
        ),
{
}

/// Sharing a page with an email makes that page private, then gives that email read
/// access to that page, under no name and with no message, with the same authorization.
pub proof fn lemma_page_shared_with_the_given_email(
    env: EnvSpec,
    token: Seq<char>,
    configuration: Configuration,
    identity_region: Seq<char>,
    input: ShareInputSpec,
    email: Seq<char>,
    rep: ReplySpec,
)
    requires
        input.email == Some(email),
        is_success_spec(rep.status),
    ensures
        page_share_step(env, token, configuration, identity_region, input, PageShareState::Uploading, EventSpec::Uploaded(Ok(())))
            == (PageShareState::MakingPrivate, ActionSpec::Send(make_private_request_spec(env, token, input.uuid))),
        make_private_request_spec(env, token, input.uuid).method == crate::http::Method::Put,
        make_private_request_spec(env, token, input.uuid).url == env.neboapp_url + "/api/v2.0/nebo/pages"@ + "/"@ + input.uuid,
        page_share_step(env, token, configuration, identity_region, input, PageShareState::MakingPrivate, EventSpec::Reply(Ok(rep)))
            == (
            PageShareState::AddingContact,
            ActionSpec::Send(add_contact_request_spec(env, token, input.uuid, email, None, None)),
        ),
{
}

} // verus!
