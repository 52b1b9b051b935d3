use vstd::prelude::*;

use crate::error::{ErrorSpec, NeboError, result_view};
use crate::text::contains_seq;
use crate::upload::{
    CompletedPart, ManagerSpec, READ_BUFFER_SIZE, TransferManager, TransferMode, collect_parts, completed_view,
    first_failure, monopart_outcome, needs_abort_spec, part_at, part_count, part_plan, sorted_sent,
};

verus! {

/// The steps of sending a file to the storage.
#[derive(Debug)]
pub enum TransferState {
    /// Nothing sent yet.
    Start,
    /// The file was sent in one request.
    Putting,
    /// A multipart upload of a file of `len` bytes was asked for.
    Creating { len: u64 },
    /// The parts are being sent.
    Sending,
    /// The storage was asked to assemble the parts.
    Completing,
    /// The upload is being aborted after this error.
    Aborting(NeboError),
    /// The transfer is over.
    Finished,
}

/// A [`TransferState`] with its error by its view.
pub enum TransferStateSpec {
    Start,
    Putting,
    Creating { len: u64 },
    Sending,
    Completing,
    Aborting(ErrorSpec),
    Finished,
}

impl View for TransferState {
    type V = TransferStateSpec;

    open spec fn view(&self) -> TransferStateSpec {
        match self {
            TransferState::Start => TransferStateSpec::Start,
            TransferState::Putting => TransferStateSpec::Putting,
            TransferState::Creating { len } => TransferStateSpec::Creating { len: *len },
            TransferState::Sending => TransferStateSpec::Sending,
            TransferState::Completing => TransferStateSpec::Completing,
            TransferState::Aborting(e) => TransferStateSpec::Aborting(e@),
            TransferState::Finished => TransferStateSpec::Finished,
        }
    }
}

/// What the storage answered since the last step of a transfer.
#[derive(Debug)]
pub enum TransferEvent {
    /// The transfer of a file of this many bytes starts.
    Begin(u64),
    /// The file sent in one request was stored, or why not.
    Put(Result<(), String>),
    /// The multipart upload was created, with the identifier the storage gave it if any,
    /// or why not.
    Created(Result<Option<String>, String>),
    /// The part uploads are over: how many stopped abnormally, and the outcomes of the
    /// others in the order they arrived.
    PartsSent { panicked: usize, results: Vec<Result<CompletedPart, String>> },
    /// The parts were assembled, or why not.
    Completed(Result<(), String>),
    /// The abort was asked for; its outcome changes nothing.
    Aborted,
}

/// A [`TransferEvent`] with its texts as character sequences.
pub enum TransferEventSpec {
    Begin(u64),
    Put(Result<(), Seq<char>>),
    Created(Result<Option<Seq<char>>, Seq<char>>),
    PartsSent { panicked: usize, results: Seq<Result<CompletedPart, String>> },
    Completed(Result<(), Seq<char>>),
    Aborted,
}

/// A result with a text error, by the view of the error.
pub open spec fn unit_text_view(r: Result<(), String>) -> Result<(), Seq<char>> {
    match r {
        Ok(()) => Ok(()),
        Err(e) => Err(e@),
    }
}

impl View for TransferEvent {
    type V = TransferEventSpec;

    open spec fn view(&self) -> TransferEventSpec {
        match self {
            TransferEvent::Begin(len) => TransferEventSpec::Begin(*len),
            TransferEvent::Put(r) => TransferEventSpec::Put(unit_text_view(*r)),
            TransferEvent::Created(r) => TransferEventSpec::Created(
                match r {
                    Ok(id) => Ok(crate::http::opt_view(*id)),
                    Err(e) => Err(e@),
                },
            ),
            TransferEvent::PartsSent { panicked, results } => TransferEventSpec::PartsSent {
                panicked: *panicked,
                results: results@,
            },
            TransferEvent::Completed(r) => TransferEventSpec::Completed(unit_text_view(*r)),
            TransferEvent::Aborted => TransferEventSpec::Aborted,
        }
    }
}

/// What a transfer asks of the storage next.
#[derive(Debug)]
pub enum TransferAction {
    /// Store the whole file in one request, as the plan says.
    Put,
    /// Create a multipart upload, as the plan says.
    Create,
    /// Send these parts of the file (number, offset, length) side by side.
    SendParts { upload_id: String, plan: Vec<(i64, u64, u64)> },
    /// Assemble these parts, in this order.
    Complete { upload_id: String, parts: Vec<CompletedPart> },
    /// Abort the multipart upload.
    Abort { upload_id: String },
    /// The transfer is over.
    Finish(Result<(), NeboError>),
}

/// A [`TransferAction`] with its texts as character sequences.
pub enum TransferActionSpec {
    Put,
    Create,
    SendParts { upload_id: Seq<char>, plan: Seq<(i64, u64, u64)> },
    Complete { upload_id: Seq<char>, parts: Seq<(i64, Option<Seq<char>>)> },
    Abort { upload_id: Seq<char> },
    Finish(Result<(), ErrorSpec>),
}

impl View for TransferAction {
    type V = TransferActionSpec;

    open spec fn view(&self) -> TransferActionSpec {
        match self {
            TransferAction::Put => TransferActionSpec::Put,
            TransferAction::Create => TransferActionSpec::Create,
            TransferAction::SendParts { upload_id, plan } => TransferActionSpec::SendParts {
                upload_id: upload_id@,
                plan: plan@,
            },
            TransferAction::Complete { upload_id, parts } => TransferActionSpec::Complete {
                upload_id: upload_id@,
                parts: completed_view(parts@),
            },
            TransferAction::Abort { upload_id } => TransferActionSpec::Abort { upload_id: upload_id@ },
            TransferAction::Finish(r) => TransferActionSpec::Finish(result_view(*r)),
        }
    }
}

/// What sending a file in one request gives, by views.
pub open spec fn monopart_outcome_spec(r: Result<(), Seq<char>>) -> Result<(), ErrorSpec> {
    match r {
        Ok(()) => Ok(()),
        Err(m) => if contains_seq(m, "Expected EndElement PutObjectResponse"@) {
            Ok(())
        } else {
            Err(ErrorSpec::Transport(m))
        },
    }
}

/// The parts to assemble from the outcomes of the part uploads, by views.
pub open spec fn collect_parts_spec(panicked: usize, rs: Seq<Result<CompletedPart, String>>) -> Result<Seq<(i64, Option<Seq<char>>)>, ErrorSpec> {
    if panicked > 0 {
        Err(ErrorSpec::MultipartPanicked)
    } else {
        match first_failure(rs) {
            Some(m) => Err(ErrorSpec::Transport(m)),
            None => Ok(sorted_sent(rs)),
        }
    }
}

/// The parts a file of `len` bytes is sent in.
pub open spec fn part_plan_spec(len: u64) -> Seq<(i64, u64, u64)> {
    Seq::new(part_count(len) as nat, |i: int| part_at(len, i))
}

/// What ends a transfer with an error: first the abort of a multipart upload that was
/// started and not assembled.
pub open spec fn transfer_fails(m: ManagerSpec, e: ErrorSpec) -> (TransferStateSpec, TransferActionSpec, ManagerSpec) {
    if needs_abort_spec(m) {
        (TransferStateSpec::Aborting(e), TransferActionSpec::Abort { upload_id: m.upload_id->Some_0 }, m)
    } else {
        (TransferStateSpec::Finished, TransferActionSpec::Finish(Err(e)), m)
    }
}

/// The next step of sending a file under plan `m`, from `state` when `ev` happens, with
/// the plan after it. A file larger than one part is sent in parts: the upload is
/// created and its identifier recorded, the parts are sent, then assembled in the order
/// of their numbers, and only then is the upload marked done; a failure after the
/// upload was created aborts it before the transfer ends.
pub open spec fn transfer_step(m: ManagerSpec, state: TransferStateSpec, ev: TransferEventSpec) -> (TransferStateSpec, TransferActionSpec, ManagerSpec) {
    match state {
        TransferStateSpec::Start => match ev {
            TransferEventSpec::Begin(len) => if len > READ_BUFFER_SIZE {
                (TransferStateSpec::Creating { len: len }, TransferActionSpec::Create, m)
            } else {
                (TransferStateSpec::Putting, TransferActionSpec::Put, m)
            },
            _ => transfer_fails(m, ErrorSpec::OutOfOrder),
        },
        TransferStateSpec::Putting => match ev {
            TransferEventSpec::Put(r) => match monopart_outcome_spec(r) {
                Ok(()) => (TransferStateSpec::Finished, TransferActionSpec::Finish(Ok(())), m),
                Err(e) => transfer_fails(m, e),
            },
            _ => transfer_fails(m, ErrorSpec::OutOfOrder),
        },
        TransferStateSpec::Creating { len } => match ev {
            TransferEventSpec::Created(Err(e)) => transfer_fails(m, ErrorSpec::Transport(e)),
            TransferEventSpec::Created(Ok(id)) => {
                let recorded = ManagerSpec { upload_id: id, ..m };
                match id {
                    None => transfer_fails(recorded, ErrorSpec::MissingUploadId),
                    Some(i) => (
                        TransferStateSpec::Sending,
                        TransferActionSpec::SendParts { upload_id: i, plan: part_plan_spec(len) },
                        recorded,
                    ),
                }
            },
            _ => transfer_fails(m, ErrorSpec::OutOfOrder),
        },
        TransferStateSpec::Sending => match ev {
            TransferEventSpec::PartsSent { panicked, results } => match collect_parts_spec(panicked, results) {
                Err(e) => transfer_fails(m, e),
                Ok(parts) => match m.upload_id {
                    Some(i) => (TransferStateSpec::Completing, TransferActionSpec::Complete { upload_id: i, parts: parts }, m),
                    None => transfer_fails(m, ErrorSpec::MissingUploadId),
                },
            },
            _ => transfer_fails(m, ErrorSpec::OutOfOrder),
        },
        TransferStateSpec::Completing => match ev {
            TransferEventSpec::Completed(Ok(())) => (
                TransferStateSpec::Finished,
                TransferActionSpec::Finish(Ok(())),
                ManagerSpec { transfert_done: true, ..m },
            ),
            TransferEventSpec::Completed(Err(e)) => transfer_fails(m, ErrorSpec::Transport(e)),
            _ => transfer_fails(m, ErrorSpec::OutOfOrder),
        },
        TransferStateSpec::Aborting(e) => match ev {
            TransferEventSpec::Aborted => (TransferStateSpec::Finished, TransferActionSpec::Finish(Err(e)), m),
            _ => (TransferStateSpec::Finished, TransferActionSpec::Finish(Err(ErrorSpec::OutOfOrder)), m),
        },
        TransferStateSpec::Finished => (TransferStateSpec::Finished, TransferActionSpec::Finish(Err(ErrorSpec::OutOfOrder)), m),
    }
}

fn transfer_stop(manager: &TransferManager, e: NeboError) -> (r: (TransferState, TransferAction))
    ensures
        (r.0@, r.1@, manager@) == transfer_fails(manager@, e@),
{
    if manager.needs_abort() {
        match &manager.upload_id {
            Some(id) => (TransferState::Aborting(e), TransferAction::Abort { upload_id: id.clone() }),
            None => (TransferState::Finished, TransferAction::Finish(Err(e))),
        }
    } else {
        (TransferState::Finished, TransferAction::Finish(Err(e)))
    }
}

/// One step of sending a file under the plan `manager`: from `state`, when `event`
/// happens, the next state and what to ask of the storage; the plan records the
/// identifier of a multipart upload and when its parts are assembled.
pub fn transfer_step_exec(manager: &mut TransferManager, state: TransferState, event: TransferEvent) -> (r: (TransferState, TransferAction))
    ensures
        (r.0@, r.1@, final(manager)@) == transfer_step(old(manager)@, state@, event@),
{
    match state {
        TransferState::Start => match event {
            TransferEvent::Begin(len) => match TransferManager::transfer(len) {
                TransferMode::Multipart => (TransferState::Creating { len }, TransferAction::Create),
                TransferMode::Monopart => (TransferState::Putting, TransferAction::Put),
            },
            _ => transfer_stop(manager, NeboError::OutOfOrder),
        },
        TransferState::Putting => match event {
            TransferEvent::Put(r) => match monopart_outcome(r) {
                Ok(()) => (TransferState::Finished, TransferAction::Finish(Ok(()))),
                Err(e) => transfer_stop(manager, e),
            },
            _ => transfer_stop(manager, NeboError::OutOfOrder),
        },
        TransferState::Creating { len } => match event {
            TransferEvent::Created(Err(e)) => transfer_stop(manager, NeboError::Transport(e)),
            TransferEvent::Created(Ok(id)) => {
                manager.record_upload_id(id);
                match manager.part_upload_id() {
                    Err(e) => transfer_stop(manager, e),
                    Ok(i) => {
                        let plan = part_plan(len);
                        proof {
                            assert(plan@ =~= part_plan_spec(len));
                        }
                        (TransferState::Sending, TransferAction::SendParts { upload_id: i, plan })
                    },
                }
            },
            _ => transfer_stop(manager, NeboError::OutOfOrder),
        },
        TransferState::Sending => match event {
            TransferEvent::PartsSent { panicked, results } => match collect_parts(panicked, results) {
                Err(e) => transfer_stop(manager, e),
                Ok(parts) => match manager.part_upload_id() {
                    Ok(i) => (TransferState::Completing, TransferAction::Complete { upload_id: i, parts }),
                    Err(e) => transfer_stop(manager, e),
                },
            },
            _ => transfer_stop(manager, NeboError::OutOfOrder),
        },
        TransferState::Completing => match event {
            TransferEvent::Completed(Ok(())) => {
                manager.mark_done();
                (TransferState::Finished, TransferAction::Finish(Ok(())))
            },
            TransferEvent::Completed(Err(e)) => transfer_stop(manager, NeboError::Transport(e)),
            _ => transfer_stop(manager, NeboError::OutOfOrder),
        },
        TransferState::Aborting(e) => match event {
            TransferEvent::Aborted => (TransferState::Finished, TransferAction::Finish(Err(e))),
            _ => (TransferState::Finished, TransferAction::Finish(Err(NeboError::OutOfOrder))),
        },
        TransferState::Finished => (TransferState::Finished, TransferAction::Finish(Err(NeboError::OutOfOrder))),
    }
}

} // verus!
