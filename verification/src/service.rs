//! The batch service: what is answered to a submission, to a fetch, and to
//! a request that is neither.

use crate::error::{spec_message, spec_status, ErrModel, ErrReport, ErrorKind};
use crate::report::{spec_first_frame, spec_signature_valid, SignedReport};
use crate::shard::Shard;
use crate::storage::{
    spec_after_fetch, spec_fetch_allows, spec_fetched, spec_save, Storage, StoreModel,
};
use crate::timestamp::ReportTimestamp;
use vstd::prelude::*;
use vstd::slice::slice_to_vec;
use vstd::string::StringSliceAdditionalSpecFns;

verus! {

/// The longest body a submission may have, in bytes.
pub const MAX_BODY_LEN: u64 = 2048;

/// The status of success.
pub const STATUS_OK: u16 = 200;

/// An answer: a status and a body.
#[derive(Debug)]
pub struct Reply {
    pub status: u16,
    pub body: Vec<u8>,
}

/// Why a request was turned away.
#[derive(Debug)]
pub enum Rejection {
    /// No endpoint matches the request.
    NotFound,
    /// An endpoint failed with an error report.
    Report(ErrReport),
    /// Anything the service did not expect.
    Unhandled,
}

/// The body that tells a client which endpoints exist.
pub open spec fn spec_not_found_body() -> Seq<u8> {
    "Error: 404 Not Found\nNote: The supported endpoints by this server are `submit` and `get_reports/<timestamp>`\n".spec_bytes()
}

/// The body that carries an error message to a client.
pub open spec fn spec_error_body(message: Seq<char>) -> Seq<u8> {
    "Error: ".spec_bytes() + vstd::utf8::encode_utf8(message) + "\n".spec_bytes()
}

/// The answer to a rejection, as status and body.
pub open spec fn spec_rejection_reply(rejection: Rejection) -> (u16, Seq<u8>) {
    match rejection {
        Rejection::NotFound => (404, spec_not_found_body()),
        Rejection::Report(report) => (report@.status, spec_error_body(report@.chain.last())),
        Rejection::Unhandled => (500, "UNHANDLED_REJECTION\n".spec_bytes()),
    }
}

/// The answer to a submission of `body` to `shard` in bucket `now`, and
/// the store afterwards: the first report of the body is read, verified and
/// saved. A body that does not begin with a report and a report that does
/// not verify are the client's fault and change nothing.
pub open spec fn spec_handle_submit(m: StoreModel, shard: u64, body: Seq<u8>, now: u64) -> (
    StoreModel,
    Result<(), ErrorKind>,
) {
    match spec_first_frame(body) {
        Some(frame) => spec_save(m, shard, now, frame),
        None => (m, Err(ErrorKind::Malformed)),
    }
}

/// The status and body that report a failure of `kind` met while doing
/// what `context` names.
pub open spec fn spec_failure(kind: ErrorKind, context: Seq<char>) -> (u16, Seq<u8>) {
    (spec_status(kind), spec_error_body(context))
}

/// Turns a rejection into the answer the client gets. An unmatched path is
/// answered with 404 and the list of endpoints; an error report with its
/// status and its final message; anything else with 500.
pub fn handle_rejection(rejection: Rejection) -> (reply: Reply)
    ensures
        (reply.status, reply.body@) == spec_rejection_reply(rejection),
{
    match rejection {
        Rejection::NotFound => Reply {
            status: 404,
            body: slice_to_vec(
                "Error: 404 Not Found\nNote: The supported endpoints by this server are `submit` and `get_reports/<timestamp>`\n".as_bytes(),
            ),
        },
        Rejection::Report(report) => {
            let mut body = slice_to_vec("Error: ".as_bytes());
            body.extend_from_slice(report.final_message().as_bytes());
            body.extend_from_slice("\n".as_bytes());
            assert(body@ =~= spec_error_body(report@.chain.last()));
            Reply { status: report.status(), body }
        },
        Rejection::Unhandled => Reply {
            status: 500,
            body: slice_to_vec("UNHANDLED_REJECTION\n".as_bytes()),
        },
    }
}

/// The error report for a failure of `kind` met while doing what
/// `context` names: the kind's status, and a chain of the kind's message
/// and the context.
pub open spec fn spec_failure_report(kind: ErrorKind, context: Seq<char>) -> ErrModel {
    ErrModel { kind, status: spec_status(kind), chain: seq![spec_message(kind), context] }
}

/// Serves `POST submit/{shard}`: reads the report at the beginning of
/// `body`, verifies it and saves it in bucket `now`. Success is answered
/// with 200 and `report saved`; a failure is reported with its kind and the
/// status that belongs to it, and has changed nothing.
pub fn save_report(store: &mut Storage, shard: Shard, body: &[u8], now: ReportTimestamp) -> (result:
    Result<Reply, ErrReport>)
    ensures
        final(store)@ == spec_handle_submit(old(store)@, shard@, body@, now@).0,
        match spec_handle_submit(old(store)@, shard@, body@, now@).1 {
            Ok(_) => result is Ok && result->Ok_0.status == 200 && result->Ok_0.body@
                == "report saved".spec_bytes(),
            Err(kind) => result is Err && result->Err_0@ == spec_failure_report(
                kind,
                "Failed to save report"@,
            ),
        },
{
    let outcome = match SignedReport::read(body) {
        Ok(report) => store.save_at(shard, report, now),
        Err(_) => Err(ErrorKind::Malformed),
    };
    match outcome {
        Ok(()) => Ok(Reply { status: STATUS_OK, body: slice_to_vec("report saved".as_bytes()) }),
        Err(kind) => {
            let report = ErrReport::from_kind(kind).wrap_err("Failed to save report");
            assert(report@.chain =~= seq![spec_message(kind), "Failed to save report"@]);
            Err(report)
        },
    }
}

/// Serves `GET get_reports/{shard}/{timestamp}` when the current bucket is
/// `now`. Success is answered with 200 and the sealed batch; a failure is
/// reported with its kind and the status that belongs to it.
pub fn get_reports(store: &mut Storage, shard: Shard, ts: ReportTimestamp, now: ReportTimestamp) -> (result:
    Result<Reply, ErrReport>)
    ensures
        exists|fetched: Result<Seq<u8>, ErrorKind>|
            #![trigger spec_fetch_allows(old(store)@, shard@, ts@, now@, fetched)]
            spec_fetch_allows(old(store)@, shard@, ts@, now@, fetched) && final(store)@
                == spec_after_fetch(old(store)@, shard@, ts@, fetched) && match fetched {
                Ok(bytes) => result is Ok && result->Ok_0.status == 200 && result->Ok_0.body@
                    == bytes,
                Err(kind) => result is Err && result->Err_0@ == spec_failure_report(
                    kind,
                    "Failed to retrieve reports"@,
                ),
            },
{
    let fetched = store.fetch(shard, ts, now);
    assert(spec_fetch_allows(old(store)@, shard@, ts@, now@, spec_fetched(fetched)));
    match fetched {
        Ok(bytes) => Ok(Reply { status: STATUS_OK, body: bytes }),
        Err(kind) => {
            let report = ErrReport::from_kind(kind).wrap_err("Failed to retrieve reports");
            assert(report@.chain =~= seq![spec_message(kind), "Failed to retrieve reports"@]);
            Err(report)
        },
    }
}

/// Serves a submission as `save_report` does and answers a failure as
/// `handle_rejection` does: with the status of its kind and the final message.
pub fn handle_submit(store: &mut Storage, shard: Shard, body: &[u8], now: ReportTimestamp) -> (reply:
    Reply)
    ensures
        final(store)@ == spec_handle_submit(old(store)@, shard@, body@, now@).0,
        match spec_handle_submit(old(store)@, shard@, body@, now@).1 {
            Ok(_) => reply.status == 200 && reply.body@ == "report saved".spec_bytes(),
            Err(kind) => (reply.status, reply.body@) == spec_failure(
                kind,
                "Failed to save report"@,
            ),
        },
{
    match save_report(store, shard, body, now) {
        Ok(reply) => reply,
        Err(report) => handle_rejection(Rejection::Report(report)),
    }
}

/// Serves a fetch as `get_reports` does and answers a failure as
/// `handle_rejection` does: with the status of its kind and the final message.
pub fn handle_fetch(store: &mut Storage, shard: Shard, ts: ReportTimestamp, now: ReportTimestamp) -> (reply:
    Reply)
    ensures
        exists|fetched: Result<Seq<u8>, ErrorKind>|
            #![trigger spec_fetch_allows(old(store)@, shard@, ts@, now@, fetched)]
            spec_fetch_allows(old(store)@, shard@, ts@, now@, fetched) && final(store)@
                == spec_after_fetch(old(store)@, shard@, ts@, fetched) && match fetched {
                Ok(bytes) => reply.status == 200 && reply.body@ == bytes,
                Err(kind) => (reply.status, reply.body@) == spec_failure(
                    kind,
                    "Failed to retrieve reports"@,
                ),
            },
{
    match get_reports(store, shard, ts, now) {
        Ok(reply) => reply,
        Err(report) => handle_rejection(Rejection::Report(report)),
    }
}

/// An invalid submission is never stored. A body that does not begin with
/// a report is refused as `Malformed`; a body that begins with a report
/// whose signature does not verify is refused as `InvalidSignature`. Either
/// way the status is 400 and the store is as it was.
pub proof fn law_invalid_submission_is_refused(
    m: StoreModel,
    shard: u64,
    body: Seq<u8>,
    now: u64,
)
    requires
        match spec_first_frame(body) {
            Some(frame) => !spec_signature_valid(frame),
            None => true,
        },
    ensures
        spec_handle_submit(m, shard, body, now).0 == m,
        spec_handle_submit(m, shard, body, now).1 == Err::<(), ErrorKind>(
            if spec_first_frame(body) is Some {
                ErrorKind::InvalidSignature
            } else {
                ErrorKind::Malformed
            },
        ),
        spec_status(ErrorKind::InvalidSignature) == 400,
        spec_status(ErrorKind::Malformed) == 400,
{
}

/// An invalid submission changes nothing: whatever is answered with a
/// status other than 200 leaves the store as it was.
pub proof fn law_refused_submission_changes_nothing(
    m: StoreModel,
    shard: u64,
    body: Seq<u8>,
    now: u64,
)
    requires
        spec_handle_submit(m, shard, body, now).1 is Err,
    ensures
        spec_handle_submit(m, shard, body, now).0 == m,
{
}

} // verus!
