use tcn_exchange::error::{set_status, ErrReport, ErrorKind};
use tcn_exchange::keys::ReportAuthorizationKey;
use tcn_exchange::report::{MemoType, SignedReport};
use tcn_exchange::service::{handle_fetch, handle_rejection, handle_submit, Rejection};
use tcn_exchange::shard::Shard;
use tcn_exchange::storage::Storage;
use tcn_exchange::timestamp::ReportTimestamp;

fn report(tag: u8) -> SignedReport {
    ReportAuthorizationKey::from_bytes([tag; 32])
        .create_report(MemoType::CoEpiV1, Vec::new(), 1, 21)
        .unwrap()
}

#[test]
fn a_valid_submission_is_saved() {
    let mut store = Storage::new();
    let reply = handle_submit(&mut store, Shard(0), report(1).as_bytes(), ReportTimestamp(3));
    assert_eq!(reply.status, 200);
    assert_eq!(reply.body, b"report saved".to_vec());
    let fetched = handle_fetch(&mut store, Shard(0), ReportTimestamp(3), ReportTimestamp(4));
    assert_eq!(fetched.status, 200);
    assert_eq!(fetched.body, report(1).as_bytes().to_vec());
}

#[test]
fn scenario_invalid_signature() {
    let mut store = Storage::new();
    let mut body = report(1).as_bytes().to_vec();
    let last = body.len() - 1;
    body[last] ^= 1;
    let reply = handle_submit(&mut store, Shard(0), &body, ReportTimestamp(3));
    assert_eq!(reply.status, 400);
    assert_eq!(reply.body, b"Error: Failed to save report\n".to_vec());
    // No state changed: the shard does not exist.
    let fetched = handle_fetch(&mut store, Shard(0), ReportTimestamp(3), ReportTimestamp(4));
    assert_eq!(fetched.status, 404);
}

#[test]
fn a_body_that_is_no_report_is_a_bad_request() {
    let mut store = Storage::new();
    for body in [&b""[..], &b"not a report"[..], &report(1).as_bytes()[..100]] {
        let reply = handle_submit(&mut store, Shard(0), body, ReportTimestamp(3));
        assert_eq!(reply.status, 400);
    }
    let fetched = handle_fetch(&mut store, Shard(0), ReportTimestamp(3), ReportTimestamp(4));
    assert_eq!(fetched.status, 404);
}

#[test]
fn a_submission_to_a_sealed_bucket_is_a_conflict() {
    let mut store = Storage::new();
    let t = ReportTimestamp(3);
    assert_eq!(handle_submit(&mut store, Shard(0), report(1).as_bytes(), t).status, 200);
    assert_eq!(handle_fetch(&mut store, Shard(0), t, ReportTimestamp(4)).status, 200);
    let reply = handle_submit(&mut store, Shard(0), report(2).as_bytes(), t);
    assert_eq!(reply.status, 409);
    let again = handle_fetch(&mut store, Shard(0), t, ReportTimestamp(5));
    assert_eq!(again.body, report(1).as_bytes().to_vec());
}

#[test]
fn fetch_failures_have_their_statuses() {
    let mut store = Storage::new();
    let t = ReportTimestamp(3);
    handle_submit(&mut store, Shard(0), report(1).as_bytes(), t);
    let current = handle_fetch(&mut store, Shard(0), t, t);
    assert_eq!(current.status, 403);
    assert_eq!(current.body, b"Error: Failed to retrieve reports\n".to_vec());
    assert_eq!(handle_fetch(&mut store, Shard(1), t, ReportTimestamp(4)).status, 404);
    assert_eq!(
        handle_fetch(&mut store, Shard(0), ReportTimestamp(2), ReportTimestamp(4)).status,
        404
    );
}

#[test]
fn an_unmatched_path_names_the_endpoints() {
    let reply = handle_rejection(Rejection::NotFound);
    assert_eq!(reply.status, 404);
    assert_eq!(
        reply.body,
        b"Error: 404 Not Found\nNote: The supported endpoints by this server are `submit` and `get_reports/<timestamp>`\n".to_vec()
    );
}

#[test]
fn an_unexpected_rejection_is_an_internal_error() {
    let reply = handle_rejection(Rejection::Unhandled);
    assert_eq!(reply.status, 500);
    assert_eq!(reply.body, b"UNHANDLED_REJECTION\n".to_vec());
}

#[test]
fn an_error_report_is_answered_with_its_status_and_final_message() {
    let report = ErrReport::new(ErrorKind::NotFoundShard)
        .set_status(404)
        .wrap_err("Failed to retrieve reports");
    let reply = handle_rejection(Rejection::Report(report));
    assert_eq!(reply.status, 404);
    assert_eq!(reply.body, b"Error: Failed to retrieve reports\n".to_vec());
    let bare = handle_rejection(Rejection::Report(ErrReport::new(ErrorKind::InternalBug)));
    assert_eq!(bare.status, 500);
    assert_eq!(bare.body, b"Error: Could not read the clock or seal the report batch\n".to_vec());
}

#[test]
fn error_reports_keep_their_chain() {
    let report = ErrReport::from_kind(ErrorKind::ClockRewound).wrap_err("Failed to save report");
    assert_eq!(report.kind(), ErrorKind::ClockRewound);
    assert_eq!(report.status(), 409);
    assert_eq!(report.chain_len(), 2);
    assert_eq!(
        report.chain_message(0),
        "Current entry is already sealed. Is time broken?"
    );
    assert_eq!(report.chain_message(1), "Failed to save report");
    assert_eq!(report.final_message(), "Failed to save report");
}

#[test]
fn a_fresh_error_report_is_an_internal_error_until_told_otherwise() {
    let report = ErrReport::new(ErrorKind::EmbargoCurrent);
    assert_eq!(report.status(), 500);
    assert_eq!(report.set_status(403).status(), 403);
    let failed: Result<u8, ErrReport> = Err(ErrReport::new(ErrorKind::EmbargoCurrent));
    assert_eq!(set_status(failed, 403).unwrap_err().status(), 403);
    let fine: Result<u8, ErrReport> = Ok(7);
    assert_eq!(set_status(fine, 403).unwrap(), 7);
}

#[test]
fn every_kind_has_its_status_and_message() {
    let expected = [
        (ErrorKind::Malformed, 400, "Malformed report"),
        (ErrorKind::InvalidSignature, 400, "Report verification failed"),
        (ErrorKind::MemoTooLong, 400, "Oversize memo field"),
        (
            ErrorKind::ClockRewound,
            409,
            "Current entry is already sealed. Is time broken?",
        ),
        (
            ErrorKind::EmbargoCurrent,
            403,
            "Cannot request entries for current timeframe",
        ),
        (ErrorKind::NotFoundShard, 404, "No entries for this shard"),
        (ErrorKind::NotFoundBucket, 404, "No entries for this timeframe"),
        (ErrorKind::RngFailure, 500, "Random number generator failed"),
        (ErrorKind::InternalBug, 500, "Could not read the clock or seal the report batch"),
    ];
    for (kind, status, message) in expected {
        assert_eq!(kind.status(), status);
        assert_eq!(kind.message(), message);
        assert_eq!(kind.is_client_error(), status < 500);
    }
}
