use tcn_exchange::batch::{read_batch, write_batch};
use tcn_exchange::keys::ReportAuthorizationKey;
use tcn_exchange::report::{MemoType, SignedReport};

fn report(tag: u8, memo_len: usize) -> SignedReport {
    ReportAuthorizationKey::from_bytes([tag; 32])
        .create_report(MemoType::CoEpiV1, vec![tag; memo_len], 1, 10)
        .unwrap()
}

fn frames(reports: &[SignedReport]) -> Vec<Vec<u8>> {
    reports.iter().map(|r| r.as_bytes().to_vec()).collect()
}

#[test]
fn an_empty_batch_holds_no_report() {
    assert!(read_batch(&[]).is_empty());
    assert!(write_batch(&Vec::new()).is_empty());
}

#[test]
fn a_batch_is_the_concatenation_of_its_frames() {
    let reports = vec![report(1, 0), report(2, 5)];
    let bytes = write_batch(&reports);
    let mut expected = reports[0].as_bytes().to_vec();
    expected.extend_from_slice(reports[1].as_bytes());
    assert_eq!(bytes, expected);
}

#[test]
fn codec_round_trip() {
    let reports: Vec<SignedReport> = (1..=12u8).map(|tag| report(tag, 3 * tag as usize)).collect();
    let bytes = write_batch(&reports);
    let read = read_batch(&bytes);
    assert_eq!(frames(&read), frames(&reports));
}

#[test]
fn codec_round_trip_of_a_single_report() {
    let reports = vec![report(9, 255)];
    let read = read_batch(&write_batch(&reports));
    assert_eq!(frames(&read), frames(&reports));
}

#[test]
fn a_malformed_frame_is_left_out_and_the_rest_is_kept() {
    let reports = vec![report(1, 4), report(2, 0), report(3, 8)];
    let mut bytes = write_batch(&reports);
    // Spoil the memo type of the second frame.
    let second = reports[0].len();
    bytes[second + 68] = 7;
    let read = read_batch(&bytes);
    assert_eq!(
        frames(&read),
        vec![reports[0].as_bytes().to_vec(), reports[2].as_bytes().to_vec()]
    );
}

#[test]
fn a_truncated_tail_is_left_out() {
    let reports = vec![report(1, 4), report(2, 0)];
    let bytes = write_batch(&reports);
    let read = read_batch(&bytes[..bytes.len() - 1]);
    assert_eq!(frames(&read), vec![reports[0].as_bytes().to_vec()]);
}
