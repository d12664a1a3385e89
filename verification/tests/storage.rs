use tcn_exchange::batch::read_batch;
use tcn_exchange::error::ErrorKind;
use tcn_exchange::keys::ReportAuthorizationKey;
use tcn_exchange::report::{MemoType, SignedReport};
use tcn_exchange::shard::Shard;
use tcn_exchange::storage::{Storage, StorageEntry};
use tcn_exchange::timestamp::ReportTimestamp;

fn report(tag: u8) -> SignedReport {
    ReportAuthorizationKey::from_bytes([tag; 32])
        .create_report(MemoType::CoEpiV1, vec![tag; tag as usize % 5], 1, 20)
        .unwrap()
}

fn forged(tag: u8) -> SignedReport {
    let mut wire = report(tag).as_bytes().to_vec();
    let last = wire.len() - 1;
    wire[last] ^= 0x80;
    SignedReport::read(&wire).unwrap()
}

fn sorted_frames(bytes: &[u8]) -> Vec<Vec<u8>> {
    let mut frames: Vec<Vec<u8>> = read_batch(bytes)
        .iter()
        .map(|r| r.as_bytes().to_vec())
        .collect();
    frames.sort();
    frames
}

fn sorted(reports: &[SignedReport]) -> Vec<Vec<u8>> {
    let mut frames: Vec<Vec<u8>> = reports.iter().map(|r| r.as_bytes().to_vec()).collect();
    frames.sort();
    frames
}

#[test]
fn a_new_store_knows_no_shard() {
    let mut store = Storage::new();
    assert_eq!(
        store.fetch(Shard(0), ReportTimestamp(1), ReportTimestamp(2)),
        Err(ErrorKind::NotFoundShard)
    );
    let mut store = Storage::default();
    assert_eq!(
        store.fetch(Shard(0), ReportTimestamp(1), ReportTimestamp(2)),
        Err(ErrorKind::NotFoundShard)
    );
}

#[test]
fn scenario_embargo() {
    let mut store = Storage::new();
    let t = ReportTimestamp(100);
    let r = report(1);
    assert_eq!(store.submit(Shard(0), r.duplicate(), t), Ok(()));
    assert_eq!(store.fetch(Shard(0), t, t), Err(ErrorKind::EmbargoCurrent));
    let bytes = store.fetch(Shard(0), t, ReportTimestamp(101)).unwrap();
    assert_eq!(bytes, r.as_bytes().to_vec());
}

#[test]
fn embargo_holds_whatever_the_store_holds() {
    let mut store = Storage::new();
    // Unknown shard, current bucket: the embargo comes first.
    assert_eq!(
        store.fetch(Shard(9), ReportTimestamp(5), ReportTimestamp(5)),
        Err(ErrorKind::EmbargoCurrent)
    );
    store
        .submit(Shard(9), report(1), ReportTimestamp(4))
        .unwrap();
    // Known shard, unknown bucket, current bucket.
    assert_eq!(
        store.fetch(Shard(9), ReportTimestamp(5), ReportTimestamp(5)),
        Err(ErrorKind::EmbargoCurrent)
    );
    // A sealed bucket that is named current is embargoed too.
    store
        .fetch(Shard(9), ReportTimestamp(4), ReportTimestamp(5))
        .unwrap();
    assert_eq!(
        store.fetch(Shard(9), ReportTimestamp(4), ReportTimestamp(4)),
        Err(ErrorKind::EmbargoCurrent)
    );
}

#[test]
fn the_embargo_does_not_seal() {
    let mut store = Storage::new();
    let t = ReportTimestamp(7);
    store.submit(Shard(1), report(1), t).unwrap();
    assert_eq!(store.fetch(Shard(1), t, t), Err(ErrorKind::EmbargoCurrent));
    assert_eq!(store.submit(Shard(1), report(2), t), Ok(()));
    let bytes = store.fetch(Shard(1), t, ReportTimestamp(8)).unwrap();
    assert_eq!(sorted_frames(&bytes), sorted(&[report(1), report(2)]));
}

#[test]
fn scenario_seal_terminality() {
    let mut store = Storage::new();
    let t = ReportTimestamp(41);
    let r1 = report(1);
    let r2 = report(2);
    store.submit(Shard(0), r1.duplicate(), t).unwrap();
    let fetched = store.fetch(Shard(0), t, ReportTimestamp(42)).unwrap();
    assert_eq!(fetched, r1.as_bytes().to_vec());
    assert_eq!(store.submit(Shard(0), r2, t), Err(ErrorKind::ClockRewound));
    // Still only R1, and byte for byte what was handed out before.
    let again = store.fetch(Shard(0), t, ReportTimestamp(43)).unwrap();
    assert_eq!(again, fetched);
}

#[test]
fn a_sealed_entry_stays_sealed_through_other_operations() {
    let mut store = Storage::new();
    let t = ReportTimestamp(10);
    store.submit(Shard(1), report(1), t).unwrap();
    let sealed = store.fetch(Shard(1), t, ReportTimestamp(11)).unwrap();
    store.submit(Shard(1), report(2), ReportTimestamp(11)).unwrap();
    store.submit(Shard(2), report(3), t).unwrap();
    store.fetch(Shard(2), t, ReportTimestamp(12)).unwrap();
    store
        .fetch(Shard(1), ReportTimestamp(11), ReportTimestamp(12))
        .unwrap();
    for tag in 4..8 {
        assert_eq!(
            store.submit(Shard(1), report(tag), t),
            Err(ErrorKind::ClockRewound)
        );
    }
    assert_eq!(store.fetch(Shard(1), t, ReportTimestamp(13)).unwrap(), sealed);
}

#[test]
fn scenario_shard_partition() {
    let mut store = Storage::new();
    let t = ReportTimestamp(5);
    let r1 = report(1);
    store.submit(Shard(3), r1.duplicate(), t).unwrap();
    assert_eq!(
        store.fetch(Shard(5), t, ReportTimestamp(6)),
        Err(ErrorKind::NotFoundShard)
    );
    assert_eq!(
        store.fetch(Shard(3), t, ReportTimestamp(6)).unwrap(),
        r1.as_bytes().to_vec()
    );
}

#[test]
fn shards_are_isolated() {
    let mut store = Storage::new();
    let t = ReportTimestamp(5);
    store.submit(Shard(1), report(1), t).unwrap();
    store.submit(Shard(2), report(2), t).unwrap();
    store.submit(Shard(1), report(3), t).unwrap();
    let one = store.fetch(Shard(1), t, ReportTimestamp(6)).unwrap();
    let two = store.fetch(Shard(2), t, ReportTimestamp(6)).unwrap();
    assert_eq!(sorted_frames(&one), sorted(&[report(1), report(3)]));
    assert_eq!(sorted_frames(&two), sorted(&[report(2)]));
}

#[test]
fn buckets_are_isolated() {
    let mut store = Storage::new();
    store
        .submit(Shard(1), report(1), ReportTimestamp(5))
        .unwrap();
    store
        .submit(Shard(1), report(2), ReportTimestamp(6))
        .unwrap();
    assert_eq!(
        store.fetch(Shard(1), ReportTimestamp(4), ReportTimestamp(7)),
        Err(ErrorKind::NotFoundBucket)
    );
    let five = store
        .fetch(Shard(1), ReportTimestamp(5), ReportTimestamp(7))
        .unwrap();
    let six = store
        .fetch(Shard(1), ReportTimestamp(6), ReportTimestamp(7))
        .unwrap();
    assert_eq!(five, report(1).as_bytes().to_vec());
    assert_eq!(six, report(2).as_bytes().to_vec());
}

#[test]
fn a_future_bucket_can_be_fetched_and_is_then_sealed() {
    let mut store = Storage::new();
    store
        .submit(Shard(1), report(1), ReportTimestamp(9))
        .unwrap();
    assert!(store
        .fetch(Shard(1), ReportTimestamp(9), ReportTimestamp(3))
        .is_ok());
    assert_eq!(
        store.submit(Shard(1), report(2), ReportTimestamp(9)),
        Err(ErrorKind::ClockRewound)
    );
}

#[test]
fn submit_does_not_look_at_the_signature() {
    let mut store = Storage::new();
    assert_eq!(
        store.submit(Shard(1), forged(1), ReportTimestamp(9)),
        Ok(())
    );
}

#[test]
fn save_at_refuses_a_bad_signature_and_changes_nothing() {
    let mut store = Storage::new();
    let t = ReportTimestamp(9);
    assert_eq!(
        store.save_at(Shard(1), forged(1), t),
        Err(ErrorKind::InvalidSignature)
    );
    // Not even the shard was created.
    assert_eq!(
        store.fetch(Shard(1), t, ReportTimestamp(10)),
        Err(ErrorKind::NotFoundShard)
    );
    assert_eq!(store.save_at(Shard(1), report(1), t), Ok(()));
    assert_eq!(
        store.save_at(Shard(1), forged(2), t),
        Err(ErrorKind::InvalidSignature)
    );
    assert_eq!(
        store.fetch(Shard(1), t, ReportTimestamp(10)).unwrap(),
        report(1).as_bytes().to_vec()
    );
    assert_eq!(
        store.save_at(Shard(1), report(3), t),
        Err(ErrorKind::ClockRewound)
    );
}

#[test]
fn save_and_get_go_by_the_clock() {
    let mut store = Storage::new();
    let interval = 21600;
    let now = ReportTimestamp::now(interval).unwrap();
    assert_eq!(
        store.save(Shard(4), report(1), interval).unwrap(),
        "report saved"
    );
    assert_eq!(
        store.get(Shard(4), now, interval),
        Err(ErrorKind::EmbargoCurrent)
    );
    assert_eq!(
        store.get(Shard(4), ReportTimestamp(now.0 - 1), interval),
        Err(ErrorKind::NotFoundBucket)
    );
    assert_eq!(
        store.get(Shard(5), ReportTimestamp(now.0 - 1), interval),
        Err(ErrorKind::NotFoundShard)
    );
    assert_eq!(
        store.save(Shard(4), forged(1), interval),
        Err(ErrorKind::InvalidSignature)
    );
    // Seen from the next bucket the entry is fetched, and sealed.
    assert_eq!(
        store.fetch(Shard(4), now, ReportTimestamp(now.0 + 1)).unwrap(),
        report(1).as_bytes().to_vec()
    );
    assert_eq!(
        store.save(Shard(4), report(2), interval),
        Err(ErrorKind::ClockRewound)
    );
}

#[test]
fn seal_is_a_permutation() {
    let reports: Vec<SignedReport> = (1..=10).map(report).collect();
    let mut store = Storage::new();
    for r in &reports {
        store
            .submit(Shard(0), r.duplicate(), ReportTimestamp(1))
            .unwrap();
    }
    let bytes = store
        .fetch(Shard(0), ReportTimestamp(1), ReportTimestamp(2))
        .unwrap();
    assert_eq!(bytes.len(), reports.iter().map(|r| r.len()).sum::<usize>());
    assert_eq!(sorted_frames(&bytes), sorted(&reports));
}

#[test]
fn seal_keeps_repeated_reports() {
    let mut entry = StorageEntry::Open(vec![report(1), report(1), report(2)]);
    entry.seal();
    match &entry {
        StorageEntry::Sealed(bytes) => {
            assert_eq!(sorted_frames(bytes), sorted(&[report(1), report(1), report(2)]))
        }
        StorageEntry::Open(_) => panic!("the entry is still open"),
    }
}

#[test]
fn seal_is_idempotent() {
    let mut entry = StorageEntry::Open(vec![report(1), report(2), report(3)]);
    entry.seal();
    let first = match &entry {
        StorageEntry::Sealed(bytes) => bytes.clone(),
        StorageEntry::Open(_) => panic!("the entry is still open"),
    };
    entry.seal();
    match &entry {
        StorageEntry::Sealed(bytes) => assert_eq!(bytes, &first),
        StorageEntry::Open(_) => panic!("the entry is open again"),
    }
}

#[test]
fn sealing_an_empty_entry_gives_an_empty_batch() {
    let mut entry = StorageEntry::default();
    entry.seal();
    assert!(matches!(entry, StorageEntry::Sealed(ref bytes) if bytes.is_empty()));
}

#[test]
fn scenario_ordering_randomization() {
    let reports: Vec<SignedReport> = (1..=10).map(report).collect();
    let in_order: Vec<Vec<u8>> = reports.iter().map(|r| r.as_bytes().to_vec()).collect();
    let mut unchanged = 0;
    for _ in 0..1000 {
        let mut store = Storage::new();
        for r in &reports {
            store
                .submit(Shard(0), r.duplicate(), ReportTimestamp(1))
                .unwrap();
        }
        let bytes = store
            .fetch(Shard(0), ReportTimestamp(1), ReportTimestamp(2))
            .unwrap();
        let order: Vec<Vec<u8>> = read_batch(&bytes)
            .iter()
            .map(|r| r.as_bytes().to_vec())
            .collect();
        if order == in_order {
            unchanged += 1;
        }
    }
    // One in 10! seals keeps the order; two among a thousand would be a wonder.
    assert!(unchanged <= 1);
}

#[test]
fn every_order_of_three_reports_comes_up() {
    let reports: Vec<SignedReport> = (1..=3).map(report).collect();
    let mut seen: Vec<Vec<u8>> = Vec::new();
    for _ in 0..600 {
        let mut entry = StorageEntry::Open(reports.iter().map(|r| r.duplicate()).collect());
        entry.seal();
        if let StorageEntry::Sealed(bytes) = entry {
            if !seen.contains(&bytes) {
                seen.push(bytes);
            }
        }
    }
    assert_eq!(seen.len(), 6);
}
