//! The batch store: for every shard and every time bucket at most one
//! entry, which is open and collecting reports until the first fetch of the
//! bucket seals it, and read-only from then on.
//!
//! The store hands out nothing from the current bucket and never reopens a
//! sealed entry. Every operation takes the store by unique reference, so one
//! operation is done before the next begins.

use crate::batch::{law_codec_round_trip, spec_decode_batch, spec_frames, write_batch};
use crate::error::ErrorKind;
use crate::report::{spec_signature_valid, SignedReport};
use crate::shard::Shard;
use crate::timestamp::ReportTimestamp;
use std::collections::HashMap;
use vstd::prelude::*;
use vstd::slice::slice_to_vec;

verus! {

broadcast use vstd::std_specs::hash::group_hash_axioms;

/// Mathematical model of one entry of the store.
pub enum EntryModel {
    /// The frames of the reports submitted so far, in order of submission.
    Open(Seq<Seq<u8>>),
    /// The sealed batch.
    Sealed(Seq<u8>),
}

/// Mathematical model of the store: shard, then bucket, then entry.
pub type StoreModel = Map<u64, Map<u64, EntryModel>>;

/// The entry at `(shard, ts)`, if there is one.
pub open spec fn spec_entry(m: StoreModel, shard: u64, ts: u64) -> Option<EntryModel> {
    if m.contains_key(shard) && m[shard].contains_key(ts) {
        Some(m[shard][ts])
    } else {
        None
    }
}

/// The store with the entry at `(shard, ts)` set to `entry`.
pub open spec fn spec_put(m: StoreModel, shard: u64, ts: u64, entry: EntryModel) -> StoreModel {
    let buckets = if m.contains_key(shard) {
        m[shard]
    } else {
        Map::empty()
    };
    m.insert(shard, buckets.insert(ts, entry))
}

/// Whether `bytes` may be what sealing `frames` yields: a batch that
/// decodes to a rearrangement of `frames` and holds nothing else.
pub open spec fn spec_sealed_from(frames: Seq<Seq<u8>>, bytes: Seq<u8>) -> bool {
    &&& spec_decode_batch(bytes).to_multiset() == frames.to_multiset()
    &&& spec_decode_batch(bytes).flatten() == bytes
}

/// Submission: what the store is afterwards, and what the submitter is told.
/// A missing entry is created open; an open entry takes the report at its
/// end; a sealed entry refuses it and nothing changes.
pub open spec fn spec_submit(m: StoreModel, shard: u64, now: u64, frame: Seq<u8>) -> (
    StoreModel,
    Result<(), ErrorKind>,
) {
    match spec_entry(m, shard, now) {
        None => (spec_put(m, shard, now, EntryModel::Open(seq![frame])), Ok(())),
        Some(EntryModel::Open(frames)) => (
            spec_put(m, shard, now, EntryModel::Open(frames.push(frame))),
            Ok(()),
        ),
        Some(EntryModel::Sealed(_)) => (m, Err(ErrorKind::ClockRewound)),
    }
}

/// Fetch: which results the store may give for bucket `ts` of `shard` when
/// the current bucket is `now`. Only the order in which an open entry is
/// sealed is left open.
pub open spec fn spec_fetch_allows(
    m: StoreModel,
    shard: u64,
    ts: u64,
    now: u64,
    result: Result<Seq<u8>, ErrorKind>,
) -> bool {
    if ts == now {
        result == Err::<Seq<u8>, ErrorKind>(ErrorKind::EmbargoCurrent)
    } else if !m.contains_key(shard) {
        result == Err::<Seq<u8>, ErrorKind>(ErrorKind::NotFoundShard)
    } else if !m[shard].contains_key(ts) {
        result == Err::<Seq<u8>, ErrorKind>(ErrorKind::NotFoundBucket)
    } else {
        match m[shard][ts] {
            EntryModel::Sealed(bytes) => result == Ok::<Seq<u8>, ErrorKind>(bytes),
            EntryModel::Open(frames) => result is Ok && spec_sealed_from(frames, result->Ok_0),
        }
    }
}

/// Fetch: what the store is after giving `result` for `(shard, ts)`. A
/// successful fetch leaves the entry sealed with the bytes handed out; a
/// failed one changes nothing.
pub open spec fn spec_after_fetch(
    m: StoreModel,
    shard: u64,
    ts: u64,
    result: Result<Seq<u8>, ErrorKind>,
) -> StoreModel {
    match result {
        Ok(bytes) => spec_put(m, shard, ts, EntryModel::Sealed(bytes)),
        Err(_) => m,
    }
}

/// The result of a fetch, seen as a mathematical value.
pub open spec fn spec_fetched(result: Result<Vec<u8>, ErrorKind>) -> Result<Seq<u8>, ErrorKind> {
    match result {
        Ok(bytes) => Ok(bytes@),
        Err(kind) => Err(kind),
    }
}

/// Saving: verify, then submit. A report whose signature does not verify
/// is refused and nothing changes.
pub open spec fn spec_save(m: StoreModel, shard: u64, now: u64, frame: Seq<u8>) -> (
    StoreModel,
    Result<(), ErrorKind>,
) {
    if spec_signature_valid(frame) {
        spec_submit(m, shard, now, frame)
    } else {
        (m, Err(ErrorKind::InvalidSignature))
    }
}

/// One slot of the store.
#[derive(Debug)]
pub enum StorageEntry {
    /// The storage entry is accepting new reports.
    Open(Vec<SignedReport>),
    /// The storage entry is finalized, and contains a serialization of all
    /// reports for the time interval in random order.
    Sealed(Vec<u8>),
}

impl View for StorageEntry {
    type V = EntryModel;

    open spec fn view(&self) -> EntryModel {
        match self {
            StorageEntry::Open(reports) => EntryModel::Open(spec_frames(reports@)),
            StorageEntry::Sealed(bytes) => EntryModel::Sealed(bytes@),
        }
    }
}

/// The batch store.
pub struct Storage {
    map: HashMap<u64, HashMap<u64, StorageEntry>>,
}

/// The model of one shard's buckets.
pub open spec fn spec_buckets(buckets: HashMap<u64, StorageEntry>) -> Map<u64, EntryModel> {
    buckets@.map_values(|e: StorageEntry| e@)
}

impl View for Storage {
    type V = StoreModel;

    closed spec fn view(&self) -> StoreModel {
        self.map@.map_values(|b: HashMap<u64, StorageEntry>| spec_buckets(b))
    }
}

/// Calls `rand::seq::SliceRandom::shuffle` with `rand::rngs::OsRng`, which
/// shuffles a slice in place. The contract claims what holds of every
/// outcome: the same reports, each as often as before, in some order.
#[verifier::external_body]
fn shuffle_reports(reports: &mut Vec<SignedReport>)
    ensures
        spec_frames(final(reports)@).to_multiset() == spec_frames(old(reports)@).to_multiset(),
{
    rand::seq::SliceRandom::shuffle(&mut reports[..], &mut rand::rngs::OsRng);
}

impl Default for StorageEntry {
    fn default() -> (entry: StorageEntry)
        ensures
            entry@ == EntryModel::Open(Seq::<Seq<u8>>::empty()),
    {
        let entry = StorageEntry::Open(Vec::new());
        assert(spec_frames(Seq::<SignedReport>::empty()) =~= Seq::<Seq<u8>>::empty());
        entry
    }
}

impl StorageEntry {
    /// Seals the entry, if it is open: shuffles its reports and serializes
    /// them in the shuffled order. A sealed entry stays as it is.
    pub fn seal(&mut self)
        ensures
            match old(self)@ {
                EntryModel::Sealed(_) => final(self)@ == old(self)@,
                EntryModel::Open(frames) => final(self)@ is Sealed && spec_sealed_from(
                    frames,
                    final(self)@->Sealed_0,
                ),
            },
    {
        let bytes = match self {
            StorageEntry::Sealed(_) => {
                return ;
            },
            StorageEntry::Open(reports) => {
                shuffle_reports(reports);
                let bytes = write_batch(reports);
                proof {
                    law_codec_round_trip(spec_frames(reports@));
                }
                bytes
            },
        };
        *self = StorageEntry::Sealed(bytes);
    }
}

impl Storage {
    /// An empty store.
    pub fn new() -> (store: Storage)
        ensures
            store@ == Map::<u64, Map<u64, EntryModel>>::empty(),
    {
        let store = Storage { map: HashMap::new() };
        assert(store@ =~= Map::<u64, Map<u64, EntryModel>>::empty());
        store
    }

    /// Adds `report` to the entry of `shard` in the bucket `now`. The entry
    /// is created if it is missing. Fails with `ClockRewound`, and changes
    /// nothing, if the entry is sealed. The signature is not looked at.
    pub fn submit(&mut self, shard: Shard, report: SignedReport, now: ReportTimestamp) -> (result:
        Result<(), ErrorKind>)
        ensures
            (final(self)@, result) == spec_submit(old(self)@, shard@, now@, report@),
    {
        let mut buckets = match self.map.remove(&shard.0) {
            Some(buckets) => buckets,
            None => HashMap::new(),
        };
        let entry = match buckets.remove(&now.0) {
            Some(entry) => entry,
            None => StorageEntry::Open(Vec::new()),
        };
        let ghost frame = report@;
        let (entry, result) = match entry {
            StorageEntry::Open(mut reports) => {
                let ghost before = spec_frames(reports@);
                reports.push(report);
                assert(spec_frames(reports@) =~= before.push(frame));
                (StorageEntry::Open(reports), Ok(()))
            },
            StorageEntry::Sealed(bytes) => (
                StorageEntry::Sealed(bytes),
                Err(ErrorKind::ClockRewound),
            ),
        };
        buckets.insert(now.0, entry);
        self.map.insert(shard.0, buckets);
        proof {
            let pre = old(self)@;
            let expected = spec_submit(pre, shard@, now@, frame).0;
            assert(spec_frames(Seq::<SignedReport>::empty()).push(frame) =~= seq![frame]);
            assert(final(self)@.dom() =~= expected.dom());
            assert forall|s: u64| expected.contains_key(s) implies #[trigger] final(self)@[s]
                == expected[s] by {
                assert(final(self)@[s] =~= expected[s]);
            }
            assert(final(self)@ =~= expected);
        }
        result
    }

    /// Hands out the sealed batch of `shard` in bucket `ts`, sealing the
    /// entry first if this is the first fetch.
    ///
    /// Fails with `EmbargoCurrent` for the current bucket, whatever the
    /// store holds; with `NotFoundShard` if nothing was ever submitted to
    /// the shard; with `NotFoundBucket` if the shard has no entry for `ts`.
    /// A failed fetch changes nothing.
    pub fn fetch(&mut self, shard: Shard, ts: ReportTimestamp, now: ReportTimestamp) -> (result:
        Result<Vec<u8>, ErrorKind>)
        ensures
            spec_fetch_allows(old(self)@, shard@, ts@, now@, spec_fetched(result)),
            final(self)@ == spec_after_fetch(old(self)@, shard@, ts@, spec_fetched(result)),
    {
        if ts.0 == now.0 {
            return Err(ErrorKind::EmbargoCurrent);
        }
        let mut buckets = match self.map.remove(&shard.0) {
            Some(buckets) => buckets,
            None => {
                assert(final(self)@ =~= old(self)@);
                return Err(ErrorKind::NotFoundShard);
            },
        };
        let mut entry = match buckets.remove(&ts.0) {
            Some(entry) => entry,
            None => {
                assert(buckets@ =~= old(self).map@[shard.0]@);
                self.map.insert(shard.0, buckets);
                proof {
                    assert(spec_buckets(buckets) =~= old(self)@[shard.0]);
                    assert forall|s: u64| old(self)@.contains_key(s) implies #[trigger] self@[s]
                        == old(self)@[s] by {
                        assert(self@[s] =~= old(self)@[s]);
                    }
                    assert(self@ =~= old(self)@);
                }
                return Err(ErrorKind::NotFoundBucket);
            },
        };
        entry.seal();
        let result = match &entry {
            StorageEntry::Sealed(bytes) => Ok(slice_to_vec(bytes.as_slice())),
            StorageEntry::Open(_) => Err(ErrorKind::InternalBug),
        };
        buckets.insert(ts.0, entry);
        self.map.insert(shard.0, buckets);
        proof {
            let pre = old(self)@;
            let expected = spec_after_fetch(pre, shard@, ts@, spec_fetched(result));
            assert(final(self)@.dom() =~= expected.dom());
            assert forall|s: u64| expected.contains_key(s) implies #[trigger] final(self)@[s]
                == expected[s] by {
                assert(final(self)@[s] =~= expected[s]);
            }
            assert(final(self)@ =~= expected);
        }
        result
    }

    /// Verifies `report` and, if its signature holds, submits it to the
    /// bucket `now` of `shard`. Fails with `InvalidSignature` on a bad
    /// signature and with `ClockRewound` on a sealed entry; either way
    /// nothing changes.
    pub fn save_at(&mut self, shard: Shard, report: SignedReport, now: ReportTimestamp) -> (result:
        Result<(), ErrorKind>)
        ensures
            (final(self)@, result) == spec_save(old(self)@, shard@, now@, report@),
    {
        match report.duplicate().verify() {
            Ok(_) => self.submit(shard, report, now),
            Err(_) => Err(ErrorKind::InvalidSignature),
        }
    }

    /// Saves `report` in the bucket that is current by the system clock,
    /// as `save_at` does, and acknowledges with `"report saved"`. If the
    /// clock cannot be read the failure is `InternalBug` and nothing changes.
    pub fn save(&mut self, shard: Shard, report: SignedReport, seconds_per_batch: u64) -> (result:
        Result<String, ErrorKind>)
        requires
            seconds_per_batch > 0,
        ensures
            match result {
                Ok(message) => message@ == "report saved"@ && exists|now: u64|
                    spec_save(old(self)@, shard@, now, report@) == (
                        final(self)@,
                        Ok::<(), ErrorKind>(()),
                    ),
                Err(ErrorKind::InternalBug) => final(self)@ == old(self)@,
                Err(kind) => exists|now: u64|
                    spec_save(old(self)@, shard@, now, report@) == (
                        final(self)@,
                        Err::<(), ErrorKind>(kind),
                    ),
            },
    {
        let now = match ReportTimestamp::now(seconds_per_batch) {
            Ok(now) => now,
            Err(_) => {
                return Err(ErrorKind::InternalBug);
            },
        };
        let ghost frame = report@;
        match self.save_at(shard, report, now) {
            Ok(()) => {
                assert(spec_save(old(self)@, shard@, now@, frame) == (
                    final(self)@,
                    Ok::<(), ErrorKind>(()),
                ));
                Ok("report saved".to_owned())
            },
            Err(kind) => {
                assert(spec_save(old(self)@, shard@, now@, frame) == (
                    final(self)@,
                    Err::<(), ErrorKind>(kind),
                ));
                Err(kind)
            },
        }
    }

    /// Fetches bucket `timeframe` of `shard`, as `fetch` does, with the
    /// bucket that is current by the system clock as `now`. If the clock
    /// cannot be read the failure is `InternalBug` and nothing changes.
    pub fn get(&mut self, shard: Shard, timeframe: ReportTimestamp, seconds_per_batch: u64) -> (result:
        Result<Vec<u8>, ErrorKind>)
        requires
            seconds_per_batch > 0,
        ensures
            match result {
                Err(ErrorKind::InternalBug) => final(self)@ == old(self)@,
                _ => exists|now: u64|
                    spec_fetch_allows(old(self)@, shard@, timeframe@, now, spec_fetched(result))
                        && final(self)@ == spec_after_fetch(
                        old(self)@,
                        shard@,
                        timeframe@,
                        spec_fetched(result),
                    ),
            },
    {
        let now = match ReportTimestamp::now(seconds_per_batch) {
            Ok(now) => now,
            Err(_) => {
                return Err(ErrorKind::InternalBug);
            },
        };
        let result = self.fetch(shard, timeframe, now);
        assert(spec_fetch_allows(old(self)@, shard@, timeframe@, now@, spec_fetched(result)));
        result
    }
}

impl Default for Storage {
    fn default() -> (store: Storage)
        ensures
            store@ == Map::<u64, Map<u64, EntryModel>>::empty(),
    {
        Storage::new()
    }
}

/// One operation of the store: a submission, or a fetch with one of the
/// results it allows.
pub open spec fn spec_step(pre: StoreModel, post: StoreModel) -> bool {
    ||| exists|shard: u64, now: u64, frame: Seq<u8>|
        post == (#[trigger] spec_submit(pre, shard, now, frame)).0
    ||| exists|shard: u64, ts: u64, now: u64, result: Result<Seq<u8>, ErrorKind>|
        #![trigger spec_fetch_allows(pre, shard, ts, now, result)]
        spec_fetch_allows(pre, shard, ts, now, result) && post == spec_after_fetch(
            pre,
            shard,
            ts,
            result,
        )
}

/// A history of the store: each state comes from the one before by one operation.
pub open spec fn spec_history(states: Seq<StoreModel>) -> bool {
    forall|i: int| 0 <= i < states.len() - 1 ==> spec_step(#[trigger] states[i], states[i + 1])
}

/// Seal is a permutation. Whatever a fetch hands out for an open entry
/// decodes to the entry's reports, each as often as it was submitted, in
/// some order.
pub proof fn law_seal_is_permutation(
    m: StoreModel,
    shard: u64,
    ts: u64,
    now: u64,
    frames: Seq<Seq<u8>>,
    bytes: Seq<u8>,
)
    requires
        spec_entry(m, shard, ts) == Some(EntryModel::Open(frames)),
        spec_fetch_allows(m, shard, ts, now, Ok(bytes)),
    ensures
        spec_decode_batch(bytes).to_multiset() == frames.to_multiset(),
        spec_decode_batch(bytes).len() == frames.len(),
{
    broadcast use vstd::seq_lib::to_multiset_len;

    assert(spec_decode_batch(bytes).to_multiset().len() == spec_decode_batch(bytes).len());
    assert(frames.to_multiset().len() == frames.len());
}

/// A sealed entry is terminal: no operation changes it.
pub proof fn lemma_sealed_stays(
    pre: StoreModel,
    post: StoreModel,
    shard: u64,
    ts: u64,
    bytes: Seq<u8>,
)
    requires
        spec_step(pre, post),
        spec_entry(pre, shard, ts) == Some(EntryModel::Sealed(bytes)),
    ensures
        spec_entry(post, shard, ts) == Some(EntryModel::Sealed(bytes)),
{
}

/// The life of an entry. Through any operation an entry that exists goes
/// on existing; an open entry stays open, with the reports it had still at
/// its beginning, or is sealed into a rearrangement of exactly the reports
/// it had.
pub proof fn law_entry_lifecycle(
    pre: StoreModel,
    post: StoreModel,
    shard: u64,
    ts: u64,
    frames: Seq<Seq<u8>>,
)
    requires
        spec_step(pre, post),
        spec_entry(pre, shard, ts) == Some(EntryModel::Open(frames)),
    ensures
        match spec_entry(post, shard, ts) {
            Some(EntryModel::Open(later)) => frames.is_prefix_of(later),
            Some(EntryModel::Sealed(bytes)) => spec_sealed_from(frames, bytes),
            None => false,
        },
{
    if exists|s: u64, now: u64, frame: Seq<u8>|
        post == (#[trigger] spec_submit(pre, s, now, frame)).0 {
        let (s, now, frame) = choose|s: u64, now: u64, frame: Seq<u8>|
            post == (#[trigger] spec_submit(pre, s, now, frame)).0;
        if s == shard && now == ts {
            assert(frames.is_prefix_of(frames.push(frame)));
        }
    }
}

/// Seal terminality. After a successful fetch of a bucket, whatever
/// operations follow, every submission to that shard and bucket fails with
/// `ClockRewound` and changes nothing.
pub proof fn law_seal_terminality(
    states: Seq<StoreModel>,
    shard: u64,
    ts: u64,
    now: u64,
    bytes: Seq<u8>,
    i: int,
    frame: Seq<u8>,
)
    requires
        spec_history(states),
        states.len() >= 2,
        spec_fetch_allows(states[0], shard, ts, now, Ok(bytes)),
        states[1] == spec_after_fetch(states[0], shard, ts, Ok(bytes)),
        1 <= i < states.len(),
    ensures
        spec_entry(states[i], shard, ts) == Some(EntryModel::Sealed(bytes)),
        spec_submit(states[i], shard, ts, frame) == (
            states[i],
            Err::<(), ErrorKind>(ErrorKind::ClockRewound),
        ),
    decreases i,
{
    if i > 1 {
        law_seal_terminality(states, shard, ts, now, bytes, i - 1, frame);
        assert(spec_step(states[i - 1], states[i - 1 + 1]));
        lemma_sealed_stays(states[i - 1], states[i], shard, ts, bytes);
    }
}

/// Current-bucket embargo. A fetch of the current bucket fails with
/// `EmbargoCurrent`, whatever the store holds, and changes nothing.
pub proof fn law_current_bucket_embargo(
    m: StoreModel,
    shard: u64,
    now: u64,
    result: Result<Seq<u8>, ErrorKind>,
)
    requires
        spec_fetch_allows(m, shard, now, now, result),
    ensures
        result == Err::<Seq<u8>, ErrorKind>(ErrorKind::EmbargoCurrent),
        spec_after_fetch(m, shard, now, result) == m,
{
}

/// Shard isolation. A submission to shard `a` does not change what any
/// fetch from another shard `b` may return.
pub proof fn law_shard_isolation(
    m: StoreModel,
    a: u64,
    submitted_at: u64,
    frame: Seq<u8>,
    b: u64,
    ts: u64,
    now: u64,
    result: Result<Seq<u8>, ErrorKind>,
)
    requires
        a != b,
    ensures
        spec_fetch_allows(spec_submit(m, a, submitted_at, frame).0, b, ts, now, result)
            == spec_fetch_allows(m, b, ts, now, result),
{
}

/// Bucket isolation. A submission to bucket `b1` does not change which
/// bytes a fetch of another bucket `b2` may hand out, in any shard.
pub proof fn law_bucket_isolation(
    m: StoreModel,
    shard: u64,
    b1: u64,
    frame: Seq<u8>,
    fetched_shard: u64,
    b2: u64,
    now: u64,
    bytes: Seq<u8>,
)
    requires
        b1 != b2,
    ensures
        spec_fetch_allows(spec_submit(m, shard, b1, frame).0, fetched_shard, b2, now, Ok(bytes))
            == spec_fetch_allows(m, fetched_shard, b2, now, Ok(bytes)),
{
}

} // verus!
