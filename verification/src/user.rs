//! The reference client: per-user state and the decisions of one tick.
//!
//! A user ratchets its contact key, broadcasts contact numbers on its
//! current shard, hears some of the numbers others broadcast, moves between
//! shards now and then, matches fetched batches against what it heard, and
//! reports its recent keys when it falls ill. This module holds the state
//! and every decision; sending, receiving and waiting are the caller's.

use crate::batch::{read_batch, spec_decode_batch, spec_frames};
use crate::clock::UnixTime;
use crate::error::ErrorKind;
use crate::keys::{
    spec_key_at, spec_ratchet, spec_tcn, KeyModel, ReportAuthorizationKey, TemporaryContactKey,
    TemporaryContactNumber,
};
use crate::report::{
    lemma_report_discloses_lineage, spec_report_len, spec_report_tcn, spec_signature_valid,
    spec_signed_by, MemoType, SignedReport,
};
use std::collections::BTreeSet;
use vstd::bytes::{spec_u128_from_le_bytes, u128_from_le_bytes};
use vstd::prelude::*;
use vstd::slice::slice_to_vec;

verus! {

broadcast use vstd::std_specs::btree::group_btree_axioms;

/// A past authorization key with the shards it was used in.
#[derive(Debug)]
pub struct RakRecord {
    pub rak: ReportAuthorizationKey,
    pub shards: Vec<u64>,
}

/// Mathematical model of a `RakRecord`.
pub struct RecordModel {
    pub rak: Seq<u8>,
    pub shards: Seq<u64>,
}

impl View for RakRecord {
    type V = RecordModel;

    open spec fn view(&self) -> RecordModel {
        RecordModel { rak: self.rak@, shards: self.shards@ }
    }
}

/// Mathematical model of a user.
pub struct UserModel {
    /// The seed of the current authorization key.
    pub rak: Seq<u8>,
    /// The shards the current authorization key was used in.
    pub rak_shards: Seq<u64>,
    /// The current shard.
    pub shard: u64,
    /// The shards visited, oldest first.
    pub shard_hist: Seq<u64>,
    /// The past authorization keys, oldest first.
    pub raks: Seq<RecordModel>,
    /// The current contact key.
    pub tck: KeyModel,
    /// The contact numbers heard, each by its key.
    pub observed: Set<u128>,
}

/// The integer by which a contact number is kept and found again.
pub open spec fn spec_number_key(tcn: Seq<u8>) -> u128 {
    spec_u128_from_le_bytes(tcn)
}

/// A user that starts in `shard` with the authorization key `rak`.
pub open spec fn spec_new_user(shard: u64, rak: Seq<u8>) -> UserModel {
    UserModel {
        rak,
        rak_shards: seq![shard],
        shard,
        shard_hist: seq![shard],
        raks: Seq::empty(),
        tck: spec_key_at(rak, 1),
        observed: Set::empty(),
    }
}

/// Rotation: the current key joins the history with its shards, `next`
/// takes its place, used so far in the current shard only, and the contact
/// key starts over.
pub open spec fn spec_rotate(u: UserModel, next: Seq<u8>) -> UserModel {
    UserModel {
        rak: next,
        rak_shards: seq![u.shard],
        raks: u.raks.push(RecordModel { rak: u.rak, shards: u.rak_shards }),
        tck: spec_key_at(next, 1),
        ..u
    }
}

/// Broadcast: the contact key moves one step on.
pub open spec fn spec_broadcast(u: UserModel) -> UserModel {
    UserModel { tck: spec_ratchet(u.tck), ..u }
}

/// Hearing a contact number: it joins the observed set.
pub open spec fn spec_hear(u: UserModel, tcn: Seq<u8>) -> UserModel {
    UserModel { observed: u.observed.insert(spec_number_key(tcn)), ..u }
}

/// A set of shards, kept in the order of first entry, with `shard` in it.
pub open spec fn spec_record_shard(shards: Seq<u64>, shard: u64) -> Seq<u64> {
    if shards.contains(shard) {
        shards
    } else {
        shards.push(shard)
    }
}

/// Shard change: the shard left is recorded in the current key's set of
/// shards and at the end of the shard history, and `new_shard` becomes
/// current.
pub open spec fn spec_change_shard(u: UserModel, new_shard: u64) -> UserModel {
    UserModel {
        rak_shards: spec_record_shard(u.rak_shards, u.shard),
        shard_hist: u.shard_hist.push(u.shard),
        shard: new_shard,
        ..u
    }
}

/// The fetches due at the instant `now`, in nanoseconds since the epoch:
/// the bucket before the current one from every shard visited, in order;
/// none while the first bucket is still current.
pub open spec fn spec_fetch_plan(shard_hist: Seq<u64>, now: nat, server_batch_interval: u64) -> Seq<
    FetchRequest,
> {
    let current = (now / 1_000_000_000) / (server_batch_interval as nat);
    if current == 0 {
        Seq::empty()
    } else {
        Seq::new(
            shard_hist.len(),
            |i: int| FetchRequest { shard: shard_hist[i], bucket: (current - 1) as u64 },
        )
    }
}

/// The contact numbers a signed report discloses, in index order.
pub open spec fn spec_disclosed(frame: Seq<u8>) -> Seq<Seq<u8>> {
    let body = frame.take(frame.len() - 64);
    Seq::new(spec_report_len(body), |k: int| spec_report_tcn(body, k as nat))
}

/// The contact numbers a list of signed reports discloses: those of each
/// report whose signature verifies, in order; nothing from the others.
pub open spec fn spec_candidates(frames: Seq<Seq<u8>>) -> Seq<Seq<u8>>
    decreases frames.len(),
{
    if frames.len() == 0 {
        Seq::empty()
    } else {
        let earlier = spec_candidates(frames.drop_last());
        if spec_signature_valid(frames.last()) {
            earlier + spec_disclosed(frames.last())
        } else {
            earlier
        }
    }
}

/// What a receiver of broadcast contact numbers can come back with.
#[derive(Debug, Clone, Copy)]
pub enum Received {
    /// A contact number someone broadcast.
    Number(TemporaryContactNumber),
    /// The receiver fell behind and this many numbers were dropped.
    Lagged(u64),
    /// Every sender is gone.
    Closed,
    /// Nothing is waiting.
    Empty,
}

/// What to do after one receive.
#[derive(Debug, Clone, Copy, PartialEq, Eq, Structural)]
pub enum Observation {
    /// Receive again.
    Continue,
    /// Nothing more to process in this tick.
    Finished,
    /// The broadcast channel closed unexpectedly.
    Failed,
}

/// One fetch to make: the batch of `bucket` from `shard`.
#[derive(Debug, Clone, Copy, PartialEq, Eq, Structural)]
pub struct FetchRequest {
    pub shard: u64,
    pub bucket: u64,
}

/// What the answer to a fetch means.
#[derive(Debug, Clone, Copy, PartialEq, Eq, Structural)]
pub enum FetchReply {
    /// The server has nothing for this shard and bucket.
    NotFound,
    /// The body is a batch.
    Batch,
    /// A status the client does not know how to handle.
    Unexpected(u16),
}

/// One submission to make: `body` to `shard`.
#[derive(Debug)]
pub struct Submission {
    pub shard: u64,
    pub body: Vec<u8>,
}

/// The state of one user.
pub struct User {
    rak: ReportAuthorizationKey,
    rak_shards: Vec<u64>,
    shard: u64,
    shard_hist: Vec<u64>,
    raks: Vec<RakRecord>,
    tck: TemporaryContactKey,
    observed_tcns: BTreeSet<u128>,
}

impl View for User {
    type V = UserModel;

    closed spec fn view(&self) -> UserModel {
        UserModel {
            rak: self.rak@,
            rak_shards: self.rak_shards@,
            shard: self.shard,
            shard_hist: self.shard_hist@,
            raks: self.raks@.map_values(|r: RakRecord| r@),
            tck: self.tck@,
            observed: self.observed_tcns@,
        }
    }
}

/// Calls `rand::distributions::Uniform::new(0, num_shards)` and samples it
/// once with `rand::thread_rng`. The contract claims what holds of every
/// outcome: a value of the half-open range.
#[verifier::external_body]
fn draw_shard(num_shards: u64) -> (shard: u64)
    requires
        num_shards > 0,
    ensures
        shard < num_shards,
{
    let choices = rand::distributions::Uniform::new(0u64, num_shards);
    rand::distributions::Distribution::sample(&choices, &mut rand::thread_rng())
}

/// The records to report on: the last `n` records of `raks`, or all of
/// them if there are fewer, newest first.
pub open spec fn spec_selected(raks: Seq<RecordModel>, n: nat) -> Seq<RecordModel> {
    if n >= raks.len() {
        raks.reverse()
    } else {
        raks.reverse().take(n as int)
    }
}

/// The submissions planned for a list of records, as pairs of a record's
/// place in the list and a shard: record after record, and for each record
/// one submission to each of its shards, in order.
pub open spec fn spec_slots(records: Seq<RecordModel>) -> Seq<(int, u64)>
    decreases records.len(),
{
    if records.len() == 0 {
        Seq::empty()
    } else {
        let at = records.len() - 1;
        spec_slots(records.drop_last()) + Seq::new(
            records.last().shards.len(),
            |j: int| (at, records.last().shards[j]),
        )
    }
}

impl User {
    /// A user that starts in `shard_id` with the authorization key `rak`.
    pub fn with_rak(shard_id: u64, rak: ReportAuthorizationKey) -> (user: User)
        ensures
            user@ == spec_new_user(shard_id, rak@),
    {
        let tck = rak.initial_temporary_contact_key();
        let mut rak_shards: Vec<u64> = Vec::new();
        rak_shards.push(shard_id);
        let mut shard_hist: Vec<u64> = Vec::new();
        shard_hist.push(shard_id);
        let user = User {
            rak,
            rak_shards,
            shard: shard_id,
            shard_hist,
            raks: Vec::new(),
            tck,
            observed_tcns: BTreeSet::new(),
        };
        proof {
            assert(user@.rak_shards =~= seq![shard_id]);
            assert(user@.shard_hist =~= seq![shard_id]);
            assert(user@.raks =~= Seq::<RecordModel>::empty());
        }
        user
    }

    /// A user that starts in `shard_id` with a freshly drawn authorization key.
    pub fn init(shard_id: u64) -> (user: User)
        ensures
            user@ == spec_new_user(shard_id, user@.rak),
    {
        User::with_rak(shard_id, ReportAuthorizationKey::new())
    }

    /// The current shard.
    pub fn shard(&self) -> (shard: u64)
        ensures
            shard == self@.shard,
    {
        self.shard
    }

    /// The current authorization key.
    pub fn rak(&self) -> (rak: ReportAuthorizationKey)
        ensures
            rak@ == self@.rak,
    {
        self.rak
    }

    /// The current contact key.
    pub fn tck(&self) -> (tck: TemporaryContactKey)
        ensures
            tck@ == self@.tck,
    {
        self.tck
    }

    /// The shards visited, oldest first.
    pub fn shard_hist(&self) -> (shards: Vec<u64>)
        ensures
            shards@ == self@.shard_hist,
    {
        self.shard_hist.clone()
    }

    /// The shards the current authorization key was used in.
    pub fn rak_shards(&self) -> (shards: Vec<u64>)
        ensures
            shards@ == self@.rak_shards,
    {
        self.rak_shards.clone()
    }

    /// How many authorization keys have been rotated out.
    pub fn past_raks(&self) -> (count: usize)
        ensures
            count == self@.raks.len(),
    {
        self.raks.len()
    }

    /// Whether `tcn` is among the contact numbers heard.
    pub fn has_observed(&self, tcn: &TemporaryContactNumber) -> (observed: bool)
        ensures
            observed == self@.observed.contains(spec_number_key(tcn@)),
    {
        let key = u128_from_le_bytes(tcn.0.as_slice());
        self.observed_tcns.contains(&key)
    }

    /// Whether the contact key has run past `tcks_per_rak`, so that the
    /// authorization key is due for rotation.
    pub fn rotation_due(&self, tcks_per_rak: u16) -> (due: bool)
        ensures
            due == (self@.tck.index > tcks_per_rak),
    {
        self.tck.index() > tcks_per_rak
    }

    /// Rotates to the authorization key `next`.
    pub fn rotate_rak_to(&mut self, next: ReportAuthorizationKey)
        ensures
            final(self)@ == spec_rotate(old(self)@, next@),
    {
        let shards = self.rak_shards.clone();
        let ghost before = self.raks@.map_values(|r: RakRecord| r@);
        let record = RakRecord { rak: self.rak, shards };
        self.raks.push(record);
        assert(self.raks@.map_values(|r: RakRecord| r@) =~= before.push(record@));
        self.rak = next;
        let mut rak_shards: Vec<u64> = Vec::new();
        rak_shards.push(self.shard);
        assert(rak_shards@ =~= seq![self.shard]);
        self.rak_shards = rak_shards;
        self.tck = next.initial_temporary_contact_key();
    }

    /// Rotates to a freshly drawn authorization key.
    pub fn rotate_rak(&mut self)
        ensures
            final(self)@ == spec_rotate(old(self)@, final(self)@.rak),
    {
        self.rotate_rak_to(ReportAuthorizationKey::new());
    }

    /// The first step of a tick. If rotation is due, rotates to `next` and
    /// lets `report_draw`, the caller's draw of the report probability,
    /// decide whether to report this round; otherwise nothing changes and
    /// nothing is reported.
    pub fn begin_tick(
        &mut self,
        tcks_per_rak: u16,
        next: ReportAuthorizationKey,
        report_draw: bool,
    ) -> (should_report: bool)
        ensures
            old(self)@.tck.index > tcks_per_rak ==> final(self)@ == spec_rotate(old(self)@, next@)
                && should_report == report_draw,
            old(self)@.tck.index <= tcks_per_rak ==> final(self)@ == old(self)@ && !should_report,
    {
        if self.rotation_due(tcks_per_rak) {
            self.rotate_rak_to(next);
            report_draw
        } else {
            false
        }
    }

    /// Hands out the current contact number for broadcast and ratchets the
    /// contact key. At the last index there is no next key: nothing is
    /// handed out and nothing changes.
    pub fn broadcast(&mut self) -> (tcn: Option<TemporaryContactNumber>)
        ensures
            tcn is Some <==> old(self)@.tck.index < u16::MAX,
            tcn is Some ==> tcn->0@ == spec_tcn(old(self)@.tck) && final(self)@ == spec_broadcast(
                old(self)@,
            ),
            tcn is None ==> final(self)@ == old(self)@,
    {
        match self.tck.ratchet() {
            Some(next) => {
                let tcn = self.tck.temporary_contact_number();
                self.tck = next;
                Some(tcn)
            },
            None => None,
        }
    }

    /// Decides what one receive means. A number that was `heard` joins the
    /// observed set; a number not heard and a lag change nothing; all three
    /// ask for another receive. An empty channel ends the tick's
    /// observation, a closed one fails it.
    pub fn observe(&mut self, received: Received, heard: bool) -> (next: Observation)
        ensures
            match received {
                Received::Number(tcn) => next == Observation::Continue && final(self)@ == (if heard {
                    spec_hear(old(self)@, tcn@)
                } else {
                    old(self)@
                }),
                Received::Lagged(_) => next == Observation::Continue && final(self)@ == old(
                    self,
                )@,
                Received::Closed => next == Observation::Failed && final(self)@ == old(self)@,
                Received::Empty => next == Observation::Finished && final(self)@ == old(self)@,
            },
    {
        match received {
            Received::Number(tcn) => {
                if heard {
                    let key = u128_from_le_bytes(tcn.0.as_slice());
                    self.observed_tcns.insert(key);
                }
                Observation::Continue
            },
            Received::Lagged(_) => Observation::Continue,
            Received::Closed => Observation::Failed,
            Received::Empty => Observation::Finished,
        }
    }

    /// Moves to `new_shard`, recording the shard left.
    pub fn change_shard_to(&mut self, new_shard: u64)
        ensures
            final(self)@ == spec_change_shard(old(self)@, new_shard),
    {
        if !holds_shard(&self.rak_shards, self.shard) {
            self.rak_shards.push(self.shard);
        }
        self.shard_hist.push(self.shard);
        self.shard = new_shard;
    }

    /// If `change` is set, the caller's draw of the shard change
    /// probability, moves to a shard drawn uniformly from the `num_shards`
    /// shards and hands it out; otherwise nothing changes.
    pub fn change_shard(&mut self, num_shards: u64, change: bool) -> (moved_to: Option<u64>)
        requires
            num_shards > 0,
        ensures
            moved_to is Some <==> change,
            moved_to is Some ==> moved_to->0 < num_shards && final(self)@ == spec_change_shard(
                old(self)@,
                moved_to->0,
            ),
            moved_to is None ==> final(self)@ == old(self)@,
    {
        if change {
            let new_shard = draw_shard(num_shards);
            self.change_shard_to(new_shard);
            Some(new_shard)
        } else {
            None
        }
    }

    /// The fetches due at `now`: the previous bucket from every shard in
    /// the shard history, in order. There is none while the first bucket
    /// is still current.
    pub fn fetch_plan(&self, now: UnixTime, server_batch_interval: u64) -> (plan: Vec<
        FetchRequest,
    >)
        requires
            server_batch_interval > 0,
        ensures
            plan@ == spec_fetch_plan(self@.shard_hist, now@, server_batch_interval),
    {
        let batch_index = now.as_secs() / server_batch_interval;
        let mut plan: Vec<FetchRequest> = Vec::new();
        if batch_index == 0 {
            assert(plan@ =~= spec_fetch_plan(self@.shard_hist, now@, server_batch_interval));
            return plan;
        }
        let mut i: usize = 0;
        while i < self.shard_hist.len()
            invariant
                i <= self.shard_hist.len(),
                batch_index > 0,
                plan@.len() == i,
                forall|j: int|
                    0 <= j < i ==> plan@[j] == (FetchRequest {
                        shard: self.shard_hist@[j],
                        bucket: (batch_index - 1) as u64,
                    }),
            decreases self.shard_hist.len() - i,
        {
            plan.push(FetchRequest { shard: self.shard_hist[i], bucket: batch_index - 1 });
            i = i + 1;
        }
        assert(plan@ =~= spec_fetch_plan(self@.shard_hist, now@, server_batch_interval));
        plan
    }

    /// Matches a fetched batch against the contact numbers heard: reads the
    /// batch, verifies each report, expands those that verify, and hands
    /// out every disclosed number that was heard, once each.
    pub fn match_batch(&self, batch: &[u8]) -> (matches: Vec<TemporaryContactNumber>)
        ensures
            forall|i: int|
                0 <= i < matches@.len() ==> self@.observed.contains(
                    spec_number_key(#[trigger] matches@[i]@),
                ) && spec_candidates(spec_decode_batch(batch@)).contains(matches@[i]@),
            forall|i: int, j: int|
                0 <= i < j < matches@.len() ==> spec_number_key(matches@[i]@) != spec_number_key(
                    matches@[j]@,
                ),
            forall|tcn: Seq<u8>|
                #![trigger spec_number_key(tcn)]
                spec_candidates(spec_decode_batch(batch@)).contains(tcn)
                    && self@.observed.contains(spec_number_key(tcn)) ==> exists|i: int|
                    0 <= i < matches@.len() && spec_number_key(#[trigger] matches@[i]@)
                        == spec_number_key(tcn),
    {
        let reports = read_batch(batch);
        let ghost frames = spec_frames(reports@);
        let mut matches: Vec<TemporaryContactNumber> = Vec::new();
        let mut seen: BTreeSet<u128> = BTreeSet::new();
        let mut i: usize = 0;
        assert(frames.take(0) =~= Seq::<Seq<u8>>::empty());
        while i < reports.len()
            invariant
                i <= reports.len(),
                frames == spec_frames(reports@),
                spec_matched(self@.observed, spec_candidates(frames.take(i as int)), matches@, seen@),
            decreases reports.len() - i,
        {
            let ghost earlier = spec_candidates(frames.take(i as int));
            let ghost frame = frames[i as int];
            proof {
                assert(frames.take(i + 1).drop_last() =~= frames.take(i as int));
                assert(frames.take(i + 1).last() == frame);
            }
            match reports[i].duplicate().verify() {
                Ok(report) => {
                    let tcns = report.temporary_contact_numbers();
                    let ghost disclosed = spec_disclosed(frame);
                    assert(tcns@.len() == disclosed.len());
                    let mut k: usize = 0;
                    assert(earlier + disclosed.take(0) =~= earlier);
                    while k < tcns.len()
                        invariant
                            k <= tcns.len(),
                            tcns@.len() == disclosed.len(),
                            forall|n: int|
                                0 <= n < tcns@.len() ==> (#[trigger] tcns@[n])@ == disclosed[n],
                            spec_matched(
                                self@.observed,
                                earlier + disclosed.take(k as int),
                                matches@,
                                seen@,
                            ),
                        decreases tcns.len() - k,
                    {
                        let tcn = tcns[k];
                        let key = u128_from_le_bytes(tcn.0.as_slice());
                        let ghost before = earlier + disclosed.take(k as int);
                        let ghost after = earlier + disclosed.take(k + 1);
                        proof {
                            assert(after =~= before.push(tcn@));
                            assert(after.last() == tcn@);
                            assert forall|c: Seq<u8>| before.contains(c) implies after.contains(
                                c,
                            ) by {
                                let at = choose|at: int| 0 <= at < before.len() && before[at] == c;
                                assert(after[at] == c);
                            }
                        }
                        if self.observed_tcns.contains(&key) && !seen.contains(&key) {
                            let ghost old_matches = matches@;
                            seen.insert(key);
                            matches.push(tcn);
                            proof {
                                assert forall|n: int| 0 <= n < old_matches.len() implies matches@[n]
                                    == old_matches[n] by {}
                                assert(matches@[old_matches.len() as int] == tcn);
                            }
                        }
                        k = k + 1;
                    }
                    assert(disclosed.take(k as int) =~= disclosed);
                },
                Err(_) => {},
            }
            i = i + 1;
        }
        assert(frames.take(i as int) =~= frames);
        matches
    }

    /// Plans the reports of a user who fell ill: one signed report for each
    /// of the last `raks_to_report` authorization keys in the history,
    /// newest first, submitted with the same bytes to every shard that key
    /// was used in.
    ///
    /// Each report covers every index a key is broadcast at, 1 up to and
    /// including `tcks_per_rak`; the last index of the ratchet, `u16::MAX`,
    /// is beyond what any report can cover.
    ///
    /// Fails with `MemoTooLong`, the one error of report construction, when
    /// `tcks_per_rak` is 0 and there is no contact number to cover.
    pub fn plan_reports(&self, raks_to_report: u64, tcks_per_rak: u16) -> (result: Result<
        Vec<Submission>,
        ErrorKind,
    >)
        ensures
            result is Ok <==> tcks_per_rak >= 1,
            result is Err ==> result->Err_0 == ErrorKind::MemoTooLong,
            result is Ok ==> spec_planned(
                spec_selected(self@.raks, raks_to_report as nat),
                tcks_per_rak,
                result->Ok_0@,
            ),
    {
        if tcks_per_rak < 1 {
            return Err(ErrorKind::MemoTooLong);
        }
        let end: u16 = if tcks_per_rak < u16::MAX {
            tcks_per_rak + 1
        } else {
            u16::MAX
        };
        let mut plan: Vec<Submission> = Vec::new();
        let total = self.raks.len();
        let count: usize = if raks_to_report < total as u64 {
            raks_to_report as usize
        } else {
            total
        };
        let ghost history = self@.raks;
        let ghost selected = spec_selected(history, raks_to_report as nat);
        assert(selected.len() == count);
        assert(selected.take(0) =~= Seq::<RecordModel>::empty());
        let mut i: usize = 0;
        while i < count
            invariant
                i <= count <= total,
                total == self.raks.len(),
                history == self@.raks,
                selected == spec_selected(history, raks_to_report as nat),
                selected.len() == count,
                tcks_per_rak >= 1,
                end == spec_report_end(tcks_per_rak),
                spec_planned(selected.take(i as int), tcks_per_rak, plan@),
            decreases count - i,
        {
            let record = &self.raks[total - 1 - i];
            let ghost done = selected.take(i as int);
            let ghost now = selected.take(i + 1);
            proof {
                assert(selected[i as int] == history[total - 1 - i]);
                assert(history[total - 1 - i] == record@);
                assert(now.drop_last() =~= done);
                assert(now.last() == record@);
            }
            let report = match record.rak.create_report(
                MemoType::CoEpiV1,
                Vec::new(),
                1,
                end,
            ) {
                Ok(report) => report,
                Err(kind) => {
                    return Err(kind);
                },
            };
            let ghost start = plan@;
            let ghost base = spec_slots(done);
            let mut j: usize = 0;
            assert(base + Seq::new(0, |n: int| (i as int, record@.shards[n])) =~= base);
            while j < record.shards.len()
                invariant
                    j <= record.shards.len(),
                    i < count,
                    now.len() == i + 1,
                    now.last() == record@,
                    now.drop_last() == done,
                    base == spec_slots(done),
                    spec_planned(done, tcks_per_rak, start),
                    spec_signed_by(
                        report@,
                        record@.rak,
                        MemoType::CoEpiV1,
                        Seq::<u8>::empty(),
                        1,
                        spec_report_end(tcks_per_rak),
                    ),
                    spec_signature_valid(report@),
                    plan@.len() == start.len() + j,
                    forall|n: int| 0 <= n < start.len() ==> plan@[n] == start[n],
                    forall|n: int|
                        start.len() <= n < plan@.len() ==> (#[trigger] plan@[n]).shard
                            == record@.shards[n - start.len()] && plan@[n].body@ == report@,
                decreases record.shards.len() - j,
            {
                plan.push(
                    Submission { shard: record.shards[j], body: slice_to_vec(report.as_bytes()) },
                );
                j = j + 1;
            }
            proof {
                let slots = spec_slots(now);
                assert(slots == base + Seq::new(
                    record@.shards.len(),
                    |n: int| (i as int, record@.shards[n]),
                ));
                assert(plan@.len() == slots.len());
                assert forall|n: int| 0 <= n < plan@.len() implies spec_planned_at(
                    now,
                    tcks_per_rak,
                    plan@,
                    n,
                ) by {
                    if n < start.len() {
                        assert(spec_planned_at(done, tcks_per_rak, start, n));
                        assert(slots[n] == base[n]);
                        assert(now[slots[n].0] == done[slots[n].0]);
                    } else {
                        assert(slots[n] == (i as int, record@.shards[n - start.len()]));
                    }
                }
                assert forall|n: int, m: int|
                    0 <= n < plan@.len() && 0 <= m < plan@.len() && slots[n].0
                        == slots[m].0 implies (#[trigger] plan@[n]).body@ == (
                #[trigger] plan@[m]).body@ by {
                    // A slot of an earlier record names that record; a new
                    // slot names this one; so both are old or both are new.
                    if n < start.len() {
                        assert(spec_planned_at(done, tcks_per_rak, start, n));
                        assert(slots[n] == base[n]);
                    } else {
                        assert(slots[n] == (i as int, record@.shards[n - start.len()]));
                    }
                    if m < start.len() {
                        assert(spec_planned_at(done, tcks_per_rak, start, m));
                        assert(slots[m] == base[m]);
                    } else {
                        assert(slots[m] == (i as int, record@.shards[m - start.len()]));
                    }
                    if n < start.len() && m < start.len() {
                        assert(start[n].body@ == start[m].body@);
                    }
                }
            }
            i = i + 1;
        }
        assert(selected.take(i as int) =~= selected);
        Ok(plan)
    }
}

/// Whether `matches`, kept apart by the keys in `seen`, are exactly the
/// observed ones among `candidates`, once each.
pub open spec fn spec_matched(
    observed: Set<u128>,
    candidates: Seq<Seq<u8>>,
    matches: Seq<TemporaryContactNumber>,
    seen: Set<u128>,
) -> bool {
    &&& forall|i: int|
        0 <= i < matches.len() ==> observed.contains(spec_number_key(#[trigger] matches[i]@))
            && candidates.contains(matches[i]@) && seen.contains(spec_number_key(matches[i]@))
    &&& forall|i: int, j: int|
        0 <= i < j < matches.len() ==> spec_number_key(matches[i]@) != spec_number_key(
            matches[j]@,
        )
    &&& forall|key: u128| #[trigger]
        seen.contains(key) ==> exists|i: int|
            0 <= i < matches.len() && spec_number_key(#[trigger] matches[i]@) == key
    &&& forall|tcn: Seq<u8>|
        #![trigger spec_number_key(tcn)]
        candidates.contains(tcn) && observed.contains(spec_number_key(tcn)) ==> seen.contains(
            spec_number_key(tcn),
        )
}

/// The index at which a report on a key ends (exclusive), so that it covers
/// every index the key is broadcast at, 1 up to and including
/// `tcks_per_rak`. No report can end beyond `u16::MAX`.
pub open spec fn spec_report_end(tcks_per_rak: u16) -> u16 {
    if tcks_per_rak < u16::MAX {
        (tcks_per_rak + 1) as u16
    } else {
        u16::MAX
    }
}

/// Whether the `n`-th submission of `plan` is what the `n`-th slot of
/// `records` asks for: it goes to the slot's shard and carries a report,
/// signed with the slot's key, over the indices from 1 up to
/// `spec_report_end(tcks_per_rak)`, with an empty memo.
pub open spec fn spec_planned_at(
    records: Seq<RecordModel>,
    tcks_per_rak: u16,
    plan: Seq<Submission>,
    n: int,
) -> bool {
    let slot = spec_slots(records)[n];
    &&& 0 <= slot.0 < records.len()
    &&& plan[n].shard == slot.1
    &&& spec_signed_by(
        plan[n].body@,
        records[slot.0].rak,
        MemoType::CoEpiV1,
        Seq::<u8>::empty(),
        1,
        spec_report_end(tcks_per_rak),
    )
    &&& spec_signature_valid(plan[n].body@)
}

/// Whether `plan` is a plan of reports for `records`: one submission for
/// each slot, in order, and the same bytes in all submissions of one record.
pub open spec fn spec_planned(records: Seq<RecordModel>, tcks_per_rak: u16, plan: Seq<Submission>) -> bool {
    &&& plan.len() == spec_slots(records).len()
    &&& forall|n: int| 0 <= n < plan.len() ==> spec_planned_at(records, tcks_per_rak, plan, n)
    &&& forall|n: int, m: int|
        0 <= n < plan.len() && 0 <= m < plan.len() && spec_slots(records)[n].0 == spec_slots(
            records,
        )[m].0 ==> (#[trigger] plan[n]).body@ == (#[trigger] plan[m]).body@
}

/// A planned report covers every broadcast. Let `frame` be the report
/// planned for the key `seed` under `tcks_per_rak` keys per authorization
/// key, fewer than the ratchet has indices. The key is broadcast at the
/// indices 1 up to and including `tcks_per_rak`; the report discloses
/// exactly as many contact numbers, and its `k`-th is the number of the
/// lineage's key at index `1 + k`.
pub proof fn law_planned_report_covers_broadcasts(
    frame: Seq<u8>,
    seed: Seq<u8>,
    tcks_per_rak: u16,
    k: nat,
)
    requires
        1 <= tcks_per_rak < u16::MAX,
        spec_signed_by(
            frame,
            seed,
            MemoType::CoEpiV1,
            Seq::<u8>::empty(),
            1,
            spec_report_end(tcks_per_rak),
        ),
        k < tcks_per_rak,
    ensures
        spec_report_len(frame.take(frame.len() - 64)) == tcks_per_rak,
        spec_disclosed(frame).len() == tcks_per_rak,
        spec_disclosed(frame)[k as int] == spec_tcn(spec_key_at(seed, 1 + k)),
{
    let body = frame.take(frame.len() - 64);
    assert(body[64] == frame[64]);
    assert(body[65] == frame[65]);
    assert(body[66] == frame[66]);
    assert(body[67] == frame[67]);
    lemma_report_discloses_lineage(
        frame,
        seed,
        MemoType::CoEpiV1,
        Seq::<u8>::empty(),
        1,
        spec_report_end(tcks_per_rak),
        k,
    );
}

/// Whether `shard` is among `shards`.
fn holds_shard(shards: &Vec<u64>, shard: u64) -> (found: bool)
    ensures
        found == shards@.contains(shard),
{
    let mut i: usize = 0;
    while i < shards.len()
        invariant
            i <= shards.len(),
            forall|j: int| 0 <= j < i ==> shards@[j] != shard,
        decreases shards.len() - i,
    {
        if shards[i] == shard {
            return true;
        }
        i = i + 1;
    }
    false
}

/// A set of shards stays a set when a shard is recorded in it.
pub proof fn lemma_record_shard_keeps_set(shards: Seq<u64>, shard: u64)
    requires
        shards.no_duplicates(),
    ensures
        spec_record_shard(shards, shard).no_duplicates(),
        spec_record_shard(shards, shard).contains(shard),
        forall|other: u64| shards.contains(other) ==> spec_record_shard(shards, shard).contains(other),
{
    let after = spec_record_shard(shards, shard);
    if !shards.contains(shard) {
        assert(after[shards.len() as int] == shard);
        assert forall|other: u64| shards.contains(other) implies after.contains(other) by {
            let at = choose|at: int| 0 <= at < shards.len() && shards[at] == other;
            assert(after[at] == other);
        }
    }
}

/// Tells what the answer to a fetch means by its status: 404 is an empty
/// record, 200 announces a batch, anything else is unexpected.
pub fn classify_status(status: u16) -> (reply: FetchReply)
    ensures
        reply == (if status == 404 {
            FetchReply::NotFound
        } else if status == 200 {
            FetchReply::Batch
        } else {
            FetchReply::Unexpected(status)
        }),
{
    if status == 404 {
        FetchReply::NotFound
    } else if status == 200 {
        FetchReply::Batch
    } else {
        FetchReply::Unexpected(status)
    }
}

} // verus!
