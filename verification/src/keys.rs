//! The client's key schedule: a report authorization key, the contact key
//! ratchet derived from it, and the contact numbers the ratchet emits.
//!
//! The hash and signature primitives live in the `tcn` crate. Their results
//! are named here by uninterpreted functions; the ratchet itself is modelled
//! over those names, so that statements about whole key lineages can be proved.

use vstd::prelude::*;

verus! {

/// The public verification key that belongs to a 32-byte seed.
pub uninterp spec fn spec_verification_key(seed: Seq<u8>) -> Seq<u8>;

/// The key bytes at ratchet index 0, derived from the seed alone.
pub uninterp spec fn spec_root_bytes(seed: Seq<u8>) -> Seq<u8>;

/// One step of the ratchet hash: the key bytes that follow `tck_bytes`.
pub uninterp spec fn spec_ratchet_bytes(rvk: Seq<u8>, tck_bytes: Seq<u8>) -> Seq<u8>;

/// The 16-byte contact number of the key bytes at ratchet index `index`.
pub uninterp spec fn spec_contact_number(index: u16, tck_bytes: Seq<u8>) -> Seq<u8>;

/// Mathematical model of a contact key: its place in the lineage, the
/// verification key of the lineage, and the current ratchet state.
pub struct KeyModel {
    pub index: nat,
    pub rvk: Seq<u8>,
    pub bytes: Seq<u8>,
}

/// The key that follows `k` in its lineage.
pub open spec fn spec_ratchet(k: KeyModel) -> KeyModel {
    KeyModel { index: k.index + 1, rvk: k.rvk, bytes: spec_ratchet_bytes(k.rvk, k.bytes) }
}

/// The key reached from `k` by `n` ratchet steps.
pub open spec fn spec_ratchet_n(k: KeyModel, n: nat) -> KeyModel
    decreases n,
{
    if n == 0 {
        k
    } else {
        spec_ratchet(spec_ratchet_n(k, (n - 1) as nat))
    }
}

/// The key at index 0 of the lineage of `seed`. It never emits a contact number.
pub open spec fn spec_root_key(seed: Seq<u8>) -> KeyModel {
    KeyModel { index: 0, rvk: spec_verification_key(seed), bytes: spec_root_bytes(seed) }
}

/// The key at index `i` of the lineage of `seed`.
pub open spec fn spec_key_at(seed: Seq<u8>, i: nat) -> KeyModel {
    spec_ratchet_n(spec_root_key(seed), i)
}

/// The contact number a key emits.
pub open spec fn spec_tcn(k: KeyModel) -> Seq<u8> {
    spec_contact_number(k.index as u16, k.bytes)
}

/// A pseudorandom 128-bit value broadcast to nearby devices.
#[derive(Debug, Clone, Copy)]
pub struct TemporaryContactNumber(pub [u8; 16]);

impl View for TemporaryContactNumber {
    type V = Seq<u8>;

    open spec fn view(&self) -> Seq<u8> {
        self.0@
    }
}

/// A ratcheting key used to derive temporary contact numbers.
#[derive(Debug, Clone, Copy)]
pub struct TemporaryContactKey {
    index: u16,
    rvk: [u8; 32],
    tck_bytes: [u8; 32],
}

impl View for TemporaryContactKey {
    type V = KeyModel;

    closed spec fn view(&self) -> KeyModel {
        KeyModel { index: self.index as nat, rvk: self.rvk@, bytes: self.tck_bytes@ }
    }
}

/// Authorizes publication of a report about the contact numbers derived from it.
#[derive(Debug, Clone, Copy)]
pub struct ReportAuthorizationKey {
    seed: [u8; 32],
}

impl View for ReportAuthorizationKey {
    type V = Seq<u8>;

    closed spec fn view(&self) -> Seq<u8> {
        self.seed@
    }
}

/// Draws a seed with `tcn::ReportAuthorizationKey::new` from `rand::thread_rng`
/// and hands out its 32 bytes. Nothing is claimed of the bytes drawn.
#[verifier::external_body]
fn fresh_seed() -> (seed: [u8; 32]) {
    let rak = tcn::ReportAuthorizationKey::new(rand::thread_rng());
    let mut seed = [0u8; 32];
    rak.write(&mut seed[..]).expect("a seed is 32 bytes");
    seed
}

/// Calls `tcn::ReportAuthorizationKey::initial_temporary_contact_key`. The
/// contract claims what the source shows: the result is the root key of the
/// seed, ratcheted once, so its index is 1.
#[verifier::external_body]
fn first_key(seed: &[u8; 32]) -> (key: TemporaryContactKey)
    ensures
        key.index == 1,
        key.rvk@ == spec_verification_key(seed@),
        key.tck_bytes@ == spec_ratchet_bytes(spec_verification_key(seed@), spec_root_bytes(seed@)),
{
    let rak = tcn::ReportAuthorizationKey::read(&seed[..]).expect("a seed is 32 bytes");
    let tck = rak.initial_temporary_contact_key();
    let mut out = [0u8; 66];
    tck.write(&mut out[..]).expect("a contact key is 66 bytes");
    let mut key = TemporaryContactKey { index: tck.index(), rvk: [0u8; 32], tck_bytes: [0u8; 32] };
    key.rvk.copy_from_slice(&out[2..34]);
    key.tck_bytes.copy_from_slice(&out[34..66]);
    key
}

/// Calls `tcn::TemporaryContactKey::ratchet`. The contract claims what its
/// documentation says: no key follows index `u16::MAX`; below that the next
/// key has the next index, the same verification key, and the hashed bytes.
#[verifier::external_body]
fn next_key(key: &TemporaryContactKey) -> (next: Option<TemporaryContactKey>)
    ensures
        key.index == u16::MAX ==> next is None,
        key.index < u16::MAX ==> next is Some && next->0.index == key.index + 1
            && next->0.rvk@ == key.rvk@
            && next->0.tck_bytes@ == spec_ratchet_bytes(key.rvk@, key.tck_bytes@),
{
    let mut buf = [0u8; 66];
    buf[0..2].copy_from_slice(&key.index.to_le_bytes());
    buf[2..34].copy_from_slice(&key.rvk);
    buf[34..66].copy_from_slice(&key.tck_bytes);
    let tck = tcn::TemporaryContactKey::read(&buf[..]).expect("a contact key is 66 bytes");
    let tck = tck.ratchet()?;
    tck.write(&mut buf[..]).expect("a contact key is 66 bytes");
    let mut next = TemporaryContactKey { index: tck.index(), rvk: key.rvk, tck_bytes: key.tck_bytes };
    next.tck_bytes.copy_from_slice(&buf[34..66]);
    Some(next)
}

/// Calls `tcn::TemporaryContactKey::temporary_contact_number`, whose result
/// is a hash of the key's index and bytes.
#[verifier::external_body]
fn contact_number(key: &TemporaryContactKey) -> (tcn: TemporaryContactNumber)
    ensures
        tcn@ == spec_contact_number(key.index, key.tck_bytes@),
{
    let mut buf = [0u8; 66];
    buf[0..2].copy_from_slice(&key.index.to_le_bytes());
    buf[2..34].copy_from_slice(&key.rvk);
    buf[34..66].copy_from_slice(&key.tck_bytes);
    let tck = tcn::TemporaryContactKey::read(&buf[..]).expect("a contact key is 66 bytes");
    TemporaryContactNumber(tck.temporary_contact_number().0)
}

impl ReportAuthorizationKey {
    /// Draws a fresh key from the thread's cryptographic random number generator.
    pub fn new() -> (rak: ReportAuthorizationKey) {
        ReportAuthorizationKey { seed: fresh_seed() }
    }

    /// The key whose seed is `seed`.
    pub fn from_bytes(seed: [u8; 32]) -> (rak: ReportAuthorizationKey)
        ensures
            rak@ == seed@,
    {
        ReportAuthorizationKey { seed }
    }

    /// The seed of this key.
    pub fn to_bytes(&self) -> (seed: [u8; 32])
        ensures
            seed@ == self@,
    {
        self.seed
    }

    /// The first contact key of this key's lineage: the key at index 1.
    pub fn initial_temporary_contact_key(&self) -> (tck: TemporaryContactKey)
        ensures
            tck@ == spec_key_at(self@, 1),
    {
        let tck = first_key(&self.seed);
        proof {
            reveal_with_fuel(spec_ratchet_n, 2);
        }
        tck
    }
}

impl TemporaryContactKey {
    /// The current ratchet index.
    pub fn index(&self) -> (index: u16)
        ensures
            index == self@.index,
    {
        self.index
    }

    /// The verification key of the lineage this key belongs to.
    pub fn verification_key(&self) -> (rvk: [u8; 32])
        ensures
            rvk@ == self@.rvk,
    {
        self.rvk
    }

    /// The contact number derived from this key.
    pub fn temporary_contact_number(&self) -> (tcn: TemporaryContactNumber)
        ensures
            tcn@ == spec_tcn(self@),
    {
        contact_number(self)
    }

    /// Ratchets the key forward. There is a next key exactly when the index
    /// is below `u16::MAX`; past that the authorization key must be rotated.
    pub fn ratchet(self) -> (next: Option<TemporaryContactKey>)
        ensures
            next is Some <==> self@.index < u16::MAX,
            next is Some ==> next->0@ == spec_ratchet(self@),
    {
        next_key(&self)
    }
}

/// Every key of a lineage carries the lineage's verification key and its own index.
pub proof fn lemma_key_at(seed: Seq<u8>, i: nat)
    ensures
        spec_key_at(seed, i).index == i,
        spec_key_at(seed, i).rvk == spec_verification_key(seed),
    decreases i,
{
    if i > 0 {
        lemma_key_at(seed, (i - 1) as nat);
    }
}

/// Ratcheting `m` steps and then `n` steps is ratcheting `m + n` steps.
pub proof fn lemma_ratchet_n_add(k: KeyModel, m: nat, n: nat)
    ensures
        spec_ratchet_n(spec_ratchet_n(k, m), n) == spec_ratchet_n(k, m + n),
    decreases n,
{
    if n > 0 {
        lemma_ratchet_n_add(k, m, (n - 1) as nat);
    }
}

} // verus!
