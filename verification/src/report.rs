//! Signed reports: their wire framing, construction, verification and the
//! contact numbers they disclose.
//!
//! A report travels as one frame of bytes:
//!
//! ```text
//! rvk (32) | tck_bytes (32) | j_1 (2, LE) | j_2 (2, LE) | memo type (1) | memo length (1) | memo | signature (64)
//! ```
//!
//! Everything before the signature is the report body. The library holds a
//! report as exactly these bytes; the `tcn` crate reads, signs and checks them.

use crate::error::{ErrorKind, ReadError};
use crate::keys::{
    lemma_key_at, lemma_ratchet_n_add, spec_key_at, spec_ratchet_n, spec_root_key, spec_tcn,
    spec_verification_key, KeyModel, ReportAuthorizationKey, TemporaryContactNumber,
};
use vstd::prelude::*;
use vstd::slice::{slice_subrange, slice_to_vec};

verus! {

/// Bytes of a report body before the memo.
pub const BODY_HEADER_LEN: usize = 70;

/// Bytes of a signature.
pub const SIGNATURE_LEN: usize = 64;

/// The longest memo a report can carry.
pub const MAX_MEMO_LEN: usize = 255;

/// Describes the intended type of the contents of a memo field.
#[derive(Debug, Clone, Copy, PartialEq, Eq, Hash, Structural)]
pub enum MemoType {
    /// The CoEpi symptom self-report format, version 1.
    CoEpiV1,
    /// The CovidWatch test data format, version 1.
    CovidWatchV1,
}

/// The byte that stands for a memo type on the wire.
pub open spec fn spec_memo_type_byte(memo_type: MemoType) -> u8 {
    match memo_type {
        MemoType::CoEpiV1 => 0,
        MemoType::CovidWatchV1 => 1,
    }
}

/// The value of two bytes read as a little-endian `u16`.
pub open spec fn spec_u16_le(lo: u8, hi: u8) -> nat {
    lo as nat + 256 * (hi as nat)
}

/// The verification key a report body carries.
pub open spec fn spec_rvk(body: Seq<u8>) -> Seq<u8> {
    body.subrange(0, 32)
}

/// The ratchet state a report body carries: the key bytes at index `j_1 - 1`.
pub open spec fn spec_tck_bytes(body: Seq<u8>) -> Seq<u8> {
    body.subrange(32, 64)
}

/// The index of the first contact number a report body discloses.
pub open spec fn spec_j1(body: Seq<u8>) -> nat {
    spec_u16_le(body[64], body[65])
}

/// The index at which a report body's disclosure ends (exclusive).
pub open spec fn spec_j2(body: Seq<u8>) -> nat {
    spec_u16_le(body[66], body[67])
}

/// The memo a report body carries.
pub open spec fn spec_memo(body: Seq<u8>) -> Seq<u8> {
    body.subrange(70, 70 + body[69] as int)
}

/// Whether `body` is a well-formed report body: the header, a known memo
/// type, a first index of at least 1, and exactly the memo announced.
pub open spec fn spec_is_body(body: Seq<u8>) -> bool {
    &&& body.len() >= 70
    &&& body.len() == 70 + body[69]
    &&& (body[68] == 0 || body[68] == 1)
    &&& spec_j1(body) > 0
}

/// Whether `frame` is a well-formed signed report: a body and 64 more bytes.
pub open spec fn spec_is_frame(frame: Seq<u8>) -> bool {
    &&& frame.len() >= 134
    &&& spec_is_body(frame.take(frame.len() - 64))
}

/// The length of the frame that `source` announces, if all of it is there.
pub open spec fn spec_frame_extent(source: Seq<u8>) -> Option<nat> {
    if source.len() >= 70 && source.len() >= 134 + source[69] {
        Some((134 + source[69]) as nat)
    } else {
        None
    }
}

/// The signed report that `source` begins with, if it begins with one.
pub open spec fn spec_first_frame(source: Seq<u8>) -> Option<Seq<u8>> {
    match spec_frame_extent(source) {
        Some(n) => if spec_is_frame(source.take(n as int)) {
            Some(source.take(n as int))
        } else {
            None
        },
        None => None,
    }
}

/// The key a report body starts from: the key at index `j_1 - 1`.
pub open spec fn spec_report_start(body: Seq<u8>) -> KeyModel {
    KeyModel {
        index: (spec_j1(body) - 1) as nat,
        rvk: spec_rvk(body),
        bytes: spec_tck_bytes(body),
    }
}

/// How many contact numbers a report body discloses.
pub open spec fn spec_report_len(body: Seq<u8>) -> nat {
    if spec_j2(body) >= spec_j1(body) {
        (spec_j2(body) - spec_j1(body)) as nat
    } else {
        0
    }
}

/// The `k`-th contact number a report body discloses, counting from 0: the
/// number of the key at index `j_1 + k`.
pub open spec fn spec_report_tcn(body: Seq<u8>, k: nat) -> Seq<u8> {
    spec_tcn(spec_ratchet_n(spec_report_start(body), k + 1))
}

/// Whether the signature at the end of a frame verifies, under the key at
/// the frame's beginning, over the body in between.
pub uninterp spec fn spec_signature_valid(frame: Seq<u8>) -> bool;

/// Whether `frame` is what signing `seed`'s report over `[j_1, j_2)` may
/// produce: the body is fixed by the arguments, the signature is whatever
/// the signer chose.
pub open spec fn spec_signed_by(
    frame: Seq<u8>,
    seed: Seq<u8>,
    memo_type: MemoType,
    memo: Seq<u8>,
    j_1: u16,
    j_2: u16,
) -> bool {
    &&& frame.len() == 134 + memo.len()
    &&& spec_rvk(frame) == spec_verification_key(seed)
    &&& spec_tck_bytes(frame) == spec_key_at(seed, (j_1 - 1) as nat).bytes
    &&& spec_j1(frame) == j_1
    &&& spec_j2(frame) == j_2
    &&& frame[68] == spec_memo_type_byte(memo_type)
    &&& frame[69] == memo.len()
    &&& spec_memo(frame) == memo
}

/// A report of potential exposure whose source integrity has been checked.
#[derive(Debug)]
pub struct Report {
    bytes: Vec<u8>,
}

/// A signed exposure report, whose source integrity can be verified to
/// produce a `Report`.
#[derive(Debug)]
pub struct SignedReport {
    bytes: Vec<u8>,
}

impl View for Report {
    type V = Seq<u8>;

    closed spec fn view(&self) -> Seq<u8> {
        self.bytes@
    }
}

impl View for SignedReport {
    type V = Seq<u8>;

    closed spec fn view(&self) -> Seq<u8> {
        self.bytes@
    }
}

/// Calls `tcn::ReportAuthorizationKey::create_report` and writes the result
/// out with `tcn::SignedReport::write`. The contract claims what the source
/// shows: the call fails exactly on a memo of more than 255 bytes, an index
/// of 0 is taken as 1, the body holds the key bytes at the index before the
/// first, and the signature made verifies.
#[verifier::external_body]
fn sign_report(
    seed: &[u8; 32],
    memo_type: MemoType,
    memo_data: Vec<u8>,
    j_1: u16,
    j_2: u16,
) -> (frame: Option<Vec<u8>>)
    ensures
        frame is Some <==> memo_data@.len() <= 255,
        frame is Some ==> spec_signed_by(
            frame->0@,
            seed@,
            memo_type,
            memo_data@,
            if j_1 == 0 { 1u16 } else { j_1 },
            j_2,
        ) && spec_signature_valid(frame->0@),
{
    let rak = tcn::ReportAuthorizationKey::read(&seed[..]).ok()?;
    let kind = match memo_type {
        MemoType::CoEpiV1 => tcn::MemoType::CoEpiV1,
        MemoType::CovidWatchV1 => tcn::MemoType::CovidWatchV1,
    };
    let signed = rak.create_report(kind, memo_data, j_1, j_2).ok()?;
    let mut frame = Vec::new();
    signed.write(&mut frame).ok()?;
    Some(frame)
}

/// Calls `tcn::SignedReport::read` on a byte slice and writes the report
/// read back out. The contract claims what the source shows: reading
/// succeeds exactly when the slice begins with a complete frame of a known
/// memo type and a first index above 0, and it consumes exactly that frame.
#[verifier::external_body]
fn read_frame(source: &[u8]) -> (frame: Option<Vec<u8>>)
    ensures
        match frame {
            Some(bytes) => spec_first_frame(source@) == Some(bytes@),
            None => spec_first_frame(source@) is None,
        },
{
    let signed = tcn::SignedReport::read(source).ok()?;
    let mut frame = Vec::new();
    signed.write(&mut frame).ok()?;
    Some(frame)
}

/// Calls `tcn::SignedReport::verify` on the report that `frame` encodes and
/// says whether it succeeded.
#[verifier::external_body]
fn check_signature(frame: &[u8]) -> (valid: bool)
    requires
        spec_is_frame(frame@),
    ensures
        valid == spec_signature_valid(frame@),
{
    match tcn::SignedReport::read(frame) {
        Ok(signed) => signed.verify().is_ok(),
        Err(_) => false,
    }
}

/// Calls `tcn::Report::temporary_contact_numbers` on the report that `body`
/// encodes and collects what it yields. The contract claims what the source
/// shows: one number for each index from `j_1` up to, not including, `j_2`,
/// each the number of the key reached by ratcheting from the body's state.
#[verifier::external_body]
fn expand_body(body: &[u8]) -> (tcns: Vec<TemporaryContactNumber>)
    requires
        spec_is_body(body@),
    ensures
        tcns@.len() == spec_report_len(body@),
        forall|k: int|
            0 <= k < tcns@.len() ==> (#[trigger] tcns@[k])@ == spec_report_tcn(body@, k as nat),
{
    let report = tcn::Report::read(body).expect("the body is well formed");
    report.temporary_contact_numbers().map(|tcn| TemporaryContactNumber(tcn.0)).collect()
}

impl MemoType {
    /// The byte that stands for this memo type on the wire.
    pub fn to_byte(&self) -> (byte: u8)
        ensures
            byte == spec_memo_type_byte(*self),
    {
        match self {
            MemoType::CoEpiV1 => 0,
            MemoType::CovidWatchV1 => 1,
        }
    }
}

impl ReportAuthorizationKey {
    /// Creates a signed report that discloses the contact numbers at the
    /// indices `[j_1, j_2)`, with a memo of at most 255 bytes.
    ///
    /// The report is made exactly when `1 <= j_1 < j_2` and the memo is
    /// short enough; every other input is refused with `MemoTooLong`, the
    /// one error of report construction.
    pub fn create_report(
        &self,
        memo_type: MemoType,
        memo_data: Vec<u8>,
        j_1: u16,
        j_2: u16,
    ) -> (result: Result<SignedReport, ErrorKind>)
        ensures
            result is Ok <==> 1 <= j_1 < j_2 && memo_data@.len() <= 255,
            result is Err ==> result->Err_0 == ErrorKind::MemoTooLong,
            result is Ok ==> spec_signed_by(
                result->Ok_0@,
                self@,
                memo_type,
                memo_data@,
                j_1,
                j_2,
            ) && spec_signature_valid(result->Ok_0@) && spec_is_frame(result->Ok_0@),
    {
        if j_1 == 0 || j_1 >= j_2 || memo_data.len() > MAX_MEMO_LEN {
            return Err(ErrorKind::MemoTooLong);
        }
        let seed = self.to_bytes();
        match sign_report(&seed, memo_type, memo_data, j_1, j_2) {
            Some(bytes) => {
                proof {
                    lemma_signed_is_frame(bytes@, self@, memo_type, memo_data@, j_1, j_2);
                }
                Ok(SignedReport { bytes })
            },
            None => Err(ErrorKind::MemoTooLong),
        }
    }
}

impl Report {
    #[verifier::type_invariant]
    spec fn well_formed(self) -> bool {
        spec_is_body(self.bytes@)
    }

    /// The report body as it travels, without a signature.
    pub fn as_bytes(&self) -> (bytes: &[u8])
        ensures
            bytes@ == self@,
            spec_is_body(self@),
    {
        proof {
            use_type_invariant(self);
        }
        self.bytes.as_slice()
    }

    /// The type of the memo field.
    pub fn memo_type(&self) -> (memo_type: MemoType)
        ensures
            spec_memo_type_byte(memo_type) == self@[68],
    {
        proof {
            use_type_invariant(self);
        }
        if self.bytes[68] == 0 {
            MemoType::CoEpiV1
        } else {
            MemoType::CovidWatchV1
        }
    }

    /// The memo data.
    pub fn memo_data(&self) -> (memo: Vec<u8>)
        ensures
            memo@ == spec_memo(self@),
    {
        proof {
            use_type_invariant(self);
        }
        let len = self.bytes.len();
        slice_to_vec(slice_subrange(self.bytes.as_slice(), BODY_HEADER_LEN, len))
    }

    /// The index of the first contact number the report discloses.
    pub fn j_1(&self) -> (j_1: u16)
        ensures
            j_1 == spec_j1(self@),
            j_1 >= 1,
    {
        proof {
            use_type_invariant(self);
        }
        let lo: u16 = self.bytes[64] as u16;
        let hi: u16 = self.bytes[65] as u16;
        lo + 256 * hi
    }

    /// The index at which the report's disclosure ends (exclusive).
    pub fn j_2(&self) -> (j_2: u16)
        ensures
            j_2 == spec_j2(self@),
    {
        proof {
            use_type_invariant(self);
        }
        let lo: u16 = self.bytes[66] as u16;
        let hi: u16 = self.bytes[67] as u16;
        lo + 256 * hi
    }

    /// The verification key of the lineage the report speaks of.
    pub fn verification_key(&self) -> (rvk: Vec<u8>)
        ensures
            rvk@ == spec_rvk(self@),
    {
        proof {
            use_type_invariant(self);
        }
        slice_to_vec(slice_subrange(self.bytes.as_slice(), 0, 32))
    }

    /// All temporary contact numbers included in the report, in index
    /// order: one for each index in `[j_1, j_2)`, none if `j_2 < j_1`.
    pub fn temporary_contact_numbers(&self) -> (tcns: Vec<TemporaryContactNumber>)
        ensures
            tcns@.len() == spec_report_len(self@),
            spec_j2(self@) >= spec_j1(self@) ==> tcns@.len() == spec_j2(self@) - spec_j1(self@),
            forall|k: int|
                0 <= k < tcns@.len() ==> (#[trigger] tcns@[k])@ == spec_report_tcn(
                    self@,
                    k as nat,
                ),
    {
        proof {
            use_type_invariant(self);
        }
        expand_body(self.bytes.as_slice())
    }
}

impl SignedReport {
    #[verifier::type_invariant]
    spec fn well_formed(self) -> bool {
        spec_is_frame(self.bytes@)
    }

    /// Reads exactly one signed report from the beginning of `source`.
    ///
    /// Fails with `Eof` when the source is empty, with `Malformed` when it
    /// holds bytes that do not begin with a complete, well-formed frame.
    pub fn read(source: &[u8]) -> (result: Result<SignedReport, ReadError>)
        ensures
            match result {
                Ok(report) => spec_first_frame(source@) == Some(report@),
                Err(ReadError::Eof) => source@.len() == 0,
                Err(ReadError::Malformed) => source@.len() > 0 && spec_first_frame(source@)
                    is None,
            },
    {
        match read_frame(source) {
            Some(bytes) => Ok(SignedReport { bytes }),
            None => if source.len() == 0 {
                Err(ReadError::Eof)
            } else {
                Err(ReadError::Malformed)
            },
        }
    }

    /// Appends the framing of this report to `sink`.
    pub fn write(&self, sink: &mut Vec<u8>)
        ensures
            final(sink)@ == old(sink)@ + self@,
    {
        sink.extend_from_slice(self.bytes.as_slice());
        assert(final(sink)@ =~= old(sink)@ + self@);
    }

    /// The framing of this report.
    pub fn as_bytes(&self) -> (bytes: &[u8])
        ensures
            bytes@ == self@,
            spec_is_frame(self@),
    {
        proof {
            use_type_invariant(self);
        }
        self.bytes.as_slice()
    }

    /// The number of bytes in the framing of this report.
    pub fn len(&self) -> (len: usize)
        ensures
            len == self@.len(),
            len >= 134,
    {
        proof {
            use_type_invariant(self);
        }
        self.bytes.len()
    }

    /// A second copy of this report.
    pub fn duplicate(&self) -> (copy: SignedReport)
        ensures
            copy@ == self@,
    {
        proof {
            use_type_invariant(self);
        }
        SignedReport { bytes: slice_to_vec(self.bytes.as_slice()) }
    }

    /// Verifies the source integrity of this report. A report whose
    /// signature verifies yields its body; any other fails with
    /// `InvalidSignature`.
    pub fn verify(self) -> (result: Result<Report, ErrorKind>)
        ensures
            result is Ok <==> spec_signature_valid(self@),
            result is Ok ==> result->Ok_0@ == self@.take(self@.len() - 64),
            result is Err ==> result->Err_0 == ErrorKind::InvalidSignature,
    {
        proof {
            use_type_invariant(&self);
        }
        if check_signature(self.bytes.as_slice()) {
            let len = self.bytes.len();
            let body = slice_to_vec(slice_subrange(self.bytes.as_slice(), 0, len - SIGNATURE_LEN));
            assert(body@ =~= self@.take(self@.len() - 64));
            Ok(Report { bytes: body })
        } else {
            Err(ErrorKind::InvalidSignature)
        }
    }
}

/// A report made from a seed discloses that seed's lineage: its `k`-th
/// contact number is the number of the lineage's key at index `j_1 + k`.
pub proof fn lemma_report_discloses_lineage(
    frame: Seq<u8>,
    seed: Seq<u8>,
    memo_type: MemoType,
    memo: Seq<u8>,
    j_1: u16,
    j_2: u16,
    k: nat,
)
    requires
        spec_signed_by(frame, seed, memo_type, memo, j_1, j_2),
        j_1 >= 1,
        memo.len() <= 255,
    ensures
        spec_report_tcn(frame.take(frame.len() - 64), k) == spec_tcn(
            spec_key_at(seed, j_1 as nat + k),
        ),
{
    let body = frame.take(frame.len() - 64);
    assert(body[64] == frame[64]);
    assert(body[65] == frame[65]);
    assert(spec_rvk(body) =~= spec_rvk(frame));
    assert(spec_tck_bytes(body) =~= spec_tck_bytes(frame));
    let before = (j_1 - 1) as nat;
    lemma_key_at(seed, before);
    assert(spec_report_start(body) == spec_key_at(seed, before));
    lemma_ratchet_n_add(spec_root_key(seed), before, k + 1);
}

/// Ratchet determinism. Let `frame` be a report that `seed` signed over the
/// single index `i`. Then the report discloses exactly one contact number,
/// and it is the number of the key reached from the seed's initial key (the
/// key at index 1) by `i - 1` ratchet steps.
pub proof fn law_ratchet_determinism(
    frame: Seq<u8>,
    seed: Seq<u8>,
    memo_type: MemoType,
    memo: Seq<u8>,
    i: u16,
)
    requires
        1 <= i < u16::MAX,
        memo.len() <= 255,
        spec_signed_by(frame, seed, memo_type, memo, i, (i + 1) as u16),
    ensures
        spec_report_len(frame.take(frame.len() - 64)) == 1,
        spec_report_tcn(frame.take(frame.len() - 64), 0) == spec_tcn(
            spec_ratchet_n(spec_key_at(seed, 1), (i - 1) as nat),
        ),
{
    let body = frame.take(frame.len() - 64);
    assert(body[64] == frame[64]);
    assert(body[65] == frame[65]);
    assert(body[66] == frame[66]);
    assert(body[67] == frame[67]);
    lemma_report_discloses_lineage(frame, seed, memo_type, memo, i, (i + 1) as u16, 0);
    lemma_ratchet_n_add(spec_root_key(seed), 1, (i - 1) as nat);
}

/// What the signer hands out is a well-formed frame.
pub proof fn lemma_signed_is_frame(
    frame: Seq<u8>,
    seed: Seq<u8>,
    memo_type: MemoType,
    memo: Seq<u8>,
    j_1: u16,
    j_2: u16,
)
    requires
        spec_signed_by(frame, seed, memo_type, memo, j_1, j_2),
        j_1 >= 1,
        memo.len() <= 255,
    ensures
        spec_is_frame(frame),
{
    let body = frame.take(frame.len() - 64);
    assert(body[64] == frame[64]);
    assert(body[65] == frame[65]);
    assert(body[68] == frame[68]);
    assert(body[69] == frame[69]);
}

} // verus!
