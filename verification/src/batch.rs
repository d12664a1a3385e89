//! Batches: the plain concatenation of report frames, with no outer
//! container and no padding.

use crate::error::ReadError;
use crate::report::{
    spec_first_frame, spec_frame_extent, spec_is_frame, spec_signature_valid, SignedReport,
};
use vstd::prelude::*;
use vstd::slice::slice_subrange;

verus! {

/// The frames of a list of reports, in order.
pub open spec fn spec_frames(reports: Seq<SignedReport>) -> Seq<Seq<u8>> {
    reports.map_values(|r: SignedReport| r@)
}

/// The reports a batch decodes to: frame after frame from the beginning.
/// A complete frame that is not well formed is left out and decoding goes
/// on behind it; decoding ends where no complete frame is left.
pub open spec fn spec_decode_batch(source: Seq<u8>) -> Seq<Seq<u8>>
    decreases source.len(),
{
    match spec_frame_extent(source) {
        None => Seq::empty(),
        Some(n) => {
            let rest = spec_decode_batch(source.skip(n as int));
            if spec_is_frame(source.take(n as int)) {
                seq![source.take(n as int)] + rest
            } else {
                rest
            }
        },
    }
}

/// Serializes the reports, in order, into a fresh byte buffer.
pub fn write_batch(reports: &Vec<SignedReport>) -> (bytes: Vec<u8>)
    ensures
        bytes@ == spec_frames(reports@).flatten(),
        forall|i: int|
            0 <= i < reports@.len() ==> spec_is_frame(#[trigger] spec_frames(reports@)[i]),
{
    let mut bytes: Vec<u8> = Vec::new();
    let mut i: usize = 0;
    while i < reports.len()
        invariant
            i <= reports.len(),
            bytes@ == spec_frames(reports@).take(i as int).flatten(),
            forall|j: int| 0 <= j < i ==> spec_is_frame(#[trigger] spec_frames(reports@)[j]),
        decreases reports.len() - i,
    {
        let _ = reports[i].as_bytes();
        reports[i].write(&mut bytes);
        proof {
            let frames = spec_frames(reports@);
            assert(frames.take(i + 1) =~= frames.take(i as int).push(frames[i as int]));
            frames.take(i as int).lemma_flatten_push(frames[i as int]);
        }
        i = i + 1;
    }
    assert(spec_frames(reports@).take(i as int) =~= spec_frames(reports@));
    bytes
}

/// Reads a batch: every well-formed report in it, in order.
pub fn read_batch(source: &[u8]) -> (reports: Vec<SignedReport>)
    ensures
        spec_frames(reports@) == spec_decode_batch(source@),
{
    let mut reports: Vec<SignedReport> = Vec::new();
    let mut pos: usize = 0;
    let len = source.len();
    let mut done = false;
    assert(source@.skip(0) =~= source@);
    assert(spec_frames(reports@) + spec_decode_batch(source@) =~= spec_decode_batch(source@));
    while !done
        invariant
            pos <= len,
            len == source@.len(),
            spec_decode_batch(source@) == spec_frames(reports@) + spec_decode_batch(
                source@.skip(pos as int),
            ),
            done ==> spec_decode_batch(source@.skip(pos as int)) == Seq::<Seq<u8>>::empty(),
        decreases len - pos, if done { 0int } else { 1int },
    {
        let rest = slice_subrange(source, pos, len);
        assert(rest@ =~= source@.skip(pos as int));
        let ghost before = spec_frames(reports@);
        match SignedReport::read(rest) {
            Ok(report) => {
                let n = report.len();
                assert(rest@.skip(n as int) =~= source@.skip(pos + n));
                reports.push(report);
                assert(spec_frames(reports@) =~= before + seq![report@]);
                pos = pos + n;
            },
            Err(ReadError::Eof) => {
                done = true;
            },
            Err(ReadError::Malformed) => {
                if rest.len() >= 134 && rest.len() - 134 >= rest[69] as usize {
                    let n: usize = 134 + rest[69] as usize;
                    assert(rest@.skip(n as int) =~= source@.skip(pos + n));
                    pos = pos + n;
                } else {
                    done = true;
                }
            },
        }
    }
    reports
}

/// Codec round trip. Reading the concatenation of the framings of
/// well-formed reports returns those reports, in order.
pub proof fn law_codec_round_trip(frames: Seq<Seq<u8>>)
    requires
        forall|i: int| 0 <= i < frames.len() ==> spec_is_frame(#[trigger] frames[i]),
    ensures
        spec_decode_batch(frames.flatten()) == frames,
    decreases frames.len(),
{
    if frames.len() == 0 {
        assert(frames.flatten() =~= Seq::<u8>::empty());
        assert(frames =~= Seq::<Seq<u8>>::empty());
    } else {
        let first = frames.first();
        let rest = frames.drop_first();
        let all = frames.flatten();
        assert(all == first + rest.flatten());
        assert(spec_is_frame(first));
        let body = first.take(first.len() - 64);
        assert(body[69] == first[69]);
        assert(all[69] == first[69]);
        let n = first.len();
        assert(spec_frame_extent(all) == Some(n));
        assert(all.take(n as int) =~= first);
        assert(all.skip(n as int) =~= rest.flatten());
        assert forall|i: int| 0 <= i < rest.len() implies spec_is_frame(#[trigger] rest[i]) by {
            assert(rest[i] == frames[i + 1]);
        }
        law_codec_round_trip(rest);
        assert(frames =~= seq![first] + rest);
    }
}

/// Verify round trip. Let `frame` be a report as it was created, with a
/// signature that verifies. Written to an empty sink and read back, it is
/// the same report, and so it still verifies.
pub proof fn law_verify_round_trip(frame: Seq<u8>)
    requires
        spec_is_frame(frame),
        spec_signature_valid(frame),
    ensures
        spec_first_frame(Seq::<u8>::empty() + frame) == Some(frame),
        spec_signature_valid(spec_first_frame(Seq::<u8>::empty() + frame)->0),
{
    let body = frame.take(frame.len() - 64);
    assert(body[69] == frame[69]);
    assert(Seq::<u8>::empty() + frame =~= frame);
    assert(frame.take(frame.len() as int) =~= frame);
}

} // verus!
