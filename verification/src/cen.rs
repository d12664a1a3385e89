//! Contact event numbers: 20-byte values cut from a keyed ChaCha8 stream,
//! one for every quarter of an hour.

use vstd::prelude::*;

verus! {

/// Bytes in a contact event number.
pub const CEN_BYTES: usize = 20;

/// Seconds for which one contact event number is current.
pub const SECONDS_PER_INTERVAL: u64 = 900;

/// Seconds for which contact event numbers are kept.
pub const SECONDS_PER_LIFETIME: u64 = 1_209_600;

/// Intervals in a lifetime.
pub const INTERVALS_PER_LIFETIME: u64 = 1344;

/// The `len` bytes of the ChaCha8 stream of `key`, stream 0, that begin at
/// the 32-bit word `word_pos`.
pub uninterp spec fn spec_chacha8_stream(key: Seq<u8>, word_pos: u64, len: nat) -> Seq<u8>;

/// The word of the stream at which the numbers for `start_unixtime` begin:
/// 20 bytes, that is 5 words, for every interval gone by.
pub open spec fn spec_cen_word_pos(start_unixtime: u64) -> nat {
    ((start_unixtime as nat / 900) * 20) / 4
}

/// Seeds `rand_chacha::ChaCha8Rng` with `key`, sets its position with
/// `set_word_pos` and fills `buf` with `fill_bytes`. The bytes are a
/// function of the key, the position and the length filled.
#[verifier::external_body]
fn chacha8_fill(key: &[u8; 32], word_pos: u64, buf: &mut [u8])
    ensures
        final(buf)@ == spec_chacha8_stream(key@, word_pos, old(buf)@.len()),
        final(buf)@.len() == old(buf)@.len(),
{
    let mut chacha: rand_chacha::ChaCha8Rng = rand::SeedableRng::from_seed(*key);
    chacha.set_word_pos(u128::from(word_pos));
    rand::RngCore::fill_bytes(&mut chacha, buf);
}

/// The word of the stream at which the numbers for `start_unixtime` begin.
pub fn cen_word_pos(start_unixtime: u64) -> (word_pos: u64)
    ensures
        word_pos == spec_cen_word_pos(start_unixtime),
        word_pos == (start_unixtime / 900) * 5,
{
    let cen_number = start_unixtime / SECONDS_PER_INTERVAL * 20;
    cen_number / 4
}

/// Fills `buf` with the contact event numbers of `key` from the interval
/// that holds `start_unixtime` onwards, as many as fit.
pub fn generate_cens_into(key: [u8; 32], start_unixtime: u64, buf: &mut [u8])
    ensures
        final(buf)@ == spec_chacha8_stream(
            key@,
            spec_cen_word_pos(start_unixtime) as u64,
            old(buf)@.len(),
        ),
        final(buf)@.len() == old(buf)@.len(),
{
    let word_pos = cen_word_pos(start_unixtime);
    chacha8_fill(&key, word_pos, buf);
}

} // verus!
