//! Time buckets: contiguous, non-overlapping windows of equal length,
//! identified by their integer index since the Unix epoch.

use crate::clock::{ClockError, UnixTime};
use crate::decimal::{parse_u64, spec_decimal_value, spec_digits_of, spec_is_decimal_u64};
use std::num::ParseIntError;
use vstd::prelude::*;

verus! {

/// The index of a time bucket: whole seconds since the epoch, floor-divided
/// by the batch interval.
#[derive(Debug, Clone, Copy, PartialEq, Eq, PartialOrd, Ord, Hash, Structural)]
pub struct ReportTimestamp(pub u64);

impl View for ReportTimestamp {
    type V = u64;

    open spec fn view(&self) -> u64 {
        self.0
    }
}

/// The bucket that holds the point `nanos` nanoseconds after the epoch.
pub open spec fn spec_bucket_of(nanos: nat, seconds_per_batch: u64) -> nat {
    (nanos / 1_000_000_000) / (seconds_per_batch as nat)
}

/// The bucket that holds the instant `unix_seconds` whole seconds after the
/// epoch: the seconds floor-divided by the batch interval.
pub open spec fn spec_bucket_of_seconds(unix_seconds: u64, seconds_per_batch: u64) -> nat {
    unix_seconds as nat / (seconds_per_batch as nat)
}

/// The first nanosecond of bucket `index`.
pub open spec fn spec_bucket_start(index: nat, seconds_per_batch: u64) -> nat {
    index * (seconds_per_batch as nat) * 1_000_000_000
}

/// The last nanosecond of bucket `index`: one before the next bucket starts.
pub open spec fn spec_bucket_end(index: nat, seconds_per_batch: u64) -> nat {
    ((index + 1) * (seconds_per_batch as nat) * 1_000_000_000 - 1) as nat
}

impl ReportTimestamp {
    /// Parses a bucket index from its decimal notation.
    pub fn parse(input: &str) -> (result: Result<ReportTimestamp, ParseIntError>)
        ensures
            result is Ok <==> spec_is_decimal_u64(input@),
            result is Ok ==> result->Ok_0@ == spec_decimal_value(spec_digits_of(input@)),
    {
        match parse_u64(input) {
            Ok(index) => Ok(ReportTimestamp(index)),
            Err(e) => Err(e),
        }
    }

    /// The first instant of this bucket.
    pub fn start_time(&self, seconds_per_batch: u64) -> (start: UnixTime)
        requires
            self.0 * seconds_per_batch <= u64::MAX,
        ensures
            start@ == spec_bucket_start(self.0 as nat, seconds_per_batch),
    {
        UnixTime::from_secs(self.0 * seconds_per_batch)
    }

    /// The last instant of this bucket, one nanosecond before the next
    /// bucket starts.
    pub fn end_time(&self, seconds_per_batch: u64) -> (end: UnixTime)
        requires
            seconds_per_batch > 0,
            (self.0 + 1) * seconds_per_batch <= u64::MAX,
        ensures
            end@ == spec_bucket_end(self.0 as nat, seconds_per_batch),
    {
        assert((self.0 + 1) * seconds_per_batch >= 1) by (nonlinear_arith)
            requires
                seconds_per_batch >= 1,
                self.0 >= 0,
        ;
        assert(self.0 + 1 <= u64::MAX) by (nonlinear_arith)
            requires
                seconds_per_batch >= 1,
                (self.0 + 1) * seconds_per_batch <= u64::MAX,
        ;
        let next = UnixTime::from_secs((self.0 + 1) * seconds_per_batch);
        match next.pred() {
            Some(end) => end,
            None => next,
        }
    }

    /// The bucket that is current by the system clock; an error if the
    /// clock reads a time before the epoch. Whatever the clock reads, the
    /// bucket is its whole seconds floor-divided by the batch interval, so
    /// the bucket's start can be counted in seconds.
    pub fn now(seconds_per_batch: u64) -> (result: Result<ReportTimestamp, ClockError>)
        requires
            seconds_per_batch > 0,
        ensures
            result is Ok ==> exists|unix_seconds: u64|
                result->Ok_0.0 == #[trigger] spec_bucket_of_seconds(
                    unix_seconds,
                    seconds_per_batch,
                ),
            result is Ok ==> result->Ok_0.0 * seconds_per_batch <= u64::MAX,
    {
        match UnixTime::now() {
            Ok(t) => {
                let bucket = ReportTimestamp::from_time(t, seconds_per_batch);
                proof {
                    let unix_seconds = (t@ / 1_000_000_000) as u64;
                    assert(bucket.0 == spec_bucket_of_seconds(unix_seconds, seconds_per_batch));
                    lemma_bucket_starts_in_range(unix_seconds, seconds_per_batch);
                }
                Ok(bucket)
            },
            Err(e) => Err(e),
        }
    }

    /// The bucket that holds the instant `t`.
    pub fn from_time(t: UnixTime, seconds_per_batch: u64) -> (bucket: ReportTimestamp)
        requires
            seconds_per_batch > 0,
        ensures
            bucket.0 == spec_bucket_of(t@, seconds_per_batch),
            t@ / 1_000_000_000 <= u64::MAX,
            bucket.0 == spec_bucket_of_seconds((t@ / 1_000_000_000) as u64, seconds_per_batch),
    {
        ReportTimestamp(t.as_secs() / seconds_per_batch)
    }
}

impl std::str::FromStr for ReportTimestamp {
    type Err = ParseIntError;

    /// Parses a bucket index from its decimal notation, as
    /// `ReportTimestamp::parse` does.
    fn from_str(input: &str) -> (result: Result<ReportTimestamp, ParseIntError>)
        ensures
            result is Ok <==> spec_is_decimal_u64(input@),
            result is Ok ==> result->Ok_0@ == spec_decimal_value(spec_digits_of(input@)),
    {
        ReportTimestamp::parse(input)
    }
}

/// Buckets partition time. For a positive batch interval, an instant lies
/// in bucket `index` exactly when it is neither before the bucket's start
/// nor after its end; and the next bucket starts one nanosecond after this
/// one ends.
pub proof fn law_buckets_partition_time(index: nat, seconds_per_batch: u64, nanos: nat)
    requires
        seconds_per_batch > 0,
    ensures
        spec_bucket_start(index, seconds_per_batch) <= spec_bucket_end(index, seconds_per_batch),
        spec_bucket_start(index + 1, seconds_per_batch) == spec_bucket_end(
            index,
            seconds_per_batch,
        ) + 1,
        spec_bucket_of(nanos, seconds_per_batch) == index <==> spec_bucket_start(
            index,
            seconds_per_batch,
        ) <= nanos <= spec_bucket_end(index, seconds_per_batch),
{
    let width = (seconds_per_batch as nat) * 1_000_000_000;
    assert(index * (seconds_per_batch as nat) * 1_000_000_000 == index * width)
        by (nonlinear_arith)
        requires
            width == (seconds_per_batch as nat) * 1_000_000_000,
    ;
    assert((index + 1) * (seconds_per_batch as nat) * 1_000_000_000 == index * width + width)
        by (nonlinear_arith)
        requires
            width == (seconds_per_batch as nat) * 1_000_000_000,
    ;
    assert(width >= 1) by (nonlinear_arith)
        requires
            width == (seconds_per_batch as nat) * 1_000_000_000,
            seconds_per_batch >= 1,
    ;
    assert((nanos / 1_000_000_000) / (seconds_per_batch as nat) == nanos / width) by {
        vstd::arithmetic::div_mod::lemma_div_denominator(
            nanos as int,
            1_000_000_000,
            seconds_per_batch as int,
        );
        assert(1_000_000_000 * (seconds_per_batch as int) == width) by (nonlinear_arith)
            requires
                width == (seconds_per_batch as nat) * 1_000_000_000,
        ;
    }
    vstd::arithmetic::div_mod::lemma_fundamental_div_mod(nanos as int, width as int);
    vstd::arithmetic::div_mod::lemma_mod_bound(nanos as int, width as int);
    let q = nanos / width;
    assert(width * q == q * width) by (nonlinear_arith);
    if index * width <= nanos && nanos < index * width + width {
        vstd::arithmetic::div_mod::lemma_fundamental_div_mod_converse(
            nanos as int,
            width as int,
            index as int,
            nanos - index * width,
        );
    }
    if q < index {
        assert(q * width + width <= index * width) by (nonlinear_arith)
            requires
                q + 1 <= index,
                width >= 0,
        ;
    }
    if q > index {
        assert(index * width + width <= q * width) by (nonlinear_arith)
            requires
                index + 1 <= q,
                width >= 0,
        ;
    }
}

/// The bucket of an instant starts at or before the instant, so its
/// start can be counted in seconds wherever the instant can.
pub proof fn lemma_bucket_starts_in_range(unix_seconds: u64, seconds_per_batch: u64)
    requires
        seconds_per_batch > 0,
    ensures
        spec_bucket_of_seconds(unix_seconds, seconds_per_batch) * seconds_per_batch
            <= unix_seconds,
{
    vstd::arithmetic::div_mod::lemma_fundamental_div_mod(
        unix_seconds as int,
        seconds_per_batch as int,
    );
    vstd::arithmetic::div_mod::lemma_mod_bound(unix_seconds as int, seconds_per_batch as int);
    let q = unix_seconds as int / seconds_per_batch as int;
    assert(q * seconds_per_batch == seconds_per_batch * q) by (nonlinear_arith);
}

/// Bucket indices grow with time: a later instant never lies in an
/// earlier bucket.
pub proof fn law_buckets_grow_with_time(earlier: nat, later: nat, seconds_per_batch: u64)
    requires
        seconds_per_batch > 0,
        earlier <= later,
    ensures
        spec_bucket_of(earlier, seconds_per_batch) <= spec_bucket_of(later, seconds_per_batch),
{
    vstd::arithmetic::div_mod::lemma_div_is_ordered(earlier as int, later as int, 1_000_000_000);
    vstd::arithmetic::div_mod::lemma_div_is_ordered(
        earlier as int / 1_000_000_000,
        later as int / 1_000_000_000,
        seconds_per_batch as int,
    );
}

} // verus!
