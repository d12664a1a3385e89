//! Shard identifiers: the unit of isolation for submissions and fetches.

use crate::decimal::{parse_u64, spec_decimal_value, spec_digits_of, spec_is_decimal_u64};
use std::num::ParseIntError;
use vstd::prelude::*;

verus! {

/// An opaque partition id. Submissions and fetches never cross shards.
#[derive(Debug, Clone, Copy, PartialEq, Eq, Hash, Structural)]
pub struct Shard(pub u64);

impl View for Shard {
    type V = u64;

    open spec fn view(&self) -> u64 {
        self.0
    }
}

impl Shard {
    /// Parses a shard from its decimal notation. Every 64-bit unsigned
    /// integer is a shard; nothing else is.
    pub fn parse(input: &str) -> (result: Result<Shard, ParseIntError>)
        ensures
            result is Ok <==> spec_is_decimal_u64(input@),
            result is Ok ==> result->Ok_0@ == spec_decimal_value(spec_digits_of(input@)),
    {
        match parse_u64(input) {
            Ok(id) => Ok(Shard(id)),
            Err(e) => Err(e),
        }
    }
}

impl std::str::FromStr for Shard {
    type Err = ParseIntError;

    /// Parses a shard from its decimal notation, as `Shard::parse` does.
    fn from_str(input: &str) -> (result: Result<Shard, ParseIntError>)
        ensures
            result is Ok <==> spec_is_decimal_u64(input@),
            result is Ok ==> result->Ok_0@ == spec_decimal_value(spec_digits_of(input@)),
    {
        Shard::parse(input)
    }
}

} // verus!
