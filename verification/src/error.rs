//! The kinds of failure the exchange knows, each with the status and the
//! single-line message a client gets to see.

use vstd::prelude::*;

verus! {

/// What went wrong, abstractly.
#[derive(Debug, Clone, Copy, PartialEq, Eq, Hash, Structural)]
pub enum ErrorKind {
    /// The bytes are not the framing of a signed report.
    Malformed,
    /// The signature does not verify under the report's own key.
    InvalidSignature,
    /// The report could not be constructed from the values given.
    MemoTooLong,
    /// A submission arrived for a bucket that has already been sealed.
    ClockRewound,
    /// A fetch asked for the bucket that is still collecting reports.
    EmbargoCurrent,
    /// Nothing was ever submitted to the shard.
    NotFoundShard,
    /// Nothing was submitted to the shard in that bucket.
    NotFoundBucket,
    /// The random number generator failed.
    RngFailure,
    /// An internal invariant was violated.
    InternalBug,
}

/// Why reading a signed report from a byte source stopped.
#[derive(Debug, Clone, Copy, PartialEq, Eq, Hash, Structural)]
pub enum ReadError {
    /// The source is exhausted at a frame boundary.
    Eof,
    /// The source holds bytes that are not a complete, well-formed frame.
    Malformed,
}

/// The status that belongs to each kind of failure.
pub open spec fn spec_status(kind: ErrorKind) -> u16 {
    match kind {
        ErrorKind::Malformed => 400,
        ErrorKind::InvalidSignature => 400,
        ErrorKind::MemoTooLong => 400,
        ErrorKind::ClockRewound => 409,
        ErrorKind::EmbargoCurrent => 403,
        ErrorKind::NotFoundShard => 404,
        ErrorKind::NotFoundBucket => 404,
        ErrorKind::RngFailure => 500,
        ErrorKind::InternalBug => 500,
    }
}

impl ErrorKind {
    /// The integer status reported for this kind of failure.
    pub fn status(&self) -> (status: u16)
        ensures
            status == spec_status(*self),
    {
        match self {
            ErrorKind::Malformed => 400,
            ErrorKind::InvalidSignature => 400,
            ErrorKind::MemoTooLong => 400,
            ErrorKind::ClockRewound => 409,
            ErrorKind::EmbargoCurrent => 403,
            ErrorKind::NotFoundShard => 404,
            ErrorKind::NotFoundBucket => 404,
            ErrorKind::RngFailure => 500,
            ErrorKind::InternalBug => 500,
        }
    }

    /// Whether the failure is the client's (a 4xx status) rather than the server's.
    pub fn is_client_error(&self) -> (client: bool)
        ensures
            client == (400 <= spec_status(*self) < 500),
    {
        let status = self.status();
        400 <= status && status < 500
    }
}

/// The status an error report carries until one is set: an internal error.
pub const DEFAULT_STATUS: u16 = 500;

/// The single-line message of each kind of failure.
pub open spec fn spec_message(kind: ErrorKind) -> Seq<char> {
    match kind {
        ErrorKind::Malformed => "Malformed report"@,
        ErrorKind::InvalidSignature => "Report verification failed"@,
        ErrorKind::MemoTooLong => "Oversize memo field"@,
        ErrorKind::ClockRewound => "Current entry is already sealed. Is time broken?"@,
        ErrorKind::EmbargoCurrent => "Cannot request entries for current timeframe"@,
        ErrorKind::NotFoundShard => "No entries for this shard"@,
        ErrorKind::NotFoundBucket => "No entries for this timeframe"@,
        ErrorKind::RngFailure => "Random number generator failed"@,
        ErrorKind::InternalBug => "Could not read the clock or seal the report batch"@,
    }
}

impl ErrorKind {
    /// The single-line human message of this kind of failure.
    pub fn message(&self) -> (message: &'static str)
        ensures
            message@ == spec_message(*self),
    {
        match self {
            ErrorKind::Malformed => "Malformed report",
            ErrorKind::InvalidSignature => "Report verification failed",
            ErrorKind::MemoTooLong => "Oversize memo field",
            ErrorKind::ClockRewound => "Current entry is already sealed. Is time broken?",
            ErrorKind::EmbargoCurrent => "Cannot request entries for current timeframe",
            ErrorKind::NotFoundShard => "No entries for this shard",
            ErrorKind::NotFoundBucket => "No entries for this timeframe",
            ErrorKind::RngFailure => "Random number generator failed",
            ErrorKind::InternalBug => "Could not read the clock or seal the report batch",
        }
    }
}

/// Mathematical model of an error report.
pub struct ErrModel {
    /// What went wrong.
    pub kind: ErrorKind,
    /// The status reported for it.
    pub status: u16,
    /// The messages, from the innermost cause to the outermost context.
    pub chain: Seq<Seq<char>>,
}

/// An error on its way to the client: its kind, the status it will be
/// reported with, and the chain of messages gathered on the way, innermost
/// first. The chain is never empty.
#[derive(Debug)]
pub struct ErrReport {
    kind: ErrorKind,
    status: u16,
    chain: Vec<String>,
}

impl View for ErrReport {
    type V = ErrModel;

    closed spec fn view(&self) -> ErrModel {
        ErrModel {
            kind: self.kind,
            status: self.status,
            chain: self.chain@.map_values(|m: String| m@),
        }
    }
}

impl Clone for ErrReport {
    fn clone(&self) -> (copy: ErrReport)
        ensures
            copy@ == self@,
    {
        proof {
            use_type_invariant(self);
        }
        let mut chain: Vec<String> = Vec::new();
        let mut i: usize = 0;
        while i < self.chain.len()
            invariant
                i <= self.chain.len(),
                chain@.len() == i,
                forall|j: int| 0 <= j < i ==> chain@[j]@ == self.chain@[j]@,
            decreases self.chain.len() - i,
        {
            chain.push(self.chain[i].as_str().to_owned());
            i = i + 1;
        }
        let copy = ErrReport { kind: self.kind, status: self.status, chain };
        assert(copy@.chain =~= self@.chain);
        copy
    }
}

impl ErrReport {
    #[verifier::type_invariant]
    spec fn well_formed(self) -> bool {
        self.chain@.len() > 0
    }

    /// A fresh report of `kind`: the kind's message, and the status of an
    /// internal error until another is set.
    pub fn new(kind: ErrorKind) -> (report: ErrReport)
        ensures
            report@ == (ErrModel { kind, status: 500, chain: seq![spec_message(kind)] }),
    {
        let mut chain: Vec<String> = Vec::new();
        chain.push(kind.message().to_owned());
        let report = ErrReport { kind, status: DEFAULT_STATUS, chain };
        assert(report@.chain =~= seq![spec_message(kind)]);
        report
    }

    /// A fresh report of `kind` with the status that belongs to the kind.
    pub fn from_kind(kind: ErrorKind) -> (report: ErrReport)
        ensures
            report@ == (ErrModel {
                kind,
                status: spec_status(kind),
                chain: seq![spec_message(kind)],
            }),
    {
        ErrReport::new(kind).set_status(kind.status())
    }

    /// The same report with `status` in place of its status.
    pub fn set_status(self, status: u16) -> (report: ErrReport)
        ensures
            report@ == (ErrModel { status, ..self@ }),
    {
        proof {
            use_type_invariant(&self);
        }
        ErrReport { kind: self.kind, status, chain: self.chain }
    }

    /// The same report with `context` as its new outermost message.
    pub fn wrap_err(self, context: &str) -> (report: ErrReport)
        ensures
            report@ == (ErrModel { chain: self@.chain.push(context@), ..self@ }),
    {
        let ghost before = self@.chain;
        let mut chain = self.chain;
        chain.push(context.to_owned());
        let report = ErrReport { kind: self.kind, status: self.status, chain };
        assert(report@.chain =~= before.push(context@));
        report
    }

    /// What went wrong.
    pub fn kind(&self) -> (kind: ErrorKind)
        ensures
            kind == self@.kind,
    {
        self.kind
    }

    /// The status this report is answered with.
    pub fn status(&self) -> (status: u16)
        ensures
            status == self@.status,
    {
        self.status
    }

    /// The final message: the outermost of the chain, the only one that
    /// reaches the client.
    pub fn final_message(&self) -> (message: &str)
        ensures
            self@.chain.len() > 0,
            message@ == self@.chain.last(),
    {
        proof {
            use_type_invariant(self);
        }
        self.chain[self.chain.len() - 1].as_str()
    }

    /// How many messages the chain holds.
    pub fn chain_len(&self) -> (len: usize)
        ensures
            len == self@.chain.len(),
            len > 0,
    {
        proof {
            use_type_invariant(self);
        }
        self.chain.len()
    }

    /// The `i`-th message of the chain, counting from the innermost.
    pub fn chain_message(&self, i: usize) -> (message: &str)
        requires
            i < self@.chain.len(),
        ensures
            message@ == self@.chain[i as int],
    {
        self.chain[i].as_str()
    }
}

/// Puts `status` on the error of a result, if it is one.
pub fn set_status<T>(result: Result<T, ErrReport>, status: u16) -> (out: Result<T, ErrReport>)
    ensures
        match result {
            Ok(value) => out == Ok::<T, ErrReport>(value),
            Err(report) => out is Err && out->Err_0@ == (ErrModel { status, ..report@ }),
        },
{
    match result {
        Ok(value) => Ok(value),
        Err(report) => Err(report.set_status(status)),
    }
}

} // verus!
