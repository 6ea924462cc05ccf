use vstd::prelude::*;

verus! {

/// What became of one request: the time it took, or no answer within the timeout.
#[derive(Clone, Copy, Debug, PartialEq, Eq, Structural)]
pub enum Elapsed {
    /// An answer (successful or not) came back after this many nanoseconds.
    Success(u64),
    /// No answer came back within the timeout.
    Timeout,
}

/// One result: nanoseconds from the start of the run to the send, and the outcome.
pub type Record = (u64, Elapsed);

impl Elapsed {
    /// The latency carried, if any.
    pub open spec fn latency(self) -> Option<u64> {
        match self {
            Elapsed::Success(d) => Some(d),
            Elapsed::Timeout => None,
        }
    }

    pub open spec fn timed_out(self) -> bool {
        self is Timeout
    }

    pub fn new(d: u64) -> (r: Elapsed)
        ensures
            r == Elapsed::Success(d),
    {
        Elapsed::Success(d)
    }

    pub fn is_timeout(&self) -> (r: bool)
        ensures
            r == self.timed_out(),
    {
        match self {
            Elapsed::Success(_) => false,
            Elapsed::Timeout => true,
        }
    }

    /// The latency of a completed request; a timed-out one has none to give.
    pub fn unwrap(self) -> (r: u64)
        requires
            !self.timed_out(),
        ensures
            self == Elapsed::Success(r),
    {
        match self {
            Elapsed::Success(d) => d,
            Elapsed::Timeout => vstd::pervasive::unreached(),
        }
    }

    pub fn into_inner(self) -> (r: Option<u64>)
        ensures
            r == self.latency(),
    {
        match self {
            Elapsed::Success(d) => Some(d),
            Elapsed::Timeout => None,
        }
    }
}

/// The outcome of a request raced against its timeout: `answered` tells
/// whether any answer (a success or a failure) came first, and `elapsed` is
/// the time from the send to the end of the race.
pub fn settle(answered: bool, elapsed: u64) -> (r: Elapsed)
    ensures
        answered ==> r == Elapsed::Success(elapsed),
        !answered ==> r == Elapsed::Timeout,
{
    if answered {
        Elapsed::new(elapsed)
    } else {
        Elapsed::Timeout
    }
}

/// Exactly one of the two readings of an outcome applies: it timed out, or it
/// carries a latency, and a latency taken back out is the one put in.
pub proof fn lemma_outcome_exclusive(e: Elapsed, d: u64)
    ensures
        e.timed_out() <==> e.latency() is None,
        !e.timed_out() <==> e.latency() is Some,
        Elapsed::Success(d).latency() == Some(d),
        !Elapsed::Success(d).timed_out(),
        Elapsed::Timeout.latency() is None,
{
}

} // verus!
