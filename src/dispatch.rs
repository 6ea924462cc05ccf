use vstd::prelude::*;
use crate::config::Config;
use crate::outcome::{settle, Elapsed, Record};
use crate::pacing::{admission_count, Pacer};
use crate::results::{all_filled, Collector, RunError};

verus! {

/// One admitted request: its position in admission order and the offset, in
/// nanoseconds from the start of the run, at which it is due.
#[derive(Clone, Copy, Debug, PartialEq, Eq, Structural)]
pub struct ScheduleEntry {
    pub index: usize,
    pub target: u64,
}

/// The decisions of one run. The caller pulls a request from its source and
/// asks `on_request` whether it is admitted; it then waits until the target
/// offset, sends, races the answer against `timeout`, and reports back with
/// `on_finished`. `finish` hands out the records in admission order.
pub struct Run {
    pacer: Pacer,
    collector: Collector,
    timeout: Option<u64>,
}

impl Run {
    pub closed spec fn period_ns(&self) -> nat {
        self.pacer.period_ns()
    }

    pub closed spec fn duration_ns(&self) -> nat {
        self.pacer.duration_ns()
    }

    pub closed spec fn timeout_ns(&self) -> Option<u64> {
        self.timeout
    }

    /// Requests admitted so far.
    pub closed spec fn admitted(&self) -> nat {
        self.pacer.admitted()
    }

    /// One slot per admitted request, in admission order: its record once it
    /// has one.
    pub closed spec fn slots(&self) -> Seq<Option<Record>> {
        self.collector@
    }

    pub closed spec fn wf(&self) -> bool {
        &&& self.pacer.wf()
        &&& self.collector@.len() == self.pacer.admitted()
    }

    pub fn new(config: Config) -> (r: Run)
        requires
            config.period > 0,
        ensures
            r.wf(),
            r.period_ns() == config.period,
            r.duration_ns() == config.duration,
            r.timeout_ns() == config.timeout,
            r.admitted() == 0,
            r.slots() == Seq::<Option<Record>>::empty(),
    {
        let pacer = match Pacer::new(config.period, config.duration) {
            Some(p) => p,
            None => vstd::pervasive::unreached(),
        };
        Run { pacer, collector: Collector::new(), timeout: config.timeout }
    }

    pub fn timeout(&self) -> (r: Option<u64>)
        ensures
            r == self.timeout_ns(),
    {
        self.timeout
    }

    /// Decides on a request just pulled from the source: while the run lasts
    /// it is admitted, gets the next position and a target offset one period
    /// after the previous one, and an empty slot; after that, nothing is admitted.
    pub fn on_request(&mut self) -> (r: Option<ScheduleEntry>)
        requires
            old(self).wf(),
        ensures
            final(self).wf(),
            final(self).period_ns() == old(self).period_ns(),
            final(self).duration_ns() == old(self).duration_ns(),
            final(self).timeout_ns() == old(self).timeout_ns(),
            old(self).admitted() < admission_count(old(self).period_ns(), old(self).duration_ns())
                ==> {
                &&& r matches Some(e) && e.index == old(self).admitted() && e.target == old(
                    self,
                ).admitted() * old(self).period_ns()
                &&& final(self).admitted() == old(self).admitted() + 1
                &&& final(self).slots() == old(self).slots().push(None)
            },
            old(self).admitted() >= admission_count(old(self).period_ns(), old(self).duration_ns())
                ==> {
                &&& r is None
                &&& final(self).admitted() == old(self).admitted()
                &&& final(self).slots() == old(self).slots()
            },
    {
        match self.pacer.next_target() {
            None => None,
            Some(target) => {
                let index = self.collector.submit();
                Some(ScheduleEntry { index, target })
            },
        }
    }

    /// Whether the request admitted at `index` has reported its record.
    pub fn is_finished(&self, index: usize) -> (r: bool)
        requires
            self.wf(),
            index < self.admitted(),
        ensures
            r == self.slots()[index as int] is Some,
    {
        self.collector.is_filled(index)
    }

    /// Records what became of the request admitted at `index`: it was sent
    /// `sent_at` nanoseconds after the start of the run, and `answered` tells
    /// whether an answer beat the timeout, `elapsed` nanoseconds after the send.
    pub fn on_finished(&mut self, index: usize, sent_at: u64, answered: bool, elapsed: u64)
        requires
            old(self).wf(),
            index < old(self).admitted(),
            old(self).slots()[index as int] is None,
        ensures
            final(self).wf(),
            final(self).period_ns() == old(self).period_ns(),
            final(self).duration_ns() == old(self).duration_ns(),
            final(self).timeout_ns() == old(self).timeout_ns(),
            final(self).admitted() == old(self).admitted(),
            final(self).slots() == old(self).slots().update(
                index as int,
                Some(
                    (
                        sent_at,
                        if answered {
                            Elapsed::Success(elapsed)
                        } else {
                            Elapsed::Timeout
                        },
                    ),
                ),
            ),
    {
        let outcome = settle(answered, elapsed);
        self.collector.complete(index, (sent_at, outcome));
    }

    /// The records of the run, one per admitted request, in admission order
    /// whatever order the tasks finished in; fails with the first request
    /// that never reported.
    pub fn finish(self) -> (r: Result<Vec<Record>, RunError>)
        requires
            self.wf(),
        ensures
            r is Ok <==> all_filled(self.slots()),
            r matches Ok(v) ==> {
                &&& v@.len() == self.admitted()
                &&& forall|i: int| 0 <= i < v@.len() ==> self.slots()[i] == Some(v@[i])
            },
            r matches Err(RunError::TaskFailed(i)) ==> {
                &&& i < self.admitted()
                &&& self.slots()[i as int] is None
                &&& forall|j: int| 0 <= j < i ==> self.slots()[j] is Some
            },
    {
        self.collector.finish()
    }
}

} // verus!
