use vstd::prelude::*;

verus! {

/// Requests admitted in a run of `duration` with one every `period`, from a
/// source that never runs dry: the offsets `0, period, 2*period, ...` that lie
/// below `duration`, which is `ceil(duration / period)` of them.
pub open spec fn admission_count(period: nat, duration: nat) -> nat
    recommends
        period > 0,
{
    if duration == 0 {
        0
    } else {
        ((duration - 1) as nat / period + 1) as nat
    }
}

/// Requests admitted from a source that holds `available` of them (`None`: no end).
pub open spec fn admitted_from(period: nat, duration: nat, available: Option<usize>) -> nat {
    match available {
        Some(n) => if n < admission_count(period, duration) {
            n as nat
        } else {
            admission_count(period, duration)
        },
        None => admission_count(period, duration),
    }
}

/// The `k`-th admitted request is due at offset `k * period`; exactly those
/// with an offset below `duration` are admitted.
pub proof fn lemma_admission_count(period: nat, duration: nat, k: nat)
    requires
        period > 0,
    ensures
        k < admission_count(period, duration) <==> k * period < duration,
        admission_count(period, duration) <= duration,
{
    if duration > 0 {
        let q = (duration - 1) as nat / period;
        let r = (duration - 1) as nat % period;
        vstd::arithmetic::div_mod::lemma_fundamental_div_mod((duration - 1) as int, period as int);
        assert((duration - 1) as nat == period * q + r);
        if k <= q {
            assert(k * period <= q * period) by (nonlinear_arith)
                requires
                    k <= q,
            ;
        } else {
            assert(k * period >= (q + 1) * period) by (nonlinear_arith)
                requires
                    k >= q + 1,
            ;
            assert((q + 1) * period == q * period + period) by (nonlinear_arith);
        }
        assert(q <= (duration - 1) as nat) by {
            vstd::arithmetic::div_mod::lemma_div_is_ordered_by_denominator(
                (duration - 1) as int,
                1,
                period as int,
            );
        }
    }
}

/// A run of zero length admits nothing, whatever the period or the source.
pub proof fn lemma_zero_duration(period: nat, available: Option<usize>)
    requires
        period > 0,
    ensures
        admission_count(period, 0) == 0,
        admitted_from(period, 0, available) == 0,
{
}

/// Target offsets strictly increase in admission order: any sequence of
/// offsets laid out one period apart, as `schedule` returns them, is strictly
/// increasing.
pub proof fn lemma_targets_increase(targets: Seq<u64>, period: nat)
    requires
        period > 0,
        forall|k: int| 0 <= k < targets.len() ==> targets[k] == k * period,
    ensures
        forall|j: int, k: int| 0 <= j < k < targets.len() ==> targets[j] < targets[k],
{
    assert forall|j: int, k: int| 0 <= j < k < targets.len() implies targets[j] < targets[k] by {
        assert(j * period < k * period) by (nonlinear_arith)
            requires
                period > 0,
                j < k,
        ;
    }
}

/// The admission state of one run: the offset of the next admission advances
/// by one period per admitted request, and admission stops at the run's end.
pub struct Pacer {
    period: u64,
    duration: u64,
    admitted: u64,
    /// Offset of the next admission; `None` once it lies beyond `u64`.
    next: Option<u64>,
}

impl Pacer {
    pub closed spec fn period_ns(&self) -> nat {
        self.period as nat
    }

    pub closed spec fn duration_ns(&self) -> nat {
        self.duration as nat
    }

    /// How many requests have been admitted so far.
    pub closed spec fn admitted(&self) -> nat {
        self.admitted as nat
    }

    pub closed spec fn wf(&self) -> bool {
        &&& self.period > 0
        &&& self.admitted <= admission_count(self.period as nat, self.duration as nat)
        &&& match self.next {
            Some(x) => x == self.admitted * self.period,
            None => self.admitted * self.period > u64::MAX,
        }
    }

    /// A pacer for a run of `duration` nanoseconds with one request every
    /// `period`; a zero period is refused.
    pub fn new(period: u64, duration: u64) -> (r: Option<Pacer>)
        ensures
            r is None <==> period == 0,
            r matches Some(p) ==> {
                &&& p.wf()
                &&& p.period_ns() == period
                &&& p.duration_ns() == duration
                &&& p.admitted() == 0
            },
    {
        if period == 0 {
            None
        } else {
            Some(Pacer { period, duration, admitted: 0, next: Some(0) })
        }
    }

    /// Decides on the next request pulled from the source: admitted, with
    /// its target offset, while the run lasts; refused once it is over.
    pub fn next_target(&mut self) -> (r: Option<u64>)
        requires
            old(self).wf(),
        ensures
            final(self).wf(),
            final(self).period_ns() == old(self).period_ns(),
            final(self).duration_ns() == old(self).duration_ns(),
            old(self).admitted() < admission_count(old(self).period_ns(), old(self).duration_ns())
                ==> {
                &&& r matches Some(t) && t == old(self).admitted() * old(self).period_ns()
                &&& final(self).admitted() == old(self).admitted() + 1
            },
            old(self).admitted() >= admission_count(old(self).period_ns(), old(self).duration_ns())
                ==> {
                &&& r is None
                &&& final(self).admitted() == old(self).admitted()
            },
    {
        proof {
            lemma_admission_count(self.period as nat, self.duration as nat, self.admitted as nat);
        }
        match self.next {
            None => None,
            Some(x) => {
                if x >= self.duration {
                    None
                } else {
                    self.admitted = self.admitted + 1;
                    self.next = x.checked_add(self.period);
                    proof {
                        assert((self.admitted - 1) * self.period + self.period == self.admitted
                            * self.period) by (nonlinear_arith);
                    }
                    Some(x)
                }
            },
        }
    }
}

/// Runs the pacing loop over a source of `available` requests (`None`: one
/// that never runs dry) and returns the target offset of each admitted
/// request, in admission order. A zero period is refused.
pub fn schedule(period: u64, duration: u64, available: Option<usize>) -> (r: Option<Vec<u64>>)
    ensures
        r is None <==> period == 0,
        r matches Some(v) ==> {
            &&& v@.len() == admitted_from(period as nat, duration as nat, available)
            &&& forall|k: int| 0 <= k < v@.len() ==> v@[k] == k * period
        },
{
    let mut pacer = match Pacer::new(period, duration) {
        None => return None,
        Some(p) => p,
    };
    let mut out: Vec<u64> = Vec::new();
    loop
        invariant
            pacer.wf(),
            pacer.period_ns() == period,
            pacer.duration_ns() == duration,
            out@.len() == pacer.admitted(),
            pacer.admitted() <= admitted_from(period as nat, duration as nat, available),
            forall|k: int| 0 <= k < out@.len() ==> out@[k] == k * period,
        ensures
            out@.len() == admitted_from(period as nat, duration as nat, available),
            forall|k: int| 0 <= k < out@.len() ==> out@[k] == k * period,
        decreases admission_count(period as nat, duration as nat) - pacer.admitted(),
    {
        if let Some(n) = available {
            if out.len() >= n {
                break;
            }
        }
        match pacer.next_target() {
            Some(t) => out.push(t),
            None => break,
        }
    }
    Some(out)
}

} // verus!
