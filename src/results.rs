use vstd::prelude::*;
use crate::outcome::Record;

verus! {

/// Why a run produced no results.
#[derive(Clone, Copy, Debug, PartialEq, Eq, Structural)]
pub enum RunError {
    /// The task of the request admitted at this position ended without a record.
    TaskFailed(usize),
}

/// The records of one run, one slot per admitted request in admission order;
/// tasks fill their own slot in whatever order they finish.
pub struct Collector {
    slots: Vec<Option<Record>>,
}

/// Every slot holds a record.
pub open spec fn all_filled(s: Seq<Option<Record>>) -> bool {
    forall|i: int| 0 <= i < s.len() ==> s[i] is Some
}

impl View for Collector {
    type V = Seq<Option<Record>>;

    closed spec fn view(&self) -> Seq<Option<Record>> {
        self.slots@
    }
}

impl Collector {
    pub fn new() -> (r: Collector)
        ensures
            r@ == Seq::<Option<Record>>::empty(),
    {
        Collector { slots: Vec::new() }
    }

    /// Opens the slot of a newly admitted request and returns its position.
    pub fn submit(&mut self) -> (idx: usize)
        ensures
            idx == old(self)@.len(),
            final(self)@ == old(self)@.push(None),
    {
        let idx = self.slots.len();
        self.slots.push(None);
        idx
    }

    pub fn len(&self) -> (r: usize)
        ensures
            r == self@.len(),
    {
        self.slots.len()
    }

    /// Whether the request at `idx` already has its record.
    pub fn is_filled(&self, idx: usize) -> (r: bool)
        requires
            idx < self@.len(),
        ensures
            r == self@[idx as int] is Some,
    {
        self.slots[idx].is_some()
    }

    /// Stores the record of the request admitted at position `idx`; a record,
    /// once stored, is never replaced.
    pub fn complete(&mut self, idx: usize, rec: Record)
        requires
            idx < old(self)@.len(),
            old(self)@[idx as int] is None,
        ensures
            final(self)@ == old(self)@.update(idx as int, Some(rec)),
    {
        self.slots.set(idx, Some(rec));
    }

    /// All records in admission order, one per admitted request; fails with
    /// the first position that has none.
    pub fn finish(self) -> (r: Result<Vec<Record>, RunError>)
        ensures
            r is Ok <==> all_filled(self@),
            r matches Ok(v) ==> {
                &&& v@.len() == self@.len()
                &&& forall|i: int| 0 <= i < v@.len() ==> self@[i] == Some(v@[i])
            },
            r matches Err(RunError::TaskFailed(i)) ==> {
                &&& i < self@.len()
                &&& self@[i as int] is None
                &&& forall|j: int| 0 <= j < i ==> self@[j] is Some
            },
    {
        let mut out: Vec<Record> = Vec::new();
        let mut i: usize = 0;
        while i < self.slots.len()
            invariant
                i <= self@.len(),
                out@.len() == i,
                self@ == self.slots@,
                forall|j: int| 0 <= j < i ==> self@[j] == Some(out@[j]),
            decreases self@.len() - i,
        {
            match self.slots[i] {
                Some(rec) => out.push(rec),
                None => return Err(RunError::TaskFailed(i)),
            }
            i = i + 1;
        }
        Ok(out)
    }
}

/// Filling two different slots gives the same collection in either order:
/// the records come out in admission order whichever task finishes first.
pub proof fn lemma_completion_order_irrelevant(
    s: Seq<Option<Record>>,
    i: int,
    j: int,
    a: Record,
    b: Record,
)
    requires
        0 <= i < s.len(),
        0 <= j < s.len(),
        i != j,
    ensures
        s.update(i, Some(a)).update(j, Some(b)) == s.update(j, Some(b)).update(i, Some(a)),
        s.update(i, Some(a)).update(j, Some(b)).len() == s.len(),
{
    assert(s.update(i, Some(a)).update(j, Some(b)) =~= s.update(j, Some(b)).update(i, Some(a)));
}

} // verus!
