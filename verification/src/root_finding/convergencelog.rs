//! The record of a search: one entry for each round of evaluations.

use vstd::prelude::*;

verus! {

/// One round of a search: the points that were evaluated and the function
/// values found there.
#[derive(Debug, Clone)]
pub struct IterationEntry<T> {
    /// The number of the round.
    pub iteration: usize,
    /// The points evaluated in this round.
    pub x: Vec<T>,
    /// The function values at the points of `x`, in the same order.
    pub fx: Vec<T>,
}

/// What an [`IterationEntry`] holds, as mathematical values.
pub struct IterationRecord<T> {
    pub iteration: nat,
    pub x: Seq<T>,
    pub fx: Seq<T>,
}

impl<T> View for IterationEntry<T> {
    type V = IterationRecord<T>;

    open spec fn view(&self) -> IterationRecord<T> {
        IterationRecord { iteration: self.iteration as nat, x: self.x@, fx: self.fx@ }
    }
}

/// Every record holds as many function values as points.
pub open spec fn balanced<T>(records: Seq<IterationRecord<T>>) -> bool {
    forall|i: int| 0 <= i < records.len() ==> (#[trigger] records[i]).x.len() == records[i].fx.len()
}

/// Every record holds `arity` points.
pub open spec fn of_arity<T>(records: Seq<IterationRecord<T>>, arity: nat) -> bool {
    forall|i: int| 0 <= i < records.len() ==> (#[trigger] records[i]).x.len() == arity
}

/// The records are numbered `first`, `first + 1`, `first + 2`, and so on.
pub open spec fn numbered_from<T>(records: Seq<IterationRecord<T>>, first: nat) -> bool {
    forall|i: int| 0 <= i < records.len() ==> (#[trigger] records[i]).iteration == first + i
}

/// The round numbers grow strictly along the records.
pub open spec fn strictly_increasing<T>(records: Seq<IterationRecord<T>>) -> bool {
    forall|i: int, j: int|
        0 <= i < j < records.len() ==> (#[trigger] records[i]).iteration < (
        #[trigger] records[j]).iteration
}

/// Records numbered consecutively have strictly growing round numbers, and
/// the first of them, if there is one, has the number they start from.
pub proof fn lemma_numbered_is_increasing<T>(records: Seq<IterationRecord<T>>, first: nat)
    requires
        numbered_from(records, first),
    ensures
        strictly_increasing(records),
        records.len() > 0 ==> records[0].iteration == first,
{
}

/// An append-only record of a search that can be emptied for the next one.
pub struct ConvergenceLog<T> {
    iterations: Vec<IterationEntry<T>>,
}

impl<T> View for ConvergenceLog<T> {
    type V = Seq<IterationRecord<T>>;

    closed spec fn view(&self) -> Seq<IterationRecord<T>> {
        Seq::new(self.iterations@.len(), |i: int| self.iterations@[i]@)
    }
}

impl<T> ConvergenceLog<T> {
    #[verifier::type_invariant]
    spec fn entries_balanced(self) -> bool {
        forall|i: int|
            0 <= i < self.iterations@.len() ==> (#[trigger] self.iterations@[i]).x@.len()
                == self.iterations@[i].fx@.len()
    }

    /// Creates an empty log.
    pub fn new() -> (log: Self)
        ensures
            log@ == Seq::<IterationRecord<T>>::empty(),
    {
        let log = Self { iterations: Vec::new() };
        log
    }

    /// Appends the entry of one round: its number, the points evaluated and
    /// the function values found at them, which are as many as the points.
    /// The log holds only such entries, before the call and after it.
    pub fn add_entry(&mut self, iteration: usize, x: Vec<T>, fx: Vec<T>)
        requires
            x@.len() == fx@.len(),
        ensures
            final(self)@ == old(self)@.push(
                IterationRecord { iteration: iteration as nat, x: x@, fx: fx@ },
            ),
            balanced(old(self)@),
            balanced(final(self)@),
    {
        proof {
            use_type_invariant(&*self);
        }
        let mut entries: Vec<IterationEntry<T>> = Vec::new();
        core::mem::swap(&mut self.iterations, &mut entries);
        entries.push(IterationEntry { iteration, x, fx });
        self.iterations = entries;
    }

    /// The entries logged so far, oldest first. Every entry holds as many
    /// function values as points.
    pub fn get_entries(&self) -> (entries: &Vec<IterationEntry<T>>)
        ensures
            entries@.len() == self@.len(),
            forall|i: int| 0 <= i < entries@.len() ==> (#[trigger] entries@[i])@ == self@[i],
            balanced(self@),
    {
        proof {
            use_type_invariant(self);
        }
        &self.iterations
    }

    /// Empties the log.
    pub fn reset(&mut self)
        ensures
            final(self)@ == Seq::<IterationRecord<T>>::empty(),
    {
        *self = ConvergenceLog::new();
    }
}

impl<T> Default for ConvergenceLog<T> {
    fn default() -> (log: Self)
        ensures
            log@ == Seq::<IterationRecord<T>>::empty(),
    {
        ConvergenceLog::new()
    }
}

} // verus!
