//! The counters that a writer keeps.

use vstd::prelude::*;

verus! {

/// What a writer has taken off its channel: how many messages, how many of
/// them its sink refused, and, for the contracts only, which messages they
/// were and which of them the sink took.
pub(crate) struct Tally<V> {
    consumed: u64,
    failed: u64,
    taken: Ghost<Seq<V>>,
    kept: Ghost<Seq<bool>>,
}

impl<V> Tally<V> {
    #[verifier::type_invariant]
    spec fn counted(self) -> bool {
        &&& self.consumed == self.taken@.len()
        &&& self.kept@.len() == self.taken@.len()
        &&& self.failed <= self.consumed
    }

    /// The messages taken, oldest first.
    pub(crate) closed spec fn taken(self) -> Seq<V> {
        self.taken@
    }

    /// For each message taken, whether the sink took it.
    pub(crate) closed spec fn kept(self) -> Seq<bool> {
        self.kept@
    }

    /// How many of them the sink refused.
    pub(crate) closed spec fn failures(self) -> nat {
        self.failed as nat
    }

    /// Nothing taken yet.
    pub(crate) fn new() -> (tally: Self)
        ensures
            tally.taken() == Seq::<V>::empty(),
            tally.kept() == Seq::<bool>::empty(),
            tally.failures() == 0,
    {
        Tally { consumed: 0, failed: 0, taken: Ghost(Seq::empty()), kept: Ghost(Seq::empty()) }
    }

    /// How many messages were taken.
    pub(crate) fn count(&self) -> (n: u64)
        ensures
            n == self.taken().len(),
            n == self.kept().len(),
    {
        proof {
            use_type_invariant(self);
        }
        self.consumed
    }

    /// How many messages the sink refused.
    pub(crate) fn refused(&self) -> (n: u64)
        ensures
            n == self.failures(),
            n <= self.taken().len(),
    {
        proof {
            use_type_invariant(self);
        }
        self.failed
    }

    /// Counts one more message, written or refused.
    pub(crate) fn record(&mut self, message: Ghost<V>, written: bool)
        requires
            old(self).taken().len() < u64::MAX,
        ensures
            final(self).taken() == old(self).taken().push(message@),
            final(self).kept() == old(self).kept().push(written),
            final(self).failures() == old(self).failures() + if written {
                0nat
            } else {
                1nat
            },
    {
        proof {
            use_type_invariant(&*self);
        }
        let consumed = self.consumed + 1;
        let failed = if written {
            self.failed
        } else {
            self.failed + 1
        };
        *self = Tally {
            consumed,
            failed,
            taken: Ghost(self.taken@.push(message@)),
            kept: Ghost(self.kept@.push(written)),
        };
    }
}

} // verus!
