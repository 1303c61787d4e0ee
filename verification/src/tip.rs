//! The chain tip: the one header that simulations run against.

use crate::chain::Block;
use vstd::prelude::*;

verus! {

/// The two subscriptions that drive the engine.
#[derive(Clone, Copy, Debug, PartialEq, Eq)]
pub enum Feed {
    Blocks,
    PendingTransactions,
}

/// A subscription has ended. The engine cannot go on without it.
#[derive(Clone, Copy, Debug, PartialEq, Eq)]
pub struct FeedEnded(pub Feed);

/// Holds the most recently observed block header. It is seeded with a header when it is made,
/// so there is always a tip. A header is replaced as a whole and copied out as a whole.
pub struct TipTracker {
    block: Block,
    observed: Ghost<Seq<Block>>,
}

impl View for TipTracker {
    type V = Block;

    closed spec fn view(&self) -> Block {
        self.block
    }
}

impl TipTracker {
    #[verifier::type_invariant]
    spec fn held_is_last_observed(self) -> bool {
        &&& self.observed@.len() > 0
        &&& self.observed@.last() == self.block
    }

    /// Every header this tracker was given, the seed first, in the order they came.
    pub closed spec fn observed(&self) -> Seq<Block> {
        self.observed@
    }

    /// A tracker seeded with the current tip.
    pub fn new(seed: Block) -> (tracker: Self)
        ensures
            tracker@ == seed,
            tracker.observed() == Seq::empty().push(seed),
    {
        let ghost seen = Seq::empty().push(seed);
        TipTracker { block: seed, observed: Ghost(seen) }
    }

    /// Replaces the held header by `new_block` and returns the new tip's number.
    pub fn update(&mut self, new_block: Block) -> (number: u64)
        ensures
            final(self)@ == new_block,
            final(self).observed() == old(self).observed().push(new_block),
            number == new_block.number,
    {
        let ghost seen = self.observed@.push(new_block);
        *self = TipTracker { block: new_block, observed: Ghost(seen) };
        new_block.number
    }

    /// Takes the next item of the block subscription: a header replaces the tip and its number
    /// is returned; the end of the subscription leaves the tip as it is and is reported.
    pub fn observe(&mut self, next: Option<Block>) -> (result: Result<u64, FeedEnded>)
        ensures
            match next {
                Some(block) => {
                    &&& final(self)@ == block
                    &&& final(self).observed() == old(self).observed().push(block)
                    &&& result == Ok::<u64, FeedEnded>(block.number)
                },
                None => {
                    &&& final(self)@ == old(self)@
                    &&& final(self).observed() == old(self).observed()
                    &&& result == Err::<u64, FeedEnded>(FeedEnded(Feed::Blocks))
                },
            },
    {
        match next {
            Some(block) => Ok(self.update(block)),
            None => Err(FeedEnded(Feed::Blocks)),
        }
    }

    /// A copy of the tip. It is never a mix of headers: it is the header that came last, whole,
    /// and so one of the headers this tracker was given.
    pub fn snapshot(&self) -> (block: Block)
        ensures
            block == self@,
            self.observed().len() > 0,
            block == self.observed().last(),
            self.observed().contains(block),
    {
        proof {
            use_type_invariant(self);
        }
        self.block
    }

    /// The number of the held header.
    pub fn number(&self) -> (number: u64)
        ensures
            number == self@.number,
    {
        self.block.number
    }
}

} // verus!
