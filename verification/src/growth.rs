//! Requests to grow, collected between steps and applied at the tail.

use vstd::prelude::*;
use crate::chain::{grown, lemma_grown_len, Chain};

verus! {

/// One request to lengthen the snake by one segment.
#[derive(Clone, Copy, Debug, PartialEq, Eq)]
pub struct GrowthRequest;

/// The requests that wait for the next step. The view is how many there
/// are: requests carry nothing but their number.
pub struct GrowthQueue {
    pending: Vec<GrowthRequest>,
}

impl View for GrowthQueue {
    type V = nat;

    closed spec fn view(&self) -> nat {
        self.pending@.len()
    }
}

impl GrowthQueue {
    /// A queue with nothing waiting.
    pub fn new() -> (queue: GrowthQueue)
        ensures
            queue@ == 0,
    {
        GrowthQueue { pending: Vec::new() }
    }

    /// The number of requests that wait.
    pub fn len(&self) -> (n: usize)
        ensures
            n == self@,
    {
        self.pending.len()
    }

    /// Adds one request behind those that already wait.
    pub fn enqueue_growth(&mut self)
        ensures
            final(self)@ == old(self)@ + 1,
    {
        self.pending.push(GrowthRequest);
    }

    /// Applies every waiting request to `chain`, oldest first, and leaves
    /// the queue empty. Each request adds one segment behind the tail as it
    /// is at that moment, so a later request builds on the segment that an
    /// earlier one added. With nothing waiting the chain stays as it was.
    pub fn drain_and_apply(&mut self, chain: &mut Chain)
        requires
            old(chain).wf(),
        ensures
            final(self)@ == 0,
            final(chain).wf(),
            final(chain)@ == grown(old(chain)@, old(self)@),
            final(chain)@.len() == old(chain)@.len() + old(self)@,
            final(chain).child_of(final(chain)@.len() - 1) is None,
    {
        let ghost total: nat = self@;
        let ghost mut applied: nat = 0;
        while self.pending.len() > 0
            invariant
                chain.wf(),
                applied + self@ == total,
                chain@ == grown(old(chain)@, applied),
            decreases self@,
        {
            self.pending.pop();
            chain.grow_tail();
            proof {
                applied = applied + 1;
            }
        }
        proof {
            lemma_grown_len(old(chain)@, total);
            crate::chain::lemma_one_tail(*chain);
        }
    }
}

} // verus!
