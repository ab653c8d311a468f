//! The engine behind the endpoint, as far as this layer knows it.

use crate::error::SwapError;
use vstd::prelude::*;

verus! {

/// The engine behind the endpoint. It checks and stores swaps and, round by
/// round, processes what it has stored.
///
/// The two relations say which answers an engine may give. An implementation
/// that leaves them as they are promises nothing: any answer is then possible,
/// and the endpoint reports whichever comes.
pub trait SwapServer {
    /// The onion packet as the engine takes it.
    type Onion;

    /// The commitment signature as the engine takes it.
    type ComSig;

    /// Whether the engine as it is in `self` may answer this swap by
    /// `outcome` and be left as `next`.
    open spec fn may_answer_swap(
        &self,
        onion: &Self::Onion,
        comsig: &Self::ComSig,
        outcome: Result<(), SwapError>,
        next: &Self,
    ) -> bool {
        true
    }

    /// Whether the engine as it is in `self` may end a round by `outcome`
    /// and be left as `next`.
    open spec fn may_answer_round(&self, outcome: Result<(), SwapError>, next: &Self) -> bool {
        true
    }

    /// Takes a swap into the next round, or says why not.
    fn swap(&mut self, onion: &Self::Onion, comsig: &Self::ComSig) -> (outcome: Result<
        (),
        SwapError,
    >)
        ensures
            old(self).may_answer_swap(onion, comsig, outcome, final(self)),
    ;

    /// Processes the swaps taken in since the last round.
    fn execute_round(&mut self) -> (outcome: Result<(), SwapError>)
        ensures
            old(self).may_answer_round(outcome, final(self)),
    ;
}

} // verus!
