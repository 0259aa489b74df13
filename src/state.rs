use crate::block::Block;
use vstd::prelude::*;

verus! {

/// The global state that verified blocks are applied to.
pub trait State: Sized + View {
    /// The kind of block this state accepts.
    type Block: Block;

    /// Why the state rejected a block's effects.
    type Error;

    /// Whether a state with contents `v` takes block `b`.
    spec fn enact_ok(v: Self::V, b: <Self::Block as View>::V) -> bool;

    /// The contents of a state with contents `v` after it took block `b`.
    spec fn enacted_view(v: Self::V, b: <Self::Block as View>::V) -> Self::V;

    /// Applies a verified block. On failure nothing is applied: the state is
    /// exactly what it was before the call.
    fn enact(&mut self, block: Self::Block) -> (r: Result<(), Self::Error>)
        ensures
            r is Ok <==> Self::enact_ok(old(self)@, block@),
            r is Ok ==> final(self)@ == Self::enacted_view(old(self)@, block@),
            r is Err ==> *final(self) == *old(self),
    ;
}

} // verus!
