use crate::block::Block;
use crate::provider::BlockProvider;
use crate::state::State;
use crate::verification::{parent_link_ok, Verifier};
use vstd::prelude::*;

verus! {

/// A concrete blockchain: one kind of block bound to one kind of verifier.
pub trait Chain {
    /// The chain's kind of block.
    type Block: Block;

    /// The verifier that gates the chain's blocks.
    type Verifier: Verifier<Self::Block>;
}

/// The phase at which an import stopped, with its error.
#[derive(Debug, PartialEq, Eq)]
pub enum ImportError<V, S> {
    /// `verify_basic` rejected the block.
    Basic(V),
    /// `verify_unordered` rejected the block.
    Unordered(V),
    /// `verify_family` rejected the block.
    Family(V),
    /// The state refused the block's effects.
    Enact(S),
}

/// Runs the three verification phases in order, stopping at the first error,
/// and enacts the block only if all of them passed.
///
/// The state changes only through a successful `enact`.
pub fn import_block<
    B: Block,
    V: Verifier<B>,
    P: BlockProvider<Block = B>,
    S: State<Block = B>,
>(verifier: &V, provider: &P, state: &mut S, block: B) -> (r: Result<
    (),
    ImportError<V::Error, S::Error>,
>)
    ensures
        match r {
            Ok(()) => {
                &&& verifier.basic_ok(block@)
                &&& verifier.unordered_ok(block@)
                &&& verifier.family_ok(|id: B::Id| provider.stored(id), block@)
                &&& parent_link_ok(*provider, block@)
                &&& S::enact_ok(old(state)@, block@)
                &&& final(state)@ == S::enacted_view(old(state)@, block@)
            },
            Err(ImportError::Basic(_)) => {
                &&& !verifier.basic_ok(block@)
                &&& *final(state) == *old(state)
            },
            Err(ImportError::Unordered(_)) => {
                &&& verifier.basic_ok(block@)
                &&& !verifier.unordered_ok(block@)
                &&& *final(state) == *old(state)
            },
            Err(ImportError::Family(_)) => {
                &&& verifier.basic_ok(block@)
                &&& verifier.unordered_ok(block@)
                &&& !verifier.family_ok(|id: B::Id| provider.stored(id), block@)
                &&& *final(state) == *old(state)
            },
            Err(ImportError::Enact(_)) => {
                &&& verifier.basic_ok(block@)
                &&& verifier.unordered_ok(block@)
                &&& verifier.family_ok(|id: B::Id| provider.stored(id), block@)
                &&& parent_link_ok(*provider, block@)
                &&& !S::enact_ok(old(state)@, block@)
                &&& *final(state) == *old(state)
            },
        },
{
    match verifier.verify_basic(&block) {
        Err(e) => return Err(ImportError::Basic(e)),
        Ok(()) => {},
    }
    match verifier.verify_unordered(&block) {
        Err(e) => return Err(ImportError::Unordered(e)),
        Ok(()) => {},
    }
    match verifier.verify_family(&block, provider) {
        Err(e) => return Err(ImportError::Family(e)),
        Ok(()) => {},
    }
    match state.enact(block) {
        Err(e) => Err(ImportError::Enact(e)),
        Ok(()) => Ok(()),
    }
}

} // verus!
