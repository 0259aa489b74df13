use crate::block::Block;
use crate::provider::BlockProvider;
use vstd::prelude::*;

verus! {

/// Why a block does not link to its parent.
#[derive(Debug, Clone, Copy, PartialEq, Eq, Structural)]
pub enum LinkError {
    /// The parent is not known to the provider.
    UnknownParent,
    /// The block's number is not one more than its parent's.
    NumberDiscontinuity { parent_number: u64, number: u64 },
}

/// How a block links to its parent, where `known` gives the block stored
/// under each identifier.
///
/// A genesis block is numbered 0 and names itself, or an unknown block, as its
/// parent; it needs nothing more. Any other block needs a known parent whose
/// number is one less than its own.
pub open spec fn link_outcome<B: Block>(known: spec_fn(B::Id) -> Option<B::V>, b: B::V) -> Result<
    (),
    LinkError,
> {
    let n = B::number_of(b);
    let parent = B::parent_of(b);
    if n == 0 && (parent == B::id_of(b) || known(parent) is None) {
        Ok(())
    } else {
        match known(parent) {
            None => Err(LinkError::UnknownParent),
            Some(pv) => if B::number_of(pv) + 1 == n {
                Ok(())
            } else {
                Err(LinkError::NumberDiscontinuity { parent_number: B::number_of(pv), number: n })
            },
        }
    }
}

/// How a block links to its parent, as seen through a provider.
pub open spec fn link_result<P: BlockProvider>(p: P, b: <P::Block as View>::V) -> Result<
    (),
    LinkError,
> {
    link_outcome::<P::Block>(|id: <P::Block as Block>::Id| p.stored(id), b)
}

/// The block is a genesis block, or its parent is known and numbered one less.
pub open spec fn parent_link_ok<P: BlockProvider>(p: P, b: <P::Block as View>::V) -> bool {
    link_result(p, b) is Ok
}

/// A block that is not numbered 0 and whose parent the provider does not know
/// fails the link check, with `UnknownParent`.
pub proof fn lemma_unknown_parent_rejected<P: BlockProvider>(p: P, b: <P::Block as View>::V)
    requires
        P::Block::number_of(b) != 0,
        p.stored(P::Block::parent_of(b)) is None,
    ensures
        link_result(p, b) == Err::<(), LinkError>(LinkError::UnknownParent),
        !parent_link_ok(p, b),
{
}

/// A block whose number is not one more than its known parent's fails the link
/// check, with `NumberDiscontinuity`, unless it is a genesis naming itself as
/// its parent.
pub proof fn lemma_number_gap_rejected<P: BlockProvider>(p: P, b: <P::Block as View>::V)
    requires
        p.stored(P::Block::parent_of(b)) is Some,
        P::Block::number_of(p.stored(P::Block::parent_of(b))->0) + 1 != P::Block::number_of(b),
        !(P::Block::number_of(b) == 0 && P::Block::parent_of(b) == P::Block::id_of(b)),
    ensures
        link_result(p, b) == Err::<(), LinkError>(
            LinkError::NumberDiscontinuity {
                parent_number: P::Block::number_of(p.stored(P::Block::parent_of(b))->0),
                number: P::Block::number_of(b),
            },
        ),
        !parent_link_ok(p, b),
{
}

/// Checks a block's link to its parent: parent known, number continuous.
pub fn check_parent_link<P: BlockProvider>(provider: &P, block: &P::Block) -> (r: Result<
    (),
    LinkError,
>)
    ensures
        r == link_result(*provider, block@),
{
    let n = block.number();
    let parent_id = block.parent();
    if n == 0 && P::Block::ids_equal(&parent_id, &block.id()) {
        return Ok(());
    }
    match provider.block(&parent_id) {
        None => if n == 0 {
            Ok(())
        } else {
            Err(LinkError::UnknownParent)
        },
        Some(parent) => {
            let pn = parent.number();
            if n > 0 && pn == n - 1 {
                Ok(())
            } else {
                Err(LinkError::NumberDiscontinuity { parent_number: pn, number: n })
            }
        },
    }
}

/// The three-phase gate a block passes before it is enacted.
///
/// The phases run in order, each only after the one before succeeded:
/// `verify_basic`, then `verify_unordered`, then `verify_family`.
pub trait Verifier<B: Block> {
    /// What can go wrong during verification.
    type Error;

    /// The block passes the cheap, self-contained checks.
    spec fn basic_ok(&self, b: B::V) -> bool;

    /// The block passes the expensive checks on its own content.
    spec fn unordered_ok(&self, b: B::V) -> bool;

    /// The block passes the family checks, where `known` gives the block
    /// stored under each identifier.
    spec fn family_ok(&self, known: spec_fn(B::Id) -> Option<B::V>, b: B::V) -> bool;

    /// Phase 1: cheap structural checks on the block alone.
    fn verify_basic(&self, block: &B) -> (r: Result<(), Self::Error>)
        ensures
            r is Ok <==> self.basic_ok(block@),
    ;

    /// Phase 2: more expensive checks on the block alone, such as signatures.
    fn verify_unordered(&self, block: &B) -> (r: Result<(), Self::Error>)
        requires
            self.basic_ok(block@),
        ensures
            r is Ok <==> self.unordered_ok(block@),
    ;

    /// Phase 3: checks against the block's family, looked up through `provider`.
    /// A block whose parent is unknown, or whose number does not follow its
    /// parent's, is rejected.
    fn verify_family<P: BlockProvider<Block = B>>(&self, block: &B, provider: &P) -> (r: Result<
        (),
        Self::Error,
    >)
        requires
            self.basic_ok(block@),
            self.unordered_ok(block@),
        ensures
            r is Ok <==> self.family_ok(|id: B::Id| provider.stored(id), block@),
            r is Ok ==> parent_link_ok(*provider, block@),
    ;
}

} // verus!
