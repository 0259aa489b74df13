//! The verification rules of `SimpleBlock` chains.
use crate::chain::Chain;
use crate::provider::BlockProvider;
use crate::simple::{SimpleBlock, SimpleBlockView};
use crate::verification::{check_parent_link, link_outcome, link_result, LinkError, Verifier};
use vstd::prelude::*;

verus! {

/// Why a `SimpleBlock` was rejected.
#[derive(Debug, Clone, Copy, PartialEq, Eq, Structural)]
pub enum VerifyError {
    /// More transactions than the limit allows.
    TooManyTransactions { count: u64, limit: u64 },
    /// More uncles than the limit allows.
    TooManyUncles { count: u64, limit: u64 },
    /// An uncle names the block itself or its parent.
    BadUncle { uncle: u64 },
    /// The parent is not known to the provider.
    UnknownParent,
    /// The block's number is not one more than its parent's.
    NumberDiscontinuity { parent_number: u64, number: u64 },
    /// An uncle is not known to the provider.
    UnknownUncle { uncle: u64 },
}

/// Verifies `SimpleBlock`s: size limits, uncle sanity, and family links.
#[derive(Debug, Clone, Copy, PartialEq, Eq, Structural)]
pub struct SimpleVerifier {
    pub max_transactions: u64,
    pub max_uncles: u64,
}

/// Index `k` holds the first uncle of `v` that names the block itself or its parent.
pub open spec fn is_first_bad_uncle(v: SimpleBlockView, k: int) -> bool {
    &&& 0 <= k < v.uncles.len()
    &&& (v.uncles[k] == v.id || v.uncles[k] == v.parent)
    &&& forall|j: int| 0 <= j < k ==> v.uncles[j] != v.id && v.uncles[j] != v.parent
}

/// Index `k` holds the first uncle of `v` that `p` does not know.
pub open spec fn is_first_unknown_uncle<P: BlockProvider<Block = SimpleBlock>>(
    p: P,
    v: SimpleBlockView,
    k: int,
) -> bool {
    &&& 0 <= k < v.uncles.len()
    &&& p.stored(v.uncles[k]) is None
    &&& forall|j: int| 0 <= j < k ==> p.stored(v.uncles[j]) is Some
}

/// Every uncle of `v` is known to `p`.
pub open spec fn uncles_known<P: BlockProvider<Block = SimpleBlock>>(
    p: P,
    v: SimpleBlockView,
) -> bool {
    forall|j: int| 0 <= j < v.uncles.len() ==> p.stored(v.uncles[j]) is Some
}

impl SimpleVerifier {
    /// What the basic phase decides: the size limits.
    pub open spec fn basic_result(&self, v: SimpleBlockView) -> Result<(), VerifyError> {
        if v.transactions.len() > self.max_transactions {
            Err(
                VerifyError::TooManyTransactions {
                    count: v.transactions.len() as u64,
                    limit: self.max_transactions,
                },
            )
        } else if v.uncles.len() > self.max_uncles {
            Err(VerifyError::TooManyUncles { count: v.uncles.len() as u64, limit: self.max_uncles })
        } else {
            Ok(())
        }
    }

    /// The basic phase, with the error it gives.
    pub fn check_basic(&self, block: &SimpleBlock) -> (r: Result<(), VerifyError>)
        ensures
            r == self.basic_result(block@),
    {
        let t = block.transactions.len() as u64;
        let u = block.uncles.len() as u64;
        if t > self.max_transactions {
            Err(VerifyError::TooManyTransactions { count: t, limit: self.max_transactions })
        } else if u > self.max_uncles {
            Err(VerifyError::TooManyUncles { count: u, limit: self.max_uncles })
        } else {
            Ok(())
        }
    }

    /// The unordered phase, with the error it gives: no uncle may name the
    /// block itself or its parent.
    pub fn check_unordered(&self, block: &SimpleBlock) -> (r: Result<(), VerifyError>)
        ensures
            match r {
                Ok(()) => forall|j: int|
                    0 <= j < block@.uncles.len() ==> block@.uncles[j] != block.id
                        && block@.uncles[j] != block.parent,
                Err(e) => exists|k: int|
                    is_first_bad_uncle(block@, k) && e == (VerifyError::BadUncle {
                        uncle: block@.uncles[k],
                    }),
            },
    {
        let mut i: usize = 0;
        while i < block.uncles.len()
            invariant
                i <= block@.uncles.len(),
                forall|j: int|
                    0 <= j < i ==> block@.uncles[j] != block.id && block@.uncles[j]
                        != block.parent,
            decreases block@.uncles.len() - i,
        {
            let u = block.uncles[i];
            if u == block.id || u == block.parent {
                assert(is_first_bad_uncle(block@, i as int));
                return Err(VerifyError::BadUncle { uncle: u });
            }
            i = i + 1;
        }
        Ok(())
    }

    /// The family phase, with the error it gives: the parent link first, then
    /// every uncle must be known.
    pub fn check_family<P: BlockProvider<Block = SimpleBlock>>(
        &self,
        block: &SimpleBlock,
        provider: &P,
    ) -> (r: Result<(), VerifyError>)
        ensures
            match link_result(*provider, block@) {
                Err(LinkError::UnknownParent) => r == Err::<(), VerifyError>(
                    VerifyError::UnknownParent,
                ),
                Err(LinkError::NumberDiscontinuity { parent_number, number }) => r == Err::<
                    (),
                    VerifyError,
                >(VerifyError::NumberDiscontinuity { parent_number, number }),
                Ok(()) => match r {
                    Ok(()) => uncles_known(*provider, block@),
                    Err(e) => exists|k: int|
                        is_first_unknown_uncle(*provider, block@, k) && e == (
                        VerifyError::UnknownUncle { uncle: block@.uncles[k] }),
                },
            },
    {
        let link = check_parent_link(provider, block);
        match link {
            Err(LinkError::UnknownParent) => return Err(VerifyError::UnknownParent),
            Err(LinkError::NumberDiscontinuity { parent_number, number }) => {
                return Err(VerifyError::NumberDiscontinuity { parent_number, number });
            },
            Ok(()) => {},
        }
        let mut i: usize = 0;
        while i < block.uncles.len()
            invariant
                i <= block@.uncles.len(),
                link_result(*provider, block@) == Ok::<(), LinkError>(()),
                forall|j: int| 0 <= j < i ==> provider.stored(block@.uncles[j]) is Some,
            decreases block@.uncles.len() - i,
        {
            let u = block.uncles[i];
            match provider.block(&u) {
                None => {
                    assert(is_first_unknown_uncle(*provider, block@, i as int));
                    return Err(VerifyError::UnknownUncle { uncle: u });
                },
                Some(_) => {},
            }
            i = i + 1;
        }
        Ok(())
    }
}

impl Verifier<SimpleBlock> for SimpleVerifier {
    type Error = VerifyError;

    open spec fn basic_ok(&self, b: SimpleBlockView) -> bool {
        self.basic_result(b) is Ok
    }

    open spec fn unordered_ok(&self, b: SimpleBlockView) -> bool {
        forall|j: int| 0 <= j < b.uncles.len() ==> b.uncles[j] != b.id && b.uncles[j] != b.parent
    }

    /// The parent link holds and every uncle is known.
    open spec fn family_ok(&self, known: spec_fn(u64) -> Option<SimpleBlockView>, b: SimpleBlockView) -> bool {
        &&& link_outcome::<SimpleBlock>(known, b) is Ok
        &&& forall|j: int| 0 <= j < b.uncles.len() ==> (#[trigger] known(b.uncles[j])) is Some
    }

    fn verify_basic(&self, block: &SimpleBlock) -> (r: Result<(), VerifyError>) {
        self.check_basic(block)
    }

    fn verify_unordered(&self, block: &SimpleBlock) -> (r: Result<(), VerifyError>) {
        self.check_unordered(block)
    }

    fn verify_family<P: BlockProvider<Block = SimpleBlock>>(
        &self,
        block: &SimpleBlock,
        provider: &P,
    ) -> (r: Result<(), VerifyError>) {
        let r = self.check_family(block, provider);
        proof {
            let known = |id: u64| provider.stored(id);
            assert(link_outcome::<SimpleBlock>(known, block@) == link_result(*provider, block@));
            if r is Err && link_result(*provider, block@) is Ok {
                let k = choose|k: int| is_first_unknown_uncle(*provider, block@, k);
                assert(known(block@.uncles[k]) is None);
            }
        }
        r
    }
}

/// The chain of `SimpleBlock`s checked by `SimpleVerifier`.
pub struct SimpleChain;

impl Chain for SimpleChain {
    type Block = SimpleBlock;

    type Verifier = SimpleVerifier;
}

} // verus!
