//! A state that keeps one canonical chain and the transactions it applied.
use crate::provider::BlockProvider;
use crate::simple::{SimpleBlock, SimpleBlockView};
use crate::state::State;
use crate::verification::parent_link_ok;
use vstd::prelude::*;

verus! {

/// Why a `LedgerState` refused a block.
#[derive(Debug, Clone, Copy, PartialEq, Eq, Structural)]
pub enum EnactError {
    /// The block's number is not the next height of the chain.
    WrongHeight { expected: u64, found: u64 },
    /// The block's parent is not the current tip.
    NotChildOfTip { tip: u64, parent: u64 },
}

/// What a `LedgerState` holds: the canonical chain of identifiers, lowest
/// height first, and every transaction applied so far, in order.
pub ghost struct LedgerView {
    pub chain: Seq<u64>,
    pub applied: Seq<u64>,
}

/// What enacting `b` on `s` gives: a block extends the chain only as the
/// single child of its tip, at the next height.
pub open spec fn enact_result(s: LedgerView, b: SimpleBlockView) -> Result<(), EnactError> {
    if b.number != s.chain.len() {
        Err(EnactError::WrongHeight { expected: s.chain.len() as u64, found: b.number })
    } else if s.chain.len() > 0 && b.parent != s.chain.last() {
        Err(EnactError::NotChildOfTip { tip: s.chain.last(), parent: b.parent })
    } else {
        Ok(())
    }
}

/// The state after `b` was enacted on `s`.
pub open spec fn enacted(s: LedgerView, b: SimpleBlockView) -> LedgerView {
    LedgerView { chain: s.chain.push(b.id), applied: s.applied + b.transactions }
}

/// A ledger that grows one canonical block at a time.
pub struct LedgerState {
    chain: Vec<u64>,
    applied: Vec<u64>,
}

impl View for LedgerState {
    type V = LedgerView;

    closed spec fn view(&self) -> LedgerView {
        LedgerView { chain: self.chain@, applied: self.applied@ }
    }
}

impl LedgerState {
    /// A ledger with no block.
    pub fn new() -> (r: LedgerState)
        ensures
            r@.chain.len() == 0,
            r@.applied.len() == 0,
    {
        LedgerState { chain: Vec::new(), applied: Vec::new() }
    }

    /// How many blocks the chain holds.
    pub fn height(&self) -> (r: u64)
        ensures
            r == self@.chain.len(),
    {
        self.chain.len() as u64
    }

    /// The identifier of the highest block, if any.
    pub fn tip(&self) -> (r: Option<u64>)
        ensures
            r == (if self@.chain.len() == 0 {
                None
            } else {
                Some(self@.chain.last())
            }),
    {
        let n = self.chain.len();
        if n == 0 {
            None
        } else {
            Some(self.chain[n - 1])
        }
    }

    /// The identifier of the block at height `num`, if the chain reaches it.
    pub fn id_at(&self, num: u64) -> (r: Option<u64>)
        ensures
            r == (if num < self@.chain.len() {
                Some(self@.chain[num as int])
            } else {
                None
            }),
    {
        if num < self.chain.len() as u64 {
            Some(self.chain[num as usize])
        } else {
            None
        }
    }

    /// Every transaction applied so far, in order.
    pub fn applied_transactions(&self) -> (r: &[u64])
        ensures
            r@ == self@.applied,
    {
        self.applied.as_slice()
    }

    /// Enacts a block, all or nothing.
    pub fn apply(&mut self, block: SimpleBlock) -> (r: Result<(), EnactError>)
        ensures
            r == enact_result(old(self)@, block@),
            r is Ok ==> final(self)@ == enacted(old(self)@, block@),
            r is Err ==> *final(self) == *old(self),
    {
        let n = self.chain.len();
        if block.number != n as u64 {
            return Err(EnactError::WrongHeight { expected: n as u64, found: block.number });
        }
        if n > 0 && block.parent != self.chain[n - 1] {
            return Err(EnactError::NotChildOfTip { tip: self.chain[n - 1], parent: block.parent });
        }
        self.chain.push(block.id);
        let mut i: usize = 0;
        let ghost start = self.applied@;
        while i < block.transactions.len()
            invariant
                i <= block@.transactions.len(),
                self.chain@ == old(self).chain@.push(block.id),
                self.applied@ == start + block@.transactions.subrange(0, i as int),
            decreases block@.transactions.len() - i,
        {
            self.applied.push(block.transactions[i]);
            assert(block@.transactions.subrange(0, i + 1) =~= block@.transactions.subrange(
                0,
                i as int,
            ).push(block@.transactions[i as int]));
            i = i + 1;
        }
        assert(block@.transactions.subrange(0, block@.transactions.len() as int)
            =~= block@.transactions);
        Ok(())
    }
}

impl State for LedgerState {
    type Block = SimpleBlock;

    type Error = EnactError;

    open spec fn enact_ok(v: LedgerView, b: SimpleBlockView) -> bool {
        enact_result(v, b) is Ok
    }

    open spec fn enacted_view(v: LedgerView, b: SimpleBlockView) -> LedgerView {
        enacted(v, b)
    }

    fn enact(&mut self, block: SimpleBlock) -> (r: Result<(), EnactError>) {
        self.apply(block)
    }
}

/// Once a block has been enacted, no block of the same number can be enacted
/// after it: the chain takes a single child at each height.
pub proof fn lemma_enact_exclusive(s: LedgerView, b1: SimpleBlockView, b2: SimpleBlockView)
    requires
        enact_result(s, b1) is Ok,
        b2.number == b1.number,
    ensures
        enact_result(enacted(s, b1), b2) is Err,
{
}

/// Two blocks with one parent, neither naming itself as its parent, that both
/// pass the family link check against the same provider have the same number.
pub proof fn lemma_linked_siblings_same_number<P: BlockProvider<Block = SimpleBlock>>(
    p: P,
    b1: SimpleBlockView,
    b2: SimpleBlockView,
)
    requires
        parent_link_ok(p, b1),
        parent_link_ok(p, b2),
        b1.parent == b2.parent,
        b1.parent != b1.id,
        b2.parent != b2.id,
    ensures
        b1.number == b2.number,
{
}

/// Of two sibling blocks, neither naming itself as its parent, that pass the
/// family link check against one provider, at most one can be enacted: after
/// one succeeds, the other fails.
pub proof fn lemma_siblings_enact_exclusive<P: BlockProvider<Block = SimpleBlock>>(
    p: P,
    s: LedgerView,
    b1: SimpleBlockView,
    b2: SimpleBlockView,
)
    requires
        parent_link_ok(p, b1),
        parent_link_ok(p, b2),
        b1.parent == b2.parent,
        b1.parent != b1.id,
        b2.parent != b2.id,
        enact_result(s, b1) is Ok,
    ensures
        enact_result(enacted(s, b1), b2) is Err,
{
    lemma_linked_siblings_same_number(p, b1, b2);
    lemma_enact_exclusive(s, b1, b2);
}

} // verus!
