//! A provider that keeps its blocks in memory.
use crate::provider::{clones_of, BlockProvider};
use crate::simple::{SimpleBlock, SimpleBlockView};
use vstd::prelude::*;

verus! {

/// Index `i` holds the first block of `blocks` with identifier `id`.
pub open spec fn is_first(blocks: Seq<SimpleBlock>, id: u64, i: int) -> bool {
    &&& 0 <= i < blocks.len()
    &&& blocks[i].id == id
    &&& forall|j: int| 0 <= j < i ==> blocks[j].id != id
}

/// The block stored under `id` in a list of blocks: the first one that has it.
pub open spec fn lookup(blocks: Seq<SimpleBlock>, id: u64) -> Option<SimpleBlockView> {
    if exists|i: int| is_first(blocks, id, i) {
        Some(blocks[choose|i: int| is_first(blocks, id, i)]@)
    } else {
        None
    }
}

proof fn lemma_lookup_at(blocks: Seq<SimpleBlock>, id: u64, i: int)
    requires
        is_first(blocks, id, i),
    ensures
        lookup(blocks, id) == Some(blocks[i]@),
{
    assert(exists|k: int| is_first(blocks, id, k));
    let k = choose|k: int| is_first(blocks, id, k);
    assert(is_first(blocks, id, k));
    if k < i {
        assert(blocks[k].id != id);
    } else if i < k {
        assert(blocks[i].id != id);
    }
}

/// A block with identifier `id` at `j` means some index holds the first one.
proof fn lemma_first_exists(blocks: Seq<SimpleBlock>, id: u64, j: int)
    requires
        0 <= j < blocks.len(),
        blocks[j].id == id,
    ensures
        exists|i: int| is_first(blocks, id, i),
    decreases j,
{
    if exists|k: int| 0 <= k < j && blocks[k].id == id {
        let k = choose|k: int| 0 <= k < j && blocks[k].id == id;
        lemma_first_exists(blocks, id, k);
    } else {
        assert(is_first(blocks, id, j));
    }
}

proof fn lemma_lookup_absent(blocks: Seq<SimpleBlock>, id: u64)
    requires
        forall|j: int| 0 <= j < blocks.len() ==> blocks[j].id != id,
    ensures
        lookup(blocks, id) is None,
{
}

/// Blocks kept in memory, by identifier, with the canonical identifier of each height.
pub struct MemoryProvider {
    blocks: Vec<SimpleBlock>,
    heights: Vec<u64>,
}

impl MemoryProvider {
    /// How many heights the canonical chain has.
    pub closed spec fn canonical_len(&self) -> nat {
        self.heights@.len()
    }

    /// A provider that knows no block.
    pub fn new() -> (r: MemoryProvider)
        ensures
            forall|id: u64| r.stored(id) is None,
            forall|n: u64| r.canonical(n) is None,
            r.canonical_len() == 0,
    {
        MemoryProvider { blocks: Vec::new(), heights: Vec::new() }
    }

    /// Where in the list the block with identifier `id` is, if it is there.
    fn position(&self, id: u64) -> (r: Option<usize>)
        ensures
            match r {
                Some(i) => is_first(self.blocks@, id, i as int),
                None => forall|j: int| 0 <= j < self.blocks@.len() ==> self.blocks@[j].id != id,
            },
    {
        let mut i: usize = 0;
        while i < self.blocks.len()
            invariant
                i <= self.blocks@.len(),
                forall|j: int| 0 <= j < i ==> self.blocks@[j].id != id,
            decreases self.blocks@.len() - i,
        {
            if self.blocks[i].id == id {
                return Some(i);
            }
            i = i + 1;
        }
        None
    }

    /// Stores a block under its identifier, in place of any block stored there before.
    pub fn insert(&mut self, block: SimpleBlock)
        ensures
            forall|id: u64|
                #![trigger final(self).stored(id)]
                final(self).stored(id) == if id == block.id {
                    Some(block@)
                } else {
                    old(self).stored(id)
                },
            forall|n: u64| #![trigger final(self).canonical(n)] final(self).canonical(n) == old(self).canonical(n),
            final(self).canonical_len() == old(self).canonical_len(),
    {
        let ghost before = self.blocks@;
        let bid = block.id;
        match self.position(bid) {
            Some(i) => {
                self.blocks.set(i, block);
                proof {
                    lemma_lookup_at(self.blocks@, bid, i as int);
                }
            },
            None => {
                self.blocks.push(block);
                proof {
                    lemma_lookup_at(self.blocks@, bid, before.len() as int);
                }
            },
        }
        proof {
            assert forall|id: u64| id != bid implies #[trigger] lookup(self.blocks@, id) == lookup(
                before,
                id,
            ) by {
                if exists|i: int| is_first(before, id, i) {
                    let i = choose|i: int| is_first(before, id, i);
                    lemma_lookup_at(before, id, i);
                    assert(is_first(self.blocks@, id, i));
                    lemma_lookup_at(self.blocks@, id, i);
                } else {
                    assert forall|j: int| 0 <= j < self.blocks@.len() implies self.blocks@[j].id
                        != id by {
                        if j < before.len() && before[j].id == id {
                            lemma_first_exists(before, id, j);
                        }
                    }
                    lemma_lookup_absent(self.blocks@, id);
                }
            }
        }
    }

    /// Makes `id` the canonical block at the next height.
    pub fn push_canonical(&mut self, id: u64)
        ensures
            forall|id: u64| #![trigger final(self).stored(id)] final(self).stored(id) == old(self).stored(id),
            forall|n: u64|
                #![trigger final(self).canonical(n)]
                final(self).canonical(n) == if n == old(self).canonical_len() {
                    Some(id)
                } else {
                    old(self).canonical(n)
                },
            final(self).canonical_len() == old(self).canonical_len() + 1,
    {
        self.heights.push(id);
    }
}

impl BlockProvider for MemoryProvider {
    type Block = SimpleBlock;

    closed spec fn stored(&self, id: u64) -> Option<SimpleBlockView> {
        lookup(self.blocks@, id)
    }

    closed spec fn canonical(&self, num: u64) -> Option<u64> {
        if num < self.heights@.len() {
            Some(self.heights@[num as int])
        } else {
            None
        }
    }

    fn block(&self, id: &u64) -> (r: Option<SimpleBlock>) {
        match self.position(*id) {
            Some(i) => {
                proof {
                    lemma_lookup_at(self.blocks@, *id, i as int);
                }
                Some(self.blocks[i].duplicate())
            },
            None => {
                proof {
                    lemma_lookup_absent(self.blocks@, *id);
                }
                None
            },
        }
    }

    fn block_id(&self, num: u64) -> (r: Option<u64>) {
        if num < self.heights.len() as u64 {
            Some(self.heights[num as usize])
        } else {
            None
        }
    }
}

/// A clone of a word is the word itself, so for `SimpleBlock`s the copy that
/// `transactions(id)` hands out is exactly the transaction list of `block(id)`.
pub proof fn lemma_word_clones_equal(orig: Seq<u64>, copy: Seq<u64>)
    requires
        clones_of(orig, copy),
    ensures
        copy == orig,
{
    assert forall|i: int| 0 <= i < orig.len() implies copy[i] == orig[i] by {
        assert(cloned(orig[i], copy[i]));
    }
    assert(copy =~= orig);
}

} // verus!
