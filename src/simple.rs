//! A concrete block: identifiers, heights, transactions and uncles are all words.
use crate::block::{Block, ByteEncodable, DecodeError, HasUncles};
use crate::codec::{
    lemma_word_bytes, lemma_words_injective, lemma_words_len, push_word,
    push_words, read_word, read_words, word_bytes, words_bytes,
};
use vstd::prelude::*;
use vstd::slice::slice_to_vec;

verus! {

/// A block whose identifiers and transactions are 64-bit words.
pub struct SimpleBlock {
    pub parent: u64,
    pub number: u64,
    pub id: u64,
    pub transactions: Vec<u64>,
    pub uncles: Vec<u64>,
}

/// What a `SimpleBlock` holds.
pub ghost struct SimpleBlockView {
    pub parent: u64,
    pub number: u64,
    pub id: u64,
    pub transactions: Seq<u64>,
    pub uncles: Seq<u64>,
}

impl View for SimpleBlock {
    type V = SimpleBlockView;

    open spec fn view(&self) -> SimpleBlockView {
        SimpleBlockView {
            parent: self.parent,
            number: self.number,
            id: self.id,
            transactions: self.transactions@,
            uncles: self.uncles@,
        }
    }
}

/// The fixed part of the layout: parent, number, id and the transaction count.
pub open spec fn header_bytes(v: SimpleBlockView) -> Seq<u8> {
    word_bytes(v.parent) + word_bytes(v.number) + word_bytes(v.id) + word_bytes(
        v.transactions.len() as u64,
    )
}

/// The layout of a block: its header, its transactions, the uncle count, its uncles.
pub open spec fn block_bytes(v: SimpleBlockView) -> Seq<u8> {
    header_bytes(v) + words_bytes(v.transactions) + word_bytes(v.uncles.len() as u64)
        + words_bytes(v.uncles)
}

/// Where each field of a block stands in its layout.
pub proof fn lemma_block_layout(v: SimpleBlockView)
    ensures
        ({
            let b = block_bytes(v);
            let t = v.transactions.len() as int;
            let u = v.uncles.len() as int;
            &&& b.len() == 40 + 8 * t + 8 * u
            &&& b.subrange(0, 8) == word_bytes(v.parent)
            &&& b.subrange(8, 16) == word_bytes(v.number)
            &&& b.subrange(16, 24) == word_bytes(v.id)
            &&& b.subrange(24, 32) == word_bytes(t as u64)
            &&& b.subrange(32, 32 + 8 * t) == words_bytes(v.transactions)
            &&& b.subrange(32 + 8 * t, 40 + 8 * t) == word_bytes(u as u64)
            &&& b.subrange(40 + 8 * t, 40 + 8 * t + 8 * u) == words_bytes(v.uncles)
        }),
{
    let t = v.transactions.len() as int;
    let u = v.uncles.len() as int;
    lemma_word_bytes(v.parent);
    lemma_word_bytes(v.number);
    lemma_word_bytes(v.id);
    lemma_word_bytes(t as u64);
    lemma_word_bytes(u as u64);
    lemma_words_len(v.transactions);
    lemma_words_len(v.uncles);
    let b = block_bytes(v);
    assert(b.subrange(0, 8) =~= word_bytes(v.parent));
    assert(b.subrange(8, 16) =~= word_bytes(v.number));
    assert(b.subrange(16, 24) =~= word_bytes(v.id));
    assert(b.subrange(24, 32) =~= word_bytes(t as u64));
    assert(b.subrange(32, 32 + 8 * t) =~= words_bytes(v.transactions));
    assert(b.subrange(32 + 8 * t, 40 + 8 * t) =~= word_bytes(u as u64));
    assert(b.subrange(40 + 8 * t, 40 + 8 * t + 8 * u) =~= words_bytes(v.uncles));
}

impl ByteEncodable for SimpleBlock {
    /// Both counts fit in a word.
    open spec fn encodable(v: SimpleBlockView) -> bool {
        v.transactions.len() <= u64::MAX && v.uncles.len() <= u64::MAX
    }

    open spec fn encoding(v: SimpleBlockView) -> Seq<u8> {
        block_bytes(v)
    }

    fn encode(&self) -> (r: Vec<u8>) {
        let mut out: Vec<u8> = Vec::new();
        push_word(&mut out, self.parent);
        push_word(&mut out, self.number);
        push_word(&mut out, self.id);
        push_word(&mut out, self.transactions.len() as u64);
        push_words(&mut out, self.transactions.as_slice());
        push_word(&mut out, self.uncles.len() as u64);
        push_words(&mut out, self.uncles.as_slice());
        assert(out@ =~= block_bytes(self@));
        out
    }

    fn decode(bytes: &[u8]) -> (r: Result<Self, DecodeError>) {
        SimpleBlock::parse(bytes)
    }

    proof fn lemma_encoding_injective(a: SimpleBlockView, b: SimpleBlockView) {
        lemma_block_layout(a);
        lemma_block_layout(b);
        lemma_word_bytes(a.parent);
        lemma_word_bytes(b.parent);
        lemma_word_bytes(a.number);
        lemma_word_bytes(b.number);
        lemma_word_bytes(a.id);
        lemma_word_bytes(b.id);
        lemma_word_bytes(a.transactions.len() as u64);
        lemma_word_bytes(b.transactions.len() as u64);
        let t = a.transactions.len();
        assert(t == b.transactions.len());
        lemma_words_injective(a.transactions, b.transactions);
        lemma_word_bytes(a.uncles.len() as u64);
        lemma_word_bytes(b.uncles.len() as u64);
        assert(a.uncles.len() == b.uncles.len());
        lemma_words_injective(a.uncles, b.uncles);
    }
}

/// Some proper prefix of `bytes` is the encoding of a block.
pub open spec fn has_block_prefix(bytes: Seq<u8>) -> bool {
    exists|v: SimpleBlockView, k: int|
        #![trigger block_bytes(v), bytes.subrange(0, k)]
        0 <= k < bytes.len() && SimpleBlock::encodable(v) && block_bytes(v) == bytes.subrange(0, k)
}

impl SimpleBlock {
    /// Reads a block from its bytes. A buffer that is no block's encoding is
    /// rejected: with `TrailingBytes` when a proper prefix of it is one, with
    /// `Truncated` otherwise.
    pub fn parse(bytes: &[u8]) -> (r: Result<SimpleBlock, DecodeError>)
        ensures
            match r {
                Ok(b) => SimpleBlock::encodable(b@) && block_bytes(b@) == bytes@,
                Err(e) => {
                    &&& forall|v: SimpleBlockView| #[trigger]
                        block_bytes(v) == bytes@ ==> !SimpleBlock::encodable(v)
                    &&& (e == DecodeError::TrailingBytes <==> has_block_prefix(bytes@))
                },
            },
    {
        let n = bytes.len();
        proof {
            assert(bytes@.subrange(0, n as int) =~= bytes@);
            assert forall|v: SimpleBlockView, k: int|
                #![trigger block_bytes(v), bytes@.subrange(0, k)]
                0 <= k <= n && block_bytes(v) == bytes@.subrange(0, k) implies 40 + 8
                * v.transactions.len() + 8 * v.uncles.len() == k by {
                lemma_block_layout(v);
            }
        }
        if n < 32 {
            return Err(DecodeError::Truncated);
        }
        let parent = read_word(bytes, 0);
        let number = read_word(bytes, 8);
        let id = read_word(bytes, 16);
        let tx_count = read_word(bytes, 24);
        proof {
            assert forall|v: SimpleBlockView, k: int|
                #![trigger block_bytes(v), bytes@.subrange(0, k)]
                32 <= k <= n && block_bytes(v) == bytes@.subrange(0, k) && Self::encodable(
                    v,
                ) implies v.transactions.len() == tx_count by {
                lemma_block_layout(v);
                lemma_word_bytes(tx_count);
                lemma_word_bytes(v.transactions.len() as u64);
                assert(bytes@.subrange(0, k).subrange(24, 32) =~= bytes@.subrange(24, 32));
            }
        }
        if tx_count > ((n - 32) / 8) as u64 {
            return Err(DecodeError::Truncated);
        }
        let t = tx_count as usize;
        let tx_end = 32 + 8 * t;
        if n - tx_end < 8 {
            return Err(DecodeError::Truncated);
        }
        let uncle_count = read_word(bytes, tx_end);
        proof {
            assert forall|v: SimpleBlockView, k: int|
                #![trigger block_bytes(v), bytes@.subrange(0, k)]
                tx_end + 8 <= k <= n && block_bytes(v) == bytes@.subrange(0, k) && Self::encodable(
                    v,
                ) && v.transactions.len() == tx_count implies v.uncles.len() == uncle_count by {
                lemma_block_layout(v);
                lemma_word_bytes(uncle_count);
                lemma_word_bytes(v.uncles.len() as u64);
                assert(bytes@.subrange(0, k).subrange(tx_end as int, tx_end + 8) =~= bytes@.subrange(
                    tx_end as int,
                    tx_end + 8,
                ));
            }
        }
        let uncle_start = tx_end + 8;
        if uncle_count > ((n - uncle_start) / 8) as u64 {
            return Err(DecodeError::Truncated);
        }
        let u = uncle_count as usize;
        let end = uncle_start + 8 * u;
        let transactions = read_words(bytes, 32, t);
        let uncles = read_words(bytes, uncle_start, u);
        let b = SimpleBlock { parent, number, id, transactions, uncles };
        proof {
            lemma_block_layout(b@);
            let prefix = bytes@.subrange(0, end as int);
            assert(prefix =~= bytes@.subrange(0, 8) + bytes@.subrange(8, 16) + bytes@.subrange(
                16,
                24,
            ) + bytes@.subrange(24, 32) + bytes@.subrange(32, tx_end as int) + bytes@.subrange(
                tx_end as int,
                uncle_start as int,
            ) + bytes@.subrange(uncle_start as int, end as int));
            assert(block_bytes(b@) =~= prefix);
        }
        if end != n {
            return Err(DecodeError::TrailingBytes);
        }
        Ok(b)
    }
}

impl Block for SimpleBlock {
    type Transaction = u64;

    type Id = u64;

    open spec fn parent_of(v: SimpleBlockView) -> u64 {
        v.parent
    }

    open spec fn number_of(v: SimpleBlockView) -> u64 {
        v.number
    }

    open spec fn id_of(v: SimpleBlockView) -> u64 {
        v.id
    }

    open spec fn transactions_of(v: SimpleBlockView) -> Seq<u64> {
        v.transactions
    }

    fn ids_equal(a: &u64, b: &u64) -> (r: bool) {
        *a == *b
    }

    fn parent(&self) -> (r: u64) {
        self.parent
    }

    fn number(&self) -> (r: u64) {
        self.number
    }

    fn id(&self) -> (r: u64) {
        self.id
    }

    fn transactions(&self) -> (r: &[u64]) {
        self.transactions.as_slice()
    }
}

impl HasUncles for SimpleBlock {
    type Uncle = u64;

    open spec fn uncles_of(v: SimpleBlockView) -> Seq<u64> {
        v.uncles
    }

    fn uncles(&self) -> (r: Vec<u64>) {
        slice_to_vec(self.uncles.as_slice())
    }
}

impl SimpleBlock {
    /// A block with the given fields.
    pub fn new(parent: u64, number: u64, id: u64, transactions: Vec<u64>, uncles: Vec<u64>) -> (r:
        SimpleBlock)
        ensures
            r@ == (SimpleBlockView {
                parent,
                number,
                id,
                transactions: transactions@,
                uncles: uncles@,
            }),
    {
        SimpleBlock { parent, number, id, transactions, uncles }
    }

    /// A copy of this block, field for field.
    pub fn duplicate(&self) -> (r: SimpleBlock)
        ensures
            r@ == self@,
    {
        SimpleBlock {
            parent: self.parent,
            number: self.number,
            id: self.id,
            transactions: slice_to_vec(self.transactions.as_slice()),
            uncles: slice_to_vec(self.uncles.as_slice()),
        }
    }
}

} // verus!
