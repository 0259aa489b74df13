use crate::block::{Block, HasUncles};
use vstd::prelude::*;

verus! {

/// Each item of `copy` is a clone of the item of `orig` at the same place.
pub open spec fn clones_of<T: Clone>(orig: Seq<T>, copy: Seq<T>) -> bool {
    &&& copy.len() == orig.len()
    &&& forall|i: int| 0 <= i < orig.len() ==> cloned(orig[i], #[trigger] copy[i])
}

/// A clone of each item of a slice, in order.
pub fn clone_all<T: Clone>(s: &[T]) -> (r: Vec<T>)
    ensures
        clones_of(s@, r@),
{
    let mut r: Vec<T> = Vec::new();
    let mut i: usize = 0;
    while i < s.len()
        invariant
            i <= s@.len(),
            clones_of(s@.subrange(0, i as int), r@),
        decreases s@.len() - i,
    {
        let x = s[i].clone();
        r.push(x);
        i = i + 1;
    }
    r
}

/// A read-only lookup service over stored blocks, by identifier and by canonical height.
///
/// Absence is an ordinary answer: it means "unknown", not "corrupt".
pub trait BlockProvider {
    /// The kind of block this provider serves.
    type Block: Block;

    /// The block stored under an identifier, if any.
    spec fn stored(&self, id: <Self::Block as Block>::Id) -> Option<<Self::Block as View>::V>;

    /// The identifier of the canonical block at a height, if that height is known.
    spec fn canonical(&self, num: u64) -> Option<<Self::Block as Block>::Id>;

    /// The block stored under `id`, or `None` if it is unknown.
    fn block(&self, id: &<Self::Block as Block>::Id) -> (r: Option<Self::Block>)
        ensures
            match r {
                Some(b) => self.stored(*id) == Some(b@),
                None => self.stored(*id) is None,
            },
    ;

    /// The identifier of the canonical block at height `num`, or `None` if it is unknown.
    fn block_id(&self, num: u64) -> (r: Option<<Self::Block as Block>::Id>)
        ensures
            r == self.canonical(num),
    ;

    /// The transactions of the block stored under `id`: a copy of its list, or
    /// `None` exactly when `block(id)` gives `None`.
    fn transactions(&self, id: &<Self::Block as Block>::Id) -> (r: Option<
        Vec<<Self::Block as Block>::Transaction>,
    >)
        ensures
            match r {
                Some(txs) => {
                    &&& self.stored(*id) is Some
                    &&& clones_of(
                        <Self::Block as Block>::transactions_of(self.stored(*id)->0),
                        txs@,
                    )
                },
                None => self.stored(*id) is None,
            },
    {
        match self.block(id) {
            Some(b) => Some(clone_all(b.transactions())),
            None => None,
        }
    }

    /// The uncles of the block stored under `id`, or `None` exactly when
    /// `block(id)` gives `None`.
    fn uncles(&self, id: &<Self::Block as Block>::Id) -> (r: Option<
        Vec<<Self::Block as HasUncles>::Uncle>,
    >) where Self::Block: HasUncles
        ensures
            match r {
                Some(us) => {
                    &&& self.stored(*id) is Some
                    &&& us@ == <Self::Block as HasUncles>::uncles_of(self.stored(*id)->0)
                },
                None => self.stored(*id) is None,
            },
    {
        match self.block(id) {
            Some(b) => Some(b.uncles()),
            None => None,
        }
    }
}

} // verus!
