use vstd::prelude::*;

verus! {

/// Why a byte buffer could not be read back as a block.
#[derive(Debug, Clone, Copy, PartialEq, Eq, Structural)]
pub enum DecodeError {
    /// The buffer ends before the block does.
    Truncated,
    /// The buffer holds bytes after the end of the block.
    TrailingBytes,
}

/// A type that converts losslessly to and from a byte buffer.
///
/// Decoding is fallible: a buffer that is the encoding of no value is rejected.
pub trait ByteEncodable: Sized + View {
    /// Whether a value can be written out at all (its counts fit the format).
    spec fn encodable(v: Self::V) -> bool;

    /// The bytes that encode a value.
    spec fn encoding(v: Self::V) -> Seq<u8>;

    /// The bytes of this value.
    fn encode(&self) -> (r: Vec<u8>)
        requires
            Self::encodable(self@),
        ensures
            r@ == Self::encoding(self@),
    ;

    /// The value whose encoding is `bytes`, or an error if there is none.
    fn decode(bytes: &[u8]) -> (r: Result<Self, DecodeError>)
        ensures
            match r {
                Ok(b) => Self::encodable(b@) && Self::encoding(b@) == bytes@,
                Err(_) => forall|v: Self::V| #[trigger] Self::encoding(v) == bytes@ ==> !Self::encodable(v),
            },
    ;

    /// Distinct encodable values have distinct encodings.
    proof fn lemma_encoding_injective(a: Self::V, b: Self::V)
        requires
            Self::encodable(a),
            Self::encodable(b),
            Self::encoding(a) == Self::encoding(b),
        ensures
            a == b,
    ;
}

/// The value that a buffer encodes, if any.
pub open spec fn decoded<T: ByteEncodable>(bytes: Seq<u8>) -> Option<T::V> {
    if exists|v: T::V| T::encodable(v) && T::encoding(v) == bytes {
        Some(choose|v: T::V| T::encodable(v) && T::encoding(v) == bytes)
    } else {
        None
    }
}

/// Decoding the encoding of an encodable value gives that value back.
pub proof fn lemma_round_trip<T: ByteEncodable>(v: T::V)
    requires
        T::encodable(v),
    ensures
        decoded::<T>(T::encoding(v)) == Some(v),
{
    let bytes = T::encoding(v);
    assert(T::encodable(v) && T::encoding(v) == bytes);
    assert(decoded::<T>(bytes) is Some);
    let w = decoded::<T>(bytes)->0;
    assert(T::encodable(w) && T::encoding(w) == bytes);
    T::lemma_encoding_injective(v, w);
}

/// A block: a parent reference, a height, its own identifier and its transactions.
///
/// What a block holds is its view; every accessor is a function of the view.
pub trait Block: Sized + ByteEncodable {
    /// The transactions this kind of block carries.
    type Transaction: Clone;

    /// The identifier of a block, usually a hash.
    type Id: Eq;

    /// The parent named by a block's content.
    spec fn parent_of(v: Self::V) -> Self::Id;

    /// The height recorded in a block's content.
    spec fn number_of(v: Self::V) -> u64;

    /// The identifier of a block's content.
    spec fn id_of(v: Self::V) -> Self::Id;

    /// The transactions of a block's content, in order.
    spec fn transactions_of(v: Self::V) -> Seq<Self::Transaction>;

    /// Whether two identifiers are the same.
    fn ids_equal(a: &Self::Id, b: &Self::Id) -> (r: bool)
        ensures
            r <==> *a == *b,
    ;

    /// This block's parent, by identifier.
    fn parent(&self) -> (r: Self::Id)
        ensures
            r == Self::parent_of(self@),
    ;

    /// This block's height: 0 for a genesis block, one more than its parent otherwise.
    fn number(&self) -> (r: u64)
        ensures
            r == Self::number_of(self@),
    ;

    /// This block's identifier.
    fn id(&self) -> (r: Self::Id)
        ensures
            r == Self::id_of(self@),
    ;

    /// The transactions in this block, in order.
    fn transactions(&self) -> (r: &[Self::Transaction])
        ensures
            r@ == Self::transactions_of(self@),
    ;
}

/// A block that declares uncles.
pub trait HasUncles: Block {
    /// What identifies an uncle.
    type Uncle;

    /// The uncles declared by a block's content, in order.
    spec fn uncles_of(v: Self::V) -> Seq<Self::Uncle>;

    /// The uncles this block declares, in order.
    fn uncles(&self) -> (r: Vec<Self::Uncle>)
        ensures
            r@ == Self::uncles_of(self@),
    ;
}

} // verus!
