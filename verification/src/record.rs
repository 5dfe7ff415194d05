//! What a type must offer to be kept in an entity store.
use vstd::prelude::*;
use crate::wire::fits_u32;

verus! {

/// The most bytes the encoding of one record may take.
pub const MAX_RECORD_SIZE: usize = 512;

/// A record with a numeric identifier and a byte encoding.
///
/// The encoding is given twice: as spec functions over the record's view,
/// and as executable code that is proved to compute them. Decoding undoes
/// encoding; that is `lemma_round_trip`.
pub trait Record: View + Sized {
    /// The identifier that the record carries.
    spec fn id_of(v: Self::V) -> u64;

    /// The bytes that stand for the record.
    spec fn encoding(v: Self::V) -> Seq<u8>;

    /// The record that the bytes stand for, if they stand for one.
    spec fn decoding(bytes: Seq<u8>) -> Option<Self::V>;

    /// Decoding the encoding of a record gives the record back.
    proof fn lemma_round_trip(v: Self::V)
        requires
            fits_u32(Self::encoding(v).len()),
        ensures
            Self::decoding(Self::encoding(v)) == Some(v),
    ;

    fn id(&self) -> (id: u64)
        ensures
            id == Self::id_of(self@),
    ;

    fn encode(&self) -> (bytes: Vec<u8>)
        ensures
            bytes@ == Self::encoding(self@),
    ;

    fn decode(bytes: &[u8]) -> (r: Option<Self>)
        ensures
            match r {
                Some(rec) => Self::decoding(bytes@) == Some(rec@),
                None => Self::decoding(bytes@) is None,
            },
    ;

    /// A second record with the same content.
    fn duplicate(&self) -> (copy: Self)
        ensures
            copy@ == self@,
    ;
}

/// Whether the record's encoding is within the bound of the stores.
pub open spec fn storable<T: Record>(v: T::V) -> bool {
    T::encoding(v).len() <= MAX_RECORD_SIZE
}

/// The record's encoding, unless it is over the bound of the stores.
pub fn encode_bounded<T: Record>(rec: &T) -> (r: Option<Vec<u8>>)
    ensures
        match r {
            Some(bytes) => storable::<T>(rec@) && bytes@ == T::encoding(rec@),
            None => !storable::<T>(rec@),
        },
{
    let bytes = rec.encode();
    if bytes.len() <= MAX_RECORD_SIZE {
        Some(bytes)
    } else {
        None
    }
}

/// A record that the stores can hold is read back as it was written.
pub proof fn lemma_storable_round_trip<T: Record>(v: T::V)
    requires
        storable::<T>(v),
    ensures
        T::decoding(T::encoding(v)) == Some(v),
{
    T::lemma_round_trip(v);
}

} // verus!
