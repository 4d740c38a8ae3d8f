//! Decoding of the raw kernel tables.
//!
//! Each table is an array of unsigned 64-bit little-endian integers, one
//! record per physical frame number in ascending order.  A byte length
//! that is not a multiple of the record size is rejected with a
//! [`FormatError`]; nothing else about the contents is validated here.

use vstd::prelude::*;

use vstd::bytes::spec_u64_from_le_bytes;
use vstd::bytes::u64_from_le_bytes;
use vstd::slice::slice_subrange;

use crate::errors::FormatError;

verus! {

/// The byte size of one record: one unsigned 64-bit integer.
pub const RECORD_SIZE: usize = 8;

/// The words encoded in `bytes`: one unsigned 64-bit little-endian
/// integer per 8-byte record, in order.
pub open spec fn decoded_words(bytes: Seq<u8>) -> Seq<u64> {
    Seq::new(
        (bytes.len() / 8) as nat,
        |i: int| spec_u64_from_le_bytes(bytes.subrange(8 * i, 8 * i + 8)),
    )
}

/// Decodes one raw kernel table into its sequence of 64-bit records.
/// Succeeds exactly when the byte length is a multiple of the record
/// size; otherwise the whole buffer is rejected.
pub fn decode_words(bytes: &Vec<u8>) -> (r: Result<Vec<u64>, FormatError>)
    ensures
        r is Ok <==> bytes@.len() % 8 == 0,
        r matches Ok(words) ==> words@ == decoded_words(bytes@),
        r matches Err(e) ==> e == (FormatError { byte_len: bytes.len() }),
{
    if bytes.len() % RECORD_SIZE != 0 {
        return Err(FormatError { byte_len: bytes.len() });
    }
    let n = bytes.len() / RECORD_SIZE;
    proof {
        vstd::arithmetic::div_mod::lemma_fundamental_div_mod(bytes@.len() as int, 8);
    }
    let mut words: Vec<u64> = Vec::new();
    let mut i: usize = 0;
    while i < n
        invariant
            bytes@.len() % 8 == 0,
            n == bytes@.len() / 8,
            bytes@.len() == 8 * n,
            bytes@.len() <= usize::MAX,
            i <= n,
            words@.len() == i,
            forall|j: int| 0 <= j < i ==> words@[j] == decoded_words(bytes@)[j],
        decreases n - i,
    {
        let chunk = slice_subrange(bytes.as_slice(), 8 * i, 8 * i + 8);
        let word = u64_from_le_bytes(chunk);
        words.push(word);
        i = i + 1;
    }
    proof {
        assert(words@ =~= decoded_words(bytes@));
    }
    Ok(words)
}

} // verus!
