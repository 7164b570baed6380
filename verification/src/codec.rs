//! The wire codec behind every erased form. A value, message or actor state
//! is flattened to a list of 64-bit words by verified code, and the word list
//! is carried as its MessagePack encoding. Only the two functions here touch
//! the serializer; everything around them is verified against the names
//! `mp_words` and `mp_read_words`.

use vstd::prelude::*;

verus! {

/// The MessagePack encoding of a word list, as `rmp_serde::to_vec` writes it.
pub uninterp spec fn mp_words(s: Seq<u64>) -> Seq<u8>;

/// The word list `rmp_serde::from_slice` reads out of a byte string, if any.
pub uninterp spec fn mp_read_words(b: Seq<u8>) -> Option<Seq<u64>>;

/// Relies on `rmp_serde::to_vec`: serializing a vector of integers into a
/// fresh byte vector always succeeds, the bytes depend on the words alone,
/// and `rmp_serde::from_slice` reads the same words back from them. The
/// serializer writes the list's length as 32 bits, so the round trip holds
/// only below 2^32 words — the `requires` keeps longer lists out. It can
/// fail only when the in-memory writer cannot allocate, and that aborts here
/// like any other out-of-memory condition.
#[verifier::external_body]
pub fn encode_words(words: &Vec<u64>) -> (r: Vec<u8>)
    requires
        words@.len() < 0x1_0000_0000,
    ensures
        r@ == mp_words(words@),
        mp_read_words(r@) == Some(words@),
{
    rmp_serde::to_vec(words).expect("serializing a word list into memory")
}

/// Relies on `rmp_serde::from_slice`: decoding yields a word list determined
/// by the bytes alone, or fails cleanly with an error value.
#[verifier::external_body]
pub fn decode_words(bytes: &Vec<u8>) -> (r: Option<Vec<u64>>)
    ensures
        match r {
            Some(words) => mp_read_words(bytes@) == Some(words@),
            None => mp_read_words(bytes@) is None,
        },
{
    rmp_serde::from_slice::<Vec<u64>>(bytes.as_slice()).ok()
}

/// Byte strings are copied, never re-encoded: the copy denotes the same
/// sequence.
pub fn clone_bytes(bytes: &Vec<u8>) -> (r: Vec<u8>)
    ensures
        r@ == bytes@,
{
    let mut r: Vec<u8> = Vec::new();
    let mut i: usize = 0;
    while i < bytes.len()
        invariant
            i <= bytes@.len(),
            r@ == bytes@.subrange(0, i as int),
        decreases bytes@.len() - i,
    {
        r.push(bytes[i]);
        i += 1;
        proof {
            assert(r@ =~= bytes@.subrange(0, i as int));
        }
    }
    proof {
        assert(r@ =~= bytes@);
    }
    r
}

} // verus!
