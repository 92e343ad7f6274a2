//! Syntactic validation of cache keys, done before any storage call.
use vstd::prelude::*;
use crate::errors::ServerError;

verus! {

/// The longest cache key accepted, in characters.
pub const MAX_HASH_LEN: usize = 128;

/// The characters a cache key may hold: ASCII letters and digits, which
/// covers hexadecimal digits of either case.
pub open spec fn is_key_char(c: char) -> bool {
    ('0' <= c && c <= '9') || ('a' <= c && c <= 'z') || ('A' <= c && c <= 'Z')
}

/// A well-formed cache key: non-empty, at most `MAX_HASH_LEN` characters,
/// each one a key character.
pub open spec fn valid_hash(s: Seq<char>) -> bool {
    &&& 0 < s.len() <= MAX_HASH_LEN
    &&& forall|i: int| 0 <= i < s.len() ==> is_key_char(#[trigger] s[i])
}

/// Whether `c` may appear in a cache key.
pub fn key_char(c: char) -> (r: bool)
    ensures
        r == is_key_char(c),
{
    ('0' <= c && c <= '9') || ('a' <= c && c <= 'z') || ('A' <= c && c <= 'Z')
}

/// Accepts a well-formed cache key and rejects any other with `BadRequest`.
pub fn validate_hash(hash: &str) -> (r: Result<(), ServerError>)
    ensures
        r is Ok <==> valid_hash(hash@),
        r is Err ==> r == Err::<(), ServerError>(ServerError::BadRequest),
{
    let n = hash.unicode_len();
    if n == 0 || n > MAX_HASH_LEN {
        return Err(ServerError::BadRequest);
    }
    let mut i: usize = 0;
    while i < n
        invariant
            n == hash@.len(),
            0 < n <= MAX_HASH_LEN,
            i <= n,
            forall|k: int| 0 <= k < i ==> is_key_char(#[trigger] hash@[k]),
        decreases n - i,
    {
        if !key_char(hash.get_char(i)) {
            return Err(ServerError::BadRequest);
        }
        i = i + 1;
    }
    Ok(())
}

} // verus!
