//! Opaque names for cache entries and content hashes of files, both by
//! SHA-256.

use vstd::prelude::*;
use vstd::string::*;
use crate::paths::is_entry_name;

verus! {

/// The SHA-256 digest of `data`, written as lower-case hexadecimal digits.
pub uninterp spec fn sha256_hex(data: Seq<u8>) -> Seq<char>;

/// Whether `c` is one of the sixteen lower-case hexadecimal digits.
pub open spec fn is_hex_digit(c: char) -> bool {
    c == '0' || c == '1' || c == '2' || c == '3' || c == '4' || c == '5' || c == '6' || c == '7'
        || c == '8' || c == '9' || c == 'a' || c == 'b' || c == 'c' || c == 'd' || c == 'e' || c
        == 'f'
}

/// Whether `s` holds lower-case hexadecimal digits only.
pub open spec fn is_hex(s: Seq<char>) -> bool {
    forall|i: int| 0 <= i < s.len() ==> is_hex_digit(#[trigger] s[i])
}

/// Calls `sha256::digest` on a byte slice. Trusted: the result is the
/// hexadecimal SHA-256 digest of the bytes, a function of the bytes alone;
/// it is 64 characters long (32 digest bytes, two digits each), and every
/// character is a lower-case hexadecimal digit, as the encoder of the `hex`
/// crate writes them.
#[verifier::external_body]
pub(crate) fn digest_bytes(data: &[u8]) -> (hex: String)
    ensures
        hex@ == sha256_hex(data@),
        hex@.len() == 64,
        is_hex(hex@),
{
    sha256::digest(data)
}

/// A digest, alone or with one of the endings that the stores give their
/// files, is an entry name: it holds no separator and is neither `.` nor
/// `..`, so that in a directory it names a direct child and nothing else.
pub proof fn lemma_digest_is_entry_name(hex: Seq<char>)
    requires
        hex.len() == 64,
        is_hex(hex),
    ensures
        is_entry_name(hex),
        is_entry_name(hex + ".file"@),
        is_entry_name(hex + ".bcache"@),
{
    reveal_strlit(".file");
    reveal_strlit(".bcache");
    reveal_strlit(".");
    reveal_strlit("..");
    assert forall|i: int| 0 <= i < hex.len() implies hex[i] != '/' by {
        assert(is_hex_digit(hex[i]));
    }
    let file = hex + ".file"@;
    assert forall|i: int| 0 <= i < file.len() implies file[i] != '/' by {
        if i < 64 {
            assert(file[i] == hex[i]);
            assert(is_hex_digit(hex[i]));
        } else {
            assert(file[i] == ".file"@[i - 64]);
        }
    }
    assert(is_entry_name(file));
    let set = hex + ".bcache"@;
    assert(".bcache"@.len() == 7);
    assert forall|i: int| 0 <= i < set.len() implies set[i] != '/' by {
        if i < 64 {
            assert(set[i] == hex[i]);
            assert(is_hex_digit(hex[i]));
        } else {
            let j = i - 64;
            assert(set[i] == ".bcache"@[j]);
            assert(j == 0 || j == 1 || j == 2 || j == 3 || j == 4 || j == 5 || j == 6);
        }
    }
    assert(set.len() == 71);
    assert(is_entry_name(set));
}

/// The name under which the cache files anything that belongs to `val`.
pub open spec fn hashed(val: Seq<char>) -> Seq<char> {
    sha256_hex(vstd::utf8::encode_utf8(val))
}

/// The opaque name of a cache key: the digest of its UTF-8 bytes.
pub fn hash_string(val: &String) -> (hex: String)
    ensures
        hex@ == hashed(val@),
        hex@.len() == 64,
        is_hex(hex@),
{
    digest_bytes(val.as_str().as_bytes())
}

/// The content hash of a file whose bytes are `data`.
pub fn hash_content(data: &[u8]) -> (hex: String)
    ensures
        hex@ == sha256_hex(data@),
        hex@.len() == 64,
        is_hex(hex@),
{
    digest_bytes(data)
}

} // verus!
