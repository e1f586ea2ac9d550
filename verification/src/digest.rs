//! Checksums of file contents and hexadecimal dumps.

use sha2::Digest;
use vstd::prelude::*;
use vstd::slice::slice_subrange;
use vstd::string::StrSliceExecFns;
use crate::text::{lowercased, push_char, to_lowercase};

verus! {

/// The SHA-256 digest of a byte string.
pub uninterp spec fn sha256(data: Seq<u8>) -> Seq<u8>;

/// The MD5 digest of a byte string.
pub uninterp spec fn md5(data: Seq<u8>) -> Seq<u8>;

/// `Sha256::digest` of the crate `sha2`: the digest is a function of the data
/// alone.
#[verifier::external_body]
pub(crate) fn sha256_digest(data: &[u8]) -> (d: Vec<u8>)
    ensures
        d@ == sha256(data@),
{
    sha2::Sha256::digest(data).to_vec()
}

/// `Md5::digest` of the crate `md-5`: the digest is a function of the data
/// alone.
#[verifier::external_body]
pub(crate) fn md5_digest(data: &[u8]) -> (d: Vec<u8>)
    ensures
        d@ == md5(data@),
{
    md5::Md5::digest(data).to_vec()
}

/// `hex::encode`: two lower-case hexadecimal digits for each byte, the high
/// half first.
#[verifier::external_body]
pub(crate) fn hex_encode(bytes: &[u8]) -> (s: String)
    ensures
        s@ == lower_hex(bytes@),
{
    hex::encode(bytes)
}

/// The sixteen hexadecimal digits, lower case.
pub open spec fn lower_hex_digits() -> Seq<char> {
    "0123456789abcdef"@
}

/// A byte string in hexadecimal: two lower-case digits for each byte, the
/// high half first.
pub open spec fn lower_hex(bytes: Seq<u8>) -> Seq<char> {
    Seq::new(
        2 * bytes.len(),
        |i: int|
            if i % 2 == 0 {
                lower_hex_digits()[bytes[i / 2] as int / 16]
            } else {
                lower_hex_digits()[bytes[i / 2] as int % 16]
            },
    )
}

/// The checksum algorithms.
#[derive(Debug, Clone, Copy, PartialEq, Eq, Structural)]
pub enum HashAlgorithm {
    Sha256,
    Md5,
}

/// The algorithm that a name in lower case stands for: SHA-256 for `sha256`,
/// MD5 for every other name.
pub open spec fn algorithm_for(lower: Seq<char>) -> HashAlgorithm {
    if lower == "sha256"@ {
        HashAlgorithm::Sha256
    } else {
        HashAlgorithm::Md5
    }
}

/// The algorithm that a name stands for: the one for its lower-case form.
pub open spec fn algorithm_named(name: Seq<char>) -> HashAlgorithm {
    algorithm_for(lowercased(name))
}

/// The digest of `data` under an algorithm.
pub open spec fn digest_of(algorithm: HashAlgorithm, data: Seq<u8>) -> Seq<u8> {
    match algorithm {
        HashAlgorithm::Sha256 => sha256(data),
        HashAlgorithm::Md5 => md5(data),
    }
}

/// Picks the algorithm that a name in lower case stands for.
pub fn algorithm_for_lowercase(lower: &str) -> (a: HashAlgorithm)
    ensures
        a == algorithm_for(lower@),
{
    if lower.to_owned() == "sha256".to_owned() {
        HashAlgorithm::Sha256
    } else {
        HashAlgorithm::Md5
    }
}

/// Picks the algorithm that a name stands for, whatever the case of its
/// letters.
pub fn algorithm_by_name(name: &str) -> (a: HashAlgorithm)
    ensures
        a == algorithm_named(name@),
{
    let lower = to_lowercase(name);
    algorithm_for_lowercase(lower.as_str())
}

/// Renders bytes in lower-case hexadecimal.
pub fn to_lower_hex(bytes: &[u8]) -> (s: String)
    ensures
        s@ == lower_hex(bytes@),
{
    proof {
        reveal_strlit("0123456789abcdef");
    }
    let digits = "0123456789abcdef";
    let mut s = String::new();
    let mut i: usize = 0;
    while i < bytes.len()
        invariant
            i <= bytes.len(),
            digits@ == lower_hex_digits(),
            digits@.len() == 16,
            s@.len() == 2 * i,
            forall|j: int| 0 <= j < 2 * i ==> s@[j] == lower_hex(bytes@)[j],
        decreases bytes.len() - i,
    {
        let b: u8 = bytes[i];
        let high = digits.get_char((b / 16) as usize);
        let low = digits.get_char((b % 16) as usize);
        push_char(&mut s, high);
        push_char(&mut s, low);
        i += 1;
    }
    assert(s@ =~= lower_hex(bytes@));
    s
}

/// The checksum of `data` in lower-case hexadecimal, under the algorithm that
/// `algo` names.
pub fn calculate_hash(data: &[u8], algo: &str) -> (s: String)
    ensures
        s@ == lower_hex(digest_of(algorithm_named(algo@), data@)),
{
    let digest = match algorithm_by_name(algo) {
        HashAlgorithm::Sha256 => sha256_digest(data),
        HashAlgorithm::Md5 => md5_digest(data),
    };
    to_lower_hex(digest.as_slice())
}

/// The first `limit` bytes of `contents`, or all of them if there are fewer,
/// in lower-case hexadecimal.
pub fn read_file_hex(contents: &[u8], limit: usize) -> (s: String)
    ensures
        s@ == lower_hex(
            contents@.subrange(
                0,
                if limit < contents@.len() {
                    limit as int
                } else {
                    contents@.len() as int
                },
            ),
        ),
{
    let n: usize = if limit < contents.len() {
        limit
    } else {
        contents.len()
    };
    hex_encode(slice_subrange(contents, 0, n))
}

} // verus!
