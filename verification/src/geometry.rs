//! Block sizes: the positive powers of two that fit in 64 bits, and how the
//! geometry fields of the filesystem families stand for them.

use vstd::prelude::*;
use vstd::arithmetic::power::{lemma_pow_positive, pow};
use vstd::arithmetic::power2::{
    is_pow2, is_pow2_equiv, is_pow2_exists, lemma2_to64, lemma2_to64_rest, lemma_pow2_adds,
    lemma_pow2_strictly_increases, pow2,
};
use vstd::bits::{lemma_u64_pow2_no_overflow, lemma_u64_shl_is_mul};

verus! {

/// The largest `log_block_size` of an ext4 superblock whose block size fits
/// in 64 bits.
pub const MAX_LOG_BLOCK_SIZE: u32 = 53;

/// The block size that a size field holds: the number itself if it is a
/// positive power of two, else none.
pub open spec fn plain_block_size(field: nat) -> Option<u64> {
    if field <= u64::MAX && is_pow2(field as int) {
        Some(field as u64)
    } else {
        None
    }
}

/// The block size that a shift field stands for: two to the power `shift`
/// if that fits in 64 bits, else none.
pub open spec fn shifted_one(shift: nat) -> Option<u64> {
    if shift < 64 {
        Some(pow2(shift) as u64)
    } else {
        None
    }
}

/// The ext4 block size `1024 << log_block_size` if that fits in 64 bits,
/// else none.
pub open spec fn ext4_block_size(log_block_size: nat) -> Option<u64> {
    if 1024 * pow2(log_block_size) <= u64::MAX {
        Some((1024 * pow2(log_block_size)) as u64)
    } else {
        None
    }
}

/// Every value of `pow2` is a power of two in the sense of `is_pow2`.
pub proof fn lemma_pow2_is_pow2(k: nat)
    ensures
        is_pow2(pow2(k) as int),
{
    lemma_pow_positive(2, k);
    assert(pow(2, k) == pow2(k) as int);
    assert(is_pow2_exists(pow2(k) as int));
    is_pow2_equiv(pow2(k) as int);
}

/// A shift below 64 stands for a block size, and that is a power of two.
pub proof fn lemma_shifted_one_is_pow2(shift: nat)
    ensures
        shifted_one(shift) is Some <==> shift < 64,
        shifted_one(shift) matches Some(v) ==> is_pow2(v as int) && v == pow2(shift),
{
    if shift < 64 {
        lemma_u64_pow2_no_overflow(shift);
        lemma_pow2_is_pow2(shift);
    }
}

/// A logarithm stands for an ext4 block size exactly up to 53, and the block
/// size is then 1024 times two to that power, a power of two itself.
pub proof fn lemma_ext4_block_size_is_pow2(log: nat)
    ensures
        ext4_block_size(log) is Some <==> log <= MAX_LOG_BLOCK_SIZE,
        ext4_block_size(log) matches Some(v) ==> is_pow2(v as int) && v == 1024 * pow2(log),
{
    lemma2_to64();
    lemma2_to64_rest();
    if log < 53 {
        lemma_pow2_strictly_increases(log, 53);
    } else if log > 54 {
        lemma_pow2_strictly_increases(54, log);
    }
    if log <= 53 {
        lemma_pow2_adds(10, log);
        lemma_pow2_is_pow2(10 + log);
    }
}

/// Tells whether a number is a positive power of two.
pub fn is_power_of_two(n: u64) -> (b: bool)
    ensures
        b == is_pow2(n as int),
{
    let mut rest: u64 = n;
    proof {
        reveal(is_pow2);
    }
    if rest == 0 {
        return false;
    }
    while rest % 2 == 0
        invariant
            rest > 0,
            is_pow2(rest as int) == is_pow2(n as int),
        decreases rest,
    {
        proof {
            reveal(is_pow2);
        }
        rest = rest / 2;
    }
    rest == 1
}

/// Takes a size field for a block size if it is a positive power of two.
pub fn block_size_from_field(field: u64) -> (r: Option<u64>)
    ensures
        r == plain_block_size(field as nat),
{
    if is_power_of_two(field) {
        Some(field)
    } else {
        None
    }
}

/// Two to the power `shift`, if that fits in 64 bits.
pub fn shift_one(shift: u8) -> (r: Option<u64>)
    ensures
        r == shifted_one(shift as nat),
{
    if shift < 64 {
        proof {
            lemma_u64_pow2_no_overflow(shift as nat);
            lemma_u64_shl_is_mul(1u64, shift as u64);
        }
        Some(1u64 << (shift as u64))
    } else {
        None
    }
}

/// The block size of an ext4 volume from the logarithm in its superblock, if
/// it fits in 64 bits.
pub fn block_size_from_log(log_block_size: u32) -> (r: Option<u64>)
    ensures
        r == ext4_block_size(log_block_size as nat),
{
    proof {
        lemma_ext4_block_size_is_pow2(log_block_size as nat);
    }
    if log_block_size <= MAX_LOG_BLOCK_SIZE {
        proof {
            lemma_u64_shl_is_mul(1024u64, log_block_size as u64);
        }
        Some(1024u64 << (log_block_size as u64))
    } else {
        None
    }
}

} // verus!
