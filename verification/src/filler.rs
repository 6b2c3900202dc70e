use vstd::prelude::*;
use vstd::arithmetic::mul::lemma_mul_basics;
use vstd::arithmetic::mul::lemma_mul_is_distributive_add_other_way;

verus! {

/// Size threshold, in bytes, at which a file under generation counts as full.
pub const FILL_TARGET: u64 = 500000000;

/// Number of random characters generated and appended per write.
pub const BLOCK_LEN: usize = 1000000;

/// Whether a file of length `len` has reached the fill target.
pub open spec fn fill_complete(len: int, target: int) -> bool {
    len >= target
}

/// Termination measure of the fill loop: how far a file of length `len` still
/// is from `target`, and zero once the target is reached.
pub open spec fn fill_distance(len: int, target: int) -> int {
    if len < target {
        target - len
    } else {
        0
    }
}

/// How many more whole blocks of `block` bytes a fill loop appends before a
/// file of length `len` reaches `target`.
pub open spec fn writes_needed(len: int, target: int, block: int) -> nat
    decreases fill_distance(len, target) when block >= 1
{
    if fill_complete(len, target) || block < 1 {
        0
    } else {
        1 + writes_needed(len + block, target, block)
    }
}

/// The length a file of length `len` has once a fill loop with block size
/// `block` has stopped appending: every write lands a whole block.
pub open spec fn fill_final_len(len: int, target: int, block: int) -> int {
    len + writes_needed(len, target, block) * block
}

/// One size check of the fill loop: the number of bytes to append next to a
/// file of length `len`, or `None` once the file has reached `target`.
pub fn next_block_len(len: u64, target: u64) -> (r: Option<usize>)
    ensures
        r == if fill_complete(len as int, target as int) {
            None::<usize>
        } else {
            Some(BLOCK_LEN)
        },
{
    if len < target {
        Some(BLOCK_LEN)
    } else {
        None
    }
}

/// Appending one block to an unfinished file leaves the finishing length
/// unchanged: the loop's measure of where it will stop is stable across steps.
proof fn lemma_fill_step(len: int, target: int, block: int)
    requires
        block >= 1,
        !fill_complete(len, target),
    ensures
        fill_final_len(len, target, block) == fill_final_len(len + block, target, block),
{
    let w: int = writes_needed(len + block, target, block) as int;
    lemma_mul_is_distributive_add_other_way(block, 1, w);
    assert((1 + w) * block == 1 * block + w * block);
}

/// Every fill run stops at or above the target threshold.
pub proof fn lemma_fill_reaches_target(len: int, target: int, block: int)
    requires
        block >= 1,
    ensures
        fill_final_len(len, target, block) >= target,
    decreases fill_distance(len, target),
{
    if !fill_complete(len, target) {
        lemma_fill_step(len, target, block);
        lemma_fill_reaches_target(len + block, target, block);
    }
}

/// A fill run overshoots the target by less than one block: starting anywhere
/// below `target + block`, it stops below `target + block`.
pub proof fn lemma_fill_overshoot_bounded(len: int, target: int, block: int)
    requires
        block >= 1,
        len < target + block,
    ensures
        fill_final_len(len, target, block) < target + block,
    decreases fill_distance(len, target),
{
    if !fill_complete(len, target) {
        lemma_fill_step(len, target, block);
        lemma_fill_overshoot_bounded(len + block, target, block);
    } else {
        lemma_mul_basics(block);
    }
}

/// The finishing length of a fill run is a function of the starting length,
/// the target and the block size alone: two runs over the same configuration
/// end at the same size, whatever content each one wrote.
pub proof fn lemma_fill_size_reproducible(len: int, target: int, block: int, a: int, b: int)
    requires
        a == fill_final_len(len, target, block),
        b == fill_final_len(len, target, block),
    ensures
        a == b,
{
}

/// Runs the size-check/write alternation of one File Filler on a length
/// counter: starting from a file of `start` bytes, repeatedly appends `block`
/// bytes while the length is below `target`, and returns the final length.
pub fn final_fill_size(start: u64, target: u64, block: u64) -> (r: u64)
    requires
        1 <= block,
        target + block - 1 <= u64::MAX,
    ensures
        r as int == fill_final_len(start as int, target as int, block as int),
        r >= target,
        start < target ==> r < target + block,
        start >= target ==> r == start,
{
    let mut len: u64 = start;
    while len < target
        invariant
            1 <= block,
            target + block - 1 <= u64::MAX,
            len >= start,
            len < target ==> len + block - 1 <= u64::MAX,
            fill_final_len(len as int, target as int, block as int) == fill_final_len(
                start as int,
                target as int,
                block as int,
            ),
            start >= target ==> len == start,
        decreases fill_distance(len as int, target as int),
    {
        proof {
            lemma_fill_step(len as int, target as int, block as int);
        }
        len = len + block;
    }
    proof {
        lemma_mul_basics(block as int);
        lemma_fill_reaches_target(start as int, target as int, block as int);
        if start < target {
            lemma_fill_overshoot_bounded(start as int, target as int, block as int);
        }
    }
    len
}

} // verus!
