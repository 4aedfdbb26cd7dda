//! How a file's byte range is cut into the chunks of one overwrite pass.

use vstd::prelude::*;
use vstd::arithmetic::div_mod::{lemma_fundamental_div_mod, lemma_mod_multiples_basic};

verus! {

/// The number of bytes written at `offset` into a file of `length` bytes:
/// a whole block, or what is left of the file if that is less.
pub open spec fn chunk_len(length: nat, offset: nat, block: nat) -> nat {
    if offset >= length {
        0
    } else if length - offset < block {
        (length - offset) as nat
    } else {
        block
    }
}

/// The offset of the chunk that holds position `at`: the last multiple of
/// the block size that is not beyond it.
pub open spec fn chunk_start(at: nat, block: nat) -> nat
    recommends
        block > 0,
{
    ((at / block) * block) as nat
}

/// The bytes written by the chunks of one pass from `offset` on.
pub open spec fn pass_total(length: nat, offset: nat, block: nat) -> nat
    decreases
            (if offset < length {
                length - offset
            } else {
                0
            }),
{
    if block == 0 || offset >= length {
        0
    } else {
        chunk_len(length, offset, block) + pass_total(length, offset + block, block)
    }
}

/// The size of the chunk at `offset`.
pub fn chunk_size(length: u64, offset: u64, block: usize) -> (size: usize)
    requires
        offset < length,
        block > 0,
    ensures
        size == chunk_len(length as nat, offset as nat, block as nat),
        1 <= size <= block,
        offset + size <= length,
{
    let rest: u64 = length - offset;
    if rest < block as u64 {
        rest as usize
    } else {
        block
    }
}

/// A position is the start of its chunk and what is left of it in the
/// block.
proof fn lemma_chunk_start(at: nat, block: nat)
    requires
        block > 0,
    ensures
        chunk_start(at, block) + at % block == at,
        at % block < block,
{
    lemma_fundamental_div_mod(at as int, block as int);
    assert((at / block) * block == block * (at / block)) by (nonlinear_arith);
    assert(0 <= (at / block) * block) by (nonlinear_arith)
        requires
            block > 0,
            at >= 0,
    ;
}

/// Every position of the file lies in exactly the chunk that starts at the
/// last block boundary before it, and that chunk ends within the file.
pub proof fn lemma_chunks_tile(length: nat, block: nat, at: nat)
    requires
        block > 0,
        at < length,
    ensures
        chunk_start(at, block) % block == 0,
        chunk_start(at, block) <= at < chunk_start(at, block) + chunk_len(
            length,
            chunk_start(at, block),
            block,
        ),
        chunk_start(at, block) + chunk_len(length, chunk_start(at, block), block) <= length,
{
    lemma_mod_multiples_basic((at / block) as int, block as int);
    lemma_chunk_start(at, block);
}

/// Where the length is no multiple of the block size, the last chunk holds
/// the remainder and not a whole block.
pub proof fn lemma_last_chunk_is_remainder(length: nat, block: nat)
    requires
        block > 0,
        length % block != 0,
    ensures
        chunk_start(length, block) < length,
        chunk_len(length, chunk_start(length, block), block) == length % block,
        chunk_len(length, chunk_start(length, block), block) < block,
{
    lemma_chunk_start(length, block);
}

/// The chunks of a pass from `offset` on hold what is left of the file:
/// a whole pass writes as many bytes as the file has.
pub proof fn lemma_pass_total(length: nat, offset: nat, block: nat)
    requires
        block > 0,
        offset <= length,
    ensures
        pass_total(length, offset, block) == length - offset,
    decreases
            (if offset < length {
                length - offset
            } else {
                0
            }),
{
    if offset < length {
        if length - offset > block {
            lemma_pass_total(length, offset + block, block);
        } else {
            assert(pass_total(length, offset + block, block) == 0);
        }
    }
}

} // verus!
