use vstd::arithmetic::div_mod::lemma_add_mod_noop;
use vstd::prelude::*;

use crate::text::{hex16, to_hex16};

verus! {

/// Length in bytes of the head block and of the tail block.
pub const HASH_BLK_SIZE: u64 = 65536;

/// Number of 8-byte words in one block.
pub const WORDS_PER_BLOCK: usize = 8192;

/// 2^64: the accumulator wraps at this modulus.
pub open spec fn word_modulus() -> int {
    0x1_0000_0000_0000_0000
}

/// The little-endian value of the eight bytes of `b` that start at `o`.
pub open spec fn le_word(b: Seq<u8>, o: int) -> int {
    b[o] + 256 * (b[o + 1] + 256 * (b[o + 2] + 256 * (b[o + 3] + 256 * (b[o + 4] + 256 * (
    b[o + 5] + 256 * (b[o + 6] + 256 * b[o + 7]))))))
}

/// The (unbounded) sum of the first `n` little-endian words of `b`.
pub open spec fn word_sum(b: Seq<u8>, n: nat) -> int
    decreases n,
{
    if n == 0 {
        0
    } else {
        word_sum(b, (n - 1) as nat) + le_word(b, 8 * (n - 1))
    }
}

/// The fingerprint value: the size plus every word of the head block and of the
/// tail block, modulo 2^64.
pub open spec fn fingerprint_value(size: u64, head: Seq<u8>, tail: Seq<u8>) -> u64 {
    ((size + word_sum(head, 8192) + word_sum(tail, 8192)) % word_modulus()) as u64
}

/// Decodes the eight bytes of `b` that start at `o` as a little-endian integer.
fn decode_le_u64(b: &[u8], o: usize) -> (r: u64)
    requires
        o + 8 <= b@.len(),
    ensures
        r == le_word(b@, o as int),
{
    let len = b.len();
    assert(o + 7 < len);
    let w7 = b[o + 7] as u64;
    let w6 = b[o + 6] as u64 + 256 * w7;
    assert(w6 < 0x1_0000);
    let w5 = b[o + 5] as u64 + 256 * w6;
    assert(w5 < 0x100_0000);
    let w4 = b[o + 4] as u64 + 256 * w5;
    assert(w4 < 0x1_0000_0000);
    let w3 = b[o + 3] as u64 + 256 * w4;
    assert(w3 < 0x100_0000_0000);
    let w2 = b[o + 2] as u64 + 256 * w3;
    assert(w2 < 0x1_0000_0000_0000);
    let w1 = b[o + 1] as u64 + 256 * w2;
    assert(w1 < 0x100_0000_0000_0000);
    b[o] as u64 + 256 * w1
}

/// Adds, with wrap-around, each little-endian word of the block of `data` that
/// starts at `start` to `acc`.
fn add_block(acc: u64, data: &[u8], start: usize) -> (r: u64)
    requires
        start + HASH_BLK_SIZE <= data@.len(),
    ensures
        r == (acc + word_sum(data@.subrange(start as int, start + HASH_BLK_SIZE), 8192))
            % word_modulus(),
{
    let ghost block = data@.subrange(start as int, start + HASH_BLK_SIZE);
    let len = data.len();
    let mut h: u64 = acc;
    let mut i: usize = 0;
    while i < WORDS_PER_BLOCK
        invariant
            i <= WORDS_PER_BLOCK,
            start + HASH_BLK_SIZE <= data@.len(),
            len == data@.len(),
            block == data@.subrange(start as int, start + HASH_BLK_SIZE),
            h == (acc + word_sum(block, i as nat)) % word_modulus(),
        decreases WORDS_PER_BLOCK - i,
    {
        let w = decode_le_u64(data, start + 8 * i);
        assert(le_word(block, 8 * i) == le_word(data@, start + 8 * i));
        proof {
            let before = acc + word_sum(block, i as nat);
            lemma_add_mod_noop(before, w as int, word_modulus());
            assert(w as int % word_modulus() == w as int);
            assert((h + w) % word_modulus() == (before + w) % word_modulus());
            assert(word_sum(block, (i + 1) as nat) == word_sum(block, i as nat) + le_word(
                block,
                8 * i,
            ));
        }
        proof {
            if h + w >= word_modulus() {
                vstd::arithmetic::div_mod::lemma_mod_sub_multiples_vanish(
                    h + w,
                    word_modulus(),
                );
                vstd::arithmetic::div_mod::lemma_small_mod(
                    (h + w - word_modulus()) as nat,
                    word_modulus() as nat,
                );
            } else {
                vstd::arithmetic::div_mod::lemma_small_mod((h + w) as nat, word_modulus() as nat);
            }
        }
        h = h.wrapping_add(w);
        i = i + 1;
    }
    h
}

/// Why a fingerprint could not be computed.
#[derive(Clone, Copy, Debug, PartialEq, Eq, Structural)]
pub enum HashError {
    /// The file is shorter than one block.
    FileTooSmall,
    /// A block handed over does not hold exactly one block of bytes: the read fell short.
    IncompleteBlock,
}

/// The fingerprint of a file of `size` bytes whose first block is `head` and whose
/// last block is `tail`, or the error that applies.
pub open spec fn fingerprint_result(size: u64, head: Seq<u8>, tail: Seq<u8>) -> Result<
    u64,
    HashError,
> {
    if size < HASH_BLK_SIZE {
        Err(HashError::FileTooSmall)
    } else if head.len() != HASH_BLK_SIZE || tail.len() != HASH_BLK_SIZE {
        Err(HashError::IncompleteBlock)
    } else {
        Ok(fingerprint_value(size, head, tail))
    }
}

/// The rendered fingerprint (sixteen lowercase hex digits), or the error that applies.
pub open spec fn hash_result(size: u64, head: Seq<u8>, tail: Seq<u8>) -> Result<
    Seq<char>,
    HashError,
> {
    match fingerprint_result(size, head, tail) {
        Ok(v) => Ok(hex16(v)),
        Err(e) => Err(e),
    }
}

/// The rendered fingerprint of a file whose whole contents are `contents`: taken
/// over its length, its first block and its last block (which overlap when the
/// file is shorter than two blocks), or the error that applies.
pub open spec fn contents_result(contents: Seq<u8>) -> Result<Seq<char>, HashError> {
    if contents.len() < HASH_BLK_SIZE || contents.len() > u64::MAX {
        Err(HashError::FileTooSmall)
    } else {
        hash_result(
            contents.len() as u64,
            contents.subrange(0, HASH_BLK_SIZE as int),
            contents.subrange(contents.len() - HASH_BLK_SIZE, contents.len() as int),
        )
    }
}

/// The fingerprint value of a file of `size` bytes from its first and last block.
pub fn fingerprint_value_of(size: u64, head: &[u8], tail: &[u8]) -> (r: Result<u64, HashError>)
    ensures
        r == fingerprint_result(size, head@, tail@),
{
    if size < HASH_BLK_SIZE {
        return Err(HashError::FileTooSmall);
    }
    if head.len() != WORDS_PER_BLOCK * 8 || tail.len() != WORDS_PER_BLOCK * 8 {
        return Err(HashError::IncompleteBlock);
    }
    let h = add_block(size, head, 0);
    let h = add_block(h, tail, 0);
    assert(head@.subrange(0, HASH_BLK_SIZE as int) =~= head@);
    assert(tail@.subrange(0, HASH_BLK_SIZE as int) =~= tail@);
    proof {
        let m = word_modulus();
        let a = size + word_sum(head@, 8192);
        let b = word_sum(tail@, 8192);
        vstd::arithmetic::div_mod::lemma_add_mod_noop(a, b, m);
        vstd::arithmetic::div_mod::lemma_mod_twice(b, m);
        vstd::arithmetic::div_mod::lemma_add_mod_noop(a % m, b, m);
        vstd::arithmetic::div_mod::lemma_mod_twice(a, m);
    }
    Ok(h)
}

/// The fingerprint of a file of `size` bytes whose first block is `head` and
/// whose last block is `tail`, as sixteen lowercase hexadecimal digits.
pub fn create_hash(size: u64, head: &[u8], tail: &[u8]) -> (r: Result<String, HashError>)
    ensures
        match r {
            Ok(s) => hash_result(size, head@, tail@) == Ok::<Seq<char>, HashError>(s@),
            Err(e) => hash_result(size, head@, tail@) == Err::<Seq<char>, HashError>(e),
        },
{
    match fingerprint_value_of(size, head, tail) {
        Ok(v) => Ok(to_hex16(v)),
        Err(e) => Err(e),
    }
}

/// The fingerprint of a file held whole in memory.
pub fn hash_contents(contents: &[u8]) -> (r: Result<String, HashError>)
    ensures
        match r {
            Ok(s) => contents_result(contents@) == Ok::<Seq<char>, HashError>(s@),
            Err(e) => contents_result(contents@) == Err::<Seq<char>, HashError>(e),
        },
{
    let len = contents.len();
    if len < WORDS_PER_BLOCK * 8 || len as u128 > u64::MAX as u128 {
        return Err(HashError::FileTooSmall);
    }
    let size = len as u64;
    let h = add_block(size, contents, 0);
    let h = add_block(h, contents, len - WORDS_PER_BLOCK * 8);
    proof {
        let m = word_modulus();
        let a = size + word_sum(contents@.subrange(0, 65536), 8192);
        let b = word_sum(contents@.subrange(len - 65536, len as int), 8192);
        vstd::arithmetic::div_mod::lemma_add_mod_noop(a, b, m);
        vstd::arithmetic::div_mod::lemma_mod_twice(b, m);
        vstd::arithmetic::div_mod::lemma_add_mod_noop(a % m, b, m);
        vstd::arithmetic::div_mod::lemma_mod_twice(a, m);
    }
    Ok(to_hex16(h))
}

/// A file of exactly one block is its own head and tail block: its fingerprint is
/// its size plus twice the sum of its words, modulo 2^64.
pub proof fn lemma_single_block_file(contents: Seq<u8>)
    requires
        contents.len() == HASH_BLK_SIZE,
    ensures
        contents_result(contents) == Ok::<Seq<char>, HashError>(
            hex16(((HASH_BLK_SIZE + 2 * word_sum(contents, 8192)) % word_modulus()) as u64),
        ),
{
    assert(contents.subrange(0, HASH_BLK_SIZE as int) =~= contents);
    assert(contents.subrange(contents.len() - HASH_BLK_SIZE, contents.len() as int) =~= contents);
}

/// Two files of one length that agree on their first and on their last block have
/// the same fingerprint, whatever lies between.
pub proof fn lemma_interior_ignored(a: Seq<u8>, b: Seq<u8>)
    requires
        a.len() == b.len(),
        a.subrange(0, HASH_BLK_SIZE as int) == b.subrange(0, HASH_BLK_SIZE as int),
        a.len() >= HASH_BLK_SIZE ==> a.subrange(a.len() - HASH_BLK_SIZE, a.len() as int)
            == b.subrange(b.len() - HASH_BLK_SIZE, b.len() as int),
    ensures
        contents_result(a) == contents_result(b),
{
}

/// The fingerprint is a function of the size, the head block and the tail block:
/// equal inputs give equal outcomes on every computation.
pub proof fn lemma_deterministic(
    size: u64,
    head1: Seq<u8>,
    tail1: Seq<u8>,
    head2: Seq<u8>,
    tail2: Seq<u8>,
)
    requires
        head1 == head2,
        tail1 == tail2,
    ensures
        hash_result(size, head1, tail1) == hash_result(size, head2, tail2),
{
}

} // verus!
