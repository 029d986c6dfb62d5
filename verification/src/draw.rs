//! The randomness engine: a rolling seed that is hashed together with fresh
//! entropy at every draw, and a stream generator seeded from the result.

use vstd::prelude::*;
use rand::{RngCore, SeedableRng};
use rand_chacha::ChaChaRng;
use sha2::{Digest, Sha256};
use crate::entropy::push_bytes;

verus! {

/// The SHA-256 digest of `data`, as the `sha2` crate computes it.
pub uninterp spec fn sha256(data: Seq<u8>) -> Seq<u8>;

/// The first 32-bit word that a ChaCha20 generator of the `rand_chacha`
/// crate yields when it is fresh from `seed`.
pub uninterp spec fn chacha20_first_word(seed: Seq<u8>) -> u32;

/// Calls `sha2::Sha256::digest` on `data` and returns the 32 bytes of the
/// digest. Taken on trust: the result is the SHA-256 digest of exactly
/// these bytes, which depends on nothing else.
#[verifier::external_body]
fn sha256_digest(data: &[u8]) -> (digest: [u8; 32])
    ensures
        digest@ == sha256(data@),
{
    Sha256::digest(data).into()
}

/// Seeds a `rand_chacha::ChaChaRng` with `SeedableRng::from_seed` and takes
/// one word from it with `RngCore::next_u32`. Taken on trust: the generator
/// starts at the beginning of stream zero of the key `seed`, so its first
/// word depends on the seed and on nothing else.
#[verifier::external_body]
fn chacha20_word(seed: [u8; 32]) -> (word: u32)
    ensures
        word == chacha20_first_word(seed@),
{
    let mut rng = ChaChaRng::from_seed(seed);
    rng.next_u32()
}

/// The seed chain after `entropy` has been mixed into `seed`.
pub open spec fn next_seed(seed: Seq<u8>, entropy: Seq<u8>) -> Seq<u8> {
    sha256(seed + entropy)
}

/// The board index that a generator word stands for: the remainder of the
/// word by the board size. Where the board size does not divide 2^32 the
/// lowest indices come up very slightly more often than the others.
pub open spec fn index_of_word(word: u32, board_size: u8) -> u8
    recommends
        board_size > 0,
{
    (word as int % board_size as int) as u8
}

/// The index that a draw from the seed chain `seed` yields, `seed` being the
/// chain after the draw's entropy was mixed in.
pub open spec fn drawn_index(seed: Seq<u8>, board_size: u8) -> u8
    recommends
        board_size > 0,
{
    index_of_word(chacha20_first_word(seed), board_size)
}

/// Reduces a generator word to a board index.
pub fn pick_index(word: u32, board_size: u8) -> (index: u8)
    requires
        board_size > 0,
    ensures
        index == index_of_word(word, board_size),
        index < board_size,
{
    let reduced: u32 = word % (board_size as u32);
    reduced as u8
}

/// Mixes `entropy` into the seed chain.
pub fn advance_seed(seed: &mut [u8; 32], entropy: &[u8])
    ensures
        final(seed)@ == next_seed(old(seed)@, entropy@),
{
    let mut buf: Vec<u8> = Vec::new();
    push_bytes(&mut buf, seed.as_slice());
    push_bytes(&mut buf, entropy);
    assert(buf@ =~= old(seed)@ + entropy@);
    *seed = sha256_digest(buf.as_slice());
}

/// One draw: mixes `entropy` into the seed chain, then takes a board index
/// from a generator seeded with the new chain value.
pub fn draw(seed: &mut [u8; 32], entropy: &[u8], board_size: u8) -> (index: u8)
    requires
        board_size > 0,
    ensures
        final(seed)@ == next_seed(old(seed)@, entropy@),
        index == drawn_index(final(seed)@, board_size),
        index < board_size,
{
    advance_seed(seed, entropy);
    let word: u32 = chacha20_word(*seed);
    pick_index(word, board_size)
}

} // verus!
