//! The bytes that are mixed into the seed chain before a draw.

use vstd::prelude::*;
use vstd::utf8::encode_utf8;
use crate::env::{Env, EnvView};

verus! {

/// The byte of `x` that stands `k` bytes above the lowest one.
pub open spec fn byte_of(x: u64, k: u64) -> u8 {
    ((x >> (8 * k)) & 0xff) as u8
}

/// The eight bytes of `x`, most significant first.
pub open spec fn be_bytes(x: u64) -> Seq<u8> {
    seq![
        byte_of(x, 7),
        byte_of(x, 6),
        byte_of(x, 5),
        byte_of(x, 4),
        byte_of(x, 3),
        byte_of(x, 2),
        byte_of(x, 1),
        byte_of(x, 0),
    ]
}

/// What the second player to join adds to the seed chain: the caller's
/// identity and the chain identifier as UTF-8, then block height, block time
/// and the caller's secret, each as eight big-endian bytes.
pub open spec fn join_entropy(env: EnvView, secret: u64) -> Seq<u8> {
    encode_utf8(env.sender) + encode_utf8(env.chain_id) + be_bytes(env.height) + be_bytes(
        env.time,
    ) + be_bytes(secret)
}

/// What an agreed rematch adds to the seed chain: block height and block
/// time, each as eight big-endian bytes.
pub open spec fn rematch_entropy(env: EnvView) -> Seq<u8> {
    be_bytes(env.height) + be_bytes(env.time)
}

/// Extracts one byte of `x`.
pub fn nth_byte(x: u64, k: u64) -> (b: u8)
    requires
        k < 8,
    ensures
        b == byte_of(x, k),
{
    let shifted: u64 = (x >> (8 * k)) & 0xff;
    assert(shifted <= 0xff) by (bit_vector)
        requires
            shifted == (x >> (8 * k)) & 0xff,
    ;
    shifted as u8
}

/// Appends the eight big-endian bytes of `x` to `buf`.
pub fn push_be_bytes(buf: &mut Vec<u8>, x: u64)
    ensures
        final(buf)@ == old(buf)@ + be_bytes(x),
{
    buf.push(nth_byte(x, 7));
    buf.push(nth_byte(x, 6));
    buf.push(nth_byte(x, 5));
    buf.push(nth_byte(x, 4));
    buf.push(nth_byte(x, 3));
    buf.push(nth_byte(x, 2));
    buf.push(nth_byte(x, 1));
    buf.push(nth_byte(x, 0));
    assert(buf@ =~= old(buf)@ + be_bytes(x));
}

/// Appends the bytes of `bytes` to `buf`.
pub fn push_bytes(buf: &mut Vec<u8>, bytes: &[u8])
    ensures
        final(buf)@ == old(buf)@ + bytes@,
{
    let mut i: usize = 0;
    while i < bytes.len()
        invariant
            i <= bytes@.len(),
            buf@ == old(buf)@ + bytes@.subrange(0, i as int),
        decreases bytes@.len() - i,
    {
        buf.push(bytes[i]);
        i += 1;
        assert(buf@ =~= old(buf)@ + bytes@.subrange(0, i as int));
    }
    assert(bytes@.subrange(0, i as int) =~= bytes@);
}

/// Gathers the entropy of a join.
pub fn gather_join_entropy(env: &Env, secret: u64) -> (bytes: Vec<u8>)
    ensures
        bytes@ == join_entropy(env@, secret),
{
    let mut buf: Vec<u8> = Vec::new();
    push_bytes(&mut buf, env.sender.as_str().as_bytes());
    push_bytes(&mut buf, env.chain_id.as_str().as_bytes());
    push_be_bytes(&mut buf, env.height);
    push_be_bytes(&mut buf, env.time);
    push_be_bytes(&mut buf, secret);
    assert(buf@ =~= join_entropy(env@, secret));
    buf
}

/// Gathers the entropy of a rematch.
pub fn gather_rematch_entropy(env: &Env) -> (bytes: Vec<u8>)
    ensures
        bytes@ == rematch_entropy(env@),
{
    let mut buf: Vec<u8> = Vec::new();
    push_be_bytes(&mut buf, env.height);
    push_be_bytes(&mut buf, env.time);
    assert(buf@ =~= rematch_entropy(env@));
    buf
}

} // verus!
