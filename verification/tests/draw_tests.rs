use minefield::draw::{advance_seed, draw, pick_index};
use minefield::entropy::{gather_join_entropy, gather_rematch_entropy, nth_byte, push_be_bytes, push_bytes};
use minefield::{Coin, Env};
use rand::{RngCore, SeedableRng};
use rand_chacha::ChaChaRng;
use sha2::{Digest, Sha256};

fn caller(sender: &str, chain_id: &str, height: u64, time: u64) -> Env {
    Env {
        sender: sender.to_string(),
        sent_funds: vec![Coin { denom: "uscrt".to_string(), amount: 100 }],
        chain_id: chain_id.to_string(),
        height,
        time,
    }
}

#[test]
fn pick_index_reduces_modulo_board_size() {
    assert_eq!(pick_index(0, 25), 0);
    assert_eq!(pick_index(24, 25), 24);
    assert_eq!(pick_index(25, 25), 0);
    assert_eq!(pick_index(u32::MAX, 25), 20);
    assert_eq!(pick_index(1234567, 10), 7);
    assert_eq!(pick_index(u32::MAX, 255), 0);
    assert_eq!(pick_index(77, 1), 0);
}

#[test]
fn advance_seed_of_zero_chain_without_entropy_is_known_digest() {
    let mut seed = [0u8; 32];
    advance_seed(&mut seed, &[]);
    let expected: [u8; 32] = [
        0x66, 0x68, 0x7a, 0xad, 0xf8, 0x62, 0xbd, 0x77, 0x6c, 0x8f, 0xc1, 0x8b, 0x8e, 0x9f, 0x8e,
        0x20, 0x08, 0x97, 0x14, 0x85, 0x6e, 0xe2, 0x33, 0xb3, 0x90, 0x2a, 0x59, 0x1d, 0x0d, 0x5f,
        0x29, 0x25,
    ];
    assert_eq!(seed, expected);
}

#[test]
fn advance_seed_hashes_the_chain_followed_by_the_entropy() {
    let mut seed = [7u8; 32];
    let entropy = [1u8, 2, 3, 4, 5];
    advance_seed(&mut seed, &entropy);
    let mut input = vec![7u8; 32];
    input.extend_from_slice(&entropy);
    let expected: [u8; 32] = Sha256::digest(&input).into();
    assert_eq!(seed, expected);

    let mut swapped = vec![1u8, 2, 3, 4, 5];
    swapped.extend_from_slice(&[7u8; 32]);
    let other: [u8; 32] = Sha256::digest(&swapped).into();
    assert_ne!(seed, other);
}

#[test]
fn draw_matches_a_generator_seeded_with_the_new_chain() {
    let mut seed = [0u8; 32];
    let index = draw(&mut seed, &[9, 9, 9], 25);

    let mut input = vec![0u8; 32];
    input.extend_from_slice(&[9, 9, 9]);
    let chain: [u8; 32] = Sha256::digest(&input).into();
    assert_eq!(seed, chain);
    let mut rng = ChaChaRng::from_seed(chain);
    let word = rng.next_u32();
    assert_eq!(index as u32, word % 25);
    assert!(index < 25);
}

#[test]
fn draws_chain_one_after_the_other() {
    let mut seed = [0u8; 32];
    let first = draw(&mut seed, &[1], 10);
    let after_first = seed;
    let second = draw(&mut seed, &[1], 10);
    assert!(first < 10);
    assert!(second < 10);
    assert_ne!(after_first, [0u8; 32]);
    assert_ne!(seed, after_first);

    let mut input = after_first.to_vec();
    input.push(1);
    let expected: [u8; 32] = Sha256::digest(&input).into();
    assert_eq!(seed, expected);
}

#[test]
fn draw_is_reproducible_from_its_inputs() {
    let mut one = [3u8; 32];
    let mut two = [3u8; 32];
    let a = draw(&mut one, &[5, 6], 25);
    let b = draw(&mut two, &[5, 6], 25);
    assert_eq!(a, b);
    assert_eq!(one, two);
}

#[test]
fn nth_byte_picks_bytes_from_the_low_end() {
    let x: u64 = 0x0102030405060708;
    assert_eq!(nth_byte(x, 0), 0x08);
    assert_eq!(nth_byte(x, 1), 0x07);
    assert_eq!(nth_byte(x, 7), 0x01);
    assert_eq!(nth_byte(u64::MAX, 3), 0xff);
    assert_eq!(nth_byte(0, 5), 0);
}

#[test]
fn push_be_bytes_appends_most_significant_first() {
    let mut buf = vec![0xaa];
    push_be_bytes(&mut buf, 0x0102030405060708);
    assert_eq!(buf, vec![0xaa, 1, 2, 3, 4, 5, 6, 7, 8]);
    let mut other = Vec::new();
    push_be_bytes(&mut other, 258);
    assert_eq!(other, 258u64.to_be_bytes().to_vec());
}

#[test]
fn push_bytes_appends_in_order() {
    let mut buf = vec![1u8];
    push_bytes(&mut buf, &[2, 3]);
    push_bytes(&mut buf, &[]);
    assert_eq!(buf, vec![1, 2, 3]);
}

#[test]
fn join_entropy_is_sender_chain_height_time_secret() {
    let env = caller("bob", "c-1", 1, 2);
    let bytes = gather_join_entropy(&env, 3);
    let mut expected = Vec::new();
    expected.extend_from_slice(b"bob");
    expected.extend_from_slice(b"c-1");
    expected.extend_from_slice(&[0, 0, 0, 0, 0, 0, 0, 1]);
    expected.extend_from_slice(&[0, 0, 0, 0, 0, 0, 0, 2]);
    expected.extend_from_slice(&[0, 0, 0, 0, 0, 0, 0, 3]);
    assert_eq!(bytes, expected);
}

#[test]
fn join_entropy_encodes_identities_as_utf8() {
    let env = caller("zo\u{eb}", "", 0, 0);
    let bytes = gather_join_entropy(&env, 0);
    assert_eq!(&bytes[..4], &[b'z', b'o', 0xc3, 0xab]);
    assert_eq!(bytes.len(), 4 + 24);
}

#[test]
fn rematch_entropy_is_height_then_time() {
    let env = caller("bob", "c-1", 0x0100, 0xffff_ffff_ffff_ffff);
    let bytes = gather_rematch_entropy(&env);
    let mut expected = vec![0, 0, 0, 0, 0, 0, 1, 0];
    expected.extend_from_slice(&[0xff; 8]);
    assert_eq!(bytes, expected);
}
