use alloy::primitives::{keccak256, U256};
use hash_miner::pow::{encode_preimage, is_solution, meets_difficulty, search_batch};

const CHALLENGE: [u8; 32] = [0xa7; 32];

fn digest(nonce: u64) -> U256 {
    let mut buf = [0u8; 64];
    buf[..32].copy_from_slice(&CHALLENGE);
    buf[32..].copy_from_slice(&U256::from(nonce).to_be_bytes::<32>());
    U256::from_be_bytes::<32>(keccak256(buf).0)
}

#[test]
fn preimage_is_challenge_then_word() {
    let buf = encode_preimage(&CHALLENGE, 0x0102_0304_0506_0708);
    assert_eq!(buf[..32], CHALLENGE);
    assert_eq!(buf[32..56], [0u8; 24]);
    assert_eq!(buf[56..], [1, 2, 3, 4, 5, 6, 7, 8]);
}

#[test]
fn difficulty_compares_big_endian_words() {
    let mut low = [0u8; 32];
    let mut high = [0u8; 32];
    low[31] = 0xff;
    high[0] = 1;
    assert!(meets_difficulty(&low, &high));
    assert!(!meets_difficulty(&high, &low));
    assert!(!meets_difficulty(&low, &low));
}

#[test]
fn solution_is_a_digest_below_the_difficulty() {
    for nonce in [0u64, 1, 255, 256, 12345678, u64::MAX] {
        let exact = digest(nonce).to_be_bytes::<32>();
        let above = (digest(nonce) + U256::from(1u64)).to_be_bytes::<32>();
        assert!(!is_solution(&CHALLENGE, &exact, nonce));
        assert!(is_solution(&CHALLENGE, &above, nonce));
    }
}

#[test]
fn known_digest_of_the_empty_work() {
    // keccak256 of 64 zero bytes.
    let word = "ad3228b676f7d3cd4284a5443f17f1962b36e491b30a40b2405849e597ba5fb5";
    let mut digest = [0u8; 32];
    for i in 0..32 {
        digest[i] = u8::from_str_radix(&word[2 * i..2 * i + 2], 16).unwrap();
    }
    assert!(!is_solution(&[0; 32], &digest, 0));
    digest[31] += 1;
    assert!(is_solution(&[0; 32], &digest, 0));
}

#[test]
fn search_returns_the_first_solution() {
    let start = 1000u64;
    let mut best = 0u64;
    for i in 1..64u64 {
        if digest(start + i) < digest(start + best) {
            best = i;
        }
    }
    let difficulty = (digest(start + best) + U256::from(1u64)).to_be_bytes::<32>();
    assert_eq!(search_batch(&CHALLENGE, &difficulty, start, 64), Some(start + best));
    assert_eq!(search_batch(&CHALLENGE, &difficulty, start, best), None);
    assert_eq!(search_batch(&CHALLENGE, &[0xff; 32], start, 64), Some(start));
    assert_eq!(search_batch(&CHALLENGE, &[0; 32], start, 64), None);
    assert_eq!(search_batch(&CHALLENGE, &[0xff; 32], start, 0), None);
}

#[test]
fn search_wraps_past_the_largest_nonce() {
    let start = u64::MAX - 1;
    let hard = digest(1);
    if digest(u64::MAX - 1) > hard && digest(u64::MAX) > hard && digest(0) > hard {
        let difficulty = (hard + U256::from(1u64)).to_be_bytes::<32>();
        assert_eq!(search_batch(&CHALLENGE, &difficulty, start, 4), Some(1));
    }
    let last = digest(0);
    let difficulty = (last + U256::from(1u64)).to_be_bytes::<32>();
    let found = search_batch(&CHALLENGE, &difficulty, start, 3).unwrap();
    assert!(found == u64::MAX - 1 || found == u64::MAX || found == 0);
}

#[test]
fn consecutive_windows_are_one_search() {
    let difficulty = {
        let mut d = [0u8; 32];
        d[0] = 4;
        d
    };
    for start in [0u64, 77, u64::MAX - 20] {
        for (a, b) in [(0u64, 40u64), (13, 27), (40, 0)] {
            let chained = search_batch(&CHALLENGE, &difficulty, start, a)
                .or(search_batch(&CHALLENGE, &difficulty, start.wrapping_add(a), b));
            assert_eq!(chained, search_batch(&CHALLENGE, &difficulty, start, a + b));
        }
    }
}
