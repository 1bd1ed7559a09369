use mothership::fees::{split, SplitConfig};
use mothership::ids::{
    decode_base58, encode_base58, get_block_swap_state_pda, get_meme_pda, u64_le_bytes, Identifier,
};
use mothership::mining::{ends_with, mine};
use mothership::tiers;
use mothership::MothershipError;

const PROGRAM_ID_BYTES: [u8; 32] = [
    255, 86, 84, 139, 164, 175, 176, 113, 85, 242, 186, 142, 103, 245, 147, 184, 97, 71, 161, 204,
    245, 237, 199, 140, 183, 14, 98, 142, 76, 52, 206, 90,
];

const PROGRAM_ID_TEXT: &[u8] = b"JBjKCmvSK3dMPfKk1WGD8nZfw8yAZHtuZ3GLo7NpCHX7";

fn meme_encoding_at(name: &[u8], mint: &[u8], nonce: u8) -> (Vec<u8>, Vec<u8>) {
    let id = get_meme_pda(&name.to_vec(), &mint.to_vec(), nonce).unwrap();
    let enc = encode_base58(&id);
    (id.to_vec(), enc)
}

#[test]
fn program_id_encodes_to_known_text() {
    let id = Identifier::from_bytes(PROGRAM_ID_BYTES.to_vec()).unwrap();
    assert_eq!(encode_base58(&id), PROGRAM_ID_TEXT.to_vec());
}

#[test]
fn base58_round_trip() {
    let id = Identifier::from_bytes(PROGRAM_ID_BYTES.to_vec()).unwrap();
    let text = encode_base58(&id);
    let back = decode_base58(&text).unwrap();
    assert_eq!(back.to_vec(), PROGRAM_ID_BYTES.to_vec());
}

#[test]
fn decode_rejects_malformed_text() {
    assert_eq!(
        decode_base58(&b"not a base58 string!!!".to_vec()).unwrap_err(),
        MothershipError::InvalidIdentifierEncoding
    );
    // "0", "O", "I" and "l" are outside the alphabet.
    assert_eq!(
        decode_base58(&b"0OIl".to_vec()).unwrap_err(),
        MothershipError::InvalidIdentifierEncoding
    );
    // Valid alphabet but the wrong decoded length.
    assert_eq!(
        decode_base58(&b"abc".to_vec()).unwrap_err(),
        MothershipError::InvalidIdentifierEncoding
    );
}

#[test]
fn identifier_rejects_wrong_length() {
    assert_eq!(
        Identifier::from_bytes(vec![1, 2, 3]).unwrap_err(),
        MothershipError::InvalidIdentifierEncoding
    );
    assert!(Identifier::from_bytes(vec![7u8; 32]).is_ok());
}

#[test]
fn derivation_is_deterministic() {
    let a = get_block_swap_state_pda(42).unwrap();
    let b = get_block_swap_state_pda(42).unwrap();
    assert_eq!(a.to_vec(), b.to_vec());
    let c = get_block_swap_state_pda(43).unwrap();
    assert_ne!(a.to_vec(), c.to_vec());

    let (m1, _) = meme_encoding_at(b"DOGE", b"DOGESPMP", 7);
    let (m2, _) = meme_encoding_at(b"DOGE", b"DOGESPMP", 7);
    assert_eq!(m1, m2);
}

#[test]
fn u64_le_bytes_matches_little_endian() {
    assert_eq!(
        u64_le_bytes(0x0102030405060708),
        vec![8, 7, 6, 5, 4, 3, 2, 1]
    );
    assert_eq!(u64_le_bytes(0), vec![0; 8]);
    assert_eq!(u64_le_bytes(u64::MAX), vec![0xff; 8]);
}

#[test]
fn ends_with_checks_suffixes() {
    assert!(ends_with(&b"JBjK".to_vec(), &b"jK".to_vec()));
    assert!(ends_with(&b"JBjK".to_vec(), &b"".to_vec()));
    assert!(!ends_with(&b"JBjK".to_vec(), &b"JB".to_vec()));
    assert!(!ends_with(&b"K".to_vec(), &b"jK".to_vec()));
}

#[test]
fn mine_empty_suffix_wins_at_nonce_zero() {
    let m = mine(&b"DOGE".to_vec(), &b"DOGESPMP".to_vec(), &b"".to_vec()).unwrap();
    assert_eq!(m.nonce, 0);
    let (id0, _) = meme_encoding_at(b"DOGE", b"DOGESPMP", 0);
    assert_eq!(m.id.to_vec(), id0);
}

#[test]
fn mine_returns_lowest_matching_nonce() {
    // Pick the last character of the encoding at nonce 3 as the suffix: a
    // match certainly exists at nonce 3, so the miner must return the lowest
    // nonce (possibly smaller) whose encoding ends with that character.
    let (_, enc3) = meme_encoding_at(b"DOGE", b"DOGESPMP", 3);
    let suffix = vec![*enc3.last().unwrap()];
    let m = mine(&b"DOGE".to_vec(), &b"DOGESPMP".to_vec(), &suffix).unwrap();
    assert!(m.nonce <= 3);
    let (id_n, enc_n) = meme_encoding_at(b"DOGE", b"DOGESPMP", m.nonce);
    assert_eq!(m.id.to_vec(), id_n);
    assert!(enc_n.ends_with(&suffix));
    for j in 0..m.nonce {
        let (_, enc_j) = meme_encoding_at(b"DOGE", b"DOGESPMP", j);
        assert!(!enc_j.ends_with(&suffix));
    }
}

#[test]
fn mine_fails_on_impossible_suffix() {
    // A zero byte never occurs in base-58 ASCII text.
    let r = mine(&b"DOGE".to_vec(), &b"DOGESPMP".to_vec(), &vec![0u8]);
    assert_eq!(r.unwrap_err(), MothershipError::MiningFailed);
}

#[test]
fn tier_boundaries_are_closed_below() {
    let expected: [u64; 8] = [
        1_000_000, 3_000_000, 7_000_000, 15_000_000, 30_000_000, 70_000_000, 150_000_000,
        300_000_000,
    ];
    for i in 0..8 {
        let t = tiers::threshold(i);
        assert_eq!(t, expected[i]);
        assert_eq!(tiers::tier(t), i);
        if i >= 1 {
            assert_eq!(tiers::tier(t - 1), i - 1);
        }
    }
    assert_eq!(tiers::tier(0), 0);
    assert_eq!(tiers::tier(999_999), 0);
    assert_eq!(tiers::tier(u64::MAX), 7);
}

#[test]
fn velocity_limit_exact_values() {
    assert_eq!(tiers::velocity_limit(0), 1_000_000_000);
    assert_eq!(tiers::velocity_limit(1_000_000), 1_000_000_000);
    assert_eq!(tiers::velocity_limit(15_000_000), 15_000_000_000);
    assert_eq!(tiers::velocity_limit(300_000_000), 300_000_000_000);
    assert_eq!(tiers::velocity_limit(u64::MAX), 300_000_000_000);
}

#[test]
fn limits_are_monotone_on_samples() {
    let samples: [u64; 12] = [
        0,
        999_999,
        1_000_000,
        2_999_999,
        3_000_000,
        7_000_000,
        15_000_000,
        30_000_000,
        70_000_000,
        150_000_000,
        300_000_000,
        u64::MAX,
    ];
    let supply: u64 = 1_000_000_000_000;
    let top: u64 = 300_000_000;
    for w in samples.windows(2) {
        assert!(tiers::velocity_limit(w[0]) <= tiers::velocity_limit(w[1]));
        let c0 = tiers::buy_cap(w[0].saturating_mul(1), supply, top);
        let c1 = tiers::buy_cap(w[1], supply, top);
        assert!(c0 <= c1);
    }
}

#[test]
fn buy_cap_exact_values() {
    // 2e6 SOL of market cap: tier 0, rate 1 + 1 = 2 bps.
    let cap = tiers::buy_cap(2_000_000 * 1_000_000_000, 1_000_000_000, 300_000_000);
    assert_eq!(cap, 1_000_000_000 * 2 / 10_000);
    // Above the top override: 100 bps.
    let cap_top = tiers::buy_cap(300_000_000 * 1_000_000_000, 1_000_000_000, 300_000_000);
    assert_eq!(cap_top, 1_000_000_000 / 100);
    // Truncation biases the cap downward, never upward.
    let cap_small = tiers::buy_cap(0, 4_999, 300_000_000);
    assert_eq!(cap_small, 4_999 * 2 / 10_000);
    assert_eq!(cap_small, 0);
}

#[test]
fn split_conserves_every_unit() {
    let cfg = SplitConfig::new(250, vec![100, 100, 50]).unwrap();
    for gross in [
        0u64,
        1,
        999,
        10_000,
        1_000_000_000,
        (1u64 << 63) - 1,
        u64::MAX,
    ] {
        let fb = split(&cfg, gross);
        assert_eq!(fb.net + fb.total_tax, gross);
        assert_eq!(fb.components.len(), 3);
        let s: u128 = fb.components.iter().map(|c| *c as u128).sum();
        assert_eq!(s, fb.total_tax as u128);
    }
}

#[test]
fn split_exact_example() {
    let cfg = SplitConfig::new(250, vec![250]).unwrap();
    let fb = split(&cfg, 1_000_000_000);
    assert_eq!(fb.total_tax, 25_000_000);
    assert_eq!(fb.net, 975_000_000);
    assert_eq!(fb.components, vec![25_000_000]);
}

#[test]
fn split_zero_rate_is_total() {
    let cfg = SplitConfig::new(0, vec![0, 0]).unwrap();
    let fb = split(&cfg, 123_456);
    assert_eq!(fb.total_tax, 0);
    assert_eq!(fb.net, 123_456);
    assert_eq!(fb.components, vec![0, 0]);
}

#[test]
fn split_config_rejects_bad_schedules() {
    assert_eq!(
        SplitConfig::new(250, vec![100, 100]).unwrap_err(),
        MothershipError::InvalidTaxConfig
    );
    assert_eq!(
        SplitConfig::new(20_000, vec![20_000]).unwrap_err(),
        MothershipError::InvalidTaxConfig
    );
    assert_eq!(
        SplitConfig::new(250, vec![u64::MAX, 1]).unwrap_err(),
        MothershipError::InvalidTaxConfig
    );
    assert!(SplitConfig::new(0, vec![]).is_ok());
}
