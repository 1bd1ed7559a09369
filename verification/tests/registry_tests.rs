use mothership::ids::{encode_base58, get_vault_pda, Identifier};
use mothership::registry::{make_label, MothershipClient};
use mothership::MothershipError;

fn fresh_client() -> MothershipClient {
    MothershipClient::new().unwrap()
}

#[test]
fn new_client_has_keys() {
    let c = fresh_client();
    assert_eq!(c.get_bls_pk().len(), 48);
    let deployer_text = c.get_deployer();
    // The deployer address decodes back to 32 bytes.
    let back = mothership::ids::decode_base58(&deployer_text).unwrap();
    assert_eq!(back.to_vec().len(), 32);
}

#[test]
fn distinct_clients_have_distinct_identities() {
    let a = fresh_client();
    let b = fresh_client();
    assert_ne!(a.get_deployer(), b.get_deployer());
    assert_ne!(a.get_bls_pk(), b.get_bls_pk());
}

#[test]
fn labels_are_normalized() {
    assert_eq!(make_label(&b"doge".to_vec()), b"DOGESPMP".to_vec());
    assert_eq!(make_label(&b"DoGe42".to_vec()), b"DOGE42SPMP".to_vec());
    assert_eq!(make_label(&b"".to_vec()), b"SPMP".to_vec());
}

#[test]
fn register_records_an_active_entry() {
    let mut c = fresh_client();
    let resp = c
        .register_with_suffix(&b"DOGE".to_vec(), &b"doge".to_vec(), &b"".to_vec(), 1_000)
        .unwrap();
    assert_eq!(resp.spmp_mint, b"DOGESPMP".to_vec());
    assert_eq!(resp.vanity_program_id.to_vec().len(), 32);
    assert_eq!(resp.rotator_pk.to_vec().len(), 32);
    assert_eq!(resp.mothership_pda.to_vec().len(), 32);
}

#[test]
fn register_refuses_duplicate_labels() {
    let mut c = fresh_client();
    c.register_with_suffix(&b"DOGE".to_vec(), &b"doge".to_vec(), &b"".to_vec(), 1_000)
        .unwrap();
    // Same label, even via different casing of the symbol.
    let r = c.register_with_suffix(&b"OTHER".to_vec(), &b"DOGE".to_vec(), &b"".to_vec(), 2_000);
    assert_eq!(r.unwrap_err(), MothershipError::DuplicateLabel);
    // A different label is fine.
    assert!(c
        .register_with_suffix(&b"PEPE".to_vec(), &b"pepe".to_vec(), &b"".to_vec(), 2_000)
        .is_ok());
}

#[test]
fn rotation_respects_dwell_time() {
    let mut c = fresh_client();
    let resp = c
        .register_with_suffix(&b"DOGE".to_vec(), &b"doge".to_vec(), &b"".to_vec(), 1_000)
        .unwrap();
    let text = encode_base58(&resp.vanity_program_id);
    // One second early: refused.
    assert_eq!(
        c.rotate_rotator(&text, 1_000 + 3_599).unwrap_err(),
        MothershipError::TooSoon
    );
    // Exactly at the dwell boundary: granted.
    let k1 = c.rotate_rotator(&text, 1_000 + 3_600).unwrap();
    assert_eq!(k1.to_vec().len(), 32);
    // Each rotation issues a brand-new key.
    let k2 = c.rotate_rotator(&text, 1_000 + 3_600).unwrap();
    assert_ne!(k1.to_vec(), k2.to_vec());
}

#[test]
fn rotation_failure_reasons_are_distinct() {
    let mut c = fresh_client();
    // Malformed identifier text.
    assert_eq!(
        c.rotate_rotator(&b"@@@".to_vec(), 10_000).unwrap_err(),
        MothershipError::InvalidIdentifierEncoding
    );
    // Well-formed but unknown address.
    let unknown = Identifier::from_bytes(vec![9u8; 32]).unwrap();
    let unknown_text = encode_base58(&unknown);
    assert_eq!(
        c.rotate_rotator(&unknown_text, 10_000).unwrap_err(),
        MothershipError::NotFound
    );
    // A retired entry is ineligible.
    let resp = c
        .register_with_suffix(&b"DOGE".to_vec(), &b"doge".to_vec(), &b"".to_vec(), 1_000)
        .unwrap();
    let text = encode_base58(&resp.vanity_program_id);
    c.retire(&resp.vanity_program_id).unwrap();
    assert_eq!(
        c.rotate_rotator(&text, 1_000_000).unwrap_err(),
        MothershipError::Inactive
    );
}

#[test]
fn retire_unknown_address_is_not_found() {
    let mut c = fresh_client();
    let unknown = Identifier::from_bytes(vec![3u8; 32]).unwrap();
    assert_eq!(c.retire(&unknown).unwrap_err(), MothershipError::NotFound);
}

#[test]
fn retired_label_can_be_registered_again() {
    let mut c = fresh_client();
    let resp = c
        .register_with_suffix(&b"DOGE".to_vec(), &b"doge".to_vec(), &b"".to_vec(), 1_000)
        .unwrap();
    c.retire(&resp.vanity_program_id).unwrap();
    let again = c
        .register_with_suffix(&b"DOGE".to_vec(), &b"doge".to_vec(), &b"".to_vec(), 5_000)
        .unwrap();
    // The same seeds mine the same cosmetic address.
    assert_eq!(
        again.vanity_program_id.to_vec(),
        resp.vanity_program_id.to_vec()
    );
}

#[test]
fn register_meme_is_reproducible() {
    // The cosmetic address depends only on the name and the label, so two
    // independent clients agree on the outcome of the fixed-suffix search.
    let mut a = fresh_client();
    let mut b = fresh_client();
    let ra = a.register_meme(&b"DOGE".to_vec(), &b"DOGE".to_vec(), 1_000);
    let rb = b.register_meme(&b"DOGE".to_vec(), &b"DOGE".to_vec(), 1_000);
    match (ra, rb) {
        (Ok(x), Ok(y)) => {
            assert_eq!(x.vanity_program_id.to_vec(), y.vanity_program_id.to_vec());
            assert_eq!(x.spmp_mint, y.spmp_mint);
        }
        (Err(x), Err(y)) => assert_eq!(x, y),
        _ => panic!("the two searches disagreed"),
    }
}

#[test]
fn calculate_tax_exact_example() {
    let c = fresh_client();
    let fb = c.calculate_tax(1_000_000_000);
    assert_eq!(fb.total_tax, 25_000_000);
    assert_eq!(fb.net, 975_000_000);
    assert_eq!(fb.components, vec![25_000_000]);
    assert_eq!(fb.net + fb.total_tax, 1_000_000_000);
}

#[test]
fn client_limit_getters_delegate() {
    let c = fresh_client();
    assert_eq!(c.get_velocity_limit(15_000_000), 15_000_000_000);
    assert_eq!(
        c.get_buy_cap(2_000_000 * 1_000_000_000, 1_000_000_000, 300_000_000),
        200_000
    );
}

#[test]
fn vault_pda_from_text_matches_direct_derivation() {
    let c = fresh_client();
    let deployer_text = c.get_deployer();
    let via_text = c.get_vault_pda(&deployer_text).unwrap();
    let deployer_id = mothership::ids::decode_base58(&deployer_text).unwrap();
    let direct = get_vault_pda(&deployer_id).unwrap();
    assert_eq!(via_text.to_vec(), direct.to_vec());
    assert_eq!(
        c.get_vault_pda(&b"***".to_vec()).unwrap_err(),
        MothershipError::InvalidIdentifierEncoding
    );
}

#[test]
fn meme_pda_method_matches_free_function() {
    let c = fresh_client();
    let m1 = c
        .get_meme_pda(&b"DOGE".to_vec(), &b"DOGESPMP".to_vec(), 5)
        .unwrap();
    let m2 = mothership::ids::get_meme_pda(&b"DOGE".to_vec(), &b"DOGESPMP".to_vec(), 5).unwrap();
    assert_eq!(m1.to_vec(), m2.to_vec());
}
