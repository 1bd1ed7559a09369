//! Vanity miner: a bounded, deterministic search over a 256-value nonce
//! domain for a derived address whose canonical base-58 encoding ends with a
//! required suffix. The search is deterministic (same inputs, same winning
//! nonce), returns the lowest matching nonce, and failure is a distinct
//! outcome, never a placeholder identifier.
use vstd::prelude::*;

verus! {

use crate::MothershipError;
use crate::ids::{
    Identifier, base58_of, derive_address, encode_base58, pda_of, spec_meme_seeds, spec_program_id,
    views_of, meme_tag,
};

/// One byte string ends with another.
pub open spec fn spec_ends_with(s: Seq<u8>, suffix: Seq<u8>) -> bool {
    suffix.len() <= s.len() && s.subrange(s.len() - suffix.len(), s.len() as int) == suffix
}

/// Whether a byte string ends with a suffix.
pub fn ends_with(s: &Vec<u8>, suffix: &Vec<u8>) -> (r: bool)
    ensures
        r == spec_ends_with(s@, suffix@),
{
    if suffix.len() > s.len() {
        return false;
    }
    let start = s.len() - suffix.len();
    let mut j: usize = 0;
    while j < suffix.len()
        invariant
            0 <= j <= suffix@.len(),
            suffix@.len() <= s@.len(),
            s@.len() <= usize::MAX,
            start == s@.len() - suffix@.len(),
            forall|k: int| 0 <= k < j ==> s@[start + k] == suffix@[k],
        decreases suffix.len() - j,
    {
        if s[start + j] != suffix[j] {
            assert(s@.subrange(s@.len() - suffix@.len(), s@.len() as int)[j as int] != suffix@[j as int]);
            return false;
        }
        j = j + 1;
    }
    proof {
        assert(s@.subrange(s@.len() - suffix@.len(), s@.len() as int) =~= suffix@);
    }
    true
}

/// A nonce matches when the seed combination derives and the derived
/// identifier's base-58 encoding ends with the suffix.
pub open spec fn spec_nonce_matches(
    name: Seq<u8>,
    spmp_mint: Seq<u8>,
    suffix: Seq<u8>,
    nonce: u8,
) -> bool {
    match pda_of(spec_program_id(), spec_meme_seeds(name, spmp_mint, nonce)) {
        Some(p) => spec_ends_with(base58_of(p.0), suffix),
        None => false,
    }
}

/// A nonce is the winning nonce when it matches and no smaller nonce does.
pub open spec fn spec_is_first_match(
    name: Seq<u8>,
    spmp_mint: Seq<u8>,
    suffix: Seq<u8>,
    nonce: u8,
) -> bool {
    spec_nonce_matches(name, spmp_mint, suffix, nonce) && forall|j: u8|
        j < nonce ==> !spec_nonce_matches(name, spmp_mint, suffix, j)
}

/// The identifier a winning nonce derives (meaningful only under
/// `spec_is_first_match`).
pub open spec fn spec_mined_id(name: Seq<u8>, spmp_mint: Seq<u8>, nonce: u8) -> Seq<u8> {
    match pda_of(spec_program_id(), spec_meme_seeds(name, spmp_mint, nonce)) {
        Some(p) => p.0,
        None => Seq::empty(),
    }
}

/// A successful mining outcome: the derived identifier, its bump
/// discriminant, and the winning nonce.
#[derive(Debug)]
pub struct Mined {
    pub id: Identifier,
    pub bump: u8,
    pub nonce: u8,
}

/// Mines the lowest nonce in the 256-value domain whose derived address's
/// base-58 encoding ends with `suffix`. Deterministic; exactly 256 derivations
/// in the worst case; `Err(MiningFailed)` exactly when no nonce matches.
pub fn mine(name: &Vec<u8>, spmp_mint: &Vec<u8>, suffix: &Vec<u8>) -> (r: Result<
    Mined,
    MothershipError,
>)
    ensures
        r matches Ok(m) ==> spec_is_first_match(name@, spmp_mint@, suffix@, m.nonce) && pda_of(
            spec_program_id(),
            spec_meme_seeds(name@, spmp_mint@, m.nonce),
        ) == Some((m.id@, m.bump)) && m.id.wf(),
        r is Ok <==> exists|n: u8| spec_nonce_matches(name@, spmp_mint@, suffix@, n),
        r matches Err(e) ==> e == MothershipError::MiningFailed,
{
    let mut n: usize = 0;
    while n < 256
        invariant
            0 <= n <= 256,
            forall|j: u8| j < n ==> !spec_nonce_matches(name@, spmp_mint@, suffix@, j),
        decreases 256 - n,
    {
        let nonce = n as u8;
        let mut seeds: Vec<Vec<u8>> = Vec::new();
        seeds.push(meme_tag());
        seeds.push(vstd::slice::slice_to_vec(name.as_slice()));
        seeds.push(vstd::slice::slice_to_vec(spmp_mint.as_slice()));
        let mut nonce_seed: Vec<u8> = Vec::new();
        nonce_seed.push(nonce);
        seeds.push(nonce_seed);
        proof {
            assert(views_of(seeds@) =~= spec_meme_seeds(name@, spmp_mint@, nonce));
        }
        match derive_address(seeds) {
            Ok(p) => {
                let enc = encode_base58(&p.0);
                if ends_with(&enc, suffix) {
                    assert(spec_nonce_matches(name@, spmp_mint@, suffix@, nonce));
                    return Ok(Mined { id: p.0, bump: p.1, nonce });
                }
                assert(!spec_nonce_matches(name@, spmp_mint@, suffix@, nonce));
            },
            Err(_) => {
                assert(!spec_nonce_matches(name@, spmp_mint@, suffix@, nonce));
            },
        }
        n = n + 1;
    }
    assert(forall|j: u8| !spec_nonce_matches(name@, spmp_mint@, suffix@, j)) by {
        assert(forall|j: u8| 0 <= j < 256 ==> !spec_nonce_matches(name@, spmp_mint@, suffix@, j));
    }
    Err(MothershipError::MiningFailed)
}

} // verus!
