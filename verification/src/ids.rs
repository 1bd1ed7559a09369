//! Identifiers and the derived-address function. An identifier is a
//! fixed-length opaque byte value, produced only by deterministic derivation
//! or by asymmetric key generation. Derivation, the canonical base-58 text
//! encoding and its decoding are done by an outside library; their results are
//! named by uninterpreted functions of the inputs, and everything the library
//! proves about addresses is stated over those names.
use vstd::prelude::*;
use core::str::FromStr;

verus! {

use crate::MothershipError;

/// A fixed-length (32-byte) opaque identifier naming an account or a key.
/// Equality is byte-wise; the value is immutable once produced.
#[derive(Clone, Debug)]
pub struct Identifier {
    bytes: Vec<u8>,
}

impl View for Identifier {
    type V = Seq<u8>;

    closed spec fn view(&self) -> Seq<u8> {
        self.bytes@
    }
}

impl Identifier {
    /// An identifier always carries exactly 32 bytes.
    pub open spec fn wf(&self) -> bool {
        self@.len() == 32
    }

    /// Wraps raw bytes as an identifier; rejects any length but 32.
    pub fn from_bytes(bytes: Vec<u8>) -> (r: Result<Identifier, MothershipError>)
        ensures
            r matches Ok(id) ==> id@ == bytes@ && id.wf(),
            r is Ok <==> bytes@.len() == 32,
            r matches Err(e) ==> e == MothershipError::InvalidIdentifierEncoding,
    {
        if bytes.len() == 32 {
            Ok(Identifier { bytes })
        } else {
            Err(MothershipError::InvalidIdentifierEncoding)
        }
    }

    /// The identifier's bytes, as an owned vector.
    pub fn to_vec(&self) -> (r: Vec<u8>)
        ensures
            r@ == self@,
    {
        vstd::slice::slice_to_vec(self.bytes.as_slice())
    }

    /// A fresh copy of this identifier.
    pub fn duplicate(&self) -> (r: Identifier)
        ensures
            r@ == self@,
    {
        Identifier { bytes: vstd::slice::slice_to_vec(self.bytes.as_slice()) }
    }

    /// Byte-wise equality.
    pub fn eq_bytes(&self, other: &Identifier) -> (r: bool)
        ensures
            r == (self@ == other@),
    {
        bytes_eq(&self.bytes, &other.bytes)
    }
}

/// Byte-wise equality of two byte vectors.
pub fn bytes_eq(a: &Vec<u8>, b: &Vec<u8>) -> (r: bool)
    ensures
        r == (a@ == b@),
{
    if a.len() != b.len() {
        return false;
    }
    let mut i: usize = 0;
    while i < a.len()
        invariant
            0 <= i <= a.len(),
            a@.len() == b@.len(),
            forall|j: int| 0 <= j < i ==> a@[j] == b@[j],
        decreases a.len() - i,
    {
        if a[i] != b[i] {
            return false;
        }
        i = i + 1;
    }
    proof {
        assert(a@ =~= b@);
    }
    true
}

/// The fixed program identifier every address in this library is derived
/// under, as its 32 raw bytes.
pub open spec fn spec_program_id() -> Seq<u8> {
    seq![
        255u8, 86u8, 84u8, 139u8, 164u8, 175u8, 176u8, 113u8,
        85u8, 242u8, 186u8, 142u8, 103u8, 245u8, 147u8, 184u8,
        97u8, 71u8, 161u8, 204u8, 245u8, 237u8, 199u8, 140u8,
        183u8, 14u8, 98u8, 142u8, 76u8, 52u8, 206u8, 90u8,
    ]
}

/// The fixed program identifier, as a value.
pub fn mothership_program_id() -> (r: Identifier)
    ensures
        r@ == spec_program_id(),
        r.wf(),
{
    let mut bytes: Vec<u8> = Vec::new();
    bytes.push(255u8);
    bytes.push(86u8);
    bytes.push(84u8);
    bytes.push(139u8);
    bytes.push(164u8);
    bytes.push(175u8);
    bytes.push(176u8);
    bytes.push(113u8);
    bytes.push(85u8);
    bytes.push(242u8);
    bytes.push(186u8);
    bytes.push(142u8);
    bytes.push(103u8);
    bytes.push(245u8);
    bytes.push(147u8);
    bytes.push(184u8);
    bytes.push(97u8);
    bytes.push(71u8);
    bytes.push(161u8);
    bytes.push(204u8);
    bytes.push(245u8);
    bytes.push(237u8);
    bytes.push(199u8);
    bytes.push(140u8);
    bytes.push(183u8);
    bytes.push(14u8);
    bytes.push(98u8);
    bytes.push(142u8);
    bytes.push(76u8);
    bytes.push(52u8);
    bytes.push(206u8);
    bytes.push(90u8);
    proof {
        assert(bytes@ =~= spec_program_id());
    }
    Identifier { bytes }
}

/// The views of a list of seed byte strings.
pub open spec fn views_of(seeds: Seq<Vec<u8>>) -> Seq<Seq<u8>> {
    seeds.map_values(|s: Vec<u8>| s@)
}

/// What the derived-address search returns for a program id and a seed list:
/// the identifier and its bump discriminant, or nothing when every
/// discriminant fails for that seed combination. A pure function of its
/// arguments.
pub uninterp spec fn pda_of(program_id: Seq<u8>, seeds: Seq<Seq<u8>>) -> Option<(Seq<u8>, u8)>;

/// Law: derivation is deterministic. Any two outcomes of the derived-address
/// search on the same program id and seeds are identical.
pub proof fn lemma_derive_deterministic(
    program_id: Seq<u8>,
    seeds: Seq<Seq<u8>>,
    r1: Option<(Seq<u8>, u8)>,
    r2: Option<(Seq<u8>, u8)>,
)
    requires
        r1 == pda_of(program_id, seeds),
        r2 == pda_of(program_id, seeds),
    ensures
        r1 == r2,
{
}

/// The identifier part of a derivation outcome.
pub open spec fn pda_id(r: Option<(Seq<u8>, u8)>) -> Option<Seq<u8>> {
    match r {
        Some(p) => Some(p.0),
        None => None,
    }
}

/// The canonical base-58 text encoding (as ASCII bytes) of a 32-byte
/// identifier. A pure function of the bytes.
pub uninterp spec fn base58_of(bytes: Seq<u8>) -> Seq<u8>;

/// What decoding base-58 text into a 32-byte identifier yields: the bytes, or
/// nothing when the text is not a canonical encoding of 32 bytes. A pure
/// function of the text.
pub uninterp spec fn base58_decode_of(text: Seq<u8>) -> Option<Seq<u8>>;

/// Relies on `solana_sdk::pubkey::Pubkey::try_find_program_address`: a
/// deterministic bounded search over bump discriminants, hashing the seeds,
/// the discriminant and the program id; a pure function of program id and
/// seeds that returns `None` when no discriminant yields a valid derived
/// address (or the seed list breaks the library's seed-count or seed-length
/// limits).
#[verifier::external_body]
fn find_pda(program_id: &Identifier, seeds: &Vec<Vec<u8>>) -> (r: Option<(Identifier, u8)>)
    requires
        program_id.wf(),
    ensures
        r matches Some(p) ==> pda_of(program_id@, views_of(seeds@)) == Some((p.0@, p.1)) && p.0.wf(),
        r is None ==> pda_of(program_id@, views_of(seeds@)) is None,
{
    let pid = solana_sdk::pubkey::Pubkey::new_from_array(
        program_id.bytes.as_slice().try_into().unwrap(),
    );
    let refs: Vec<&[u8]> = seeds.iter().map(|s| s.as_slice()).collect();
    solana_sdk::pubkey::Pubkey::try_find_program_address(refs.as_slice(), &pid).map(
        |(pk, bump)| (Identifier { bytes: pk.to_bytes().to_vec() }, bump),
    )
}

/// Relies on the base-58 `Display` of `solana_sdk::pubkey::Pubkey`: the
/// canonical base-58 encoding of the 32 bytes, ASCII text, a pure function of
/// the bytes.
#[verifier::external_body]
fn encode_base58_raw(id: &Identifier) -> (r: Vec<u8>)
    requires
        id.wf(),
    ensures
        r@ == base58_of(id@),
{
    let pk = solana_sdk::pubkey::Pubkey::new_from_array(id.bytes.as_slice().try_into().unwrap());
    pk.to_string().into_bytes()
}

/// Relies on `core::str::from_utf8` and `Pubkey::from_str` (base-58 decode):
/// succeeds exactly on canonical base-58 encodings of 32 bytes; a pure
/// function of the text.
#[verifier::external_body]
fn decode_base58_raw(text: &Vec<u8>) -> (r: Option<Identifier>)
    ensures
        r matches Some(id) ==> base58_decode_of(text@) == Some(id@) && id.wf(),
        r is None ==> base58_decode_of(text@) is None,
{
    let s = core::str::from_utf8(text.as_slice()).ok()?;
    let pk = solana_sdk::pubkey::Pubkey::from_str(s).ok()?;
    Some(Identifier { bytes: pk.to_bytes().to_vec() })
}

/// The canonical base-58 text (ASCII bytes) of an identifier.
pub fn encode_base58(id: &Identifier) -> (r: Vec<u8>)
    requires
        id.wf(),
    ensures
        r@ == base58_of(id@),
{
    encode_base58_raw(id)
}

/// Decodes base-58 text into an identifier; rejects text that is not a
/// canonical encoding of 32 bytes.
pub fn decode_base58(text: &Vec<u8>) -> (r: Result<Identifier, MothershipError>)
    ensures
        r matches Ok(id) ==> base58_decode_of(text@) == Some(id@) && id.wf(),
        r is Ok <==> base58_decode_of(text@) is Some,
        r matches Err(e) ==> e == MothershipError::InvalidIdentifierEncoding,
{
    match decode_base58_raw(text) {
        Some(id) => Ok(id),
        None => Err(MothershipError::InvalidIdentifierEncoding),
    }
}

/// Relies on `solana_sdk::signature::Keypair::new` (operating-system
/// randomness) and `Signer::pubkey`: a fresh ed25519 public key. Nothing is
/// promised of the value beyond its length: two calls may differ.
#[verifier::external_body]
pub(crate) fn keygen_identifier() -> (r: Identifier)
    ensures
        r.wf(),
{
    let kp = solana_sdk::signature::Keypair::new();
    let pk = solana_sdk::signature::Signer::pubkey(&kp);
    Identifier { bytes: pk.to_bytes().to_vec() }
}

/// The seed tag under which per-user vaults are derived.
pub open spec fn spec_vault_tag() -> Seq<u8> {
    seq![122u8, 107u8, 95u8, 118u8, 97u8, 117u8, 108u8, 116u8]
}

/// The seed tag under which named assets are derived.
pub open spec fn spec_meme_tag() -> Seq<u8> {
    seq![109u8, 101u8, 109u8, 101u8]
}

/// The seed tag under which per-slot swap state is derived.
pub open spec fn spec_swap_state_tag() -> Seq<u8> {
    seq![115u8, 119u8, 97u8, 112u8, 45u8, 115u8, 116u8, 97u8, 116u8, 101u8]
}

/// The seed tag under which the mothership account itself is derived.
pub open spec fn spec_contract_tag() -> Seq<u8> {
    seq![99u8, 111u8, 110u8, 116u8, 114u8, 97u8, 99u8, 116u8]
}

fn vault_tag() -> (r: Vec<u8>)
    ensures
        r@ =~= spec_vault_tag(),
{
    let mut v: Vec<u8> = Vec::new();
    v.push(122u8);
    v.push(107u8);
    v.push(95u8);
    v.push(118u8);
    v.push(97u8);
    v.push(117u8);
    v.push(108u8);
    v.push(116u8);
    v
}

pub(crate) fn meme_tag() -> (r: Vec<u8>)
    ensures
        r@ =~= spec_meme_tag(),
{
    let mut v: Vec<u8> = Vec::new();
    v.push(109u8);
    v.push(101u8);
    v.push(109u8);
    v.push(101u8);
    v
}

fn swap_state_tag() -> (r: Vec<u8>)
    ensures
        r@ =~= spec_swap_state_tag(),
{
    let mut v: Vec<u8> = Vec::new();
    v.push(115u8);
    v.push(119u8);
    v.push(97u8);
    v.push(112u8);
    v.push(45u8);
    v.push(115u8);
    v.push(116u8);
    v.push(97u8);
    v.push(116u8);
    v.push(101u8);
    v
}

pub(crate) fn contract_tag() -> (r: Vec<u8>)
    ensures
        r@ =~= spec_contract_tag(),
{
    let mut v: Vec<u8> = Vec::new();
    v.push(99u8);
    v.push(111u8);
    v.push(110u8);
    v.push(116u8);
    v.push(114u8);
    v.push(97u8);
    v.push(99u8);
    v.push(116u8);
    v
}

/// The little-endian bytes of a 64-bit slot number.
pub open spec fn spec_u64_le(x: u64) -> Seq<u8> {
    seq![
        (x % 256) as u8,
        ((x / 256) % 256) as u8,
        ((x / 65536) % 256) as u8,
        ((x / 16777216) % 256) as u8,
        ((x / 4294967296) % 256) as u8,
        ((x / 1099511627776) % 256) as u8,
        ((x / 281474976710656) % 256) as u8,
        ((x / 72057594037927936) % 256) as u8,
    ]
}

/// Little-endian encoding of a 64-bit value.
pub fn u64_le_bytes(x: u64) -> (r: Vec<u8>)
    ensures
        r@ =~= spec_u64_le(x),
{
    let mut v: Vec<u8> = Vec::new();
    v.push((x % 256) as u8);
    v.push(((x / 256) % 256) as u8);
    v.push(((x / 65536) % 256) as u8);
    v.push(((x / 16777216) % 256) as u8);
    v.push(((x / 4294967296) % 256) as u8);
    v.push(((x / 1099511627776) % 256) as u8);
    v.push(((x / 281474976710656) % 256) as u8);
    v.push(((x / 72057594037927936) % 256) as u8);
    v
}

/// Seeds of a user's vault address.
pub open spec fn spec_vault_seeds(user: Seq<u8>) -> Seq<Seq<u8>> {
    seq![spec_vault_tag(), user]
}

/// Seeds of a named asset's address at a given nonce or bump byte.
pub open spec fn spec_meme_seeds(name: Seq<u8>, spmp_mint: Seq<u8>, nonce: u8) -> Seq<Seq<u8>> {
    seq![spec_meme_tag(), name, spmp_mint, seq![nonce]]
}

/// Seeds of the per-slot swap-state address.
pub open spec fn spec_swap_state_seeds(slot: u64) -> Seq<Seq<u8>> {
    seq![spec_swap_state_tag(), spec_u64_le(slot)]
}

/// Seeds of the mothership account of a deployer.
pub open spec fn spec_contract_seeds(deployer: Seq<u8>) -> Seq<Seq<u8>> {
    seq![spec_contract_tag(), deployer]
}

/// Derives under the fixed program id; `Err(DerivationExhausted)` exactly when
/// no discriminant exists for the seed combination.
pub(crate) fn derive_address(seeds: Vec<Vec<u8>>) -> (r: Result<(Identifier, u8), MothershipError>)
    ensures
        r matches Ok(p) ==> pda_of(spec_program_id(), views_of(seeds@)) == Some((p.0@, p.1))
            && p.0.wf(),
        r is Ok <==> pda_of(spec_program_id(), views_of(seeds@)) is Some,
        r matches Err(e) ==> e == MothershipError::DerivationExhausted,
{
    let pid = mothership_program_id();
    match find_pda(&pid, &seeds) {
        Some(p) => Ok(p),
        None => Err(MothershipError::DerivationExhausted),
    }
}

/// The vault address of a user: derived from the vault tag and the user's
/// identifier bytes under the fixed program id.
pub fn get_vault_pda(user: &Identifier) -> (r: Result<Identifier, MothershipError>)
    ensures
        r matches Ok(id) ==> pda_id(pda_of(spec_program_id(), spec_vault_seeds(user@))) == Some(
            id@,
        ) && id.wf(),
        r is Ok <==> pda_of(spec_program_id(), spec_vault_seeds(user@)) is Some,
        r matches Err(e) ==> e == MothershipError::DerivationExhausted,
{
    let mut seeds: Vec<Vec<u8>> = Vec::new();
    seeds.push(vault_tag());
    seeds.push(user.to_vec());
    proof {
        assert(views_of(seeds@) =~= spec_vault_seeds(user@));
    }
    match derive_address(seeds) {
        Ok(p) => Ok(p.0),
        Err(e) => Err(e),
    }
}

/// The address of a named asset at a given bump byte.
pub fn get_meme_pda(name: &Vec<u8>, spmp_mint: &Vec<u8>, bump: u8) -> (r: Result<
    Identifier,
    MothershipError,
>)
    ensures
        r matches Ok(id) ==> pda_id(
            pda_of(spec_program_id(), spec_meme_seeds(name@, spmp_mint@, bump)),
        ) == Some(id@) && id.wf(),
        r is Ok <==> pda_of(spec_program_id(), spec_meme_seeds(name@, spmp_mint@, bump)) is Some,
        r matches Err(e) ==> e == MothershipError::DerivationExhausted,
{
    let mut seeds: Vec<Vec<u8>> = Vec::new();
    seeds.push(meme_tag());
    seeds.push(vstd::slice::slice_to_vec(name.as_slice()));
    seeds.push(vstd::slice::slice_to_vec(spmp_mint.as_slice()));
    let mut nonce_seed: Vec<u8> = Vec::new();
    nonce_seed.push(bump);
    seeds.push(nonce_seed);
    proof {
        assert(views_of(seeds@) =~= spec_meme_seeds(name@, spmp_mint@, bump));
    }
    match derive_address(seeds) {
        Ok(p) => Ok(p.0),
        Err(e) => Err(e),
    }
}

/// The per-slot swap-state address.
pub fn get_block_swap_state_pda(slot: u64) -> (r: Result<Identifier, MothershipError>)
    ensures
        r matches Ok(id) ==> pda_id(pda_of(spec_program_id(), spec_swap_state_seeds(slot)))
            == Some(id@) && id.wf(),
        r is Ok <==> pda_of(spec_program_id(), spec_swap_state_seeds(slot)) is Some,
        r matches Err(e) ==> e == MothershipError::DerivationExhausted,
{
    let mut seeds: Vec<Vec<u8>> = Vec::new();
    seeds.push(swap_state_tag());
    seeds.push(u64_le_bytes(slot));
    proof {
        assert(views_of(seeds@) =~= spec_swap_state_seeds(slot));
    }
    match derive_address(seeds) {
        Ok(p) => Ok(p.0),
        Err(e) => Err(e),
    }
}

} // verus!
