//! Registry and rotation manager. The client owns BLS key material, a
//! deployer identity and a registry of named asset entries. Each entry is
//! created exactly once per successful mining operation, carries its creation
//! time and an active flag, and is mutated only to flip the flag off
//! (retirement). At most one active entry per address and per label exists at
//! any time. Rotation of ephemeral key material is gated by a minimum dwell
//! time and issues a brand-new identifier without touching the entry.
use vstd::prelude::*;
use group::Group;

verus! {

use crate::{MothershipError, GLOBAL_TAX_BPS, MIN_DWELL_SECONDS};
use crate::ids::{
    Identifier, base58_decode_of, base58_of, contract_tag, decode_base58, derive_address,
    encode_base58, get_meme_pda, get_vault_pda, keygen_identifier, pda_id, pda_of,
    spec_contract_seeds, spec_program_id, spec_vault_seeds, views_of, bytes_eq,
};
use crate::mining::{mine, spec_is_first_match, spec_mined_id, spec_nonce_matches};
use crate::fees::{FeeBreakdown, global_tax_config, split, spec_total_tax, sum_weights};
use crate::tiers;

/// The cosmetic suffix every label carries and every mined address must end
/// with, as ASCII bytes ("SPMP").
pub open spec fn spec_spmp_suffix() -> Seq<u8> {
    seq![83u8, 80u8, 77u8, 80u8]
}

/// The cosmetic suffix, as a value.
pub fn spmp_suffix() -> (r: Vec<u8>)
    ensures
        r@ =~= spec_spmp_suffix(),
{
    let mut v: Vec<u8> = Vec::new();
    v.push(83u8);
    v.push(80u8);
    v.push(77u8);
    v.push(80u8);
    v
}

/// ASCII uppercase of one byte.
pub open spec fn spec_upper_byte(b: u8) -> u8 {
    if 97 <= b && b <= 122 {
        (b - 32) as u8
    } else {
        b
    }
}

/// A normalized label: the symbol uppercased byte-wise, then the fixed suffix.
pub open spec fn spec_label(symbol: Seq<u8>) -> Seq<u8> {
    symbol.map_values(|b: u8| spec_upper_byte(b)) + spec_spmp_suffix()
}

/// Builds the normalized label of a symbol.
pub fn make_label(symbol: &Vec<u8>) -> (r: Vec<u8>)
    ensures
        r@ =~= spec_label(symbol@),
{
    let mut v: Vec<u8> = Vec::new();
    let mut i: usize = 0;
    while i < symbol.len()
        invariant
            0 <= i <= symbol@.len(),
            v@.len() == i,
            forall|j: int| 0 <= j < i ==> v@[j] == spec_upper_byte(symbol@[j]),
        decreases symbol.len() - i,
    {
        let b = symbol[i];
        if 97 <= b && b <= 122 {
            v.push(b - 32);
        } else {
            v.push(b);
        }
        i = i + 1;
    }
    v.push(83u8);
    v.push(80u8);
    v.push(77u8);
    v.push(80u8);
    v
}

/// One registered asset: its mined cosmetic address, its normalized label,
/// its deployer, its creation time and whether it is still active.
#[derive(Debug)]
pub struct MemeRegistry {
    pub vanity_program_id: Identifier,
    pub spmp_mint: Vec<u8>,
    pub deployer: Identifier,
    pub created_at: i64,
    pub is_active: bool,
}

/// What a successful registration hands back to the caller.
#[derive(Debug)]
pub struct HandshakeResponse {
    pub vanity_program_id: Identifier,
    pub spmp_mint: Vec<u8>,
    pub rotator_pk: Identifier,
    pub mothership_pda: Identifier,
}

/// An active entry with this label exists.
pub open spec fn has_active_label(rs: Seq<MemeRegistry>, label: Seq<u8>) -> bool {
    exists|i: int| 0 <= i < rs.len() && rs[i].is_active && rs[i].spmp_mint@ == label
}

/// Some entry (active or not) with this address exists.
pub open spec fn has_addr(rs: Seq<MemeRegistry>, addr: Seq<u8>) -> bool {
    exists|i: int| 0 <= i < rs.len() && rs[i].vanity_program_id@ == addr
}

/// An active entry with this address exists.
pub open spec fn has_active_addr(rs: Seq<MemeRegistry>, addr: Seq<u8>) -> bool {
    exists|i: int| 0 <= i < rs.len() && rs[i].is_active && rs[i].vanity_program_id@ == addr
}

/// An active entry with this address exists whose age at `now` is below the
/// minimum dwell time.
pub open spec fn has_active_too_soon(rs: Seq<MemeRegistry>, addr: Seq<u8>, now: i64) -> bool {
    exists|i: int|
        0 <= i < rs.len() && rs[i].is_active && rs[i].vanity_program_id@ == addr && now
            - rs[i].created_at < MIN_DWELL_SECONDS
}

/// An active entry with this address exists that has dwelled long enough.
pub open spec fn has_active_eligible(rs: Seq<MemeRegistry>, addr: Seq<u8>, now: i64) -> bool {
    exists|i: int|
        0 <= i < rs.len() && rs[i].is_active && rs[i].vanity_program_id@ == addr && now
            - rs[i].created_at >= MIN_DWELL_SECONDS
}

/// An entry is well formed when its identifiers carry 32 bytes.
pub open spec fn entry_wf(e: MemeRegistry) -> bool {
    e.vanity_program_id.wf() && e.deployer.wf()
}

/// Two entries agree on everything but the active flag.
pub open spec fn entry_eq_except_active(a: MemeRegistry, b: MemeRegistry) -> bool {
    a.vanity_program_id@ == b.vanity_program_id@ && a.spmp_mint@ == b.spmp_mint@ && a.deployer@
        == b.deployer@ && a.created_at == b.created_at
}

/// What the BLS pairing library computes from 32 secret bytes: the compressed
/// public key, or nothing when the bytes are not a canonical scalar. A pure
/// function of the bytes.
pub uninterp spec fn bls_pk_of(sk: Seq<u8>) -> Option<Seq<u8>>;

/// Relies on `blstrs`: `Scalar::from_bytes_le` (succeeds exactly on canonical
/// little-endian scalars), `G1Projective::generator` (a fixed constant),
/// scalar multiplication, and `to_compressed` (48 bytes). The compressed
/// public key is a pure function of the secret bytes.
#[verifier::external_body]
fn bls_compressed_pubkey(sk: &Vec<u8>) -> (r: Option<Vec<u8>>)
    requires
        sk@.len() == 32,
    ensures
        r matches Some(pk) ==> bls_pk_of(sk@) == Some(pk@) && pk@.len() == 48,
        r is None ==> bls_pk_of(sk@) is None,
{
    let arr: [u8; 32] = sk.as_slice().try_into().unwrap();
    let ct = blstrs::Scalar::from_bytes_le(&arr);
    if bool::from(ct.is_some()) {
        let point = blstrs::G1Projective::generator() * ct.unwrap();
        Some(point.to_compressed().to_vec())
    } else {
        None
    }
}

#[verifier::external_type_specification]
#[verifier::external_body]
pub struct ExGetrandomError(getrandom::Error);

/// Relies on `getrandom::fill`: fills a buffer from the operating-system
/// entropy source. The bytes are random: two calls may differ, so nothing is
/// promised of them beyond the length.
#[verifier::external_body]
fn random_bytes_32() -> (r: Result<Vec<u8>, getrandom::Error>)
    ensures
        r matches Ok(b) ==> b@.len() == 32,
{
    let mut buf = [0u8; 32];
    match getrandom::fill(&mut buf) {
        Ok(()) => Ok(buf.to_vec()),
        Err(e) => Err(e),
    }
}

/// An active entry with this label exists, decided by a scan.
fn find_active_label(entries: &Vec<MemeRegistry>, label: &Vec<u8>) -> (r: bool)
    ensures
        r == has_active_label(entries@, label@),
{
    let mut i: usize = 0;
    while i < entries.len()
        invariant
            0 <= i <= entries@.len(),
            forall|j: int|
                0 <= j < i ==> !(entries@[j].is_active && entries@[j].spmp_mint@ == label@),
        decreases entries.len() - i,
    {
        if entries[i].is_active && bytes_eq(&entries[i].spmp_mint, label) {
            return true;
        }
        i = i + 1;
    }
    false
}

/// An active entry with this address exists, decided by a scan.
fn find_active_addr(entries: &Vec<MemeRegistry>, addr: &Identifier) -> (r: bool)
    ensures
        r == has_active_addr(entries@, addr@),
{
    let mut i: usize = 0;
    while i < entries.len()
        invariant
            0 <= i <= entries@.len(),
            forall|j: int|
                0 <= j < i ==> !(entries@[j].is_active && entries@[j].vanity_program_id@
                    == addr@),
        decreases entries.len() - i,
    {
        if entries[i].is_active && entries[i].vanity_program_id.eq_bytes(addr) {
            return true;
        }
        i = i + 1;
    }
    false
}

/// Two winning nonces for the same search are the same nonce.
pub proof fn lemma_first_match_unique(
    name: Seq<u8>,
    spmp_mint: Seq<u8>,
    suffix: Seq<u8>,
    a: u8,
    b: u8,
)
    requires
        spec_is_first_match(name, spmp_mint, suffix, a),
        spec_is_first_match(name, spmp_mint, suffix, b),
    ensures
        a == b,
{
    if a < b {
        assert(!spec_nonce_matches(name, spmp_mint, suffix, a));
    } else if b < a {
        assert(!spec_nonce_matches(name, spmp_mint, suffix, b));
    }
}

/// The client: BLS key material, the deployer identity, and the registry of
/// named assets. The only mutable state in the library.
pub struct MothershipClient {
    bls_sk: Vec<u8>,
    bls_pk: Vec<u8>,
    deployer: Identifier,
    registry: Vec<MemeRegistry>,
}

impl MothershipClient {
    /// The registered entries, by view.
    pub closed spec fn entries(&self) -> Seq<MemeRegistry> {
        self.registry@
    }

    /// The deployer's identifier bytes, by view.
    pub closed spec fn deployer_id(&self) -> Seq<u8> {
        self.deployer@
    }

    /// The BLS public key bytes, by view.
    pub closed spec fn bls_pk_view(&self) -> Seq<u8> {
        self.bls_pk@
    }

    /// Well-formedness: the key material has the right shapes, the public key
    /// is the one the secret derives, every entry is well formed, and at most
    /// one active entry exists per address and per label.
    pub open spec fn wf(&self) -> bool {
        &&& self.bls_sk_view().len() == 32
        &&& self.bls_pk_view().len() == 48
        &&& bls_pk_of(self.bls_sk_view()) == Some(self.bls_pk_view())
        &&& self.deployer_wf()
        &&& forall|i: int| 0 <= i < self.entries().len() ==> entry_wf(#[trigger] self.entries()[i])
        &&& forall|i: int, j: int|
            0 <= i < j < self.entries().len() && self.entries()[i].is_active
                && self.entries()[j].is_active ==> self.entries()[i].vanity_program_id@
                != self.entries()[j].vanity_program_id@ && self.entries()[i].spmp_mint@
                != self.entries()[j].spmp_mint@
    }

    /// The BLS secret key bytes, by view.
    pub closed spec fn bls_sk_view(&self) -> Seq<u8> {
        self.bls_sk@
    }

    /// The deployer identifier is well formed.
    pub open spec fn deployer_wf(&self) -> bool {
        self.deployer_id().len() == 32
    }

    /// Creates a client: draws a BLS secret from the entropy source (retrying
    /// a bounded number of times until the draw is a canonical scalar),
    /// derives its public key, and generates a fresh deployer identity.
    /// `Err(KeyGenerationFailed)` when the entropy source fails or no draw
    /// was canonical within the bound.
    pub fn new() -> (r: Result<MothershipClient, MothershipError>)
        ensures
            r matches Ok(c) ==> c.wf() && c.entries().len() == 0,
            r matches Err(e) ==> e == MothershipError::KeyGenerationFailed,
    {
        let mut attempts: usize = 0;
        while attempts < 128
            invariant
                0 <= attempts <= 128,
            decreases 128 - attempts,
        {
            let sk = match random_bytes_32() {
                Ok(sk) => sk,
                Err(_) => {
                    return Err(MothershipError::KeyGenerationFailed);
                },
            };
            match bls_compressed_pubkey(&sk) {
                Some(pk) => {
                    let deployer = keygen_identifier();
                    return Ok(
                        MothershipClient { bls_sk: sk, bls_pk: pk, deployer, registry: Vec::new() },
                    );
                },
                None => {},
            }
            attempts = attempts + 1;
        }
        Err(MothershipError::KeyGenerationFailed)
    }

    /// The deployer's address in canonical base-58 text.
    pub fn get_deployer(&self) -> (r: Vec<u8>)
        requires
            self.wf(),
        ensures
            r@ == base58_of(self.deployer_id()),
    {
        encode_base58(&self.deployer)
    }

    /// The compressed BLS public key.
    pub fn get_bls_pk(&self) -> (r: Vec<u8>)
        ensures
            r@ == self.bls_pk_view(),
    {
        vstd::slice::slice_to_vec(self.bls_pk.as_slice())
    }

    /// Registers a named asset under a caller-chosen cosmetic suffix:
    /// normalizes the label, refuses a duplicate of an active entry, mines the
    /// lowest-nonce vanity address ending in the suffix, derives the
    /// mothership account, generates a fresh rotator key, and records the
    /// entry as active at `now`.
    pub fn register_with_suffix(
        &mut self,
        name: &Vec<u8>,
        symbol: &Vec<u8>,
        suffix: &Vec<u8>,
        now: i64,
    ) -> (r: Result<
        HandshakeResponse,
        MothershipError,
    >)
        requires
            old(self).wf(),
        ensures
            final(self).wf(),
            final(self).deployer_id() == old(self).deployer_id(),
            final(self).bls_sk_view() == old(self).bls_sk_view(),
            final(self).bls_pk_view() == old(self).bls_pk_view(),
            r is Err ==> final(self).entries() == old(self).entries(),
            (r == Err::<HandshakeResponse, MothershipError>(MothershipError::DuplicateLabel))
                <==> (has_active_label(old(self).entries(), spec_label(symbol@)) || (exists|n: u8|
                spec_is_first_match(name@, spec_label(symbol@), suffix@, n)
                    && has_active_addr(
                    old(self).entries(),
                    spec_mined_id(name@, spec_label(symbol@), n),
                ))),
            (r == Err::<HandshakeResponse, MothershipError>(MothershipError::MiningFailed)) <==> (
            !has_active_label(old(self).entries(), spec_label(symbol@)) && (forall|n: u8|
                !spec_nonce_matches(name@, spec_label(symbol@), suffix@, n))),
            (r == Err::<HandshakeResponse, MothershipError>(MothershipError::DerivationExhausted))
                <==> (!has_active_label(old(self).entries(), spec_label(symbol@)) && (exists|n: u8|
                spec_is_first_match(name@, spec_label(symbol@), suffix@, n)
                    && !has_active_addr(
                    old(self).entries(),
                    spec_mined_id(name@, spec_label(symbol@), n),
                )) && pda_of(
                spec_program_id(),
                spec_contract_seeds(old(self).deployer_id()),
            ) is None),
            r matches Err(e) ==> (e == MothershipError::DuplicateLabel
                || e == MothershipError::MiningFailed
                || e == MothershipError::DerivationExhausted),
            r matches Ok(resp) ==> ({
                &&& !has_active_label(old(self).entries(), spec_label(symbol@))
                &&& exists|n: u8|
                    spec_is_first_match(name@, spec_label(symbol@), suffix@, n)
                        && resp.vanity_program_id@ == spec_mined_id(name@, spec_label(symbol@), n)
                &&& !has_active_addr(old(self).entries(), resp.vanity_program_id@)
                &&& resp.spmp_mint@ == spec_label(symbol@)
                &&& pda_id(
                    pda_of(spec_program_id(), spec_contract_seeds(old(self).deployer_id())),
                ) == Some(resp.mothership_pda@)
                &&& resp.vanity_program_id.wf() && resp.rotator_pk.wf() && resp.mothership_pda.wf()
                &&& final(self).entries().len() == old(self).entries().len() + 1
                &&& final(self).entries().drop_last() == old(self).entries()
                &&& final(self).entries().last().vanity_program_id@ == resp.vanity_program_id@
                &&& final(self).entries().last().spmp_mint@ == spec_label(symbol@)
                &&& final(self).entries().last().deployer@ == old(self).deployer_id()
                &&& final(self).entries().last().created_at == now
                &&& final(self).entries().last().is_active
            }),
    {
        let label = make_label(symbol);
        let ghost label_v = label@;
        let ghost suf_v = suffix@;
        if find_active_label(&self.registry, &label) {
            return Err(MothershipError::DuplicateLabel);
        }
        let m = match mine(name, &label, suffix) {
            Ok(m) => m,
            Err(_) => {
                return Err(MothershipError::MiningFailed);
            },
        };
        proof {
            assert(spec_is_first_match(name@, label_v, suf_v, m.nonce));
        }
        assert forall|n: u8|
            spec_is_first_match(name@, label_v, suf_v, n) implies n == m.nonce by {
            lemma_first_match_unique(name@, label_v, suf_v, n, m.nonce);
        }
        if find_active_addr(&self.registry, &m.id) {
            return Err(MothershipError::DuplicateLabel);
        }
        let mut cseeds: Vec<Vec<u8>> = Vec::new();
        cseeds.push(contract_tag());
        cseeds.push(self.deployer.to_vec());
        proof {
            assert(views_of(cseeds@) =~= spec_contract_seeds(self.deployer_id()));
        }
        let mpda = match derive_address(cseeds) {
            Ok(p) => p.0,
            Err(_) => {
                return Err(MothershipError::DerivationExhausted);
            },
        };
        let rotator_pk = keygen_identifier();
        let entry = (MemeRegistry {
            vanity_program_id: m.id.duplicate(),
            spmp_mint: vstd::slice::slice_to_vec(label.as_slice()),
            deployer: self.deployer.duplicate(),
            created_at: now,
            is_active: true,
        });
        let ghost pre = self.registry@;
        self.registry.push(entry);
        proof {
            assert(self.entries().drop_last() =~= pre);
        }
        Ok(
            HandshakeResponse {
                vanity_program_id: m.id,
                spmp_mint: label,
                rotator_pk,
                mothership_pda: mpda,
            },
        )
    }

    /// Registers a named asset under the fixed cosmetic suffix.
    pub fn register_meme(&mut self, name: &Vec<u8>, symbol: &Vec<u8>, now: i64) -> (r: Result<
        HandshakeResponse,
        MothershipError,
    >)
        requires
            old(self).wf(),
        ensures
            final(self).wf(),
            final(self).deployer_id() == old(self).deployer_id(),
            final(self).bls_sk_view() == old(self).bls_sk_view(),
            final(self).bls_pk_view() == old(self).bls_pk_view(),
            r is Err ==> final(self).entries() == old(self).entries(),
            (r == Err::<HandshakeResponse, MothershipError>(MothershipError::DuplicateLabel))
                <==> (has_active_label(old(self).entries(), spec_label(symbol@)) || (exists|n: u8|
                spec_is_first_match(name@, spec_label(symbol@), spec_spmp_suffix(), n)
                    && has_active_addr(
                    old(self).entries(),
                    spec_mined_id(name@, spec_label(symbol@), n),
                ))),
            (r == Err::<HandshakeResponse, MothershipError>(MothershipError::MiningFailed)) <==> (
            !has_active_label(old(self).entries(), spec_label(symbol@)) && (forall|n: u8|
                !spec_nonce_matches(name@, spec_label(symbol@), spec_spmp_suffix(), n))),
            (r == Err::<HandshakeResponse, MothershipError>(MothershipError::DerivationExhausted))
                <==> (!has_active_label(old(self).entries(), spec_label(symbol@)) && (exists|n: u8|
                spec_is_first_match(name@, spec_label(symbol@), spec_spmp_suffix(), n)
                    && !has_active_addr(
                    old(self).entries(),
                    spec_mined_id(name@, spec_label(symbol@), n),
                )) && pda_of(
                spec_program_id(),
                spec_contract_seeds(old(self).deployer_id()),
            ) is None),
            r matches Err(e) ==> (e == MothershipError::DuplicateLabel
                || e == MothershipError::MiningFailed
                || e == MothershipError::DerivationExhausted),
            r matches Ok(resp) ==> ({
                &&& !has_active_label(old(self).entries(), spec_label(symbol@))
                &&& exists|n: u8|
                    spec_is_first_match(name@, spec_label(symbol@), spec_spmp_suffix(), n)
                        && resp.vanity_program_id@ == spec_mined_id(name@, spec_label(symbol@), n)
                &&& !has_active_addr(old(self).entries(), resp.vanity_program_id@)
                &&& resp.spmp_mint@ == spec_label(symbol@)
                &&& pda_id(
                    pda_of(spec_program_id(), spec_contract_seeds(old(self).deployer_id())),
                ) == Some(resp.mothership_pda@)
                &&& resp.vanity_program_id.wf() && resp.rotator_pk.wf() && resp.mothership_pda.wf()
                &&& final(self).entries().len() == old(self).entries().len() + 1
                &&& final(self).entries().drop_last() == old(self).entries()
                &&& final(self).entries().last().vanity_program_id@ == resp.vanity_program_id@
                &&& final(self).entries().last().spmp_mint@ == spec_label(symbol@)
                &&& final(self).entries().last().deployer@ == old(self).deployer_id()
                &&& final(self).entries().last().created_at == now
                &&& final(self).entries().last().is_active
            }),
    {
        let suffix = spmp_suffix();
        self.register_with_suffix(name, symbol, &suffix, now)
    }

    /// Rotates the ephemeral key tied to the entry whose address is the given
    /// base-58 text: issues a brand-new identifier once the entry has dwelled
    /// for the minimum interval. The registry itself is untouched: rotation is
    /// advisory and does not invalidate previously issued keys.
    pub fn rotate_rotator(&self, vanity_id: &Vec<u8>, now: i64) -> (r: Result<
        Identifier,
        MothershipError,
    >)
        requires
            self.wf(),
        ensures
            (r == Err::<Identifier, MothershipError>(MothershipError::InvalidIdentifierEncoding))
                <==> base58_decode_of(vanity_id@) is None,
            (r == Err::<Identifier, MothershipError>(MothershipError::NotFound)) <==> (
            base58_decode_of(vanity_id@) matches Some(a) && !has_addr(self.entries(), a)),
            (r == Err::<Identifier, MothershipError>(MothershipError::Inactive)) <==> (
            base58_decode_of(vanity_id@) matches Some(a) && has_addr(self.entries(), a)
                && !has_active_addr(self.entries(), a)),
            (r == Err::<Identifier, MothershipError>(MothershipError::TooSoon)) <==> (
            base58_decode_of(vanity_id@) matches Some(a) && has_active_too_soon(
                self.entries(),
                a,
                now,
            )),
            r is Ok <==> (base58_decode_of(vanity_id@) matches Some(a) && has_active_eligible(
                self.entries(),
                a,
                now,
            )),
            r matches Ok(id) ==> id.wf(),
            r matches Err(e) ==> (e == MothershipError::InvalidIdentifierEncoding
                || e == MothershipError::NotFound
                || e == MothershipError::Inactive
                || e == MothershipError::TooSoon),
    {
        let a = match decode_base58(vanity_id) {
            Ok(a) => a,
            Err(_) => {
                return Err(MothershipError::InvalidIdentifierEncoding);
            },
        };
        let mut found_any: bool = false;
        let mut active_created: Option<i64> = None;
        let mut i: usize = 0;
        while i < self.registry.len()
            invariant
                self.wf(),
                0 <= i <= self.entries().len(),
                found_any == (exists|j: int|
                    0 <= j < i && self.entries()[j].vanity_program_id@ == a@),
                active_created matches Some(c) ==> (exists|j: int|
                    0 <= j < i && self.entries()[j].is_active
                        && self.entries()[j].vanity_program_id@ == a@
                        && self.entries()[j].created_at == c),
                active_created is None ==> (forall|j: int|
                    0 <= j < i ==> !(self.entries()[j].is_active
                        && self.entries()[j].vanity_program_id@ == a@)),
            decreases self.registry.len() - i,
        {
            if self.registry[i].vanity_program_id.eq_bytes(&a) {
                found_any = true;
                if self.registry[i].is_active {
                    active_created = Some(self.registry[i].created_at);
                }
            }
            i = i + 1;
        }
        match active_created {
            None => {
                if found_any {
                    Err(MothershipError::Inactive)
                } else {
                    Err(MothershipError::NotFound)
                }
            },
            Some(c) => {
                proof {
                    assert forall|j: int|
                        0 <= j < self.entries().len() && self.entries()[j].is_active
                            && self.entries()[j].vanity_program_id@
                            == a@ implies self.entries()[j].created_at == c by {
                        let w = choose|w: int|
                            0 <= w < self.entries().len() && self.entries()[w].is_active
                                && self.entries()[w].vanity_program_id@ == a@
                                && self.entries()[w].created_at == c;
                    }
                }
                if (now as i128) - (c as i128) < (MIN_DWELL_SECONDS as i128) {
                    Err(MothershipError::TooSoon)
                } else {
                    Ok(keygen_identifier())
                }
            },
        }
    }

    /// Retires every entry carrying the given address: the administrative
    /// transition out of the active state. `Err(NotFound)` exactly when no
    /// entry carries the address; entries are never removed or otherwise
    /// changed.
    pub fn retire(&mut self, vanity: &Identifier) -> (r: Result<(), MothershipError>)
        requires
            old(self).wf(),
        ensures
            final(self).wf(),
            final(self).deployer_id() == old(self).deployer_id(),
            final(self).bls_sk_view() == old(self).bls_sk_view(),
            final(self).bls_pk_view() == old(self).bls_pk_view(),
            final(self).entries().len() == old(self).entries().len(),
            forall|i: int|
                0 <= i < final(self).entries().len() ==> entry_eq_except_active(
                    #[trigger] final(self).entries()[i],
                    old(self).entries()[i],
                ),
            forall|i: int|
                0 <= i < final(self).entries().len() ==> (#[trigger] final(self).entries()[i].is_active == (
                old(self).entries()[i].is_active && old(self).entries()[i].vanity_program_id@
                    != vanity@)),
            r is Ok <==> has_addr(old(self).entries(), vanity@),
            r matches Err(e) ==> e == MothershipError::NotFound,
    {
        let mut out: Vec<MemeRegistry> = Vec::new();
        let mut found: bool = false;
        let mut i: usize = 0;
        while i < self.registry.len()
            invariant
                old(self).wf(),
                self.registry@ == old(self).entries(),
                0 <= i <= self.registry@.len(),
                out@.len() == i,
                found == (exists|j: int|
                    0 <= j < i && self.registry@[j].vanity_program_id@ == vanity@),
                forall|j: int|
                    0 <= j < i ==> entry_eq_except_active(#[trigger] out@[j], self.registry@[j]),
                forall|j: int|
                    0 <= j < i ==> (#[trigger] out@[j].is_active == (self.registry@[j].is_active
                        && self.registry@[j].vanity_program_id@ != vanity@)),
            decreases self.registry.len() - i,
        {
            let e = &self.registry[i];
            let matches_addr = e.vanity_program_id.eq_bytes(vanity);
            if matches_addr {
                found = true;
            }
            let copied = (MemeRegistry {
                vanity_program_id: e.vanity_program_id.duplicate(),
                spmp_mint: vstd::slice::slice_to_vec(e.spmp_mint.as_slice()),
                deployer: e.deployer.duplicate(),
                created_at: e.created_at,
                is_active: e.is_active && !matches_addr,
            });
            out.push(copied);
            i = i + 1;
        }
        self.registry = out;
        if found {
            Ok(())
        } else {
            Err(MothershipError::NotFound)
        }
    }

    /// The velocity limit, in lamports per block, of a market cap given in
    /// SOL.
    pub fn get_velocity_limit(&self, mcap_sol: u64) -> (r: u64)
        ensures
            r == tiers::spec_velocity_limit(mcap_sol),
    {
        tiers::velocity_limit(mcap_sol)
    }

    /// The per-swap size cap of a market cap given in lamports.
    pub fn get_buy_cap(&self, mcap_lamports: u64, supply: u64, top_tier_sol: u64) -> (r: u64)
        ensures
            r == tiers::spec_buy_cap(mcap_lamports, supply, top_tier_sol),
            r <= supply,
    {
        tiers::buy_cap(mcap_lamports, supply, top_tier_sol)
    }

    /// Splits an amount under the global tax rate: one component carrying the
    /// whole tax, an exact net remainder.
    pub fn calculate_tax(&self, amount_in: u64) -> (fb: FeeBreakdown)
        ensures
            fb.total_tax == spec_total_tax(amount_in, GLOBAL_TAX_BPS),
            fb.net + fb.total_tax == amount_in,
            fb.components@.len() == 1,
            fb.components@[0] == fb.total_tax,
    {
        let cfg = global_tax_config();
        let fb = split(&cfg, amount_in);
        proof {
            let w = cfg.weights@;
            assert(w.subrange(0, 0) =~= Seq::<u64>::empty());
            assert(sum_weights(Seq::<u64>::empty()) == 0);
            assert(w.subrange(0, 1) =~= w);
            assert(sum_weights(w) == 250);
            let tax = spec_total_tax(amount_in, GLOBAL_TAX_BPS);
            assert(tax == fb.total_tax);
            vstd::arithmetic::mul::lemma_mul_basics(tax);
            assert(crate::fees::spec_cum_tax(amount_in, cfg, 0) == tax * 0 / 250);
            assert(tax * 0 == 0);
            assert(crate::fees::spec_cum_tax(amount_in, cfg, 0) == 0);
            vstd::arithmetic::div_mod::lemma_div_by_multiple(tax, 250);
            assert(tax * 250 / 250 == tax);
            assert(crate::fees::spec_cum_tax(amount_in, cfg, 1) == tax * 250 / 250);
            assert(crate::fees::spec_cum_tax(amount_in, cfg, 1) == tax);
            assert(fb.components@[0] == crate::fees::spec_component(amount_in, cfg, 0));
        }
        fb
    }

    /// The vault address of the user named by base-58 text.
    pub fn get_vault_pda(&self, user: &Vec<u8>) -> (r: Result<Identifier, MothershipError>)
        ensures
            (r == Err::<Identifier, MothershipError>(MothershipError::InvalidIdentifierEncoding))
                <==> base58_decode_of(user@) is None,
            r matches Ok(id) ==> id.wf() && (base58_decode_of(user@) matches Some(u) && pda_id(
                pda_of(spec_program_id(), spec_vault_seeds(u)),
            ) == Some(id@)),
            r is Ok <==> (base58_decode_of(user@) matches Some(u) && pda_of(
                spec_program_id(),
                spec_vault_seeds(u),
            ) is Some),
            r matches Err(e) ==> (e == MothershipError::InvalidIdentifierEncoding
                || e == MothershipError::DerivationExhausted),
    {
        let u = match decode_base58(user) {
            Ok(u) => u,
            Err(_) => {
                return Err(MothershipError::InvalidIdentifierEncoding);
            },
        };
        get_vault_pda(&u)
    }

    /// The address of a named asset at a given bump byte.
    pub fn get_meme_pda(&self, name: &Vec<u8>, spmp_mint: &Vec<u8>, bump: u8) -> (r: Result<
        Identifier,
        MothershipError,
    >)
        ensures
            r matches Ok(id) ==> pda_id(
                pda_of(
                    spec_program_id(),
                    crate::ids::spec_meme_seeds(name@, spmp_mint@, bump),
                ),
            ) == Some(id@) && id.wf(),
            r is Ok <==> pda_of(
                spec_program_id(),
                crate::ids::spec_meme_seeds(name@, spmp_mint@, bump),
            ) is Some,
            r matches Err(e) ==> e == MothershipError::DerivationExhausted,
    {
        get_meme_pda(name, spmp_mint, bump)
    }
}

} // verus!
