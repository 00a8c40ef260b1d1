//! Deterministic address derivation.
//!
//! Records and escrow signers live at program-derived addresses computed
//! from a byte-string prefix, a list of identifier salts, and a one-byte
//! nonce. The hash itself comes from the host SDK; everything around it —
//! seed construction, nonce validation, the per-role salt tuples — is
//! verified here.
use vstd::prelude::*;
use vstd::utf8::encode_utf8;
use crate::ids::{AccountId, id_bytes, id_from_bytes, id_to_bytes, id_from_byte_vec};

verus! {

/// What the host SDK's program-derived-address computation returns for a
/// seed list and a program id: 32 address bytes, or nothing when the hash
/// lands on the ed25519 curve. A pure function of its arguments.
pub uninterp spec fn pda_of(seeds: Seq<Seq<u8>>, program: Seq<u8>) -> Option<Seq<u8>>;

/// What the host SDK's bump search returns for a seed list without a nonce:
/// the first valid derived address and the nonce that produced it, or
/// nothing in the statistically improbable case that no nonce works. A pure
/// function of its arguments.
pub uninterp spec fn found_pda_of(seeds: Seq<Seq<u8>>, program: Seq<u8>) -> Option<
    (Seq<u8>, u8),
>;

/// Relies on `Pubkey::create_program_address` of anchor_lang's re-exported
/// address type: a sha256-based derivation that depends on the seeds and
/// program id alone, yields 32 bytes, and fails exactly when the hash is a
/// curve point or a seed is over the host's length limits.
#[verifier::external_body]
fn create_program_address_bytes(seeds: &Vec<Vec<u8>>, program: &Vec<u8>) -> (r: Option<Vec<u8>>)
    requires
        program@.len() == 32,
    ensures
        r.deep_view() == pda_of(seeds.deep_view(), program@),
        r matches Some(a) ==> a@.len() == 32,
{
    let mut arr = [0u8; 32];
    arr.copy_from_slice(program.as_slice());
    let pk = anchor_lang::prelude::Pubkey::new_from_array(arr);
    let slices: Vec<&[u8]> = seeds.iter().map(|s| s.as_slice()).collect();
    match anchor_lang::prelude::Pubkey::create_program_address(&slices, &pk) {
        Ok(a) => Some(a.to_bytes().to_vec()),
        Err(_) => None,
    }
}

/// Relies on `Pubkey::try_find_program_address` of the same type: it scans
/// nonces from 255 downward and returns the first address that
/// `create_program_address` accepts, together with that nonce.
#[verifier::external_body]
fn try_find_program_address_bytes(seeds: &Vec<Vec<u8>>, program: &Vec<u8>) -> (r: Option<
    (Vec<u8>, u8),
>)
    requires
        program@.len() == 32,
    ensures
        r matches Some(p) ==> found_pda_of(seeds.deep_view(), program@) == Some((p.0@, p.1))
            && p.0@.len() == 32 && pda_of(seeds.deep_view().push(seq![p.1]), program@) == Some(
            p.0@,
        ),
        r is None ==> found_pda_of(seeds.deep_view(), program@) is None,
{
    let mut arr = [0u8; 32];
    arr.copy_from_slice(program.as_slice());
    let pk = anchor_lang::prelude::Pubkey::new_from_array(arr);
    let slices: Vec<&[u8]> = seeds.iter().map(|s| s.as_slice()).collect();
    match anchor_lang::prelude::Pubkey::try_find_program_address(&slices, &pk) {
        Some((a, bump)) => Some((a.to_bytes().to_vec(), bump)),
        None => None,
    }
}

/// The seed list of one derivation: prefix, then the 32-byte form of each
/// salt, then the one-byte nonce.
pub open spec fn pda_seeds(prefix: Seq<u8>, salts: Seq<AccountId>, bump: u8) -> Seq<Seq<u8>> {
    seq![prefix] + salts.map_values(|s: AccountId| id_bytes(s)) + seq![seq![bump]]
}

/// The seed list before the nonce is chosen.
pub open spec fn pda_seeds_no_bump(prefix: Seq<u8>, salts: Seq<AccountId>) -> Seq<Seq<u8>> {
    seq![prefix] + salts.map_values(|s: AccountId| id_bytes(s))
}

/// The address derived from a prefix, salts, and a caller-supplied nonce —
/// a pure function of those inputs.
pub open spec fn spec_derive_address(
    prefix: Seq<u8>,
    salts: Seq<AccountId>,
    bump: u8,
    program: AccountId,
) -> Option<AccountId> {
    match pda_of(pda_seeds(prefix, salts, bump), id_bytes(program)) {
        Some(b) => Some(id_from_bytes(b)),
        None => None,
    }
}

/// The canonical derivation: the address and nonce the bump search returns.
pub open spec fn spec_find_address(
    prefix: Seq<u8>,
    salts: Seq<AccountId>,
    program: AccountId,
) -> Option<(AccountId, u8)> {
    match found_pda_of(pda_seeds_no_bump(prefix, salts), id_bytes(program)) {
        Some(p) => Some((id_from_bytes(p.0), p.1)),
        None => None,
    }
}

proof fn lemma_byte_vec_deep_view(v: Vec<u8>)
    ensures
        v.deep_view() == v@,
{
    assert(v.deep_view() =~= v@);
}

fn build_seeds(prefix: Vec<u8>, salts: &Vec<AccountId>) -> (r: Vec<Vec<u8>>)
    ensures
        r.deep_view() == pda_seeds_no_bump(prefix@, salts@),
{
    let ghost gprefix = prefix@;
    let mut seeds: Vec<Vec<u8>> = Vec::new();
    seeds.push(prefix);
    let mut i: usize = 0;
    while i < salts.len()
        invariant
            i <= salts@.len(),
            seeds@.len() == i + 1,
            seeds@[0]@ == gprefix,
            forall|j: int| 1 <= j <= i ==> (#[trigger] seeds@[j])@ == id_bytes(salts@[j - 1]),
        decreases salts@.len() - i,
    {
        seeds.push(id_to_bytes(&salts[i]));
        i = i + 1;
    }
    proof {
        let rhs = pda_seeds_no_bump(gprefix, salts@);
        assert(seeds.deep_view().len() == rhs.len());
        assert forall|j: int| 0 <= j < rhs.len() implies seeds.deep_view()[j] == rhs[j] by {
            lemma_byte_vec_deep_view(seeds@[j]);
        }
        assert(seeds.deep_view() =~= rhs);
    }
    seeds
}

/// Re-derives the address for a prefix, salt list, and supplied nonce.
/// Returns `None` when the derivation is invalid for that nonce.
pub fn derive_address(
    prefix: Vec<u8>,
    salts: &Vec<AccountId>,
    bump: u8,
    program: &AccountId,
) -> (r: Option<AccountId>)
    ensures
        r == spec_derive_address(prefix@, salts@, bump, *program),
{
    let mut seeds = build_seeds(prefix, salts);
    let ghost s0 = seeds.deep_view();
    let mut bump_seed: Vec<u8> = Vec::new();
    bump_seed.push(bump);
    proof {
        assert(bump_seed@ =~= seq![bump]);
    }
    seeds.push(bump_seed);
    proof {
        let n = s0.len() as int;
        assert forall|j: int| 0 <= j < n implies seeds.deep_view()[j] == s0[j] by {}
        lemma_byte_vec_deep_view(seeds@[n]);
        assert(seeds.deep_view() =~= pda_seeds(prefix@, salts@, bump));
    }
    let pb = id_to_bytes(program);
    match create_program_address_bytes(&seeds, &pb) {
        Some(b) => Some(id_from_byte_vec(&b)),
        None => None,
    }
}

/// Finds the canonical address and nonce for a prefix and salt list.
pub fn find_address(prefix: Vec<u8>, salts: &Vec<AccountId>, program: &AccountId) -> (r: Option<
    (AccountId, u8),
>)
    ensures
        r == spec_find_address(prefix@, salts@, *program),
        r matches Some(p) ==> spec_derive_address(prefix@, salts@, p.1, *program) == Some(p.0),
{
    let seeds = build_seeds(prefix, salts);
    let pb = id_to_bytes(program);
    match try_find_program_address_bytes(&seeds, &pb) {
        Some(p) => {
            proof {
                assert(seeds.deep_view().push(seq![p.1]) =~= pda_seeds(prefix@, salts@, p.1));
            }
            let (b, bump) = p;
            Some((id_from_byte_vec(&b), bump))
        },
        None => None,
    }
}

/// Derivation is a pure function of prefix, salts, nonce, and program:
/// recomputing with equal inputs yields the identical address.
pub proof fn lemma_derivation_deterministic(
    prefix1: Seq<u8>,
    salts1: Seq<AccountId>,
    bump1: u8,
    program1: AccountId,
    prefix2: Seq<u8>,
    salts2: Seq<AccountId>,
    bump2: u8,
    program2: AccountId,
)
    requires
        prefix1 == prefix2,
        salts1 == salts2,
        bump1 == bump2,
        program1 == program2,
    ensures
        spec_derive_address(prefix1, salts1, bump1, program1) == spec_derive_address(
            prefix2,
            salts2,
            bump2,
            program2,
        ),
{
}

/// The byte-string prefix of treasury-signer derivations.
pub open spec fn treasury_prefix() -> Seq<u8> {
    encode_utf8("treasury"@)
}

/// The byte-string prefix of creator-record derivations.
pub open spec fn creator_prefix() -> Seq<u8> {
    encode_utf8("creator"@)
}

/// The byte-string prefix of contributor-record derivations.
pub open spec fn contributor_prefix() -> Seq<u8> {
    encode_utf8("contributor"@)
}

/// The byte-string prefix of escrow-signer derivations.
pub open spec fn holding_prefix() -> Seq<u8> {
    encode_utf8("holding"@)
}

/// The byte-string prefix of AMM-authorization derivations.
pub open spec fn authorized_clmm_prefix() -> Seq<u8> {
    encode_utf8("authorized_clmm"@)
}

/// The byte-string prefix of pool-authorization derivations.
pub open spec fn authorized_clmm_pool_prefix() -> Seq<u8> {
    encode_utf8("authorized_clmm_pool"@)
}

/// The prefix `"treasury"` as bytes.
pub fn treasury_prefix_bytes() -> (r: Vec<u8>)
    ensures
        r@ == treasury_prefix(),
{
    "treasury".as_bytes_vec()
}

/// The prefix `"creator"` as bytes.
pub fn creator_prefix_bytes() -> (r: Vec<u8>)
    ensures
        r@ == creator_prefix(),
{
    "creator".as_bytes_vec()
}

/// The prefix `"contributor"` as bytes.
pub fn contributor_prefix_bytes() -> (r: Vec<u8>)
    ensures
        r@ == contributor_prefix(),
{
    "contributor".as_bytes_vec()
}

/// The prefix `"holding"` as bytes.
pub fn holding_prefix_bytes() -> (r: Vec<u8>)
    ensures
        r@ == holding_prefix(),
{
    "holding".as_bytes_vec()
}

/// The prefix `"authorized_clmm"` as bytes.
pub fn authorized_clmm_prefix_bytes() -> (r: Vec<u8>)
    ensures
        r@ == authorized_clmm_prefix(),
{
    "authorized_clmm".as_bytes_vec()
}

/// The prefix `"authorized_clmm_pool"` as bytes.
pub fn authorized_clmm_pool_prefix_bytes() -> (r: Vec<u8>)
    ensures
        r@ == authorized_clmm_pool_prefix(),
{
    "authorized_clmm_pool".as_bytes_vec()
}

/// The treasury signer for a protocol, derived with the stored nonce.
pub open spec fn spec_treasury_owner(protocol: AccountId, bump: u8, program: AccountId) -> Option<
    AccountId,
> {
    spec_derive_address(treasury_prefix(), seq![protocol], bump, program)
}

/// Re-derives the treasury signer of a protocol.
pub fn derive_treasury_owner(protocol: &AccountId, bump: u8, program: &AccountId) -> (r: Option<
    AccountId,
>)
    ensures
        r == spec_treasury_owner(*protocol, bump, *program),
{
    let prefix = treasury_prefix_bytes();
    let mut salts: Vec<AccountId> = Vec::new();
    salts.push(*protocol);
    proof {
        assert(salts@ =~= seq![*protocol]);
    }
    derive_address(prefix, &salts, bump, program)
}

/// The contributor record address for a protocol and wallet, derived with a
/// supplied nonce.
pub open spec fn spec_contributor_address(
    protocol: AccountId,
    wallet: AccountId,
    bump: u8,
    program: AccountId,
) -> Option<AccountId> {
    spec_derive_address(contributor_prefix(), seq![protocol, wallet], bump, program)
}

/// Re-derives a contributor record address.
pub fn derive_contributor_address(
    protocol: &AccountId,
    wallet: &AccountId,
    bump: u8,
    program: &AccountId,
) -> (r: Option<AccountId>)
    ensures
        r == spec_contributor_address(*protocol, *wallet, bump, *program),
{
    let prefix = contributor_prefix_bytes();
    let mut salts: Vec<AccountId> = Vec::new();
    salts.push(*protocol);
    salts.push(*wallet);
    proof {
        assert(salts@ =~= seq![*protocol, *wallet]);
    }
    derive_address(prefix, &salts, bump, program)
}

/// The escrow signer of a campaign, derived with the stored nonce.
pub open spec fn spec_holding_owner(campaign: AccountId, bump: u8, program: AccountId) -> Option<
    AccountId,
> {
    spec_derive_address(holding_prefix(), seq![campaign], bump, program)
}

/// Re-derives the escrow signer of a campaign.
pub fn derive_holding_owner(campaign: &AccountId, bump: u8, program: &AccountId) -> (r: Option<
    AccountId,
>)
    ensures
        r == spec_holding_owner(*campaign, bump, *program),
{
    let prefix = holding_prefix_bytes();
    let mut salts: Vec<AccountId> = Vec::new();
    salts.push(*campaign);
    proof {
        assert(salts@ =~= seq![*campaign]);
    }
    derive_address(prefix, &salts, bump, program)
}

/// The canonical creator record address for a protocol and wallet.
pub open spec fn spec_creator_address(
    protocol: AccountId,
    wallet: AccountId,
    program: AccountId,
) -> Option<(AccountId, u8)> {
    spec_find_address(creator_prefix(), seq![protocol, wallet], program)
}

/// Finds the canonical creator record address and its nonce.
pub fn find_creator_address(
    protocol: &AccountId,
    wallet: &AccountId,
    program: &AccountId,
) -> (r: Option<(AccountId, u8)>)
    ensures
        r == spec_creator_address(*protocol, *wallet, *program),
{
    let prefix = creator_prefix_bytes();
    let mut salts: Vec<AccountId> = Vec::new();
    salts.push(*protocol);
    salts.push(*wallet);
    proof {
        assert(salts@ =~= seq![*protocol, *wallet]);
    }
    find_address(prefix, &salts, program)
}

/// The canonical contributor record address for a protocol and wallet.
pub open spec fn spec_find_contributor_address(
    protocol: AccountId,
    wallet: AccountId,
    program: AccountId,
) -> Option<(AccountId, u8)> {
    spec_find_address(contributor_prefix(), seq![protocol, wallet], program)
}

/// Finds the canonical contributor record address and its nonce.
pub fn find_contributor_address(
    protocol: &AccountId,
    wallet: &AccountId,
    program: &AccountId,
) -> (r: Option<(AccountId, u8)>)
    ensures
        r == spec_find_contributor_address(*protocol, *wallet, *program),
        r matches Some(p) ==> spec_contributor_address(*protocol, *wallet, p.1, *program) == Some(
            p.0,
        ),
{
    let prefix = contributor_prefix_bytes();
    let mut salts: Vec<AccountId> = Vec::new();
    salts.push(*protocol);
    salts.push(*wallet);
    proof {
        assert(salts@ =~= seq![*protocol, *wallet]);
    }
    find_address(prefix, &salts, program)
}

/// The canonical AMM authorization address for a protocol and AMM program.
pub open spec fn spec_authorized_clmm_address(
    protocol: AccountId,
    clmm_program: AccountId,
    program: AccountId,
) -> Option<(AccountId, u8)> {
    spec_find_address(authorized_clmm_prefix(), seq![protocol, clmm_program], program)
}

/// Finds the canonical AMM authorization address and its nonce.
pub fn find_authorized_clmm_address(
    protocol: &AccountId,
    clmm_program: &AccountId,
    program: &AccountId,
) -> (r: Option<(AccountId, u8)>)
    ensures
        r == spec_authorized_clmm_address(*protocol, *clmm_program, *program),
{
    let prefix = authorized_clmm_prefix_bytes();
    let mut salts: Vec<AccountId> = Vec::new();
    salts.push(*protocol);
    salts.push(*clmm_program);
    proof {
        assert(salts@ =~= seq![*protocol, *clmm_program]);
    }
    find_address(prefix, &salts, program)
}

/// The canonical pool authorization address for a protocol and pool.
pub open spec fn spec_authorized_pool_address(
    protocol: AccountId,
    pool: AccountId,
    program: AccountId,
) -> Option<(AccountId, u8)> {
    spec_find_address(authorized_clmm_pool_prefix(), seq![protocol, pool], program)
}

/// Finds the canonical pool authorization address and its nonce.
pub fn find_authorized_pool_address(
    protocol: &AccountId,
    pool: &AccountId,
    program: &AccountId,
) -> (r: Option<(AccountId, u8)>)
    ensures
        r == spec_authorized_pool_address(*protocol, *pool, *program),
{
    let prefix = authorized_clmm_pool_prefix_bytes();
    let mut salts: Vec<AccountId> = Vec::new();
    salts.push(*protocol);
    salts.push(*pool);
    proof {
        assert(salts@ =~= seq![*protocol, *pool]);
    }
    find_address(prefix, &salts, program)
}

} // verus!
