//! The stored byte form of each record.
//!
//! On the host ledger a record is written as its fields in declaration
//! order, little-endian, identifiers as 32 bytes, the description hash as a
//! 4-byte length followed by its UTF-8 bytes inside a fixed 64-byte slot —
//! all behind an 8-byte discriminator that is not part of the body. Each
//! writer here produces exactly that body.
use vstd::prelude::*;
use vstd::utf8::encode_utf8;
use crate::ids::{id_bytes, id_to_bytes, push_u64_le, u64_le_bytes, AccountId};
use crate::states::{
    AuthorizedClmm, AuthorizedClmmPool, ContributorData, CreatorData, DonationData,
    DonationProtocolData, AUTHORIZED_CLMM_LEN, AUTHORIZED_CLMM_POOL_LEN, CONTRIBUTOR_DATA_LEN,
    CREATOR_DATA_LEN, DISCRIMINATOR_LEN, DONATION_DATA_LEN, DONATION_PROTOCOL_DATA_LEN,
    MAX_IPFS_HASH_LEN,
};

verus! {

/// The little-endian bytes of one 32-bit word.
pub open spec fn u32_le_bytes(w: u32) -> Seq<u8> {
    seq![
        (w % 256) as u8,
        ((w / 256) % 256) as u8,
        ((w / 65536) % 256) as u8,
        ((w / 16777216) % 256) as u8,
    ]
}

/// A stored boolean: one byte, one for true.
pub open spec fn bool_byte(b: bool) -> Seq<u8> {
    seq![if b { 1u8 } else { 0u8 }]
}

/// `n` zero bytes of slot padding.
pub open spec fn zero_bytes(n: nat) -> Seq<u8> {
    Seq::new(n, |i: int| 0u8)
}

/// The stored body of a protocol record.
pub open spec fn protocol_body_bytes(p: DonationProtocolData) -> Seq<u8> {
    id_bytes(p.treasury_mint) + id_bytes(p.treasury) + id_bytes(p.donation_mint) + id_bytes(
        p.authority,
    ) + u64_le_bytes(p.min_amount_to_earn) + u64_le_bytes(p.min_amount_to_collect) + seq![
        p.treasury_owner_bump,
    ]
}

/// The stored body of a campaign record. The description hash occupies a
/// fixed 64-byte slot: a 4-byte length, the UTF-8 bytes, zero padding.
pub open spec fn campaign_body_bytes(c: DonationData) -> Seq<u8>
    recommends
        c.wf(),
{
    u64_le_bytes(c.amount_collecting) + u64_le_bytes(c.total_amount_received) + u64_le_bytes(
        c.ending_timestamp,
    ) + bool_byte(c.is_closed) + id_bytes(c.recipient) + id_bytes(c.donation_protocol) + id_bytes(
        c.holding_wallet,
    ) + id_bytes(c.creator_data) + id_bytes(c.donation_mint) + seq![c.holding_bump]
        + u32_le_bytes(encode_utf8(c.ipfs_hash@).len() as u32) + encode_utf8(c.ipfs_hash@)
        + zero_bytes((MAX_IPFS_HASH_LEN - encode_utf8(c.ipfs_hash@).len()) as nat)
}

/// The stored body of a creator record.
pub open spec fn creator_body_bytes(g: CreatorData) -> Seq<u8> {
    u64_le_bytes(g.total_amount_received) + u64_le_bytes(g.total_amount_collecting)
        + u64_le_bytes(g.donations_created_count) + u64_le_bytes(g.donations_closed_count)
        + id_bytes(g.donation_protocol)
}

/// The stored body of a contributor record.
pub open spec fn contributor_body_bytes(k: ContributorData) -> Seq<u8> {
    u64_le_bytes(k.total_amount_donated) + u64_le_bytes(k.total_amount_earned) + u64_le_bytes(
        k.donations_count,
    ) + id_bytes(k.donation_protocol) + seq![k.bump]
}

/// The stored body of an AMM authorization record.
pub open spec fn authorized_clmm_body_bytes(a: AuthorizedClmm) -> Seq<u8> {
    id_bytes(a.program_id) + id_bytes(a.donation_protocol)
}

/// The stored body of a pool authorization record.
pub open spec fn authorized_pool_body_bytes(p: AuthorizedClmmPool) -> Seq<u8> {
    id_bytes(p.pool_state) + id_bytes(p.program_id) + id_bytes(p.mint) + id_bytes(
        p.donation_protocol,
    )
}

fn push_byte(out: &mut Vec<u8>, b: u8)
    ensures
        final(out)@ == old(out)@ + seq![b],
{
    out.push(b);
    proof {
        assert(out@ =~= old(out)@ + seq![b]);
    }
}

fn push_id(out: &mut Vec<u8>, id: &AccountId)
    ensures
        final(out)@ == old(out)@ + id_bytes(*id),
{
    let mut b = id_to_bytes(id);
    out.append(&mut b);
}

#[verifier::rlimit(100)]
fn push_u32_le(out: &mut Vec<u8>, w: u32)
    ensures
        final(out)@ == old(out)@ + u32_le_bytes(w),
{
    out.push((w % 256) as u8);
    out.push(((w / 256) % 256) as u8);
    out.push(((w / 65536) % 256) as u8);
    out.push(((w / 16777216) % 256) as u8);
    proof {
        assert(out@ =~= old(out)@ + u32_le_bytes(w));
    }
}

/// Writes a protocol record's stored body.
#[verifier::rlimit(100)]
pub fn serialize_donation_protocol_data(p: &DonationProtocolData) -> (r: Vec<u8>)
    ensures
        r@ == protocol_body_bytes(*p),
        r@.len() + DISCRIMINATOR_LEN == DONATION_PROTOCOL_DATA_LEN,
{
    let mut out: Vec<u8> = Vec::new();
    push_id(&mut out, &p.treasury_mint);
    push_id(&mut out, &p.treasury);
    push_id(&mut out, &p.donation_mint);
    push_id(&mut out, &p.authority);
    push_u64_le(&mut out, p.min_amount_to_earn);
    push_u64_le(&mut out, p.min_amount_to_collect);
    push_byte(&mut out, p.treasury_owner_bump);
    proof {
        lemma_protocol_chunks(*p, out@);
    }
    out
}

/// Writes a campaign record's stored body.
#[verifier::rlimit(100)]
pub fn serialize_donation_data(c: &DonationData) -> (r: Vec<u8>)
    requires
        c.wf(),
    ensures
        r@ == campaign_body_bytes(*c),
{
    let mut out: Vec<u8> = Vec::new();
    push_u64_le(&mut out, c.amount_collecting);
    push_u64_le(&mut out, c.total_amount_received);
    push_u64_le(&mut out, c.ending_timestamp);
    push_byte(
        &mut out,
        if c.is_closed {
            1
        } else {
            0
        },
    );
    push_id(&mut out, &c.recipient);
    push_id(&mut out, &c.donation_protocol);
    push_id(&mut out, &c.holding_wallet);
    push_id(&mut out, &c.creator_data);
    push_id(&mut out, &c.donation_mint);
    push_byte(&mut out, c.holding_bump);
    let ghost head = out@;
    let mut hash_bytes = c.ipfs_hash.as_str().as_bytes_vec();
    let hash_len = hash_bytes.len();
    push_u32_le(&mut out, hash_len as u32);
    out.append(&mut hash_bytes);
    let mut pad: usize = 0;
    while pad < MAX_IPFS_HASH_LEN - hash_len
        invariant
            pad <= MAX_IPFS_HASH_LEN - hash_len,
            hash_len == encode_utf8(c.ipfs_hash@).len(),
            hash_len <= MAX_IPFS_HASH_LEN,
            out@ == head + u32_le_bytes(hash_len as u32) + encode_utf8(c.ipfs_hash@)
                + zero_bytes(pad as nat),
        decreases MAX_IPFS_HASH_LEN - hash_len - pad,
    {
        push_byte(&mut out, 0);
        pad = pad + 1;
        proof {
            assert(out@ =~= head + u32_le_bytes(hash_len as u32) + encode_utf8(c.ipfs_hash@)
                + zero_bytes(pad as nat));
        }
    }
    proof {
        lemma_campaign_chunks(*c, out@);
    }
    out
}

/// Writes a creator record's stored body.
#[verifier::rlimit(100)]
pub fn serialize_creator_data(g: &CreatorData) -> (r: Vec<u8>)
    ensures
        r@ == creator_body_bytes(*g),
        r@.len() + DISCRIMINATOR_LEN == CREATOR_DATA_LEN,
{
    let mut out: Vec<u8> = Vec::new();
    push_u64_le(&mut out, g.total_amount_received);
    push_u64_le(&mut out, g.total_amount_collecting);
    push_u64_le(&mut out, g.donations_created_count);
    push_u64_le(&mut out, g.donations_closed_count);
    push_id(&mut out, &g.donation_protocol);
    proof {
        lemma_empty_prefix(u64_le_bytes(g.total_amount_received));
        assert(out@ == creator_body_bytes(*g));
    }
    out
}

/// Writes a contributor record's stored body.
#[verifier::rlimit(100)]
pub fn serialize_contributor_data(k: &ContributorData) -> (r: Vec<u8>)
    ensures
        r@ == contributor_body_bytes(*k),
        r@.len() + DISCRIMINATOR_LEN == CONTRIBUTOR_DATA_LEN,
{
    let mut out: Vec<u8> = Vec::new();
    push_u64_le(&mut out, k.total_amount_donated);
    push_u64_le(&mut out, k.total_amount_earned);
    push_u64_le(&mut out, k.donations_count);
    push_id(&mut out, &k.donation_protocol);
    push_byte(&mut out, k.bump);
    proof {
        lemma_empty_prefix(u64_le_bytes(k.total_amount_donated));
        assert(out@ == contributor_body_bytes(*k));
    }
    out
}

/// Writes an AMM authorization record's stored body.
#[verifier::rlimit(100)]
pub fn serialize_authorized_clmm(a: &AuthorizedClmm) -> (r: Vec<u8>)
    ensures
        r@ == authorized_clmm_body_bytes(*a),
        r@.len() + DISCRIMINATOR_LEN == AUTHORIZED_CLMM_LEN,
{
    let mut out: Vec<u8> = Vec::new();
    push_id(&mut out, &a.program_id);
    push_id(&mut out, &a.donation_protocol);
    proof {
        lemma_empty_prefix(id_bytes(a.program_id));
        assert(out@ == authorized_clmm_body_bytes(*a));
    }
    out
}

/// Writes a pool authorization record's stored body.
#[verifier::rlimit(100)]
pub fn serialize_authorized_clmm_pool(p: &AuthorizedClmmPool) -> (r: Vec<u8>)
    ensures
        r@ == authorized_pool_body_bytes(*p),
        r@.len() + DISCRIMINATOR_LEN == AUTHORIZED_CLMM_POOL_LEN,
{
    let mut out: Vec<u8> = Vec::new();
    push_id(&mut out, &p.pool_state);
    push_id(&mut out, &p.program_id);
    push_id(&mut out, &p.mint);
    push_id(&mut out, &p.donation_protocol);
    proof {
        lemma_empty_prefix(id_bytes(p.pool_state));
        assert(out@ == authorized_pool_body_bytes(*p));
    }
    out
}

proof fn lemma_empty_prefix(x: Seq<u8>)
    ensures
        Seq::<u8>::empty() + x == x,
{
    assert(Seq::<u8>::empty() + x =~= x);
}

proof fn lemma_protocol_chunks(p: DonationProtocolData, s: Seq<u8>)
    requires
        s == ((((((Seq::<u8>::empty() + id_bytes(p.treasury_mint)) + id_bytes(p.treasury))
            + id_bytes(p.donation_mint)) + id_bytes(p.authority)) + u64_le_bytes(
            p.min_amount_to_earn,
        )) + u64_le_bytes(p.min_amount_to_collect)) + seq![p.treasury_owner_bump],
    ensures
        s == protocol_body_bytes(p),
        s.len() + DISCRIMINATOR_LEN == DONATION_PROTOCOL_DATA_LEN,
{
    lemma_empty_prefix(id_bytes(p.treasury_mint));
}

proof fn lemma_campaign_chunks(c: DonationData, s: Seq<u8>)
    requires
        c.wf(),
        s == ((((((((((((Seq::<u8>::empty() + u64_le_bytes(c.amount_collecting)) + u64_le_bytes(
            c.total_amount_received,
        )) + u64_le_bytes(c.ending_timestamp)) + bool_byte(c.is_closed)) + id_bytes(c.recipient))
            + id_bytes(c.donation_protocol)) + id_bytes(c.holding_wallet)) + id_bytes(
            c.creator_data,
        )) + id_bytes(c.donation_mint)) + seq![c.holding_bump]) + u32_le_bytes(
            encode_utf8(c.ipfs_hash@).len() as u32,
        )) + encode_utf8(c.ipfs_hash@)) + zero_bytes(
            (MAX_IPFS_HASH_LEN - encode_utf8(c.ipfs_hash@).len()) as nat,
        ),
    ensures
        s == campaign_body_bytes(c),
{
    lemma_empty_prefix(u64_le_bytes(c.amount_collecting));
}






} // verus!
