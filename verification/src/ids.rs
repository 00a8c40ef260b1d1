//! Account identifiers: 32-byte addresses of the host ledger, held as four
//! 64-bit little-endian words so that contracts can compare and serialize them
//! as plain values.
use vstd::prelude::*;

verus! {

/// A 32-byte account address, split into four little-endian 64-bit words.
/// `w0` covers bytes 0..8, `w1` bytes 8..16, and so on.
#[derive(Clone, Copy, PartialEq, Eq, Structural, Debug, Hash)]
pub struct AccountId {
    pub w0: u64,
    pub w1: u64,
    pub w2: u64,
    pub w3: u64,
}

/// The little-endian bytes of one 64-bit word.
pub open spec fn u64_le_bytes(w: u64) -> Seq<u8> {
    seq![
        (w % 256) as u8,
        ((w / 256) % 256) as u8,
        ((w / 65536) % 256) as u8,
        ((w / 16777216) % 256) as u8,
        ((w / 4294967296) % 256) as u8,
        ((w / 1099511627776) % 256) as u8,
        ((w / 281474976710656) % 256) as u8,
        ((w / 72057594037927936) % 256) as u8,
    ]
}

/// One 64-bit word read from eight little-endian bytes.
pub open spec fn u64_from_le(b: Seq<u8>) -> u64
    recommends
        b.len() == 8,
{
    (b[0] + b[1] * 256 + b[2] * 65536 + b[3] * 16777216 + b[4] * 4294967296
        + b[5] * 1099511627776 + b[6] * 281474976710656 + b[7] * 72057594037927936) as u64
}

/// The 32-byte form of an identifier, as the ledger writes it.
pub open spec fn id_bytes(id: AccountId) -> Seq<u8> {
    u64_le_bytes(id.w0) + u64_le_bytes(id.w1) + u64_le_bytes(id.w2) + u64_le_bytes(id.w3)
}

/// The identifier read back from its 32-byte form.
pub open spec fn id_from_bytes(b: Seq<u8>) -> AccountId
    recommends
        b.len() == 32,
{
    AccountId {
        w0: u64_from_le(b.subrange(0, 8)),
        w1: u64_from_le(b.subrange(8, 16)),
        w2: u64_from_le(b.subrange(16, 24)),
        w3: u64_from_le(b.subrange(24, 32)),
    }
}

/// Appends one 64-bit word in little-endian form.
pub fn push_u64_le(out: &mut Vec<u8>, w: u64)
    ensures
        final(out)@ == old(out)@ + u64_le_bytes(w),
{
    out.push((w % 256) as u8);
    out.push(((w / 256) % 256) as u8);
    out.push(((w / 65536) % 256) as u8);
    out.push(((w / 16777216) % 256) as u8);
    out.push(((w / 4294967296) % 256) as u8);
    out.push(((w / 1099511627776) % 256) as u8);
    out.push(((w / 281474976710656) % 256) as u8);
    out.push(((w / 72057594037927936) % 256) as u8);
    proof {
        assert(out@ =~= old(out)@ + u64_le_bytes(w));
    }
}

/// Writes an identifier in its 32-byte ledger form.
pub fn id_to_bytes(id: &AccountId) -> (r: Vec<u8>)
    ensures
        r@ == id_bytes(*id),
        r@.len() == 32,
{
    let mut out: Vec<u8> = Vec::new();
    push_u64_le(&mut out, id.w0);
    push_u64_le(&mut out, id.w1);
    push_u64_le(&mut out, id.w2);
    push_u64_le(&mut out, id.w3);
    proof {
        assert(out@ =~= id_bytes(*id));
    }
    out
}

fn read_u64_le(b: &Vec<u8>, start: usize) -> (r: u64)
    requires
        start + 8 <= b@.len(),
    ensures
        r == u64_from_le(b@.subrange(start as int, start as int + 8)),
{
    proof {
        assert(b.len() == b@.len());
    }
    let mut r: u64 = b[start + 7] as u64;
    r = r * 256 + b[start + 6] as u64;
    r = r * 256 + b[start + 5] as u64;
    r = r * 256 + b[start + 4] as u64;
    r = r * 256 + b[start + 3] as u64;
    r = r * 256 + b[start + 2] as u64;
    r = r * 256 + b[start + 1] as u64;
    r = r * 256 + b[start] as u64;
    proof {
        let s = b@.subrange(start as int, start as int + 8);
        assert(s[0] == b@[start as int]);
        assert(s[1] == b@[start as int + 1]);
        assert(s[2] == b@[start as int + 2]);
        assert(s[3] == b@[start as int + 3]);
        assert(s[4] == b@[start as int + 4]);
        assert(s[5] == b@[start as int + 5]);
        assert(s[6] == b@[start as int + 6]);
        assert(s[7] == b@[start as int + 7]);
    }
    r
}

/// Reads an identifier back from its 32-byte ledger form.
pub fn id_from_byte_vec(b: &Vec<u8>) -> (r: AccountId)
    requires
        b@.len() == 32,
    ensures
        r == id_from_bytes(b@),
{
    AccountId {
        w0: read_u64_le(b, 0),
        w1: read_u64_le(b, 8),
        w2: read_u64_le(b, 16),
        w3: read_u64_le(b, 24),
    }
}

} // verus!
