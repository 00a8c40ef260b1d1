//! Unsigned multi-limb integers, little-endian in base 2^64.
//!
//! The price conversion multiplies a 64-bit amount by a squared Q64.64
//! price, which needs intermediate values of more than 256 bits. This module
//! provides the few operations that computation needs — scalar
//! multiplication, addition, comparison, limb shifts, and a one-word
//! quotient with exact rounding — each proved against the numeric value of
//! the limb sequence.
use vstd::prelude::*;
use vstd::arithmetic::div_mod::{
    lemma_fundamental_div_mod,
    lemma_fundamental_div_mod_converse,
};

verus! {

/// The numeric value of a little-endian limb sequence.
pub open spec fn limbs_val(s: Seq<u64>) -> nat
    decreases s.len(),
{
    if s.len() == 0 {
        0
    } else {
        (s[0] + 0x10000000000000000 * limbs_val(s.drop_first())) as nat
    }
}

/// 2^64 raised to a limb count.
pub open spec fn base_pow(k: nat) -> nat
    decreases k,
{
    if k == 0 {
        1
    } else {
        0x10000000000000000 * base_pow((k - 1) as nat)
    }
}

pub proof fn lemma_limbs_val_push(s: Seq<u64>, x: u64)
    ensures
        limbs_val(s.push(x)) == limbs_val(s) + x * base_pow(s.len()),
    decreases s.len(),
{
    reveal_with_fuel(limbs_val, 3);
    if s.len() == 0 {
        assert(s.push(x).drop_first() =~= Seq::<u64>::empty());
        assert(s.push(x).len() == 1);
        assert(s.push(x)[0] == x);
        assert(limbs_val(s.push(x)) == x + 0x10000000000000000 * limbs_val(
            s.push(x).drop_first(),
        ));
        assert(limbs_val(s.push(x)) == x);
        assert(base_pow(s.len()) == 1);
        assert(limbs_val(s) == 0);
        assert(limbs_val(s.push(x)) == limbs_val(s) + x * base_pow(s.len()));
    } else {
        assert(s.push(x).drop_first() =~= s.drop_first().push(x));
        lemma_limbs_val_push(s.drop_first(), x);
        let d = limbs_val(s.drop_first());
        let p = base_pow((s.len() - 1) as nat);
        assert(limbs_val(s.push(x)) == s[0] + 0x10000000000000000 * (d + x * p));
        assert(0x10000000000000000 * (d + x * p) == 0x10000000000000000 * d + x * (
        0x10000000000000000 * p)) by (nonlinear_arith);
        assert(base_pow(s.len()) == 0x10000000000000000 * p);
        assert(limbs_val(s) == s[0] + 0x10000000000000000 * d);
        assert(limbs_val(s.push(x)) == limbs_val(s) + x * base_pow(s.len()));
    }
}

pub proof fn lemma_limbs_val_take_succ(s: Seq<u64>, i: int)
    requires
        0 <= i < s.len(),
    ensures
        limbs_val(s.take(i + 1)) == limbs_val(s.take(i)) + s[i] * base_pow(i as nat),
{
    assert(s.take(i + 1) =~= s.take(i).push(s[i]));
    lemma_limbs_val_push(s.take(i), s[i]);
}

/// Every limb sequence is bounded by the base power of its length.
pub proof fn lemma_limbs_val_bound(s: Seq<u64>)
    ensures
        limbs_val(s) < base_pow(s.len()),
    decreases s.len(),
{
    if s.len() == 0 {
    } else {
        lemma_limbs_val_bound(s.drop_first());
        let d = limbs_val(s.drop_first());
        let p = base_pow((s.len() - 1) as nat);
        assert(s[0] + 0x10000000000000000 * d < 0x10000000000000000 * p) by (nonlinear_arith)
            requires
                d < p,
                s[0] < 0x10000000000000000,
        ;
    }
}

/// The value splits at any index into a low part and a shifted high part.
pub proof fn lemma_limbs_val_split(s: Seq<u64>, i: int)
    requires
        0 <= i <= s.len(),
    ensures
        limbs_val(s) == limbs_val(s.take(i)) + base_pow(i as nat) * limbs_val(s.skip(i)),
    decreases i,
{
    reveal_with_fuel(limbs_val, 2);
    if i == 0 {
        assert(s.take(0) =~= Seq::<u64>::empty());
        assert(s.skip(0) =~= s);
        assert(base_pow(0) == 1);
        assert(limbs_val(s) == limbs_val(s.take(0)) + base_pow(0) * limbs_val(s.skip(0)));
    } else {
        lemma_limbs_val_split(s, i - 1);
        let hi = s.skip(i - 1);
        assert(hi.len() == s.len() - i + 1);
        if hi.len() == 0 {
            assert(false);
        }
        assert(hi[0] == s[i - 1]);
        assert(hi.drop_first() =~= s.skip(i));
        assert(limbs_val(hi) == s[i - 1] + 0x10000000000000000 * limbs_val(s.skip(i)));
        lemma_limbs_val_take_succ(s, i - 1);
        let a = limbs_val(s.take(i - 1));
        let b = limbs_val(s.skip(i));
        let p = base_pow((i - 1) as nat);
        assert(limbs_val(s) == a + p * (s[i - 1] + 0x10000000000000000 * b));
        assert(p * (s[i - 1] + 0x10000000000000000 * b) == s[i - 1] * p + (0x10000000000000000
            * p) * b) by (nonlinear_arith);
        assert(base_pow(i as nat) == 0x10000000000000000 * p);
        assert(limbs_val(s.take(i)) == a + s[i - 1] * p);
        assert(limbs_val(s) == limbs_val(s.take(i)) + (0x10000000000000000 * p) * b);
        assert(base_pow(i as nat) * b == (0x10000000000000000 * p) * b);
        assert(limbs_val(s) == limbs_val(s.take(i)) + base_pow(i as nat) * limbs_val(s.skip(i)));
    }
}

/// A two-limb sequence holding one 128-bit value.
pub fn wide_from_u128(x: u128) -> (r: Vec<u64>)
    ensures
        limbs_val(r@) == x,
{
    let lo = (x % 0x10000000000000000) as u64;
    let hi = (x / 0x10000000000000000) as u64;
    let mut r: Vec<u64> = Vec::new();
    r.push(lo);
    r.push(hi);
    proof {
        reveal_with_fuel(limbs_val, 4);
        assert(r@ =~= seq![lo, hi]);
        assert(r@.drop_first() =~= seq![hi]);
        assert(r@.drop_first().drop_first() =~= Seq::<u64>::empty());
        assert(r@[0] == lo && r@.drop_first()[0] == hi);
        assert(limbs_val(r@.drop_first()) == hi);
        assert(limbs_val(r@) == lo + 0x10000000000000000 * (hi as nat));
        lemma_fundamental_div_mod(x as int, 0x10000000000000000);
    }
    r
}

/// A fresh copy of a limb sequence.
pub fn wide_copy(v: &Vec<u64>) -> (r: Vec<u64>)
    ensures
        r@ == v@,
{
    let mut r: Vec<u64> = Vec::new();
    let mut i: usize = 0;
    while i < v.len()
        invariant
            i <= v@.len(),
            r@ == v@.take(i as int),
        decreases v@.len() - i,
    {
        r.push(v[i]);
        proof {
            assert(r@ =~= v@.take(i + 1));
        }
        i = i + 1;
    }
    proof {
        assert(v@.take(v@.len() as int) =~= v@);
    }
    r
}

/// Appends zero limbs until the sequence has at least `n` limbs; the value
/// is unchanged.
pub fn wide_pad_to(v: &mut Vec<u64>, n: usize)
    ensures
        limbs_val(final(v)@) == limbs_val(old(v)@),
        final(v)@.len() >= n,
        final(v)@.len() >= old(v)@.len(),
        old(v)@.len() <= n ==> final(v)@.len() == n,
{
    while v.len() < n
        invariant
            limbs_val(v@) == limbs_val(old(v)@),
            v@.len() >= old(v)@.len(),
            old(v)@.len() <= n ==> v@.len() <= n,
        decreases n - v@.len(),
    {
        proof {
            lemma_limbs_val_push(v@, 0u64);
        }
        v.push(0);
    }
}

/// Prepends `k` zero limbs: the value is multiplied by 2^(64 k).
pub fn wide_shift_limbs(v: &Vec<u64>, k: usize) -> (r: Vec<u64>)
    ensures
        limbs_val(r@) == base_pow(k as nat) * limbs_val(v@),
{
    let mut r: Vec<u64> = Vec::new();
    let mut i: usize = 0;
    while i < k
        invariant
            i <= k,
            r@.len() == i,
            forall|j: int| 0 <= j < i ==> r@[j] == 0u64,
        decreases k - i,
    {
        r.push(0);
        i = i + 1;
    }
    let mut j: usize = 0;
    while j < v.len()
        invariant
            j <= v@.len(),
            r@ =~= Seq::new(k as nat, |t: int| 0u64) + v@.take(j as int),
        decreases v@.len() - j,
    {
        r.push(v[j]);
        j = j + 1;
        proof {
            assert(r@ =~= Seq::new(k as nat, |t: int| 0u64) + v@.take(j as int));
        }
    }
    proof {
        assert(v@.take(v@.len() as int) =~= v@);
        let zs = Seq::new(k as nat, |t: int| 0u64);
        let full = zs + v@;
        assert(r@ =~= full);
        lemma_limbs_val_split(full, k as int);
        assert(full.skip(k as int) =~= v@);
        lemma_zero_limbs_val(full.take(k as int));
    }
    r
}

proof fn lemma_zero_limbs_val(s: Seq<u64>)
    requires
        forall|j: int| 0 <= j < s.len() ==> s[j] == 0u64,
    ensures
        limbs_val(s) == 0,
    decreases s.len(),
{
    if s.len() > 0 {
        lemma_zero_limbs_val(s.drop_first());
    }
}

/// Multiplies a limb sequence by a 64-bit scalar.
pub fn wide_mul_u64(v: &Vec<u64>, m: u64) -> (r: Vec<u64>)
    ensures
        limbs_val(r@) == limbs_val(v@) * m,
{
    let mut r: Vec<u64> = Vec::new();
    let mut carry: u64 = 0;
    let mut i: usize = 0;
    proof {
        assert(v@.take(0) =~= Seq::<u64>::empty());
        assert(limbs_val(v@.take(0)) * m == 0) by (nonlinear_arith)
            requires
                limbs_val(v@.take(0)) == 0,
        ;
    }
    while i < v.len()
        invariant
            i <= v@.len(),
            r@.len() == i,
            limbs_val(r@) + (carry as nat) * base_pow(i as nat) == limbs_val(
                v@.take(i as int),
            ) * m,
        decreases v@.len() - i,
    {
        proof {
            assert((v@[i as int] as u128) * (m as u128) <= 0xFFFFFFFFFFFFFFFE0000000000000001u128)
                by (nonlinear_arith)
                requires
                    v@[i as int] <= 0xFFFFFFFFFFFFFFFFu64,
                    m <= 0xFFFFFFFFFFFFFFFFu64,
            ;
        }
        let t: u128 = (v[i] as u128) * (m as u128) + (carry as u128);
        let lo = (t % 0x10000000000000000) as u64;
        let hi = (t / 0x10000000000000000) as u64;
        proof {
            lemma_mul_u64_step(r@, v@, m, carry, i as int, t, lo, hi);
        }
        r.push(lo);
        carry = hi;
        i = i + 1;
    }
    proof {
        assert(v@.take(v@.len() as int) =~= v@);
        lemma_limbs_val_push(r@, carry);
    }
    r.push(carry);
    r
}

proof fn lemma_mul_u64_step(
    racc: Seq<u64>,
    v: Seq<u64>,
    m: u64,
    carry: u64,
    i: int,
    t: u128,
    lo: u64,
    hi: u64,
)
    requires
        0 <= i < v.len(),
        racc.len() == i,
        limbs_val(racc) + (carry as nat) * base_pow(i as nat) == limbs_val(v.take(i)) * m,
        t == v[i] * m + carry,
        lo == t % 0x10000000000000000,
        hi == t / 0x10000000000000000,
    ensures
        limbs_val(racc.push(lo)) + (hi as nat) * base_pow((i + 1) as nat) == limbs_val(
            v.take(i + 1),
        ) * m,
{
    lemma_limbs_val_push(racc, lo);
    lemma_limbs_val_take_succ(v, i);
    lemma_fundamental_div_mod(t as int, 0x10000000000000000);
    let p = base_pow(i as nat);
    let a = limbs_val(racc);
    let vt = limbs_val(v.take(i));
    // value after this step, written over the step's pieces
    assert(limbs_val(racc.push(lo)) == a + lo * p);
    assert(base_pow((i + 1) as nat) == 0x10000000000000000 * p);
    assert((limbs_val(v.take(i + 1))) * m == (vt + v[i] * p) * m);
    assert((vt + v[i] * p) * m == vt * m + (v[i] * m) * p) by (nonlinear_arith);
    assert(t == lo + 0x10000000000000000 * hi);
    assert(a + lo * p + (hi as nat) * (0x10000000000000000 * p) == a + (lo + 0x10000000000000000
        * hi) * p) by (nonlinear_arith);
    assert(a + (t as nat) * p == a + ((v[i] * m) as nat) * p + (carry as nat) * p) by (
    nonlinear_arith)
        requires
            t == v[i] * m + carry,
    ;
}

/// Adds two limb sequences.
pub fn wide_add(a: &Vec<u64>, b: &Vec<u64>) -> (r: Vec<u64>)
    ensures
        limbs_val(r@) == limbs_val(a@) + limbs_val(b@),
{
    let mut x = wide_copy(a);
    let mut y = wide_copy(b);
    let n = if x.len() < y.len() {
        y.len()
    } else {
        x.len()
    };
    wide_pad_to(&mut x, n);
    wide_pad_to(&mut y, n);
    let mut r: Vec<u64> = Vec::new();
    let mut carry: u64 = 0;
    let mut i: usize = 0;
    proof {
        assert(x@.take(0) =~= Seq::<u64>::empty());
        assert(y@.take(0) =~= Seq::<u64>::empty());
    }
    while i < n
        invariant
            i <= n,
            x@.len() == n,
            y@.len() == n,
            limbs_val(x@) == limbs_val(a@),
            limbs_val(y@) == limbs_val(b@),
            r@.len() == i,
            carry <= 1,
            limbs_val(r@) + (carry as nat) * base_pow(i as nat) == limbs_val(x@.take(i as int))
                + limbs_val(y@.take(i as int)),
        decreases n - i,
    {
        let t: u128 = (x[i] as u128) + (y[i] as u128) + (carry as u128);
        let lo = (t % 0x10000000000000000) as u64;
        let hi = (t / 0x10000000000000000) as u64;
        proof {
            lemma_add_step(r@, x@, y@, carry, i as int, t, lo, hi);
        }
        r.push(lo);
        carry = hi;
        i = i + 1;
    }
    proof {
        assert(x@.take(n as int) =~= x@);
        assert(y@.take(n as int) =~= y@);
        lemma_limbs_val_push(r@, carry);
    }
    r.push(carry);
    r
}

proof fn lemma_add_step(
    racc: Seq<u64>,
    x: Seq<u64>,
    y: Seq<u64>,
    carry: u64,
    i: int,
    t: u128,
    lo: u64,
    hi: u64,
)
    requires
        0 <= i < x.len(),
        x.len() == y.len(),
        racc.len() == i,
        carry <= 1,
        limbs_val(racc) + (carry as nat) * base_pow(i as nat) == limbs_val(x.take(i))
            + limbs_val(y.take(i)),
        t == x[i] + y[i] + carry,
        lo == t % 0x10000000000000000,
        hi == t / 0x10000000000000000,
    ensures
        hi <= 1,
        limbs_val(racc.push(lo)) + (hi as nat) * base_pow((i + 1) as nat) == limbs_val(
            x.take(i + 1),
        ) + limbs_val(y.take(i + 1)),
{
    lemma_limbs_val_push(racc, lo);
    lemma_limbs_val_take_succ(x, i);
    lemma_limbs_val_take_succ(y, i);
    lemma_fundamental_div_mod(t as int, 0x10000000000000000);
    let p = base_pow(i as nat);
    assert(t < 2 * 0x10000000000000000);
    assert(hi <= 1) by (nonlinear_arith)
        requires
            t == 0x10000000000000000 * (t / 0x10000000000000000) + t % 0x10000000000000000,
            0 <= t % 0x10000000000000000 < 0x10000000000000000,
            t < 2 * 0x10000000000000000,
            hi == t / 0x10000000000000000,
    ;
    assert(base_pow((i + 1) as nat) == 0x10000000000000000 * p);
    assert(t == lo + 0x10000000000000000 * hi);
    let ra = limbs_val(racc);
    assert(ra + lo * p + (hi as nat) * (0x10000000000000000 * p) == ra + (lo
        + 0x10000000000000000 * hi) * p) by (nonlinear_arith);
    assert(ra + (t as nat) * p == ra + (carry as nat) * p + (x[i] as nat) * p + (y[i] as nat)
        * p) by (nonlinear_arith)
        requires
            t == x[i] + y[i] + carry,
    ;
}

proof fn lemma_limbs_val_cmp_at(x: Seq<u64>, y: Seq<u64>, i: int)
    requires
        x.len() == y.len(),
        0 <= i < x.len(),
        forall|k: int| i < k < x.len() ==> x[k] == y[k],
        x[i] < y[i],
    ensures
        limbs_val(x) < limbs_val(y),
{
    lemma_limbs_val_split(x, i + 1);
    lemma_limbs_val_split(y, i + 1);
    assert(x.skip(i + 1) =~= y.skip(i + 1));
    lemma_limbs_val_take_succ(x, i);
    lemma_limbs_val_take_succ(y, i);
    let p = base_pow(i as nat);
    lemma_limbs_val_bound(x.take(i));
    assert(x.take(i).len() == i);
    assert(limbs_val(x.take(i)) + x[i] * p < (x[i] + 1) * p) by (nonlinear_arith)
        requires
            limbs_val(x.take(i)) < p,
    ;
    assert((x[i] + 1) * p <= y[i] * p) by (nonlinear_arith)
        requires
            x[i] + 1 <= y[i],
            p >= 0,
    ;
    assert(limbs_val(y.take(i)) + y[i] * p >= y[i] * p);
}

/// Compares two limb sequences as numbers: strictly less.
pub fn wide_lt(a: &Vec<u64>, b: &Vec<u64>) -> (r: bool)
    ensures
        r == (limbs_val(a@) < limbs_val(b@)),
{
    let mut x = wide_copy(a);
    let mut y = wide_copy(b);
    let n = if x.len() < y.len() {
        y.len()
    } else {
        x.len()
    };
    wide_pad_to(&mut x, n);
    wide_pad_to(&mut y, n);
    let mut j: usize = n;
    while j > 0
        invariant
            j <= n,
            x@.len() == n,
            y@.len() == n,
            limbs_val(x@) == limbs_val(a@),
            limbs_val(y@) == limbs_val(b@),
            forall|k: int| j <= k < n ==> x@[k] == y@[k],
        decreases j,
    {
        j = j - 1;
        if x[j] < y[j] {
            proof {
                lemma_limbs_val_cmp_at(x@, y@, j as int);
            }
            return true;
        }
        if x[j] > y[j] {
            proof {
                lemma_limbs_val_cmp_at(y@, x@, j as int);
            }
            return false;
        }
    }
    proof {
        assert(x@ =~= y@);
    }
    false
}

/// Compares two limb sequences as numbers: less or equal.
pub fn wide_le(a: &Vec<u64>, b: &Vec<u64>) -> (r: bool)
    ensures
        r == (limbs_val(a@) <= limbs_val(b@)),
{
    let strictly_greater = wide_lt(b, a);
    !strictly_greater
}

/// Multiplies a limb sequence by a 128-bit scalar.
pub fn wide_mul_u128(v: &Vec<u64>, m: u128) -> (r: Vec<u64>)
    ensures
        limbs_val(r@) == limbs_val(v@) * m,
{
    let lo = (m % 0x10000000000000000) as u64;
    let hi = (m / 0x10000000000000000) as u64;
    let low_part = wide_mul_u64(v, lo);
    let high_unshifted = wide_mul_u64(v, hi);
    let high_part = wide_shift_limbs(&high_unshifted, 1);
    let r = wide_add(&low_part, &high_part);
    proof {
        lemma_fundamental_div_mod(m as int, 0x10000000000000000);
        let w = limbs_val(v@);
        reveal_with_fuel(base_pow, 2);
        assert(base_pow(1) == 0x10000000000000000);
        assert(limbs_val(r@) == w * lo + 0x10000000000000000 * (w * hi));
        assert(w * lo + 0x10000000000000000 * (w * hi) == w * (lo + 0x10000000000000000 * hi))
            by (nonlinear_arith);
        assert(m == lo + 0x10000000000000000 * hi);
    }
    r
}

/// 2 raised to a bit count.
pub open spec fn two_pow(k: nat) -> nat
    decreases k,
{
    if k == 0 {
        1
    } else {
        2 * two_pow((k - 1) as nat)
    }
}

/// One word of quotient: the greatest `q` with `q * d <= n`, for a dividend
/// known to be under `d * 2^64`.
pub fn wide_div_u64(n: &Vec<u64>, d: &Vec<u64>) -> (q: u64)
    requires
        limbs_val(d@) >= 1,
        limbs_val(n@) < limbs_val(d@) * 0x10000000000000000,
    ensures
        (q as nat) * limbs_val(d@) <= limbs_val(n@),
        limbs_val(n@) < (q + 1) * limbs_val(d@),
{
    let dv = Ghost(limbs_val(d@));
    let nv = Ghost(limbs_val(n@));
    let mut q: u64 = 0;
    let mut bit: u64 = 0x8000000000000000;
    let ghost mut e: nat = 63;
    proof {
        assert((0u64 as nat) * dv@ == 0) by (nonlinear_arith);
        assert(dv@ * 0x10000000000000000 == 0x10000000000000000 * dv@) by (nonlinear_arith);
        lemma_two_pow_63();
    }
    while bit >= 1
        invariant
            limbs_val(d@) == dv@,
            limbs_val(n@) == nv@,
            dv@ >= 1,
            bit >= 1 ==> bit as nat == two_pow(e),
            (q as nat) * dv@ <= nv@,
            nv@ < (q + (if bit >= 1 {
                2 * (bit as nat)
            } else {
                1nat
            })) * dv@,
            q + (if bit >= 1 {
                2 * (bit as nat)
            } else {
                1nat
            }) <= 0x10000000000000000,
        decreases bit,
    {
        let c = q + bit;
        let t = wide_mul_u64(d, c);
        let ghost q0 = q;
        if wide_le(&t, n) {
            proof {
                assert(limbs_val(t@) == dv@ * c);
                assert((c as nat) * dv@ == dv@ * c) by (nonlinear_arith);
            }
            q = c;
        } else {
            proof {
                assert(limbs_val(t@) == dv@ * c);
                assert(nv@ < (c as nat) * dv@) by (nonlinear_arith)
                    requires
                        nv@ < dv@ * c,
                ;
            }
        }
        proof {
            assert((q0 + 2 * (bit as nat)) * dv@ == (q0 + bit + bit) * dv@) by (nonlinear_arith);
            // both cases leave the dividend under (q + bit) * divisor
            assert(nv@ < (q + (bit as nat)) * dv@) by (nonlinear_arith)
                requires
                    q == q0 || q == q0 + bit,
                    q == q0 ==> nv@ < (c as nat) * dv@,
                    q == q0 + bit ==> nv@ < (q0 + 2 * (bit as nat)) * dv@,
                    c == q0 + bit,
            ;
            if bit > 1 {
                if e == 0 {
                    assert(two_pow(0) == 1);
                    assert(false);
                }
                assert(two_pow(e) == 2 * two_pow((e - 1) as nat));
                e = (e - 1) as nat;
            }
        }
        bit = bit / 2;
    }
    q
}

proof fn lemma_two_pow_63()
    ensures
        two_pow(63) == 0x8000000000000000,
{
    reveal_with_fuel(two_pow, 64);
}

/// Rounding division, half away from zero: the nearest integer to `a / b`,
/// halves rounded up.
pub open spec fn rnd(a: nat, b: nat) -> nat
    recommends
        b >= 1,
{
    (2 * a + b) / (2 * b)
}

/// The rounded quotient differs from the exact ratio by at most half of the
/// divisor: `|2 b rnd(a, b) - 2 a| <= b`.
pub proof fn lemma_rnd_bounds(a: nat, b: nat)
    requires
        b >= 1,
    ensures
        2 * b * rnd(a, b) <= 2 * a + b,
        2 * a < 2 * b * rnd(a, b) + b,
{
    let q = rnd(a, b);
    lemma_fundamental_div_mod((2 * a + b) as int, (2 * b) as int);
    let r = (2 * a + b) % (2 * b);
    assert(2 * a + b == (2 * b) * q + r);
    assert(2 * b * q == (2 * b) * q) by (nonlinear_arith);
}

/// Which way the rounded quotient goes, given the floored quotient.
pub proof fn lemma_rnd_cases(n: nat, d: nat, q: nat)
    requires
        d >= 1,
        q * d <= n,
        n < (q + 1) * d,
    ensures
        2 * n >= (2 * q + 1) * d ==> rnd(n, d) == q + 1,
        2 * n < (2 * q + 1) * d ==> rnd(n, d) == q,
{
    if 2 * n >= (2 * q + 1) * d {
        let r = 2 * n + d - (q + 1) * (2 * d);
        assert(2 * n + d >= (q + 1) * (2 * d)) by (nonlinear_arith)
            requires
                2 * n >= (2 * q + 1) * d,
        ;
        assert(2 * n + d < (q + 1) * (2 * d) + 2 * d) by (nonlinear_arith)
            requires
                n < (q + 1) * d,
        ;
        lemma_fundamental_div_mod_converse((2 * n + d) as int, (2 * d) as int, (q + 1) as int, r);
    } else {
        let r = 2 * n + d - q * (2 * d);
        assert(2 * n + d >= q * (2 * d)) by (nonlinear_arith)
            requires
                q * d <= n,
        ;
        assert(2 * n + d < q * (2 * d) + 2 * d) by (nonlinear_arith)
            requires
                2 * n < (2 * q + 1) * d,
        ;
        lemma_fundamental_div_mod_converse((2 * n + d) as int, (2 * d) as int, q as int, r);
    }
}

/// A dividend of at least `m * d` rounds to at least `m`.
pub proof fn lemma_rnd_lower(n: nat, d: nat, m: nat)
    requires
        d >= 1,
        n >= m * d,
    ensures
        rnd(n, d) >= m,
{
    lemma_rnd_bounds(n, d);
    let q = rnd(n, d);
    assert(2 * (m * d) <= 2 * n < 2 * d * q + d);
    assert(q >= m) by (nonlinear_arith)
        requires
            2 * (m * d) < 2 * d * q + d,
            d >= 1,
    ;
}

/// The rounded quotient of two limb numbers, when it fits one word.
pub fn wide_round_div(n: &Vec<u64>, d: &Vec<u64>) -> (r: Option<u64>)
    requires
        limbs_val(d@) >= 1,
    ensures
        r matches Some(v) ==> rnd(limbs_val(n@), limbs_val(d@)) <= u64::MAX && v == rnd(
            limbs_val(n@),
            limbs_val(d@),
        ),
        r is None ==> rnd(limbs_val(n@), limbs_val(d@)) > u64::MAX,
{
    let ghost nv = limbs_val(n@);
    let ghost dv = limbs_val(d@);
    let dshift = wide_shift_limbs(d, 1);
    if !wide_lt(n, &dshift) {
        proof {
            reveal_with_fuel(base_pow, 2);
            assert(limbs_val(dshift@) == 0x10000000000000000 * dv);
            assert(nv >= 0x10000000000000000 * dv);
            assert(nv >= 0x10000000000000000 * dv ==> nv >= (0x10000000000000000nat) * dv);
            lemma_rnd_lower(nv, dv, 0x10000000000000000nat);
        }
        return None;
    }
    proof {
        reveal_with_fuel(base_pow, 2);
        assert(nv < 0x10000000000000000 * dv);
        assert(dv * 0x10000000000000000 == 0x10000000000000000 * dv) by (nonlinear_arith);
    }
    let q = wide_div_u64(n, d);
    proof {
        lemma_rnd_cases(nv, dv, q as nat);
    }
    let n2 = wide_mul_u64(n, 2);
    let d2 = wide_mul_u64(d, 2);
    let t0 = wide_mul_u64(&d2, q);
    let t = wide_add(&t0, d);
    proof {
        assert(limbs_val(t@) == (dv * 2) * q + dv);
        assert((dv * 2) * q + dv == (2 * (q as nat) + 1) * dv) by (nonlinear_arith);
        assert(limbs_val(n2@) == nv * 2);
    }
    if wide_le(&t, &n2) {
        proof {
            assert((2 * (q as nat) + 1) * dv <= 2 * nv);
        }
        if q == u64::MAX {
            proof {
                assert(rnd(nv, dv) == q + 1);
            }
            return None;
        }
        Some(q + 1)
    } else {
        proof {
            assert(2 * nv < (2 * (q as nat) + 1) * dv);
        }
        Some(q)
    }
}

/// Converting a value and converting it back differ by at most half a unit
/// of each side: `2 num |z - x| <= num + den` for `y = rnd(x num, den)`,
/// `z = rnd(y den, num)`.
pub proof fn lemma_rnd_round_trip(x: nat, num: nat, den: nat)
    requires
        num >= 1,
        den >= 1,
    ensures
        2 * num * rnd(rnd(x * num, den) * den, num) <= 2 * num * x + num + den,
        2 * num * x <= 2 * num * rnd(rnd(x * num, den) * den, num) + num + den,
{
    let y = rnd(x * num, den);
    let z = rnd(y * den, num);
    lemma_rnd_bounds(x * num, den);
    lemma_rnd_bounds(y * den, num);
    assert(2 * num * z <= 2 * num * x + num + den && 2 * num * x <= 2 * num * z + num + den)
        by (nonlinear_arith)
        requires
            2 * den * y <= 2 * (x * num) + den,
            2 * (x * num) < 2 * den * y + den,
            2 * num * z <= 2 * (y * den) + num,
            2 * (y * den) < 2 * num * z + num,
    ;
}

} // verus!
