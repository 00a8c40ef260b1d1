//! Q64.64 fixed-point price conversion, in exact integer arithmetic.
//!
//! An authorized pool reports `sqrt_price_x64`, the square root of the price
//! of its second mint in terms of its first, scaled by 2^64. A cross-mint
//! amount is converted to default-mint units by dividing or multiplying by
//! the price `sqrt_price_x64^2 * 10^decimals_0 / (2^128 * 10^decimals_1)`,
//! rounding half away from zero — computed here as a single exact rounded
//! division of wide integers.
use vstd::prelude::*;
use crate::wide::{
    base_pow, limbs_val, rnd, lemma_rnd_round_trip, wide_from_u128, wide_mul_u128, wide_mul_u64,
    wide_round_div, wide_shift_limbs,
};

verus! {

/// 10 raised to a decimal count.
pub open spec fn pow10(k: nat) -> nat
    decreases k,
{
    if k == 0 {
        1
    } else {
        10 * pow10((k - 1) as nat)
    }
}

pub proof fn lemma_pow10_pos(k: nat)
    ensures
        pow10(k) >= 1,
    decreases k,
{
    if k > 0 {
        lemma_pow10_pos((k - 1) as nat);
        assert(10 * pow10((k - 1) as nat) >= 10 * 1) by (nonlinear_arith)
            requires
                pow10((k - 1) as nat) >= 1,
        ;
    }
}

proof fn lemma_pow10_19_bound()
    ensures
        pow10(19) == 10000000000000000000,
{
    reveal_with_fuel(pow10, 21);
}

/// One power-of-ten word, for up to 19 decimals.
pub fn pow10_u64(d: u8) -> (r: u64)
    requires
        d <= 19,
    ensures
        r == pow10(d as nat),
{
    proof {
        lemma_pow10_19_bound();
    }
    let mut r: u64 = 1;
    let mut i: u8 = 0;
    while i < d
        invariant
            i <= d,
            d <= 19,
            r == pow10(i as nat),
        decreases d - i,
    {
        proof {
            lemma_pow10_19_bound();
            lemma_pow10_mono(i as nat + 1, 19);
            assert(10 * pow10(i as nat) == pow10(i as nat + 1));
        }
        r = r * 10;
        i = i + 1;
    }
    r
}

pub proof fn lemma_pow10_mono(a: nat, b: nat)
    requires
        a <= b,
    ensures
        pow10(a) <= pow10(b),
    decreases b,
{
    if a < b {
        lemma_pow10_mono(a, (b - 1) as nat);
        lemma_pow10_pos((b - 1) as nat);
        assert(pow10(b) == 10 * pow10((b - 1) as nat));
        assert(10 * pow10((b - 1) as nat) >= pow10((b - 1) as nat)) by (nonlinear_arith)
            requires
                pow10((b - 1) as nat) >= 1,
        ;
    }
}

/// Which mint's decimals play the role of the pool's first and second mint:
/// `(decimals_0, decimals_1)`.
pub open spec fn spec_identify_mint_decimals(
    default_donation_mint_decimals: u8,
    donation_mint_decimals: u8,
    is_default_token_mint_0: bool,
) -> (u8, u8) {
    if is_default_token_mint_0 {
        (default_donation_mint_decimals, donation_mint_decimals)
    } else {
        (donation_mint_decimals, default_donation_mint_decimals)
    }
}

/// Orders the two mints' decimals as the pool's pair `(decimals_0, decimals_1)`.
pub fn identify_mint_decimals(
    default_donation_mint_decimals: u8,
    donation_mint_decimals: u8,
    is_default_token_mint_0: bool,
) -> (r: (u8, u8))
    ensures
        r == spec_identify_mint_decimals(
            default_donation_mint_decimals,
            donation_mint_decimals,
            is_default_token_mint_0,
        ),
{
    if is_default_token_mint_0 {
        return (default_donation_mint_decimals, donation_mint_decimals);
    }
    (donation_mint_decimals, default_donation_mint_decimals)
}

/// Numerator of the pool price as an exact rational: `sqrt_price^2 * 10^decimals_0`.
pub open spec fn conv_num(sqrt_price_x64: u128, decimals_0: u8) -> nat {
    (sqrt_price_x64 as nat) * (sqrt_price_x64 as nat) * pow10(decimals_0 as nat)
}

/// Denominator of the pool price as an exact rational: `2^128 * 10^decimals_1`.
pub open spec fn conv_den(decimals_1: u8) -> nat {
    0x100000000000000000000000000000000 * pow10(decimals_1 as nat)
}

/// The converted value of a (possibly wide) amount: divided by the price
/// when the default mint is the pool's first mint, multiplied by it
/// otherwise, rounded half away from zero.
pub open spec fn spec_convert_value(
    x: nat,
    sqrt_price_x64: u128,
    decimals_0: u8,
    decimals_1: u8,
    is_default_token_mint_0: bool,
) -> nat {
    if is_default_token_mint_0 {
        rnd(x * conv_den(decimals_1), conv_num(sqrt_price_x64, decimals_0))
    } else {
        rnd(x * conv_num(sqrt_price_x64, decimals_0), conv_den(decimals_1))
    }
}

/// The default-mint value of `amount` at the reported pool price.
pub open spec fn spec_calculate_amount(
    default_donation_mint_decimals: u8,
    donation_mint_decimals: u8,
    amount: u64,
    sqrt_price_x64: u128,
    is_default_token_mint_0: bool,
) -> nat {
    let (d0, d1) = spec_identify_mint_decimals(
        default_donation_mint_decimals,
        donation_mint_decimals,
        is_default_token_mint_0,
    );
    spec_convert_value(amount as nat, sqrt_price_x64, d0, d1, is_default_token_mint_0)
}

pub proof fn lemma_conv_num_pos(sqrt_price_x64: u128, decimals_0: u8)
    requires
        sqrt_price_x64 >= 1,
    ensures
        conv_num(sqrt_price_x64, decimals_0) >= 1,
{
    lemma_pow10_pos(decimals_0 as nat);
    assert((sqrt_price_x64 as nat) * (sqrt_price_x64 as nat) * pow10(decimals_0 as nat) >= 1)
        by (nonlinear_arith)
        requires
            sqrt_price_x64 >= 1,
            pow10(decimals_0 as nat) >= 1,
    ;
}

pub proof fn lemma_conv_den_pos(decimals_1: u8)
    ensures
        conv_den(decimals_1) >= 1,
{
    lemma_pow10_pos(decimals_1 as nat);
    assert(0x100000000000000000000000000000000 * pow10(decimals_1 as nat) >= 1) by (
    nonlinear_arith)
        requires
            pow10(decimals_1 as nat) >= 1,
    ;
}

/// Converts `amount` to default-mint units at the pool price, or `None`
/// when the exact rounded result does not fit a 64-bit amount.
pub fn calculate_amount_checked(
    default_donation_mint_decimals: u8,
    donation_mint_decimals: u8,
    amount: u64,
    sqrt_price_x64: u128,
    is_default_token_mint_0: bool,
) -> (r: Option<u64>)
    requires
        sqrt_price_x64 >= 1,
        default_donation_mint_decimals <= 19,
        donation_mint_decimals <= 19,
    ensures
        r matches Some(v) ==> spec_calculate_amount(
            default_donation_mint_decimals,
            donation_mint_decimals,
            amount,
            sqrt_price_x64,
            is_default_token_mint_0,
        ) <= u64::MAX && v == spec_calculate_amount(
            default_donation_mint_decimals,
            donation_mint_decimals,
            amount,
            sqrt_price_x64,
            is_default_token_mint_0,
        ),
        r is None ==> spec_calculate_amount(
            default_donation_mint_decimals,
            donation_mint_decimals,
            amount,
            sqrt_price_x64,
            is_default_token_mint_0,
        ) > u64::MAX,
{
    let (d0, d1) = identify_mint_decimals(
        default_donation_mint_decimals,
        donation_mint_decimals,
        is_default_token_mint_0,
    );
    let sq1 = wide_from_u128(sqrt_price_x64);
    let sq = wide_mul_u128(&sq1, sqrt_price_x64);
    let num = wide_mul_u64(&sq, pow10_u64(d0));
    proof {
        assert(limbs_val(num@) == conv_num(sqrt_price_x64, d0)) by (nonlinear_arith)
            requires
                limbs_val(num@) == ((sqrt_price_x64 as nat) * (sqrt_price_x64 as nat)) * pow10(
                    d0 as nat,
                ),
                conv_num(sqrt_price_x64, d0) == (sqrt_price_x64 as nat) * (sqrt_price_x64 as nat)
                    * pow10(d0 as nat),
        ;
        lemma_conv_num_pos(sqrt_price_x64, d0);
        lemma_conv_den_pos(d1);
        reveal_with_fuel(base_pow, 3);
        assert(base_pow(2) == 0x100000000000000000000000000000000);
    }
    if is_default_token_mint_0 {
        let p1 = pow10_u64(d1);
        proof {
            lemma_pow10_19_bound();
            lemma_pow10_mono(d1 as nat, 19);
            assert((amount as nat) * (p1 as nat) < 0x100000000000000000000000000000000) by (
            nonlinear_arith)
                requires
                    amount <= 0xFFFFFFFFFFFFFFFFu64,
                    p1 <= 10000000000000000000u64,
            ;
        }
        let a1: u128 = (amount as u128) * (p1 as u128);
        let n0 = wide_from_u128(a1);
        let n = wide_shift_limbs(&n0, 2);
        proof {
            assert(limbs_val(n@) == (amount as nat) * conv_den(d1)) by (nonlinear_arith)
                requires
                    limbs_val(n@) == 0x100000000000000000000000000000000 * ((amount as nat) * (
                    p1 as nat)),
                    conv_den(d1) == 0x100000000000000000000000000000000 * (p1 as nat),
            ;
        }
        wide_round_div(&n, &num)
    } else {
        let n = wide_mul_u64(&num, amount);
        let d0vec = wide_from_u128(pow10_u64(d1) as u128);
        let den = wide_shift_limbs(&d0vec, 2);
        proof {
            assert(limbs_val(n@) == (amount as nat) * conv_num(sqrt_price_x64, d0)) by (
            nonlinear_arith)
                requires
                    limbs_val(n@) == conv_num(sqrt_price_x64, d0) * (amount as nat),
            ;
            assert(limbs_val(den@) == conv_den(d1));
        }
        wide_round_div(&n, &den)
    }
}

/// The default-mint value of `amount` at the reported pool price. The
/// result must fit a 64-bit amount; `calculate_amount_checked` reports the
/// overflow instead.
pub fn calculate_amount(
    default_donation_mint_decimals: u8,
    donation_mint_decimals: u8,
    amount: u64,
    sqrt_price_x64: u128,
    is_default_token_mint_0: bool,
) -> (r: u64)
    requires
        sqrt_price_x64 >= 1,
        default_donation_mint_decimals <= 19,
        donation_mint_decimals <= 19,
        spec_calculate_amount(
            default_donation_mint_decimals,
            donation_mint_decimals,
            amount,
            sqrt_price_x64,
            is_default_token_mint_0,
        ) <= u64::MAX,
    ensures
        r == spec_calculate_amount(
            default_donation_mint_decimals,
            donation_mint_decimals,
            amount,
            sqrt_price_x64,
            is_default_token_mint_0,
        ),
{
    match calculate_amount_checked(
        default_donation_mint_decimals,
        donation_mint_decimals,
        amount,
        sqrt_price_x64,
        is_default_token_mint_0,
    ) {
        Some(v) => v,
        None => {
            proof {
                assert(false);
            }
            0
        },
    }
}

/// Converting an amount across mints and back reproduces it up to the
/// rounding slack of both sides: with `w` the factor the amount is first
/// multiplied by and `v` the divisor of that first conversion, the round
/// trip `z` of `x` satisfies `2 w |z - x| <= w + v`. When `w >= v` — the
/// first conversion shrinks the amount or keeps its scale — this puts `z`
/// within one unit of `x`.
pub proof fn lemma_calculate_amount_round_trip(
    default_donation_mint_decimals: u8,
    donation_mint_decimals: u8,
    amount: u64,
    sqrt_price_x64: u128,
    is_default_token_mint_0: bool,
)
    requires
        sqrt_price_x64 >= 1,
        spec_calculate_amount(
            default_donation_mint_decimals,
            donation_mint_decimals,
            amount,
            sqrt_price_x64,
            is_default_token_mint_0,
        ) <= u64::MAX,
    ensures
        ({
            let (d0, d1) = spec_identify_mint_decimals(
                default_donation_mint_decimals,
                donation_mint_decimals,
                is_default_token_mint_0,
            );
            let y = spec_calculate_amount(
                default_donation_mint_decimals,
                donation_mint_decimals,
                amount,
                sqrt_price_x64,
                is_default_token_mint_0,
            );
            let z = spec_calculate_amount(
                donation_mint_decimals,
                default_donation_mint_decimals,
                y as u64,
                sqrt_price_x64,
                !is_default_token_mint_0,
            );
            let w = if is_default_token_mint_0 {
                conv_den(d1)
            } else {
                conv_num(sqrt_price_x64, d0)
            };
            let v = if is_default_token_mint_0 {
                conv_num(sqrt_price_x64, d0)
            } else {
                conv_den(d1)
            };
            2 * w * z <= 2 * w * (amount as nat) + w + v && 2 * w * (amount as nat) <= 2 * w * z
                + w + v
        }),
{
    let (d0, d1) = spec_identify_mint_decimals(
        default_donation_mint_decimals,
        donation_mint_decimals,
        is_default_token_mint_0,
    );
    lemma_conv_num_pos(sqrt_price_x64, d0);
    lemma_conv_den_pos(d1);
    let cn = conv_num(sqrt_price_x64, d0);
    let cd = conv_den(d1);
    if is_default_token_mint_0 {
        lemma_rnd_round_trip(amount as nat, cd, cn);
    } else {
        lemma_rnd_round_trip(amount as nat, cn, cd);
    }
}

} // verus!
