//! Human-readable file sizes: `"{} bytes"`, `"{:.1} KB"`, `"{:.2} MB"` or `"{:.2} GB"`
//! with binary units, computed exactly in integers.
//!
//! The size is first taken as the nearest 53-bit binary floating-point value (ties to
//! even), as `size as f64` does; the scaled value is then rounded to the shown number of
//! decimals, ties to even, as Rust's float formatting does with an exact binary value.
use vstd::prelude::*;
use vstd::string::*;

use crate::text::{decimal, push_decimal, push_zero_padded, zero_padded};

verus! {

/// `n / d` rounded to the nearest integer, ties to the even neighbour.
pub open spec fn round_half_even_div(n: nat, d: nat) -> nat
    recommends
        d > 0,
{
    let q = n / d;
    let r = n % d;
    if 2 * r > d || (2 * r == d && q % 2 == 1) {
        q + 1
    } else {
        q
    }
}

/// The power of two by which `m` must be divided (halving while it has more than 53
/// significant bits), times `d`.
pub open spec fn float_scale(m: nat, d: nat) -> nat
    decreases m,
{
    if m < 0x20_0000_0000_0000 {
        d
    } else {
        float_scale(m / 2, 2 * d)
    }
}

/// The value of `n as f64`: `n` rounded to 53 significant bits, ties to even.
pub open spec fn f64_of_u64(n: nat) -> nat {
    let d = float_scale(n, 1);
    round_half_even_div(n, d) * d
}

/// `v / d` written with two decimals.
pub open spec fn fixed_two(v: nat, d: nat) -> Seq<char> {
    let t = round_half_even_div(v * 100, d);
    decimal(t / 100) + seq!['.'] + zero_padded(t % 100, 2)
}

/// `v / d` written with one decimal.
pub open spec fn fixed_one(v: nat, d: nat) -> Seq<char> {
    let t = round_half_even_div(v * 10, d);
    decimal(t / 10) + seq!['.'] + zero_padded(t % 10, 1)
}

/// The readable form of a size in bytes.
pub open spec fn spec_format_file_size(size: u64) -> Seq<char> {
    let v = f64_of_u64(size as nat);
    if v >= 0x4000_0000 {
        fixed_two(v, 0x4000_0000) + " GB"@
    } else if v >= 0x10_0000 {
        fixed_two(v, 0x10_0000) + " MB"@
    } else if v >= 0x400 {
        fixed_one(v, 0x400) + " KB"@
    } else {
        decimal(v) + " bytes"@
    }
}

/// `n / d` rounded half to even, for `d > 0`.
fn div_round_half_even(n: u128, d: u128) -> (r: u128)
    requires
        d > 0,
        n / d < u128::MAX,
    ensures
        r == round_half_even_div(n as nat, d as nat),
{
    let q = n / d;
    let rem = n % d;
    if (rem > d - rem) || (rem == d - rem && q % 2 == 1) {
        q + 1
    } else {
        q
    }
}

/// The value of `n as f64`, as an integer.
fn f64_value(n: u64) -> (r: u128)
    ensures
        r == f64_of_u64(n as nat),
        r <= 0x2_0000_0000_0000_0000,
{
    let mut m: u64 = n;
    let mut d: u64 = 1;
    while m >= 0x20_0000_0000_0000
        invariant
            d >= 1,
            d <= 0x1000,
            m as nat == n as nat / d as nat,
            float_scale(m as nat, d as nat) == float_scale(n as nat, 1),
            d == 1 || d * 0x10_0000_0000_0000 <= n,
        decreases m,
    {
        proof {
            vstd::arithmetic::div_mod::lemma_div_denominator(n as int, d as int, 2);
            vstd::arithmetic::div_mod::lemma_fundamental_div_mod(n as int, d as int);
            assert(d * 0x20_0000_0000_0000 <= n) by (nonlinear_arith)
                requires
                    m >= 0x20_0000_0000_0000,
                    m == n as int / d as int,
                    d >= 1,
                    n == d * (n as int / d as int) + n as int % d as int,
                    n as int % d as int >= 0,
            ;
        }
        m = m / 2;
        d = d * 2;
    }
    let q = (n / d) as u128;
    let rem = (n % d) as u128;
    let dd = d as u128;
    let t = if (rem > dd - rem) || (rem == dd - rem && q % 2 == 1) {
        q + 1
    } else {
        q
    };
    proof {
        assert(t <= 0x20_0000_0000_0000);
        assert(t * dd <= 0x2_0000_0000_0000_0000) by (nonlinear_arith)
            requires
                t <= 0x20_0000_0000_0000,
                dd <= 0x1000,
        ;
    }
    t * dd
}

/// The readable form of a size in bytes: bytes below 1 KiB, then KB with one decimal,
/// then MB and GB with two decimals (units of 1024).
pub fn format_file_size(size: u64) -> (r: String)
    ensures
        r@ == spec_format_file_size(size),
{
    let v = f64_value(size);
    let mut out = String::new();
    if v >= 0x4000_0000 {
        let t = div_round_half_even(v * 100, 0x4000_0000);
        push_decimal(&mut out, (t / 100) as u64);
        out.append(".");
        push_zero_padded(&mut out, (t % 100) as u64, 2);
        out.append(" GB");
    } else if v >= 0x10_0000 {
        let t = div_round_half_even(v * 100, 0x10_0000);
        push_decimal(&mut out, (t / 100) as u64);
        out.append(".");
        push_zero_padded(&mut out, (t % 100) as u64, 2);
        out.append(" MB");
    } else if v >= 0x400 {
        let t = div_round_half_even(v * 10, 0x400);
        push_decimal(&mut out, (t / 10) as u64);
        out.append(".");
        push_zero_padded(&mut out, (t % 10) as u64, 1);
        out.append(" KB");
    } else {
        push_decimal(&mut out, v as u64);
        out.append(" bytes");
    }
    proof {
        reveal_strlit(".");
    }
    out
}

} // verus!
