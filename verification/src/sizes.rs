//! Human-readable byte counts.

use vstd::prelude::*;

use crate::text::{dec_nat, digit_char, digit_to_char, push_all, string_of, u64_to_dec};

verus! {

/// `2^53`: integers below it are exactly representable in double precision.
pub open spec fn exact_limit() -> nat {
    0x20_0000_0000_0000
}

/// The smallest power of two `u >= start` (doubling at most `fuel` times) for which
/// `b / u < 2^53`.
pub open spec fn unit_iter(b: nat, u: nat, fuel: nat) -> nat
    decreases fuel,
{
    if fuel == 0 || b / u < exact_limit() {
        u
    } else {
        unit_iter(b, 2 * u, (fuel - 1) as nat)
    }
}

/// The spacing between neighbouring double-precision values around `b`.
pub open spec fn double_unit(b: nat) -> nat {
    unit_iter(b, 1, 64)
}

/// `b` rounded to the nearest value with 53 significant bits, ties to the even one:
/// the value of `b as f64`.
pub open spec fn as_double(b: nat) -> nat {
    let u = double_unit(b);
    let q = b / u;
    let r = b % u;
    if 2 * r > u || (2 * r == u && q % 2 == 1) {
        (q + 1) * u
    } else {
        q * u
    }
}

/// `1024^k` for `k <= 4`.
pub open spec fn pow1024(k: nat) -> nat {
    if k == 0 {
        1
    } else if k == 1 {
        1024
    } else if k == 2 {
        1048576
    } else if k == 3 {
        1073741824
    } else {
        1099511627776
    }
}

/// How many times a size of `f` bytes is divided by 1024 before it is printed: while it is
/// at least 1024, up to four times.
pub open spec fn scale_steps(f: nat, k: nat) -> nat
    decreases 4 - k,
{
    if k < 4 && f >= pow1024(k + 1) {
        scale_steps(f, k + 1)
    } else {
        k
    }
}

/// `n / d` rounded to the nearest integer, ties to the even one.
pub open spec fn div_round_even(n: nat, d: nat) -> nat {
    let q = n / d;
    let r = n % d;
    if 2 * r > d || (2 * r == d && q % 2 == 1) {
        q + 1
    } else {
        q
    }
}

/// The unit name for `k` divisions by 1024.
pub open spec fn unit_name(k: nat) -> Seq<char> {
    if k == 0 {
        seq!['B']
    } else if k == 1 {
        seq!['K', 'B']
    } else if k == 2 {
        seq!['M', 'B']
    } else if k == 3 {
        seq!['G', 'B']
    } else {
        seq!['T', 'B']
    }
}

/// `m` (below 100) as exactly two decimal digits.
pub open spec fn two_digits(m: nat) -> Seq<char> {
    seq![digit_char((m / 10) as int), digit_char((m % 10) as int)]
}

/// The text `format_size` gives for `bytes`: below 1 KiB the exact count and `B`;
/// otherwise the size converted to double precision, divided by the largest power of
/// 1024 (up to 1024^4) it reaches, printed with two decimals rounded to nearest
/// (ties to even), and the unit `KB`, `MB`, `GB` or `TB`.
pub open spec fn size_text(bytes: u64) -> Seq<char> {
    let f = as_double(bytes as nat);
    let k = scale_steps(f, 0);
    if k == 0 {
        dec_nat(bytes as nat) + seq![' '] + unit_name(0)
    } else {
        let n = div_round_even(100 * f, pow1024(k));
        dec_nat(n / 100) + seq!['.'] + two_digits(n % 100) + seq![' '] + unit_name(k)
    }
}

/// `as_double` of a count: `bytes` rounded to 53 significant bits, ties to even.
fn to_double_grid(bytes: u64) -> (f: u128)
    ensures
        f == as_double(bytes as nat),
        f <= bytes + 4096,
{
    let b: u128 = bytes as u128;
    let mut u: u128 = 1;
    let mut fuel: u32 = 64;
    while fuel > 0 && b / u >= 0x20_0000_0000_0000
        invariant
            fuel <= 64,
            1 <= u <= 4096,
            unit_iter(b as nat, u as nat, fuel as nat) == double_unit(b as nat),
            b == bytes as u128,
            b < 0x1_0000_0000_0000_0000u128,
        decreases fuel,
    {
        assert(u < 2048) by (nonlinear_arith)
            requires
                b / u >= 0x20_0000_0000_0000u128,
                u >= 1,
                b < 0x1_0000_0000_0000_0000u128,
        ;
        u = 2 * u;
        fuel = fuel - 1;
    }
    let q = b / u;
    let r = b % u;
    assert(q * u + r == b && r < u) by (nonlinear_arith)
        requires
            q == b / u,
            r == b % u,
            u >= 1,
    ;
    if 2 * r > u || (2 * r == u && q % 2 == 1) {
        assert((q + 1) * u == q * u + u) by (nonlinear_arith);
        (q + 1) * u
    } else {
        q * u
    }
}

/// `2^e`.
pub open spec fn pow2_spec(e: nat) -> nat
    decreases e,
{
    if e == 0 {
        1
    } else {
        2 * pow2_spec((e - 1) as nat)
    }
}

/// Helper: `1024^k` for `k <= 4`, in exec.
fn pow1024_exec(k: u32) -> (p: u128)
    requires
        k <= 4,
    ensures
        p == pow1024(k as nat),
{
    if k == 0 {
        1
    } else if k == 1 {
        1024
    } else if k == 2 {
        1048576
    } else if k == 3 {
        1073741824
    } else {
        1099511627776
    }
}

/// Helper: the unit name for `k` divisions by 1024.
fn unit_chars(k: u32) -> (r: Vec<char>)
    requires
        k <= 4,
    ensures
        r@ == unit_name(k as nat),
{
    if k == 0 {
        vec!['B']
    } else if k == 1 {
        vec!['K', 'B']
    } else if k == 2 {
        vec!['M', 'B']
    } else if k == 3 {
        vec!['G', 'B']
    } else {
        vec!['T', 'B']
    }
}

/// Helper to format bytes into human-readable size.
pub fn format_size(bytes: u64) -> (s: String)
    ensures
        s@ == size_text(bytes),
{
    let f = to_double_grid(bytes);
    let mut k: u32 = 0;
    while k < 4 && f >= pow1024_exec(k + 1)
        invariant
            k <= 4,
            f == as_double(bytes as nat),
            scale_steps(f as nat, k as nat) == scale_steps(f as nat, 0),
        decreases 4 - k,
    {
        k = k + 1;
    }
    let mut out: Vec<char>;
    if k == 0 {
        out = u64_to_dec(bytes);
        out.push(' ');
        let unit = unit_chars(0);
        push_all(&mut out, &unit);
    } else {
        let d = pow1024_exec(k);
        let num: u128 = 100 * f;
        let q = num / d;
        let r = num % d;
        let n: u128 = if 2 * r > d || (2 * r == d && q % 2 == 1) {
            q + 1
        } else {
            q
        };
        assert(q <= num / 1024 && r < d) by (nonlinear_arith)
            requires
                q == num / d,
                r == num % d,
                d >= 1024,
        ;
        let whole: u64 = (n / 100) as u64;
        let frac: u64 = (n % 100) as u64;
        out = u64_to_dec(whole);
        out.push('.');
        out.push(digit_to_char(frac / 10));
        out.push(digit_to_char(frac % 10));
        out.push(' ');
        let unit = unit_chars(k);
        push_all(&mut out, &unit);
    }
    string_of(&out)
}

} // verus!
