//! Human-readable byte counts.

use vstd::prelude::*;
use vstd::string::StringExecFns;

verus! {

/// Bytes in a kibibyte.
pub const KIB: u64 = 1024;

/// Bytes in a mebibyte.
pub const MIB: u64 = 1_048_576;

/// Bytes in a gibibyte.
pub const GIB: u64 = 1_073_741_824;

/// The character that shows the digit `d`.
pub open spec fn digit_char(d: nat) -> char {
    if d == 0 {
        '0'
    } else if d == 1 {
        '1'
    } else if d == 2 {
        '2'
    } else if d == 3 {
        '3'
    } else if d == 4 {
        '4'
    } else if d == 5 {
        '5'
    } else if d == 6 {
        '6'
    } else if d == 7 {
        '7'
    } else if d == 8 {
        '8'
    } else {
        '9'
    }
}

/// The decimal numeral of `n`, without sign or leading zeros.
pub open spec fn decimal(n: nat) -> Seq<char>
    decreases n,
{
    if n < 10 {
        seq![digit_char(n)]
    } else {
        decimal(n / 10).push(digit_char(n % 10))
    }
}

/// `num / den` rounded to the nearest integer, a tie going to the even neighbour.
pub open spec fn round_half_even(num: nat, den: nat) -> nat
    recommends
        den > 0,
{
    let q = num / den;
    let r = num % den;
    if 2 * r > den || (2 * r == den && q % 2 == 1) {
        q + 1
    } else {
        q
    }
}

/// The gap between neighbouring values that a double-precision float can hold
/// at the magnitude of `n`: 1 below 2^53, then doubling with every further bit.
pub open spec fn float_step(n: nat) -> nat
    decreases n,
{
    if n < 0x20_0000_0000_0000 {
        1
    } else {
        2 * float_step(n / 2)
    }
}

/// The byte count as a double-precision float holds it: `n` itself while it has
/// at most 53 significant bits, else the nearest multiple of `float_step(n)`,
/// a tie going to the even multiple.
pub open spec fn as_float(n: nat) -> nat {
    round_half_even(n, float_step(n)) * float_step(n)
}

/// `value / unit` with one decimal place, rounded half to even: the integer
/// part, a point, and one digit.
pub open spec fn one_decimal(value: nat, unit: nat) -> Seq<char>
    recommends
        unit > 0,
{
    let tenths = round_half_even(10 * value, unit);
    decimal(tenths / 10).push('.').push(digit_char(tenths % 10))
}

/// The text that stands for a count of `size` bytes: the plain number below a
/// kibibyte, else one decimal place in the largest of KB, MB and GB that the
/// count reaches.
pub open spec fn size_text(size: nat) -> Seq<char> {
    if size < KIB {
        decimal(size) + seq![' ', 'B']
    } else if size < MIB {
        one_decimal(as_float(size), KIB as nat) + seq![' ', 'K', 'B']
    } else if size < GIB {
        one_decimal(as_float(size), MIB as nat) + seq![' ', 'M', 'B']
    } else {
        one_decimal(as_float(size), GIB as nat) + seq![' ', 'G', 'B']
    }
}

/// The one-character text of a digit.
fn digit_text(d: u8) -> (text: &'static str)
    requires
        d < 10,
    ensures
        text@ == seq![digit_char(d as nat)],
{
    proof {
        reveal_strlit("0");
        reveal_strlit("1");
        reveal_strlit("2");
        reveal_strlit("3");
        reveal_strlit("4");
        reveal_strlit("5");
        reveal_strlit("6");
        reveal_strlit("7");
        reveal_strlit("8");
        reveal_strlit("9");
    }
    let text = if d == 0 {
        "0"
    } else if d == 1 {
        "1"
    } else if d == 2 {
        "2"
    } else if d == 3 {
        "3"
    } else if d == 4 {
        "4"
    } else if d == 5 {
        "5"
    } else if d == 6 {
        "6"
    } else if d == 7 {
        "7"
    } else if d == 8 {
        "8"
    } else {
        "9"
    };
    assert(text@ =~= seq![digit_char(d as nat)]);
    text
}

/// Appends the decimal numeral of `n` to `out`.
pub fn push_decimal(out: &mut String, n: u128)
    ensures
        final(out)@ == old(out)@ + decimal(n as nat),
    decreases n,
{
    if n >= 10 {
        push_decimal(out, n / 10);
    }
    let d: u8 = (n % 10) as u8;
    out.append(digit_text(d));
    assert(final(out)@ =~= old(out)@ + decimal(n as nat));
}

/// `num / den` rounded to the nearest integer, a tie going to the even neighbour.
fn nearest(num: u128, den: u128) -> (q: u128)
    requires
        0 < den,
        den <= 0x1_0000_0000_0000_0000,
        num < 0x1_0000_0000_0000_0000_0000,
    ensures
        q == round_half_even(num as nat, den as nat),
{
    let q = num / den;
    let r = num % den;
    if 2 * r > den || (2 * r == den && q % 2 == 1) {
        q + 1
    } else {
        q
    }
}

/// The gap between neighbouring doubles at the magnitude of `size`.
fn step_of(size: u64) -> (step: u128)
    ensures
        step == float_step(size as nat),
        1 <= step <= 0x1000,
{
    let mut rest: u64 = size;
    let mut step: u128 = 1;
    while rest >= 0x20_0000_0000_0000
        invariant
            1 <= step <= 0x1000,
            step == 1 || rest >= 0x10_0000_0000_0000,
            step * rest <= size,
            float_step(size as nat) == step * float_step(rest as nat),
        decreases rest,
    {
        assert(step < 0x800) by (nonlinear_arith)
            requires
                step * rest <= size,
                rest >= 0x20_0000_0000_0000,
                size < 0x1_0000_0000_0000_0000,
        ;
        assert((2 * step) * (rest / 2) <= step * rest) by (nonlinear_arith)
            requires
                0 <= step,
                0 <= rest,
        ;
        assert(step * (2 * float_step((rest / 2) as nat)) == (2 * step) * float_step(
            (rest / 2) as nat,
        )) by (nonlinear_arith);
        rest = rest / 2;
        step = 2 * step;
    }
    assert(float_step(rest as nat) == 1);
    assert(step * 1 == step);
    step
}

/// The byte count as a double-precision float holds it.
fn float_value(size: u64) -> (value: u128)
    ensures
        value == as_float(size as nat),
        value <= 0x1_0000_0000_0000_1000,
{
    let step = step_of(size);
    let q = nearest(size as u128, step);
    assert(q * step <= size + step) by (nonlinear_arith)
        requires
            q <= (size as int) / (step as int) + 1,
            0 < step,
            0 <= size,
    ;
    q * step
}

/// Appends `value / unit` with one decimal place to `out`.
fn push_one_decimal(out: &mut String, value: u128, unit: u64)
    requires
        0 < unit,
        value <= 0x1_0000_0000_0000_1000,
    ensures
        final(out)@ == old(out)@ + one_decimal(value as nat, unit as nat),
{
    let tenths = nearest(10 * value, unit as u128);
    push_decimal(out, tenths / 10);
    out.append(".");
    out.append(digit_text((tenths % 10) as u8));
    proof {
        reveal_strlit(".");
        assert("."@ =~= seq!['.']);
        assert(final(out)@ =~= old(out)@ + one_decimal(value as nat, unit as nat));
    }
}

/// Renders a byte count for display: the plain number and `B` below a
/// kibibyte, else one decimal place and `KB`, `MB` or `GB`, whichever is the
/// largest unit that the count reaches. The decimal is the nearest one, a tie
/// going to the even digit.
pub fn format_size(size: u64) -> (text: String)
    ensures
        text@ == size_text(size as nat),
{
    let mut out = String::new();
    if size < KIB {
        push_decimal(&mut out, size as u128);
        out.append(" B");
        proof {
            reveal_strlit(" B");
            assert(" B"@ =~= seq![' ', 'B']);
        }
    } else if size < MIB {
        push_one_decimal(&mut out, float_value(size), KIB);
        out.append(" KB");
        proof {
            reveal_strlit(" KB");
            assert(" KB"@ =~= seq![' ', 'K', 'B']);
        }
    } else if size < GIB {
        push_one_decimal(&mut out, float_value(size), MIB);
        out.append(" MB");
        proof {
            reveal_strlit(" MB");
            assert(" MB"@ =~= seq![' ', 'M', 'B']);
        }
    } else {
        push_one_decimal(&mut out, float_value(size), GIB);
        out.append(" GB");
        proof {
            reveal_strlit(" GB");
            assert(" GB"@ =~= seq![' ', 'G', 'B']);
        }
    }
    assert(out@ =~= size_text(size as nat));
    out
}

/// A byte count of at most 53 significant bits is shown from its exact value:
/// holding it as a double changes nothing.
pub proof fn lemma_float_exact_below_2_53(size: nat)
    requires
        size < 0x20_0000_0000_0000,
    ensures
        as_float(size) == size,
{
    assert(float_step(size) == 1);
    assert(size / 1 == size && size % 1 == 0);
}

/// Rounding to the nearest integer lands within half a unit: twice the
/// distance between `q * den` and `num` is at most `den`.
pub proof fn lemma_round_half_even_is_nearest(num: nat, den: nat)
    requires
        den > 0,
    ensures
        ({
            let q = round_half_even(num, den);
            -(den as int) <= 2 * (q * den - num) <= den as int
        }),
{
    let q0 = num / den;
    let r = num % den;
    assert(num == q0 * den + r && 0 <= r < den) by (nonlinear_arith)
        requires
            q0 == num / den,
            r == num % den,
            den > 0,
    ;
    let q = round_half_even(num, den);
    if q == q0 {
        assert(2 * (q * den - num) == -2 * r);
    } else {
        assert(q == q0 + 1);
        assert(q * den - num == den - r) by (nonlinear_arith)
            requires
                q == q0 + 1,
                num == q0 * den + r,
        ;
    }
}

} // verus!
