//! Sizes in bytes, for readers.
//!
//! A size is shown as a number with two decimals and a unit of 1024 bytes
//! to some power. The number is the size as a double-precision value,
//! divided by the unit and rounded to hundredths, with ties to the even
//! hundredth. All of it is computed on whole numbers.

use vstd::prelude::*;
use vstd::arithmetic::div_mod::lemma_div_denominator;
use crate::text::{decimal, digit, digit_text, push_decimal};

verus! {

/// `value` divided by `unit` and rounded to the nearest whole number, with
/// ties to the even one.
pub open spec fn rounded_quotient(value: nat, unit: nat) -> nat {
    let quotient = value / unit;
    let rest = value % unit;
    if 2 * rest > unit || (2 * rest == unit && quotient % 2 == 1) {
        quotient + 1
    } else {
        quotient
    }
}

/// The distance between neighbouring double-precision values around
/// `value`: 1 below 2 to the power 53, and twice as much for each power of 2
/// above that.
pub open spec fn spacing(value: nat) -> nat
    decreases value,
{
    if value < 0x20_0000_0000_0000 {
        1
    } else {
        2 * spacing(value / 2)
    }
}

/// The double-precision value nearest to `value`.
pub open spec fn nearest_double(value: nat) -> nat {
    rounded_quotient(value, spacing(value)) * spacing(value)
}

/// How often `value` can be divided by 1024 before it falls below 1024,
/// counting no further than `most`.
pub open spec fn unit_index(value: nat, most: nat) -> nat
    decreases most,
{
    if value >= 1024 && most > 0 {
        1 + unit_index(value / 1024, (most - 1) as nat)
    } else {
        0
    }
}

/// 1024 to the power `index`.
pub open spec fn unit_size(index: nat) -> nat
    decreases index,
{
    if index == 0 {
        1
    } else {
        1024 * unit_size((index - 1) as nat)
    }
}

/// The names of the units, smallest first.
pub open spec fn unit_name(index: nat) -> Seq<char> {
    if index == 0 {
        "B"@
    } else if index == 1 {
        "KB"@
    } else if index == 2 {
        "MB"@
    } else if index == 3 {
        "GB"@
    } else if index == 4 {
        "TB"@
    } else if index == 5 {
        "PB"@
    } else if index == 6 {
        "EB"@
    } else if index == 7 {
        "ZB"@
    } else {
        "YB"@
    }
}

/// `hundredths` as a number with two decimals.
pub open spec fn two_decimals(hundredths: nat) -> Seq<char> {
    decimal(hundredths / 100) + "."@ + seq![digit(((hundredths / 10) % 10) as int)] + seq![
        digit((hundredths % 10) as int),
    ]
}

/// `byte_size` for readers: "1.50 KB" for 1536.
pub open spec fn size_text(byte_size: u64) -> Seq<char> {
    let value = nearest_double(byte_size as nat);
    let index = unit_index(value, 8);
    two_decimals(rounded_quotient(value * 100, unit_size(index))) + " "@ + unit_name(index)
}

fn round_quotient(value: u128, unit: u128) -> (r: u128)
    requires
        unit > 0,
        value < 0x1_0000_0000_0000_0000_0000_0000,
        unit < 0x1_0000_0000_0000_0000_0000_0000,
    ensures
        r == rounded_quotient(value as nat, unit as nat),
        r <= value + 1,
{
    let quotient = value / unit;
    let rest = value % unit;
    assert(quotient <= value) by (nonlinear_arith)
        requires
            quotient == value / unit,
            unit > 0,
            value >= 0,
    ;
    if 2 * rest > unit || (2 * rest == unit && quotient % 2 == 1) {
        quotient + 1
    } else {
        quotient
    }
}

fn double_spacing(value: u64) -> (r: u64)
    ensures
        r == spacing(value as nat),
        1 <= r <= 4096,
{
    let mut unit: u64 = 1;
    let mut rest: u64 = value;
    while rest >= 0x20_0000_0000_0000
        invariant
            1 <= unit <= 4096,
            spacing(value as nat) == unit * spacing(rest as nat),
            unit * rest <= value,
        decreases rest,
    {
        proof {
            assert(unit < 2048) by (nonlinear_arith)
                requires
                    unit * rest <= value,
                    rest >= 0x20_0000_0000_0000,
                    value < 0x1_0000_0000_0000_0000,
            ;
            let half = rest / 2;
            assert((unit * 2) * half <= unit * rest) by (nonlinear_arith)
                requires
                    2 * half <= rest,
                    unit >= 0,
            ;
            assert(unit * (2 * spacing(half as nat)) == (unit * 2) * spacing(half as nat))
                by (nonlinear_arith);
        }
        rest = rest / 2;
        unit = unit * 2;
    }
    assert(unit * 1 == unit);
    unit
}

fn unit_text(index: usize) -> (r: &'static str)
    ensures
        r@ == unit_name(index as nat),
{
    if index == 0 {
        "B"
    } else if index == 1 {
        "KB"
    } else if index == 2 {
        "MB"
    } else if index == 3 {
        "GB"
    } else if index == 4 {
        "TB"
    } else if index == 5 {
        "PB"
    } else if index == 6 {
        "EB"
    } else if index == 7 {
        "ZB"
    } else {
        "YB"
    }
}

/// `byte_size` for readers, with two decimals: "1.50 KB" for 1536.
///
/// The unit is the largest of which the nearest double-precision value
/// holds at least one. Below 2 to the power 53 that value is the size
/// itself; above, it may be the next unit's first value where the size is
/// just under it.
pub fn size_converter(byte_size: u64) -> (r: String)
    ensures
        r@ == size_text(byte_size),
{
    let step = double_spacing(byte_size);
    let steps = round_quotient(byte_size as u128, step as u128);
    assert(steps * step <= (byte_size + 1) * 4096) by (nonlinear_arith)
        requires
            steps <= byte_size + 1,
            step <= 4096,
    ;
    let value: u128 = steps * (step as u128);
    let mut index: usize = 0;
    let mut rest: u128 = value;
    let mut divisor: u128 = 1;
    while rest >= 1024 && index < 8
        invariant
            index <= 8,
            divisor >= 1,
            divisor == unit_size(index as nat),
            divisor * rest <= value,
            value <= 0x1_0000_0000_0000_0000 * 4096,
            index > 0 ==> rest >= 1,
            rest == value / divisor,
            unit_index(value as nat, 8) == index + unit_index(rest as nat, (8 - index) as nat),
        decreases 8 - index,
    {
        proof {
            assert(divisor * 1024 <= divisor * rest) by (nonlinear_arith)
                requires
                    rest >= 1024,
                    divisor >= 0,
            ;
            let next = rest / 1024;
            assert((divisor * 1024) * next <= divisor * rest) by (nonlinear_arith)
                requires
                    1024 * next <= rest,
                    divisor >= 0,
            ;
            lemma_div_denominator(value as int, divisor as int, 1024);
        }
        rest = rest / 1024;
        divisor = divisor * 1024;
        index = index + 1;
    }
    assert(divisor <= value || divisor == 1) by {
        if index > 0 {
            assert(divisor <= divisor * rest) by (nonlinear_arith)
                requires
                    rest >= 1,
                    divisor >= 0,
            ;
        }
    }
    let hundredths = round_quotient(value * 100, divisor);
    let mut r = String::new();
    push_decimal(&mut r, hundredths / 100);
    r.append(".");
    r.append(digit_text(((hundredths / 10) % 10) as u64));
    r.append(digit_text((hundredths % 10) as u64));
    r.append(" ");
    r.append(unit_text(index));
    r
}

} // verus!
