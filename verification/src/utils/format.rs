//! Sizes for the human eye.

use vstd::prelude::*;
use crate::text::{decimal, digit_char, push_decimal};

verus! {

/// The unit a size is shown in: 0 for bytes, 1 for KB, up to 4 for TB.
pub open spec fn size_unit(size: nat) -> nat {
    if size < 1024 {
        0
    } else if size < 1048576 {
        1
    } else if size < 1073741824 {
        2
    } else if size < 1099511627776 {
        3
    } else {
        4
    }
}

/// The number of bytes in one unit: a power of 1024.
pub open spec fn unit_bytes(unit: nat) -> nat {
    if unit == 0 {
        1
    } else if unit == 1 {
        1024
    } else if unit == 2 {
        1048576
    } else if unit == 3 {
        1073741824
    } else {
        1099511627776
    }
}

/// The name of a unit.
pub open spec fn unit_name(unit: nat) -> Seq<char> {
    if unit == 0 {
        "B"@
    } else if unit == 1 {
        "KB"@
    } else if unit == 2 {
        "MB"@
    } else if unit == 3 {
        "GB"@
    } else {
        "TB"@
    }
}

/// A size in tenths of its unit, rounded to the nearest tenth; a size
/// exactly halfway between two tenths goes to the even one.
pub open spec fn size_tenths(size: nat) -> nat {
    let unit = unit_bytes(size_unit(size));
    let below = size * 10 / unit;
    let rest = size * 10 % unit;
    if 2 * rest > unit || (2 * rest == unit && below % 2 == 1) {
        below + 1
    } else {
        below
    }
}

/// A size with one decimal and its unit, such as `1.5 KB`.
pub open spec fn size_text(size: nat) -> Seq<char> {
    decimal(size_tenths(size) / 10) + seq!['.', digit_char(size_tenths(size) % 10), ' ']
        + unit_name(size_unit(size))
}

/// Writes a number of bytes in the largest unit from B to TB that it
/// reaches, with one decimal. Units are powers of 1024.
pub fn format_size(size_bytes: u64) -> (text: String)
    ensures
        text@ == size_text(size_bytes as nat),
{
    let (unit, name): (u128, &str) = if size_bytes < 1024 {
        (1, "B")
    } else if size_bytes < 1048576 {
        (1024, "KB")
    } else if size_bytes < 1073741824 {
        (1048576, "MB")
    } else if size_bytes < 1099511627776 {
        (1073741824, "GB")
    } else {
        (1099511627776, "TB")
    };
    assert(unit == unit_bytes(size_unit(size_bytes as nat)));
    assert(name@ == unit_name(size_unit(size_bytes as nat)));
    let scaled: u128 = size_bytes as u128 * 10;
    let below: u128 = scaled / unit;
    let rest: u128 = scaled % unit;
    let tenths: u128 = if 2 * rest > unit || (2 * rest == unit && below % 2 == 1) {
        below + 1
    } else {
        below
    };
    assert(tenths == size_tenths(size_bytes as nat));
    let whole: u64 = (tenths / 10) as u64;
    let tenth: u64 = (tenths % 10) as u64;
    let mut text = String::new();
    push_decimal(&mut text, whole);
    proof {
        reveal_strlit(".");
        reveal_strlit(" ");
    }
    text.append(".");
    push_decimal(&mut text, tenth);
    text.append(" ");
    text.append(name);
    assert(decimal(tenth as nat) =~= seq![digit_char(tenth as nat)]);
    assert(text@ =~= size_text(size_bytes as nat));
    text
}

} // verus!
