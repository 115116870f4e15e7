//! Rendering of numbers for display: plain decimal, zero-padded fields,
//! and human-readable file sizes (`"0 B"`, `"1.5 KB"`, `"1.0 GB"`).

use vstd::prelude::*;

verus! {

/// The decimal digit character for a value below ten.
pub open spec fn digit_char(d: int) -> char {
    if d == 0 {
        '0'
    } else if d == 1 {
        '1'
    } else if d == 2 {
        '2'
    } else if d == 3 {
        '3'
    } else if d == 4 {
        '4'
    } else if d == 5 {
        '5'
    } else if d == 6 {
        '6'
    } else if d == 7 {
        '7'
    } else if d == 8 {
        '8'
    } else {
        '9'
    }
}

/// The decimal rendering of `n`, most significant digit first, with no
/// leading zeros (a lone `'0'` for zero itself).
pub open spec fn dec_chars(n: nat) -> Seq<char>
    decreases n,
{
    if n < 10 {
        seq![digit_char(n as int)]
    } else {
        dec_chars(n / 10) + seq![digit_char((n % 10) as int)]
    }
}

/// The decimal rendering of `n` padded with zeros on the left to two
/// characters; `n` itself must have at most two digits.
pub open spec fn pad2_chars(n: nat) -> Seq<char> {
    if n < 10 {
        seq!['0'] + dec_chars(n)
    } else {
        dec_chars(n)
    }
}

/// The decimal rendering of `n` padded with zeros on the left to four
/// characters; `n` itself must have at most four digits.
pub open spec fn pad4_chars(n: nat) -> Seq<char> {
    if n < 10 {
        seq!['0', '0', '0'] + dec_chars(n)
    } else if n < 100 {
        seq!['0', '0'] + dec_chars(n)
    } else if n < 1000 {
        seq!['0'] + dec_chars(n)
    } else {
        dec_chars(n)
    }
}

/// Appends the digit character of `d` to `s`.
fn append_digit(s: &mut String, d: u64)
    requires
        d < 10,
    ensures
        final(s)@ == old(s)@ + seq![digit_char(d as int)],
{
    proof {
        reveal_strlit("0");
        reveal_strlit("1");
        reveal_strlit("2");
        reveal_strlit("3");
        reveal_strlit("4");
        reveal_strlit("5");
        reveal_strlit("6");
        reveal_strlit("7");
        reveal_strlit("8");
        reveal_strlit("9");
    }
    match d {
        0 => s.append("0"),
        1 => s.append("1"),
        2 => s.append("2"),
        3 => s.append("3"),
        4 => s.append("4"),
        5 => s.append("5"),
        6 => s.append("6"),
        7 => s.append("7"),
        8 => s.append("8"),
        _ => s.append("9"),
    }
    assert(s@ =~= old(s)@ + seq![digit_char(d as int)]);
}

/// Appends the decimal rendering of `n` to `s`.
fn append_decimal(s: &mut String, n: u64)
    ensures
        final(s)@ == old(s)@ + dec_chars(n as nat),
    decreases n,
{
    if n < 10 {
        append_digit(s, n);
    } else {
        append_decimal(s, n / 10);
        append_digit(s, n % 10);
        assert(s@ =~= old(s)@ + dec_chars(n as nat));
    }
}

/// The decimal rendering of `n` as a fresh string.
pub fn u64_to_decimal(n: u64) -> (r: String)
    ensures
        r@ == dec_chars(n as nat),
{
    let mut s = String::new();
    append_decimal(&mut s, n);
    assert(s@ =~= dec_chars(n as nat));
    s
}

/// Appends the two-character zero-padded rendering of `n` to `s`.
pub fn append_pad2(s: &mut String, n: u64)
    requires
        n < 100,
    ensures
        final(s)@ == old(s)@ + pad2_chars(n as nat),
{
    if n < 10 {
        append_digit(s, 0);
        append_digit(s, n);
        assert(s@ =~= old(s)@ + pad2_chars(n as nat));
    } else {
        append_decimal(s, n);
    }
}

/// Appends the four-character zero-padded rendering of `n` to `s`.
pub fn append_pad4(s: &mut String, n: u64)
    requires
        n < 10000,
    ensures
        final(s)@ == old(s)@ + pad4_chars(n as nat),
{
    if n < 10 {
        append_digit(s, 0);
        append_digit(s, 0);
        append_digit(s, 0);
        append_digit(s, n);
    } else if n < 100 {
        append_digit(s, 0);
        append_digit(s, 0);
        append_decimal(s, n);
    } else if n < 1000 {
        append_digit(s, 0);
        append_decimal(s, n);
    } else {
        append_decimal(s, n);
    }
    assert(s@ =~= old(s)@ + pad4_chars(n as nat));
}

/// One kibibyte, the step between size units.
pub const KIB: u64 = 1024;

/// The scaled size in tenths of the given unit, rounded to the nearest
/// tenth (ties upward): `round(10 * bytes / div)`.
pub open spec fn size_tenths(bytes: nat, div: nat) -> nat {
    (10 * bytes + div / 2) / div
}

/// The fractional rendering `"<whole>.<tenth>"` followed by the unit
/// suffix, for a size scaled against `div`.
pub open spec fn scaled_chars(bytes: nat, div: nat, unit: Seq<char>) -> Seq<char> {
    let tenths = size_tenths(bytes, div);
    dec_chars(tenths / 10) + seq!['.'] + dec_chars(tenths % 10) + unit
}

/// The human rendering of a byte count: exact bytes below one kibibyte,
/// otherwise one decimal place of the kibi-, mebi-, gibi- or tebibyte
/// value, whichever unit keeps the whole part under 1024 (sizes of a
/// tebibyte and beyond all use the terabyte unit).
pub open spec fn size_chars(bytes: nat) -> Seq<char> {
    if bytes < 1024 {
        dec_chars(bytes) + seq![' ', 'B']
    } else if bytes < 1024 * 1024 {
        scaled_chars(bytes, 1024, seq![' ', 'K', 'B'])
    } else if bytes < 1024 * 1024 * 1024 {
        scaled_chars(bytes, 1024 * 1024, seq![' ', 'M', 'B'])
    } else if bytes < 1024 * 1024 * 1024 * 1024 {
        scaled_chars(bytes, 1024 * 1024 * 1024, seq![' ', 'G', 'B'])
    } else {
        scaled_chars(bytes, 1024 * 1024 * 1024 * 1024, seq![' ', 'T', 'B'])
    }
}

/// Appends `"<whole>.<tenth>"` for `bytes` scaled against `div`.
fn append_scaled(s: &mut String, bytes: u64, div: u64)
    requires
        div >= 1024,
        div == 1024 || div == 1024 * 1024 || div == 1024 * 1024 * 1024 || div == 1024 * 1024
            * 1024 * 1024,
    ensures
        final(s)@ == old(s)@ + dec_chars(size_tenths(bytes as nat, div as nat) / 10) + seq!['.']
            + dec_chars(size_tenths(bytes as nat, div as nat) % 10),
{
    let wide: u128 = (10 * (bytes as u128) + (div as u128) / 2) / (div as u128);
    assert(wide == size_tenths(bytes as nat, div as nat));
    proof {
        let b = bytes as nat;
        let d = div as nat;
        assert((10 * b + d / 2) / d < 0x2000_0000_0000_0000) by (nonlinear_arith)
            requires
                b < 0x1_0000_0000_0000_0000,
                1024 <= d,
        ;
    }
    let tenths: u64 = wide as u64;
    append_decimal(s, tenths / 10);
    proof {
        reveal_strlit(".");
    }
    s.append(".");
    append_digit(s, tenths % 10);
    assert(s@ =~= old(s)@ + dec_chars(size_tenths(bytes as nat, div as nat) / 10) + seq!['.']
        + dec_chars(size_tenths(bytes as nat, div as nat) % 10));
}

/// The human rendering of a file size, per `size_chars`.
pub fn format_file_size(bytes: u64) -> (r: String)
    ensures
        r@ == size_chars(bytes as nat),
{
    proof {
        reveal_strlit(" B");
        reveal_strlit(" KB");
        reveal_strlit(" MB");
        reveal_strlit(" GB");
        reveal_strlit(" TB");
    }
    let mut s = String::new();
    if bytes < KIB {
        append_decimal(&mut s, bytes);
        s.append(" B");
    } else if bytes < KIB * KIB {
        append_scaled(&mut s, bytes, KIB);
        s.append(" KB");
    } else if bytes < KIB * KIB * KIB {
        append_scaled(&mut s, bytes, KIB * KIB);
        s.append(" MB");
    } else if bytes < KIB * KIB * KIB * KIB {
        append_scaled(&mut s, bytes, KIB * KIB * KIB);
        s.append(" GB");
    } else {
        append_scaled(&mut s, bytes, KIB * KIB * KIB * KIB);
        s.append(" TB");
    }
    assert(s@ =~= size_chars(bytes as nat));
    s
}

} // verus!
