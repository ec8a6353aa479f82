//! Human-readable byte-size formatting over integer arithmetic.

use vstd::prelude::*;

verus! {

pub const KB: u64 = 1024;

pub const MB: u64 = 1024 * 1024;

pub const GB: u64 = 1024 * 1024 * 1024;

/// The decimal digit character for `d`.
pub open spec fn dec_digit(d: int) -> char {
    if d == 0 {
        '0'
    } else if d == 1 {
        '1'
    } else if d == 2 {
        '2'
    } else if d == 3 {
        '3'
    } else if d == 4 {
        '4'
    } else if d == 5 {
        '5'
    } else if d == 6 {
        '6'
    } else if d == 7 {
        '7'
    } else if d == 8 {
        '8'
    } else {
        '9'
    }
}

/// The decimal representation of a non-negative integer.
pub open spec fn dec_str_of(n: int) -> Seq<char>
    decreases n,
{
    if n < 10 {
        seq![dec_digit(n)]
    } else {
        dec_str_of(n / 10) + seq![dec_digit(n % 10)]
    }
}

/// Writes `n` in decimal.
pub fn u64_to_string(n: u64) -> (r: String)
    ensures
        r@ == dec_str_of(n as int),
    decreases n,
{
    let digits: &str = "0123456789";
    proof {
        reveal_strlit("0123456789");
    }
    let d: u64 = n % 10;
    let ds: &str = digits.substring_char(d as usize, (d + 1) as usize);
    proof {
        assert(ds@ =~= seq![dec_digit(d as int)]);
    }
    if n < 10 {
        ds.to_owned()
    } else {
        let mut prefix = u64_to_string(n / 10);
        prefix.append(ds);
        prefix
    }
}

/// `size`, scaled by `unit`, in tenths, rounding half up.
pub open spec fn tenths_of(size: int, unit: int) -> int {
    (size * 10 + unit / 2) / unit
}

/// The "whole.tenth" rendering of `size` scaled by `unit`.
pub open spec fn scaled_str(size: int, unit: int) -> Seq<char> {
    dec_str_of(tenths_of(size, unit) / 10) + seq!['.'] + seq![
        dec_digit(tenths_of(size, unit) % 10),
    ]
}

/// The rendering of a byte count with a binary-unit suffix, one decimal
/// place for sizes of a kilobyte and up.
pub open spec fn format_size_spec(size: int) -> Seq<char> {
    if size >= GB {
        scaled_str(size, GB as int) + " GB"@
    } else if size >= MB {
        scaled_str(size, MB as int) + " MB"@
    } else if size >= KB {
        scaled_str(size, KB as int) + " KB"@
    } else {
        dec_str_of(size) + " B"@
    }
}

/// Renders `size` scaled by `unit` with one decimal place.
fn scaled(size: u64, unit: u64) -> (r: String)
    requires
        KB <= unit <= GB,
        size >= unit,
    ensures
        r@ == scaled_str(size as int, unit as int),
{
    let wide: u128 = (size as u128) * 10 + (unit as u128) / 2;
    let tenths: u128 = wide / (unit as u128);
    proof {
        assert(tenths == tenths_of(size as int, unit as int));
        assert((((size as int) * 10 + (unit as int) / 2) / (unit as int)) < 0x8000_0000_0000_0000)
            by (nonlinear_arith)
            requires
                size as int <= 0xFFFF_FFFF_FFFF_FFFF,
                1024 <= unit as int <= 0x4000_0000;
    }
    let whole: u64 = (tenths / 10) as u64;
    let frac: u64 = (tenths % 10) as u64;
    let mut out = u64_to_string(whole);
    out.append(".");
    proof {
        reveal_strlit(".");
        reveal_strlit("0123456789");
    }
    let digits: &str = "0123456789";
    let fs: &str = digits.substring_char(frac as usize, (frac + 1) as usize);
    proof {
        assert(fs@ =~= seq![dec_digit(frac as int)]);
        assert("."@ =~= seq!['.']);
    }
    out.append(fs);
    out
}

/// Formats a byte count for humans: whole bytes below a kilobyte, otherwise
/// one decimal place of the matching binary unit, rounding half up.
pub fn format_size(size: u64) -> (r: String)
    ensures
        r@ == format_size_spec(size as int),
{
    if size >= GB {
        let mut out = scaled(size, GB);
        out.append(" GB");
        out
    } else if size >= MB {
        let mut out = scaled(size, MB);
        out.append(" MB");
        out
    } else if size >= KB {
        let mut out = scaled(size, KB);
        out.append(" KB");
        out
    } else {
        let mut out = u64_to_string(size);
        out.append(" B");
        out
    }
}

} // verus!
