use vstd::prelude::*;
use crate::diff::Diff;

verus! {

/// The background colour of a cell with classification `d`.
pub open spec fn color_of(d: Diff) -> Seq<char> {
    match d {
        Diff::Same => "white"@,
        Diff::Different => "red"@,
        Diff::NoOther => "gray"@,
    }
}

/// The upper-case hexadecimal digit for `n < 16`.
pub open spec fn hex_char(n: nat) -> char {
    if n < 10 {
        (('0' as nat) + n) as char
    } else {
        (('A' as nat) + (n - 10)) as char
    }
}

/// The last `width` upper-case hexadecimal digits of `v`, most significant
/// first, with leading zeros.
pub open spec fn hex_fixed(v: nat, width: nat) -> Seq<char>
    decreases width,
{
    if width == 0 {
        Seq::empty()
    } else {
        hex_fixed(v / 16, (width - 1) as nat).push(hex_char(v % 16))
    }
}

/// The background colour of a hex cell.
pub fn diff_color(d: Diff) -> (r: &'static str)
    ensures
        r@ == color_of(d),
{
    match d {
        Diff::Same => "white",
        Diff::Different => "red",
        Diff::NoOther => "gray",
    }
}

fn hex_digit(n: u8) -> (r: char)
    requires
        n < 16,
    ensures
        r == hex_char(n as nat),
{
    if n < 10 {
        // 48 is the code of '0'
        (48u8 + n) as char
    } else {
        // 55 is the code of 'A' less ten
        (55u8 + n) as char
    }
}

/// The last `width` hexadecimal digits of `v`, upper case, zero-padded.
pub fn hex_digits(v: u64, width: usize) -> (r: Vec<char>)
    ensures
        r@ == hex_fixed(v as nat, width as nat),
    decreases width,
{
    if width == 0 {
        Vec::new()
    } else {
        let mut r = hex_digits(v / 16, width - 1);
        r.push(hex_digit((v % 16) as u8));
        r
    }
}

/// The text of a hex cell: the byte as two upper-case hexadecimal digits.
pub fn byte_hex(b: u8) -> (r: Vec<char>)
    ensures
        r@ == hex_fixed(b as nat, 2),
{
    hex_digits(b as u64, 2)
}

/// The address label of row `row`, whose first byte is at offset `16 * row`:
/// eight upper-case hexadecimal digits.
pub fn address_label(row: u8) -> (r: Vec<char>)
    ensures
        r@ == hex_fixed(16 * row as nat, 8),
{
    hex_digits(row as u64 * 16, 8)
}

} // verus!
