//! Text rendering of the integers that appear in human-readable event forms.
use vstd::prelude::*;

verus! {

/// The lower-case ASCII digit for `d`, which is below sixteen.
pub open spec fn digit_char(d: nat) -> char {
    if d == 0 { '0' }
    else if d == 1 { '1' }
    else if d == 2 { '2' }
    else if d == 3 { '3' }
    else if d == 4 { '4' }
    else if d == 5 { '5' }
    else if d == 6 { '6' }
    else if d == 7 { '7' }
    else if d == 8 { '8' }
    else if d == 9 { '9' }
    else if d == 10 { 'a' }
    else if d == 11 { 'b' }
    else if d == 12 { 'c' }
    else if d == 13 { 'd' }
    else if d == 14 { 'e' }
    else { 'f' }
}

/// Decimal notation of `n`, most significant digit first, without leading zeros.
pub open spec fn decimal(n: nat) -> Seq<char>
    decreases n,
{
    if n < 10 {
        seq![digit_char(n)]
    } else {
        decimal(n / 10) + seq![digit_char(n % 10)]
    }
}

fn digit_str(d: u64) -> (r: &'static str)
    requires
        d < 16,
    ensures
        r@ == seq![digit_char(d as nat)],
{
    if d == 0 { proof { reveal_strlit("0"); } "0" }
    else if d == 1 { proof { reveal_strlit("1"); } "1" }
    else if d == 2 { proof { reveal_strlit("2"); } "2" }
    else if d == 3 { proof { reveal_strlit("3"); } "3" }
    else if d == 4 { proof { reveal_strlit("4"); } "4" }
    else if d == 5 { proof { reveal_strlit("5"); } "5" }
    else if d == 6 { proof { reveal_strlit("6"); } "6" }
    else if d == 7 { proof { reveal_strlit("7"); } "7" }
    else if d == 8 { proof { reveal_strlit("8"); } "8" }
    else if d == 9 { proof { reveal_strlit("9"); } "9" }
    else if d == 10 { proof { reveal_strlit("a"); } "a" }
    else if d == 11 { proof { reveal_strlit("b"); } "b" }
    else if d == 12 { proof { reveal_strlit("c"); } "c" }
    else if d == 13 { proof { reveal_strlit("d"); } "d" }
    else if d == 14 { proof { reveal_strlit("e"); } "e" }
    else { proof { reveal_strlit("f"); } "f" }
}

/// Appends the decimal notation of `n` to `out`.
pub fn push_decimal(out: &mut String, n: u64)
    ensures
        final(out)@ == old(out)@ + decimal(n as nat),
    decreases n,
{
    if n < 10 {
        out.append(digit_str(n));
    } else {
        push_decimal(out, n / 10);
        out.append(digit_str(n % 10));
    }
}

/// The last `width` decimal digits of `n`, zero-padded on the left.
pub open spec fn padded(n: nat, width: nat) -> Seq<char>
    decreases width,
{
    if width == 0 {
        Seq::empty()
    } else {
        padded(n / 10, (width - 1) as nat) + seq![digit_char(n % 10)]
    }
}

/// Appends the last `width` decimal digits of `n`, zero-padded on the left.
pub fn push_padded(out: &mut String, n: u64, width: u64)
    ensures
        final(out)@ == old(out)@ + padded(n as nat, width as nat),
    decreases width,
{
    if width > 0 {
        push_padded(out, n / 10, width - 1);
        out.append(digit_str(n % 10));
    }
}

/// The last `width` hexadecimal digits of `n`, zero-padded on the left.
pub open spec fn hex_padded(n: nat, width: nat) -> Seq<char>
    decreases width,
{
    if width == 0 {
        Seq::empty()
    } else {
        hex_padded(n / 16, (width - 1) as nat) + seq![digit_char(n % 16)]
    }
}

/// Appends the last `width` hexadecimal digits of `n`, zero-padded on the left.
pub fn push_hex_padded(out: &mut String, n: u128, width: u64)
    ensures
        final(out)@ == old(out)@ + hex_padded(n as nat, width as nat),
    decreases width,
{
    if width > 0 {
        push_hex_padded(out, n / 16, width - 1);
        out.append(digit_str((n % 16) as u64));
    }
}

/// A 128-bit identifier in the hyphenated form `8-4-4-4-12` of lower-case hex digits.
pub open spec fn uuid_text(n: nat) -> Seq<char> {
    hex_padded(n / 0x1_0000_0000_0000_0000_0000_0000, 8) + "-"@ + hex_padded(
        n / 0x1_0000_0000_0000_0000_0000,
        4,
    ) + "-"@ + hex_padded(n / 0x1_0000_0000_0000_0000, 4) + "-"@ + hex_padded(
        n / 0x1_0000_0000_0000,
        4,
    ) + "-"@ + hex_padded(n, 12)
}

/// Appends `n` in the hyphenated form `8-4-4-4-12` of lower-case hex digits.
pub fn push_uuid(out: &mut String, n: u128)
    ensures
        final(out)@ == old(out)@ + uuid_text(n as nat),
{
    proof {
        reveal_strlit("-");
    }
    push_hex_padded(out, n / 0x1_0000_0000_0000_0000_0000_0000, 8);
    out.append("-");
    push_hex_padded(out, n / 0x1_0000_0000_0000_0000_0000, 4);
    out.append("-");
    push_hex_padded(out, n / 0x1_0000_0000_0000_0000, 4);
    out.append("-");
    push_hex_padded(out, n / 0x1_0000_0000_0000, 4);
    out.append("-");
    push_hex_padded(out, n, 12);
}

} // verus!
