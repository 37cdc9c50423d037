//! Building text: appending to a `String`, and hexadecimal and decimal digits.
use vstd::prelude::*;

verus! {

/// Relies on `String::push_str`: the characters of `t` are appended to `s`.
#[verifier::external_body]
pub(crate) fn push_str(s: &mut String, t: &str)
    ensures
        final(s)@ == old(s)@ + t@,
{
    s.push_str(t);
}

/// Relies on `String::push`: the character `c` is appended to `s`.
#[verifier::external_body]
fn push_char(s: &mut String, c: char)
    ensures
        final(s)@ == old(s)@.push(c),
{
    s.push(c);
}

/// The hexadecimal digit for `d` (below 16), in upper or lower case.
pub open spec fn hex_digit(d: nat, upper: bool) -> char {
    if d == 0 {
        '0'
    } else if d == 1 {
        '1'
    } else if d == 2 {
        '2'
    } else if d == 3 {
        '3'
    } else if d == 4 {
        '4'
    } else if d == 5 {
        '5'
    } else if d == 6 {
        '6'
    } else if d == 7 {
        '7'
    } else if d == 8 {
        '8'
    } else if d == 9 {
        '9'
    } else if upper {
        if d == 10 {
            'A'
        } else if d == 11 {
            'B'
        } else if d == 12 {
            'C'
        } else if d == 13 {
            'D'
        } else if d == 14 {
            'E'
        } else {
            'F'
        }
    } else {
        if d == 10 {
            'a'
        } else if d == 11 {
            'b'
        } else if d == 12 {
            'c'
        } else if d == 13 {
            'd'
        } else if d == 14 {
            'e'
        } else {
            'f'
        }
    }
}

/// The low `width` hexadecimal digits of `v`, most significant first.
pub open spec fn hex_text(v: nat, width: nat, upper: bool) -> Seq<char>
    decreases width,
{
    if width == 0 {
        Seq::empty()
    } else {
        hex_text(v / 16, (width - 1) as nat, upper).push(hex_digit(v % 16, upper))
    }
}

/// The decimal digits of `v`, most significant first, without leading zeros.
pub open spec fn dec_text(v: nat) -> Seq<char>
    decreases v,
{
    if v < 10 {
        seq![hex_digit(v, false)]
    } else {
        dec_text(v / 10).push(hex_digit(v % 10, false))
    }
}

fn digit_char(d: u32, upper: bool) -> (r: char)
    requires
        d < 16,
    ensures
        r == hex_digit(d as nat, upper),
{
    if d == 0 {
        '0'
    } else if d == 1 {
        '1'
    } else if d == 2 {
        '2'
    } else if d == 3 {
        '3'
    } else if d == 4 {
        '4'
    } else if d == 5 {
        '5'
    } else if d == 6 {
        '6'
    } else if d == 7 {
        '7'
    } else if d == 8 {
        '8'
    } else if d == 9 {
        '9'
    } else if upper {
        if d == 10 {
            'A'
        } else if d == 11 {
            'B'
        } else if d == 12 {
            'C'
        } else if d == 13 {
            'D'
        } else if d == 14 {
            'E'
        } else {
            'F'
        }
    } else {
        if d == 10 {
            'a'
        } else if d == 11 {
            'b'
        } else if d == 12 {
            'c'
        } else if d == 13 {
            'd'
        } else if d == 14 {
            'e'
        } else {
            'f'
        }
    }
}

/// Appends the low `width` hexadecimal digits of `v`.
pub fn push_hex(s: &mut String, v: u32, width: u32, upper: bool)
    ensures
        final(s)@ == old(s)@ + hex_text(v as nat, width as nat, upper),
    decreases width,
{
    if width > 0 {
        push_hex(s, v / 16, width - 1, upper);
        push_char(s, digit_char(v % 16, upper));
        assert(s@ =~= old(s)@ + hex_text(v as nat, width as nat, upper));
    } else {
        assert(s@ =~= old(s)@ + hex_text(v as nat, width as nat, upper));
    }
}

/// Appends the decimal digits of `v`.
pub fn push_dec(s: &mut String, v: u32)
    ensures
        final(s)@ == old(s)@ + dec_text(v as nat),
    decreases v,
{
    if v < 10 {
        push_char(s, digit_char(v, false));
        assert(s@ =~= old(s)@ + dec_text(v as nat));
    } else {
        push_dec(s, v / 10);
        push_char(s, digit_char(v % 10, false));
        assert(s@ =~= old(s)@ + dec_text(v as nat));
    }
}

/// The low `width` binary digits of `v`, most significant first.
pub open spec fn bin_text(v: nat, width: nat) -> Seq<char>
    decreases width,
{
    if width == 0 {
        Seq::empty()
    } else {
        bin_text(v / 2, (width - 1) as nat).push(hex_digit(v % 2, false))
    }
}

/// Appends the low `width` binary digits of `v`.
pub fn push_bin(s: &mut String, v: u32, width: u32)
    ensures
        final(s)@ == old(s)@ + bin_text(v as nat, width as nat),
    decreases width,
{
    if width > 0 {
        push_bin(s, v / 2, width - 1);
        push_char(s, digit_char(v % 2, false));
    }
    assert(s@ =~= old(s)@ + bin_text(v as nat, width as nat));
}

} // verus!
