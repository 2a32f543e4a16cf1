use vstd::prelude::*;

verus! {

/// The decimal digit `d` (`0..10`) as a character.
pub open spec fn digit_char(d: nat) -> char {
    if d == 0 {
        '0'
    } else if d == 1 {
        '1'
    } else if d == 2 {
        '2'
    } else if d == 3 {
        '3'
    } else if d == 4 {
        '4'
    } else if d == 5 {
        '5'
    } else if d == 6 {
        '6'
    } else if d == 7 {
        '7'
    } else if d == 8 {
        '8'
    } else {
        '9'
    }
}

/// The hexadecimal digit `d` (`0..16`) as a character, in upper or lower case.
pub open spec fn hex_digit_char(d: nat, upper: bool) -> char {
    if d < 10 {
        digit_char(d)
    } else if d == 10 {
        if upper { 'A' } else { 'a' }
    } else if d == 11 {
        if upper { 'B' } else { 'b' }
    } else if d == 12 {
        if upper { 'C' } else { 'c' }
    } else if d == 13 {
        if upper { 'D' } else { 'd' }
    } else if d == 14 {
        if upper { 'E' } else { 'e' }
    } else {
        if upper { 'F' } else { 'f' }
    }
}

/// `v` in base 16 with at least `width` digits, zero-padded on the left: what
/// `{:0width$X}` (upper) or `{:0width$x}` (lower) prints for an unsigned integer.
pub open spec fn hex_text(v: nat, width: nat, upper: bool) -> Seq<char>
    decreases v + width,
{
    if v < 16 && width <= 1 {
        seq![hex_digit_char(v, upper)]
    } else {
        let w: nat = if width > 0 { (width - 1) as nat } else { 0 };
        hex_text(v / 16, w, upper).push(hex_digit_char(v % 16, upper))
    }
}

/// `v` in base 10 without leading zeros: what `{}` prints for an unsigned integer.
pub open spec fn decimal_text(v: nat) -> Seq<char>
    decreases v,
{
    if v < 10 {
        seq![digit_char(v)]
    } else {
        decimal_text(v / 10).push(digit_char(v % 10))
    }
}

/// What `{:#018x}` prints for a 64-bit address: `0x` and sixteen lower-case digits.
pub open spec fn address_text(v: u64) -> Seq<char> {
    seq!['0', 'x'] + hex_text(v as nat, 16, false)
}

/// The byte `b` as a character (Latin-1), as `char::from(b)` gives it.
pub open spec fn byte_char(b: u8) -> char {
    b as char
}

/// The string slice of one hexadecimal digit.
fn hex_digit_str(d: u64, upper: bool) -> (s: &'static str)
    requires
        d < 16,
    ensures
        s@ == seq![hex_digit_char(d as nat, upper)],
{
    if d == 0 {
        proof {
            reveal_strlit("0");
        }
        "0"
    } else if d == 1 {
        proof {
            reveal_strlit("1");
        }
        "1"
    } else if d == 2 {
        proof {
            reveal_strlit("2");
        }
        "2"
    } else if d == 3 {
        proof {
            reveal_strlit("3");
        }
        "3"
    } else if d == 4 {
        proof {
            reveal_strlit("4");
        }
        "4"
    } else if d == 5 {
        proof {
            reveal_strlit("5");
        }
        "5"
    } else if d == 6 {
        proof {
            reveal_strlit("6");
        }
        "6"
    } else if d == 7 {
        proof {
            reveal_strlit("7");
        }
        "7"
    } else if d == 8 {
        proof {
            reveal_strlit("8");
        }
        "8"
    } else if d == 9 {
        proof {
            reveal_strlit("9");
        }
        "9"
    } else if d == 10 {
        if upper {
            proof {
                reveal_strlit("A");
            }
            "A"
        } else {
            proof {
                reveal_strlit("a");
            }
            "a"
        }
    } else if d == 11 {
        if upper {
            proof {
                reveal_strlit("B");
            }
            "B"
        } else {
            proof {
                reveal_strlit("b");
            }
            "b"
        }
    } else if d == 12 {
        if upper {
            proof {
                reveal_strlit("C");
            }
            "C"
        } else {
            proof {
                reveal_strlit("c");
            }
            "c"
        }
    } else if d == 13 {
        if upper {
            proof {
                reveal_strlit("D");
            }
            "D"
        } else {
            proof {
                reveal_strlit("d");
            }
            "d"
        }
    } else if d == 14 {
        if upper {
            proof {
                reveal_strlit("E");
            }
            "E"
        } else {
            proof {
                reveal_strlit("e");
            }
            "e"
        }
    } else {
        if upper {
            proof {
                reveal_strlit("F");
            }
            "F"
        } else {
            proof {
                reveal_strlit("f");
            }
            "f"
        }
    }
}

/// Appends `v` in base 16 with at least `width` digits.
pub fn push_hex(s: &mut String, v: u64, width: usize, upper: bool)
    ensures
        final(s)@ == old(s)@ + hex_text(v as nat, width as nat, upper),
    decreases v as int + width as int,
{
    if v < 16 && width <= 1 {
        s.append(hex_digit_str(v, upper));
    } else {
        let w: usize = if width > 0 { width - 1 } else { 0 };
        assert((v / 16) as int + (w as int) < v as int + width as int);
        push_hex(s, v / 16, w, upper);
        s.append(hex_digit_str(v % 16, upper));
        assert(final(s)@ =~= old(s)@ + hex_text(v as nat, width as nat, upper));
    }
}

/// Appends `v` in base 10.
pub fn push_decimal(s: &mut String, v: u64)
    ensures
        final(s)@ == old(s)@ + decimal_text(v as nat),
    decreases v,
{
    if v < 10 {
        s.append(hex_digit_str(v, true));
    } else {
        push_decimal(s, v / 10);
        s.append(hex_digit_str(v % 10, true));
        assert(final(s)@ =~= old(s)@ + decimal_text(v as nat));
    }
}

/// Appends a 64-bit address as `{:#018x}` prints it.
pub fn push_address(s: &mut String, v: u64)
    ensures
        final(s)@ == old(s)@ + address_text(v),
{
    s.append("0x");
    push_hex(s, v, 16, false);
    proof {
        reveal_strlit("0x");
    }
    assert(final(s)@ =~= old(s)@ + address_text(v));
}

/// Appends one character; a call of `String::push`, which writes the character's
/// UTF-8 encoding at the end, so that the string's characters gain `c` as the last one.
#[verifier::external_body]
pub fn push_char(s: &mut String, c: char)
    ensures
        final(s)@ == old(s)@.push(c),
{
    s.push(c);
}

} // verus!
