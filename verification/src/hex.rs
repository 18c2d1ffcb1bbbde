//! Lowercase hexadecimal text of bytes and of 128-bit identifiers.

use vstd::prelude::*;
use vstd::string::*;

verus! {

/// The lowercase hex digit for `d < 16`.
pub open spec fn hex_digit(d: nat) -> char {
    if d < 10 {
        crate::decimal::digit_char(d)
    } else if d == 10 {
        'a'
    } else if d == 11 {
        'b'
    } else if d == 12 {
        'c'
    } else if d == 13 {
        'd'
    } else if d == 14 {
        'e'
    } else {
        'f'
    }
}

/// `{b:02x}`: two lowercase hex digits, high nibble first.
pub open spec fn byte_hex(b: u8) -> Seq<char> {
    seq![hex_digit((b / 16) as nat), hex_digit((b % 16) as nat)]
}

/// Every byte as two lowercase hex digits, in order.
pub open spec fn bytes_hex(s: Seq<u8>) -> Seq<char>
    decreases s.len(),
{
    if s.len() == 0 {
        Seq::empty()
    } else {
        bytes_hex(s.drop_last()) + byte_hex(s.last())
    }
}

/// Nibble `k` (0 = most significant) of a 128-bit value.
pub open spec fn nibble(v: u128, k: int) -> nat {
    ((v >> (((31 - k) * 4) as u128)) & 15u128) as nat
}

/// Hex digits of nibbles `from..to` of `v`.
pub open spec fn nibbles_hex(v: u128, from: int, to: int) -> Seq<char>
    decreases to - from,
{
    if to <= from {
        Seq::empty()
    } else {
        nibbles_hex(v, from, to - 1).push(hex_digit(nibble(v, to - 1)))
    }
}

/// The hyphenated form of a UUID (`8-4-4-4-12` lowercase hex digits).
pub open spec fn uuid_hyphenated(v: u128) -> Seq<char> {
    nibbles_hex(v, 0, 8) + seq!['-'] + nibbles_hex(v, 8, 12) + seq!['-'] + nibbles_hex(v, 12, 16)
        + seq!['-'] + nibbles_hex(v, 16, 20) + seq!['-'] + nibbles_hex(v, 20, 32)
}

/// The one-character string for hex digit `d`.
fn hex_digit_str(d: u64) -> (r: &'static str)
    requires
        d < 16,
    ensures
        r@ == seq![hex_digit(d as nat)],
{
    proof {
        reveal_strlit("a");
        reveal_strlit("b");
        reveal_strlit("c");
        reveal_strlit("d");
        reveal_strlit("e");
        reveal_strlit("f");
        reveal_strlit("0");
        reveal_strlit("1");
        reveal_strlit("2");
        reveal_strlit("3");
        reveal_strlit("4");
        reveal_strlit("5");
        reveal_strlit("6");
        reveal_strlit("7");
        reveal_strlit("8");
        reveal_strlit("9");
    }
    if d == 0 {
        "0"
    } else if d == 1 {
        "1"
    } else if d == 2 {
        "2"
    } else if d == 3 {
        "3"
    } else if d == 4 {
        "4"
    } else if d == 5 {
        "5"
    } else if d == 6 {
        "6"
    } else if d == 7 {
        "7"
    } else if d == 8 {
        "8"
    } else if d == 9 {
        "9"
    } else if d == 10 {
        "a"
    } else if d == 11 {
        "b"
    } else if d == 12 {
        "c"
    } else if d == 13 {
        "d"
    } else if d == 14 {
        "e"
    } else {
        "f"
    }
}

/// Append `{b:02x}` to `out`.
pub fn push_byte_hex(out: &mut String, b: u8)
    ensures
        final(out)@ == old(out)@ + byte_hex(b),
{
    out.append(hex_digit_str((b / 16) as u64));
    out.append(hex_digit_str((b % 16) as u64));
    assert(final(out)@ =~= old(out)@ + byte_hex(b));
}

/// Append the hex digits of nibbles `from..to` of `v` to `out`.
fn push_nibbles(out: &mut String, v: u128, from: usize, to: usize)
    requires
        from <= to <= 32,
    ensures
        final(out)@ == old(out)@ + nibbles_hex(v, from as int, to as int),
{
    let mut k = from;
    while k < to
        invariant
            from <= k <= to <= 32,
            out@ == old(out)@ + nibbles_hex(v, from as int, k as int),
        decreases to - k,
    {
        let shift: u128 = ((31 - k) * 4) as u128;
        let d = ((v >> shift) & 15u128) as u64;
        assert(((v >> shift) & 15u128) <= 15u128) by (bit_vector);
        out.append(hex_digit_str(d));
        proof {
            assert(nibbles_hex(v, from as int, k + 1) == nibbles_hex(v, from as int, k as int).push(
                hex_digit(nibble(v, k as int)),
            ));
        }
        assert(out@ =~= old(out)@ + nibbles_hex(v, from as int, k + 1));
        k = k + 1;
    }
}

/// The hyphenated text of a UUID held as a `u128` (`Uuid`'s `Display`).
pub fn format_uuid(v: u128) -> (r: String)
    ensures
        r@ == uuid_hyphenated(v),
{
    proof {
        reveal_strlit("-");
    }
    let mut out = String::new();
    push_nibbles(&mut out, v, 0, 8);
    out.append("-");
    push_nibbles(&mut out, v, 8, 12);
    out.append("-");
    push_nibbles(&mut out, v, 12, 16);
    out.append("-");
    push_nibbles(&mut out, v, 16, 20);
    out.append("-");
    push_nibbles(&mut out, v, 20, 32);
    assert(out@ =~= uuid_hyphenated(v));
    out
}

} // verus!
