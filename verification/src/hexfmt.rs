//! Hexadecimal diagnostic rendering of 32-byte values: lowercase and
//! uppercase, with an optional `0x` prefix.

use vstd::prelude::*;

verus! {

/// The hex character for one value below 16, in the requested case.
pub open spec fn hex_digit(v: u8, upper: bool) -> char
    recommends
        v < 16,
{
    if v < 10 {
        ((v + 0x30) as u8) as char
    } else if upper {
        ((v + 0x37) as u8) as char
    } else {
        ((v + 0x57) as u8) as char
    }
}

/// The hex text of a byte sequence: each byte as two hex digits, high
/// nibble first.
pub open spec fn hex_of(bytes: Seq<u8>, upper: bool) -> Seq<char>
    decreases bytes.len(),
{
    if bytes.len() <= 0 {
        Seq::<char>::empty()
    } else {
        hex_of(bytes.drop_last(), upper) + seq![
            hex_digit((bytes.last() / 16) as u8, upper),
            hex_digit((bytes.last() % 16) as u8, upper),
        ]
    }
}

/// The optional `0x` marker put before hex text.
pub open spec fn hex_prefix(prefixed: bool) -> Seq<char> {
    if prefixed {
        seq!['0', 'x']
    } else {
        Seq::<char>::empty()
    }
}

/// Relies on `String::push`: appends exactly the one character to the end
/// of the string.
#[verifier::external_body]
fn push_char(s: &mut String, c: char)
    ensures
        final(s)@ == old(s)@.push(c),
{
    s.push(c);
}

/// The hex character for one value below 16, in the requested case.
fn hex_digit_char(v: u8, upper: bool) -> (r: char)
    requires
        v < 16,
    ensures
        r == hex_digit(v, upper),
{
    let d: u8 = if v < 10 {
        v + 0x30
    } else if upper {
        v + 0x37
    } else {
        v + 0x57
    };
    d as char
}

/// Render 32 bytes as hex text, each byte as two hex digits, with the
/// optional `0x` prefix.
pub(crate) fn hex_string32(bytes: &[u8; 32], upper: bool, prefixed: bool) -> (r: String)
    ensures
        r@ == hex_prefix(prefixed) + hex_of(bytes@, upper),
{
    let mut s = String::new();
    if prefixed {
        push_char(&mut s, '0');
        push_char(&mut s, 'x');
        proof {
            assert(s@ =~= hex_prefix(true));
        }
    }
    proof {
        assert(s@ =~= hex_prefix(prefixed) + hex_of(bytes@.take(0), upper));
    }
    let ghost pfx: Seq<char> = hex_prefix(prefixed);
    let mut i: usize = 0;
    while i < 32
        invariant
            0 <= i <= 32,
            pfx == hex_prefix(prefixed),
            s@ == pfx + hex_of(bytes@.take(i as int), upper),
        decreases 32 - i,
    {
        let b = bytes[i];
        let hi: u8 = b / 16;
        let lo: u8 = b % 16;
        push_char(&mut s, hex_digit_char(hi, upper));
        push_char(&mut s, hex_digit_char(lo, upper));
        proof {
            let t = bytes@.take(i as int + 1);
            assert(t.drop_last() =~= bytes@.take(i as int));
            assert(t.last() == bytes@[i as int]);
            assert(s@ =~= pfx + hex_of(t, upper));
        }
        i += 1;
    }
    proof {
        assert(bytes@.take(32) =~= bytes@);
    }
    s
}

} // verus!
