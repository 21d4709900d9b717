//! Encoding strings as null-terminated UTF-16 wide strings, as most Win32
//! APIs require.

use vstd::prelude::*;

verus! {

/// The UTF-16 code units of one character: itself below U+10000, a
/// surrogate pair (high, then low) above.
pub open spec fn utf16_units_of(c: char) -> Seq<u16> {
    let v = c as u32;
    if v < 0x1_0000 {
        seq![v as u16]
    } else {
        let w = v - 0x1_0000;
        seq![(0xD800 + w / 0x400) as u16, (0xDC00 + w % 0x400) as u16]
    }
}

/// The UTF-16 encoding of a character sequence.
pub open spec fn utf16_encode(cs: Seq<char>) -> Seq<u16>
    decreases cs.len(),
{
    if cs.len() == 0 {
        seq![]
    } else {
        utf16_encode(cs.drop_last()) + utf16_units_of(cs.last())
    }
}

/// Encode `s` as a null-terminated UTF-16 wide string suitable for Win32
/// APIs that take `PCWSTR`.
pub fn to_wide(s: &str) -> (r: Vec<u16>)
    ensures
        r@ == utf16_encode(s@).push(0u16),
{
    broadcast use vstd::string::group_string_axioms;

    let mut out: Vec<u16> = Vec::new();
    let ghost mut done: Seq<char> = Seq::empty();
    for c in it: s.chars()
        invariant
            it.seq() == s@,
            done == it.seq().take(it.index() as int),
            out@ == utf16_encode(done),
    {
        let ghost before = out@;
        proof {
            assert(done.push(c).drop_last() =~= done);
            done = done.push(c);
        }
        let v: u32 = c as u32;
        proof {
            vstd::utf8::char_is_scalar(c);
        }
        assert(v == c as u32 && v <= 0x10FFFF);
        if v < 0x1_0000 {
            out.push(v as u16);
        } else {
            let w: u32 = v - 0x1_0000;
            out.push((0xD800 + w / 0x400) as u16);
            out.push((0xDC00 + w % 0x400) as u16);
        }
        assert(out@ =~= before + utf16_units_of(c));
    }
    proof {
        assert(done =~= s@);
    }
    out.push(0);
    out
}

/// A character below U+10000 is one code unit, its own value; a character
/// above is a surrogate pair, a high surrogate then a low one, that
/// recombine to the character.
pub proof fn law_utf16_units(c: char)
    ensures
        (c as u32) < 0x1_0000 ==> utf16_units_of(c) == seq![(c as u32) as u16] && utf16_units_of(c)[0] == c as u32,
        (c as u32) >= 0x1_0000 ==> {
            let u = utf16_units_of(c);
            &&& u.len() == 2
            &&& 0xD800 <= u[0] <= 0xDBFF
            &&& 0xDC00 <= u[1] <= 0xDFFF
            &&& 0x1_0000 + (u[0] - 0xD800) * 0x400 + (u[1] - 0xDC00) == c as u32
        },
{
    vstd::utf8::char_is_scalar(c);
}

/// Encoding a sequence followed by a character appends that character's
/// code units; the empty sequence encodes to nothing.
pub proof fn law_utf16_encode_appends(cs: Seq<char>, c: char)
    ensures
        utf16_encode(seq![]) == Seq::<u16>::empty(),
        utf16_encode(cs.push(c)) == utf16_encode(cs) + utf16_units_of(c),
{
    assert(cs.push(c).drop_last() =~= cs);
}

} // verus!
