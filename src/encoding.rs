//! Narrow text to the wide encoding that the native layer takes.
use vstd::prelude::*;

verus! {

/// The UTF-16 code units of one character: one unit inside the basic plane,
/// a surrogate pair above it.
pub open spec fn utf16_of_char(c: char) -> Seq<u16> {
    let v = c as u32;
    if v < 0x10000 {
        seq![v as u16]
    } else {
        let w = (v - 0x10000) as u32;
        seq![(0xD800 + w / 0x400) as u16, (0xDC00 + w % 0x400) as u16]
    }
}

/// The UTF-16 encoding of a character sequence, character by character.
pub open spec fn utf16_encode(s: Seq<char>) -> Seq<u16>
    decreases s.len(),
{
    if s.len() == 0 {
        Seq::empty()
    } else {
        utf16_encode(s.drop_last()) + utf16_of_char(s.last())
    }
}

/// Relies on `widestring::U16String::from_str`, which collects `str::encode_utf16`
/// of its argument, and on `into_vec`, which hands back those code units.
#[verifier::external_body]
pub(crate) fn to_utf16(s: &str) -> (r: Vec<u16>)
    ensures
        r@ == utf16_encode(s@),
{
    widestring::U16String::from_str(s).into_vec()
}

} // verus!
