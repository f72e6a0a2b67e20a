//! Text as the UTF-16 units that wide-character interfaces take.

use vstd::prelude::*;
use vstd::string::StrSliceExecFns;

verus! {

/// The UTF-16 units of one character: itself where it fits in one unit, else
/// a surrogate pair.
pub open spec fn utf16_units(c: char) -> Seq<u16> {
    let scalar = c as u32;
    if scalar < 0x1_0000 {
        seq![scalar as u16]
    } else {
        seq![
            (0xD800 + (scalar - 0x1_0000) / 0x400) as u16,
            (0xDC00 + (scalar - 0x1_0000) % 0x400) as u16,
        ]
    }
}

/// The UTF-16 units of a text.
pub open spec fn utf16_of(text: Seq<char>) -> Seq<u16>
    decreases text.len(),
{
    if text.len() == 0 {
        Seq::empty()
    } else {
        utf16_of(text.drop_last()) + utf16_units(text.last())
    }
}

/// Encodes a text as UTF-16 and ends it with a NUL unit.
pub fn to_wide_string(s: &str) -> (wide: Vec<u16>)
    ensures
        wide@ == utf16_of(s@).push(0u16),
{
    let count = s.unicode_len();
    let mut wide: Vec<u16> = Vec::new();
    let mut at: usize = 0;
    while at < count
        invariant
            at <= count,
            count == s@.len(),
            wide@ == utf16_of(s@.take(at as int)),
        decreases count - at,
    {
        let c = s.get_char(at);
        let scalar: u32 = c as u32;
        proof {
            assert(s@.take(at + 1).drop_last() =~= s@.take(at as int));
        }
        if scalar < 0x1_0000 {
            wide.push(scalar as u16);
        } else {
            let offset: u32 = scalar - 0x1_0000;
            wide.push((0xD800 + offset / 0x400) as u16);
            wide.push((0xDC00 + offset % 0x400) as u16);
        }
        at += 1;
    }
    assert(s@.take(at as int) =~= s@);
    wide.push(0);
    wide
}

} // verus!
