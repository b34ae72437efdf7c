//! UTF-16 encoding of strings for the wide-character interfaces of the
//! operating system.

use vstd::prelude::*;

verus! {

/// The UTF-16 code units of one character: one unit below 0x10000, else a
/// surrogate pair.
pub open spec fn utf16_units(c: char) -> Seq<u16> {
    let v = c as u32 as int;
    if v < 0x10000 {
        seq![v as u16]
    } else {
        let u = v - 0x10000;
        seq![(0xD800 + u / 0x400) as u16, (0xDC00 + u % 0x400) as u16]
    }
}

/// The UTF-16 encoding of a character sequence.
pub open spec fn utf16_of(s: Seq<char>) -> Seq<u16>
    decreases s.len(),
{
    if s.len() == 0 {
        seq![]
    } else {
        utf16_of(s.drop_last()) + utf16_units(s.last())
    }
}

/// Encodes `s` as UTF-16, without a terminator.
pub fn encode_utf16(s: &str) -> (v: Vec<u16>)
    ensures
        v@ == utf16_of(s@),
{
    let n = s.unicode_len();
    let mut v: Vec<u16> = Vec::new();
    let mut i: usize = 0;
    while i < n
        invariant
            n == s@.len(),
            i <= n,
            v@ == utf16_of(s@.subrange(0, i as int)),
        decreases n - i,
    {
        let c = s.get_char(i);
        let code = c as u32;
        proof {
            let p = s@.subrange(0, i as int + 1);
            assert(p.drop_last() == s@.subrange(0, i as int));
            assert(p.last() == c);
        }
        if code < 0x10000 {
            v.push(code as u16);
        } else {
            let u = code - 0x10000;
            v.push((0xD800 + u / 0x400) as u16);
            v.push((0xDC00 + u % 0x400) as u16);
        }
        i = i + 1;
    }
    assert(s@.subrange(0, n as int) == s@);
    v
}

/// Encodes `s` as UTF-16 followed by a terminating zero unit.
pub fn encode_utf16_null(s: &str) -> (v: Vec<u16>)
    ensures
        v@ == utf16_of(s@).push(0),
{
    let mut v = encode_utf16(s);
    v.push(0);
    v
}

} // verus!
