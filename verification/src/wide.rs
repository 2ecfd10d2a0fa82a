//! Text in the form that the wide-character interfaces of Windows take: UTF-16 with a terminating
//! zero.

use vstd::prelude::*;

verus! {

/// The UTF-16 code units of a character: one below 0x10000, a surrogate pair from there on.
pub open spec fn utf16_units(c: char) -> Seq<u16> {
    let code = c as int;
    if code < 0x10000 {
        seq![code as u16]
    } else {
        seq![
            (0xD800 + (code - 0x10000) / 0x400) as u16,
            (0xDC00 + (code - 0x10000) % 0x400) as u16,
        ]
    }
}

/// Text in UTF-16.
pub open spec fn utf16(text: Seq<char>) -> Seq<u16>
    decreases text.len(),
{
    if text.len() == 0 {
        Seq::empty()
    } else {
        utf16(text.drop_last()) + utf16_units(text.last())
    }
}

/// Puts a character at the end of a wide string.
fn push_char(wide: &mut Vec<u16>, c: char)
    ensures
        final(wide)@ == old(wide)@ + utf16_units(c),
{
    let code: u32 = c as u32;
    if code < 0x10000 {
        wide.push(code as u16);
    } else {
        let rest: u32 = code - 0x10000;
        wide.push((0xD800 + rest / 0x400) as u16);
        wide.push((0xDC00 + rest % 0x400) as u16);
    }
}

/// Text in UTF-16, with a terminating zero.
pub fn wide_with_nul(text: &str) -> (wide: Vec<u16>)
    ensures
        wide@ == utf16(text@).push(0),
{
    let mut wide: Vec<u16> = Vec::new();
    assert(text@.take(0) =~= Seq::empty());
    for c in it: text.chars()
        invariant
            it.seq() == text@,
            wide@ == utf16(text@.take(it.index())),
    {
        proof {
            let seen = text@.take(it.index() + 1);
            assert(seen.drop_last() =~= text@.take(it.index()));
            assert(seen.last() == c);
        }
        push_char(&mut wide, c);
    }
    assert(text@.take(text@.len() as int) =~= text@);
    wide.push(0);
    wide
}

/// Puts the terminating zero behind a wide string. The string is taken as it is, zeros in it
/// included.
pub fn nul_terminated(wide: Vec<u16>) -> (terminated: Vec<u16>)
    ensures
        terminated@ == wide@.push(0),
{
    let mut terminated = wide;
    terminated.push(0);
    terminated
}

} // verus!
