//! Text as Win32 takes it: UTF-16 code units, closed by a NUL where the call asks for one.

use vstd::prelude::*;

verus! {

/// The code units of one character: itself in the basic plane, else a surrogate pair.
pub open spec fn units(c: char) -> Seq<u16> {
    let code = c as int;
    if code < 0x1_0000 {
        seq![code as u16]
    } else {
        seq![
            (0xD800 + (code - 0x1_0000) / 0x400) as u16,
            (0xDC00 + (code - 0x1_0000) % 0x400) as u16,
        ]
    }
}

/// The code units of a text, character by character.
pub open spec fn utf16(text: Seq<char>) -> Seq<u16>
    decreases text.len(),
{
    if text.len() == 0 {
        Seq::empty()
    } else {
        utf16(text.drop_last()) + units(text.last())
    }
}

/// The code units of a text and the NUL that closes them.
pub open spec fn utf16_nul(text: Seq<char>) -> Seq<u16> {
    utf16(text).push(0)
}

/// Appends the code units of one character.
fn push_units(out: &mut Vec<u16>, c: char)
    ensures
        final(out)@ == old(out)@ + units(c),
{
    let code: u32 = c as u32;
    if code < 0x1_0000 {
        out.push(code as u16);
    } else {
        let rest: u32 = code - 0x1_0000;
        out.push((0xD800 + rest / 0x400) as u16);
        out.push((0xDC00 + rest % 0x400) as u16);
    }
    assert(out@ =~= old(out)@ + units(c));
}

/// The code units of `text`, without a closing NUL.
pub fn encode_utf16(text: &str) -> (wide: Vec<u16>)
    ensures
        wide@ == utf16(text@),
{
    let len: usize = text.unicode_len();
    let mut wide: Vec<u16> = Vec::new();
    let mut i: usize = 0;
    while i < len
        invariant
            i <= len,
            len == text@.len(),
            wide@ == utf16(text@.take(i as int)),
        decreases len - i,
    {
        push_units(&mut wide, text.get_char(i));
        assert(text@.take(i + 1).drop_last() =~= text@.take(i as int));
        i = i + 1;
    }
    assert(text@.take(len as int) =~= text@);
    wide
}

/// The code units of `text`, closed by a NUL.
pub fn encode_utf16_nul(text: &str) -> (wide: Vec<u16>)
    ensures
        wide@ == utf16_nul(text@),
{
    let mut wide: Vec<u16> = encode_utf16(text);
    wide.push(0);
    wide
}

/// What a run of code units spells, read from its end.
pub open spec fn spelled(wide: Seq<u16>) -> Seq<char>
    decreases wide.len(),
{
    if wide.len() == 0 {
        Seq::empty()
    } else if wide.len() >= 2 && 0xDC00 <= wide.last() < 0xE000 {
        let high = wide[wide.len() - 2] as int;
        let code = 0x1_0000 + (high - 0xD800) * 0x400 + (wide.last() - 0xDC00);
        spelled(wide.take(wide.len() - 2)).push(code as char)
    } else {
        spelled(wide.drop_last()).push(wide.last() as char)
    }
}

/// A character is a code point outside the surrogate range.
proof fn char_is_a_scalar_value(c: char)
    ensures
        0 <= c as int <= 0xD7FF || 0xE000 <= c as int <= 0x10_FFFF,
{
}

/// The code units of a text spell that text again, so no two texts share their code units.
pub proof fn law_utf16_spells_its_text(text: Seq<char>)
    ensures
        spelled(utf16(text)) == text,
    decreases text.len(),
{
    if text.len() > 0 {
        let front = utf16(text.drop_last());
        let wide = utf16(text);
        let code = text.last() as int;
        char_is_a_scalar_value(text.last());
        law_utf16_spells_its_text(text.drop_last());
        if (text.last() as int) < 0x1_0000 {
            assert(wide.last() == code);
            assert(wide.drop_last() =~= front);
        } else {
            assert(wide.last() == 0xDC00 + (code - 0x1_0000) % 0x400);
            assert(wide[wide.len() - 2] == 0xD800 + (code - 0x1_0000) / 0x400);
            assert(wide.take(wide.len() - 2) =~= front);
        }
        assert(text.drop_last().push(text.last()) =~= text);
    }
}

/// Where a text holds no NUL, the NUL that closes its code units is the first one in them: a
/// reader that stops at a NUL sees the whole text.
pub proof fn law_first_nul_closes_the_text(text: Seq<char>, i: int)
    requires
        !text.contains('\0'),
        0 <= i < utf16_nul(text).len(),
    ensures
        utf16_nul(text)[i] == 0 <==> i == utf16(text).len(),
    decreases text.len(),
{
    if text.len() > 0 && i < utf16(text).len() {
        let front = text.drop_last();
        assert(!front.contains('\0')) by {
            assert forall|k: int| 0 <= k < front.len() implies front[k] != '\0' by {
                assert(text.contains(text[k]));
            }
        }
        assert(text.contains(text.last()));
        char_is_a_scalar_value(text.last());
        if i < utf16(front).len() {
            law_first_nul_closes_the_text(front, i);
        }
    }
}

/// A character of the basic plane is its own code unit. Any other is a high and a low surrogate,
/// which together hold its distance from the basic plane, ten bits each.
pub proof fn law_units_hold_the_code_point(c: char)
    ensures
        (c as int) < 0x1_0000 ==> units(c).len() == 1 && units(c)[0] == c as int,
        c as int >= 0x1_0000 ==> {
            &&& units(c).len() == 2
            &&& 0xD800 <= units(c)[0] < 0xDC00
            &&& 0xDC00 <= units(c)[1] < 0xE000
            &&& (units(c)[0] - 0xD800) * 0x400 + (units(c)[1] - 0xDC00) == c as int - 0x1_0000
        },
{
    char_is_a_scalar_value(c);
}

/// The code units of a text are those of its parts, one after the other; a single character has
/// its own, and closing adds a NUL and nothing else.
pub proof fn law_units_follow_one_another(front: Seq<char>, back: Seq<char>, c: char)
    ensures
        utf16(Seq::<char>::empty()) == Seq::<u16>::empty(),
        utf16(seq![c]) == units(c),
        utf16(front + back) == utf16(front) + utf16(back),
        utf16_nul(front).len() == utf16(front).len() + 1,
        utf16_nul(front).drop_last() == utf16(front),
        utf16_nul(front).last() == 0,
    decreases back.len(),
{
    reveal_with_fuel(utf16, 2);
    assert(seq![c].drop_last() =~= Seq::<char>::empty());
    assert(utf16(seq![c]) =~= units(c));
    assert(utf16_nul(front).drop_last() =~= utf16(front));
    if back.len() == 0 {
        assert(front + back =~= front);
        assert(utf16(front) + utf16(back) =~= utf16(front));
    } else {
        law_units_follow_one_another(front, back.drop_last(), c);
        assert((front + back).drop_last() =~= front + back.drop_last());
        assert(utf16(front + back) =~= utf16(front) + utf16(back));
    }
}

} // verus!
