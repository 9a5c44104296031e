//! UTF-16 text for the system's interfaces.
use vstd::prelude::*;

verus! {

/// The UTF-16 code units of a character.
pub open spec fn units(c: char) -> Seq<u16> {
    let code = c as int;
    if code < 0x1_0000 {
        seq![code as u16]
    } else {
        seq![
            (0xD800 + (code - 0x1_0000) / 0x400) as u16,
            (0xDC00 + (code - 0x1_0000) % 0x400) as u16,
        ]
    }
}

/// The UTF-16 code units of a text.
pub open spec fn utf16(text: Seq<char>) -> Seq<u16>
    decreases text.len(),
{
    if text.len() == 0 {
        seq![]
    } else {
        units(text[0]) + utf16(text.drop_first())
    }
}

/// The text that UTF-16 code units stand for: a high surrogate and the unit after it
/// make one character, any other unit makes one by itself.
pub open spec fn utf16_text(units: Seq<u16>) -> Seq<char>
    decreases units.len(),
{
    if units.len() == 0 {
        seq![]
    } else if 0xD800 <= units[0] < 0xDC00 && units.len() >= 2 {
        let code = 0x1_0000 + (units[0] - 0xD800) * 0x400 + (units[1] - 0xDC00);
        seq![code as char] + utf16_text(units.skip(2))
    } else {
        seq![units[0] as char] + utf16_text(units.skip(1))
    }
}

/// The characters are the code points that are no surrogates.
proof fn lemma_code_point(c: char)
    ensures
        0 <= c as int <= 0x10_FFFF,
        !(0xD800 <= c as int <= 0xDFFF),
{
}

proof fn lemma_utf16_push(text: Seq<char>, c: char)
    ensures
        utf16(text.push(c)) == utf16(text) + units(c),
    decreases text.len(),
{
    let longer = text.push(c);
    if text.len() == 0 {
        assert(longer.drop_first() =~= text);
        assert(utf16(longer) =~= units(c));
        assert(utf16(text) + units(c) =~= units(c));
    } else {
        assert(longer.drop_first() =~= text.drop_first().push(c));
        lemma_utf16_push(text.drop_first(), c);
        assert(utf16(longer) =~= utf16(text) + units(c));
    }
}

/// The UTF-16 code units of a text, with a zero at the end.
pub fn to_wide(text: &str) -> (wide: Vec<u16>)
    ensures
        wide@ == utf16(text@).push(0),
{
    let mut wide: Vec<u16> = Vec::new();
    for c in chars: text.chars()
        invariant
            chars.seq() == text@,
            wide@ == utf16(text@.take(chars.index() as int)),
    {
        let ghost before: Seq<u16> = wide@;
        proof {
            lemma_code_point(c);
        }
        let code: u32 = c as u32;
        if code < 0x1_0000 {
            wide.push(code as u16);
        } else {
            wide.push((0xD800 + (code - 0x1_0000) / 0x400) as u16);
            wide.push((0xDC00 + (code - 0x1_0000) % 0x400) as u16);
        }
        proof {
            assert(wide@ =~= before + units(c));
            lemma_utf16_push(text@.take(chars.index() as int), c);
            assert(text@.take(chars.index() + 1) =~= text@.take(chars.index() as int).push(c));
        }
    }
    assert(text@.take(text@.len() as int) =~= text@);
    wide.push(0);
    wide
}

/// No text is lost on the way: what the system reads is the text that was given.
pub proof fn law_wide_text_reads_back(text: Seq<char>)
    ensures
        utf16_text(utf16(text)) == text,
    decreases text.len(),
{
    if text.len() > 0 {
        let rest = text.drop_first();
        law_wide_text_reads_back(rest);
        let all = utf16(text);
        let code = text[0] as int;
        lemma_code_point(text[0]);
        if code < 0x1_0000 {
            assert(all[0] == code);
            assert(all.skip(1) =~= utf16(rest));
        } else {
            assert(all[0] == 0xD800 + (code - 0x1_0000) / 0x400);
            assert(all[1] == 0xDC00 + (code - 0x1_0000) % 0x400);
            assert(all.skip(2) =~= utf16(rest));
        }
        assert(utf16_text(all) =~= seq![text[0]] + rest);
        assert(seq![text[0]] + rest =~= text);
    }
}

/// The zero ends the text and nothing before it does, unless the text itself holds
/// that character: the system sees all of it.
pub proof fn law_only_the_end_is_zero(text: Seq<char>, i: int)
    requires
        !text.contains('\0'),
        0 <= i < utf16(text).len(),
    ensures
        utf16(text)[i] != 0,
    decreases text.len(),
{
    let head = units(text[0]);
    lemma_code_point(text[0]);
    assert(text.contains(text[0]));
    if i >= head.len() {
        let rest = text.drop_first();
        assert forall|c: char| rest.contains(c) implies text.contains(c) by {
            let k = choose|k: int| 0 <= k < rest.len() && rest[k] == c;
            assert(text[k + 1] == c);
        }
        law_only_the_end_is_zero(rest, i - head.len());
    }
}

/// Each character is written by itself: one below 0x10000 as its own code, any other as
/// two units, a high and a low surrogate, that make up its code.
pub proof fn law_characters_are_written_one_by_one(text: Seq<char>, c: char)
    ensures
        utf16(Seq::<char>::empty()).len() == 0,
        utf16(text.push(c)) == utf16(text) + units(c),
        (c as int) < 0x1_0000 ==> units(c).len() == 1 && units(c)[0] == c as int,
        (c as int) >= 0x1_0000 ==> {
            &&& units(c).len() == 2
            &&& 0xD800 <= units(c)[0] < 0xDC00
            &&& 0xDC00 <= units(c)[1] < 0xE000
            &&& 0x1_0000 + (units(c)[0] - 0xD800) * 0x400 + (units(c)[1] - 0xDC00) == c as int
        },
{
    lemma_code_point(c);
    lemma_utf16_push(text, c);
}

/// What is handed to the system is the text, which reads back as it was, and a zero after
/// it.
pub proof fn law_wide_text_ends_in_zero(text: &str, wide: Vec<u16>)
    requires
        call_ensures(to_wide, (text,), wide),
    ensures
        wide@.len() == utf16(text@).len() + 1,
        wide@[wide@.len() - 1] == 0,
        utf16_text(wide@.drop_last()) == text@,
{
    assert(wide@.drop_last() =~= utf16(text@));
    law_wide_text_reads_back(text@);
}

} // verus!
