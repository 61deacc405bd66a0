//! NUL-terminated UTF-16 text, as the Windows calls take and give it.
use vstd::prelude::*;
use vstd::utf8::is_scalar;

use crate::text::characters;

verus! {

/// The UTF-16 units of the character `c`.
pub open spec fn units(c: char) -> Seq<u16> {
    let v = c as u32 as int;
    if v < 0x10000 {
        seq![v as u16]
    } else {
        seq![(0xD800 + (v - 0x10000) / 0x400) as u16, (0xDC00 + (v - 0x10000) % 0x400) as u16]
    }
}

/// `text` in UTF-16.
pub open spec fn utf16(text: Seq<char>) -> Seq<u16>
    decreases text.len(),
{
    if text.len() == 0 {
        seq![]
    } else {
        units(text[0]) + utf16(text.skip(1))
    }
}

/// The unit is the first half of a surrogate pair.
pub open spec fn is_high(unit: u16) -> bool {
    0xD800 <= unit <= 0xDBFF
}

/// The unit is the second half of a surrogate pair.
pub open spec fn is_low(unit: u16) -> bool {
    0xDC00 <= unit <= 0xDFFF
}

/// The character that a surrogate pair stands for.
pub open spec fn paired(high: u16, low: u16) -> char {
    (0x10000 + (high - 0xD800) * 0x400 + (low - 0xDC00)) as char
}

/// The text that the units stand for; a surrogate without its other half
/// becomes the replacement character.
pub open spec fn utf16_lossy(list: Seq<u16>) -> Seq<char>
    decreases list.len(),
{
    if list.len() == 0 {
        seq![]
    } else if is_high(list[0]) && list.len() > 1 && is_low(list[1]) {
        seq![paired(list[0], list[1])] + utf16_lossy(list.skip(2))
    } else if is_high(list[0]) || is_low(list[0]) {
        seq!['\u{FFFD}'] + utf16_lossy(list.skip(1))
    } else {
        seq![list[0] as char] + utf16_lossy(list.skip(1))
    }
}

/// The number of units before the first zero, or of all units where there is none.
pub open spec fn wide_len(list: Seq<u16>) -> nat
    decreases list.len(),
{
    if list.len() == 0 || list[0] == 0 {
        0
    } else {
        1 + wide_len(list.skip(1))
    }
}

/// A character is what its scalar value, taken as a character, is.
proof fn same_char(c: char, value: int)
    requires
        c as u32 == value,
    ensures
        value as char == c,
{
}

/// No character but NUL has a zero among its units.
proof fn units_are_not_zero(c: char)
    requires
        c != '\0',
    ensures
        forall|i: int| 0 <= i < units(c).len() ==> units(c)[i] != 0,
{
    assert(c as u32 != 0);
}

proof fn utf16_of_concat(a: Seq<char>, b: Seq<char>)
    ensures
        utf16(a + b) == utf16(a) + utf16(b),
    decreases a.len(),
{
    if a.len() == 0 {
        assert(a + b =~= b);
        assert(utf16(a) + utf16(b) =~= utf16(b));
    } else {
        assert((a + b).skip(1) =~= a.skip(1) + b);
        utf16_of_concat(a.skip(1), b);
        assert(units(a[0]) + (utf16(a.skip(1)) + utf16(b)) =~= (units(a[0]) + utf16(a.skip(1)))
            + utf16(b));
    }
}

/// `text` as UTF-16 units with a zero behind them.
pub fn wide_text(text: &str) -> (list: Vec<u16>)
    ensures
        list@ == utf16(text@).push(0),
{
    let letters = characters(text);
    let mut list: Vec<u16> = Vec::new();
    let mut i: usize = 0;
    proof {
        assert(letters@.take(0) =~= seq![]);
    }
    while i < letters.len()
        invariant
            i <= letters@.len(),
            list@ == utf16(letters@.take(i as int)),
        decreases letters@.len() - i,
    {
        let v: u32 = letters[i] as u32;
        proof {
            let before = letters@.take(i as int);
            let one = seq![letters@[i as int]];
            assert(letters@.take(i + 1) =~= before + one);
            utf16_of_concat(before, one);
            assert(utf16(one.skip(1)) =~= seq![]);
            assert(utf16(one) =~= units(letters@[i as int]));
        }
        if v < 0x10000 {
            list.push(v as u16);
        } else {
            list.push((0xD800 + (v - 0x10000) / 0x400) as u16);
            list.push((0xDC00 + (v - 0x10000) % 0x400) as u16);
        }
        assert(list@ =~= utf16(letters@.take(i + 1)));
        i += 1;
    }
    assert(letters@.take(i as int) =~= text@);
    list.push(0);
    list
}

/// The text that the units stand for, up to the first zero.
pub fn wide_to_string(buf: &[u16]) -> (text: String)
    ensures
        text@ == utf16_lossy(buf@.take(wide_len(buf@) as int)),
{
    let mut len: usize = 0;
    assert(buf@.skip(0) =~= buf@);
    while len < buf.len() && buf[len] != 0
        invariant
            len <= buf@.len(),
            wide_len(buf@) == len + wide_len(buf@.skip(len as int)),
        decreases buf@.len() - len,
    {
        assert(buf@.skip(len as int).skip(1) =~= buf@.skip(len + 1));
        len += 1;
    }
    from_wide(buf, len)
}

/// The text that the first `len` units stand for.
pub fn from_wide(buf: &[u16], len: usize) -> (text: String)
    requires
        len <= buf@.len(),
    ensures
        text@ == utf16_lossy(buf@.take(len as int)),
{
    let mut text = String::new();
    let mut i: usize = 0;
    let ghost all = buf@.take(len as int);
    assert(all.skip(0) =~= all);
    assert(text@ + utf16_lossy(all) =~= utf16_lossy(all));
    while i < len
        invariant
            i <= len <= buf@.len(),
            all == buf@.take(len as int),
            text@ + utf16_lossy(all.skip(i as int)) == utf16_lossy(all),
        decreases len - i,
    {
        let first: u16 = buf[i];
        let ghost before = text@;
        let ghost rest = all.skip(i as int);
        assert(rest[0] == first);
        if 0xD800 <= first && first <= 0xDBFF && i + 1 < len && 0xDC00 <= buf[i + 1] && buf[i + 1]
            <= 0xDFFF {
            let value: u32 = 0x10000 + (first as u32 - 0xD800) * 0x400 + (buf[i + 1] as u32
                - 0xDC00);
            assert(rest[1] == buf@[i + 1]);
            let c: char = match char::from_u32(value) {
                Some(c) => c,
                None => '\u{FFFD}',
            };
            text.push(c);
            assert(rest.skip(2) =~= all.skip(i + 2));
            proof {
                same_char(c, value as int);
            }
            assert(text@ + utf16_lossy(all.skip(i + 2)) =~= before + (seq![c] + utf16_lossy(
                all.skip(i + 2),
            )));
            i += 2;
        } else {
            let c: char = if 0xD800 <= first && first <= 0xDFFF {
                '\u{FFFD}'
            } else {
                match char::from_u32(first as u32) {
                    Some(c) => c,
                    None => '\u{FFFD}',
                }
            };
            text.push(c);
            assert(rest.skip(1) =~= all.skip(i + 1));
            proof {
                if !is_high(first) && !is_low(first) {
                    same_char(c, first as int);
                }
            }
            assert(text@ + utf16_lossy(all.skip(i + 1)) =~= before + (seq![c] + utf16_lossy(
                all.skip(i + 1),
            )));
            i += 1;
        }
    }
    assert(all.skip(i as int) =~= seq![]);
    assert(text@ + utf16_lossy(all.skip(i as int)) =~= text@);
    text
}

proof fn decode_one(c: char, rest: Seq<u16>)
    ensures
        utf16_lossy(units(c) + rest) == seq![c] + utf16_lossy(rest),
{
    let v = c as u32 as int;
    let all = units(c) + rest;
    if v < 0x10000 {
        assert(is_scalar(c as u32));
        assert(all.skip(1) =~= rest);
        assert(all[0] == v as u16);
    } else {
        assert(v <= 0x10FFFF);
        assert(all.skip(2) =~= rest);
        let w = v - 0x10000;
        assert(w == (w / 0x400) * 0x400 + w % 0x400);
        assert(paired(all[0], all[1]) == c);
    }
}

proof fn no_zero_unit(text: Seq<char>)
    requires
        !text.contains('\0'),
    ensures
        forall|i: int| 0 <= i < utf16(text).len() ==> utf16(text)[i] != 0,
    decreases text.len(),
{
    if text.len() > 0 {
        assert(text.contains(text[0]));
        assert forall|c: char| text.skip(1).contains(c) implies text.contains(c) by {
            let i = choose|i: int| 0 <= i < text.skip(1).len() && text.skip(1)[i] == c;
            assert(text[i + 1] == c);
        }
        no_zero_unit(text.skip(1));
        let head = units(text[0]);
        units_are_not_zero(text[0]);
        assert forall|i: int| 0 <= i < utf16(text).len() implies utf16(text)[i] != 0 by {
            if i >= head.len() {
                assert(utf16(text)[i] == utf16(text.skip(1))[i - head.len()]);
            }
        }
    }
}

proof fn wide_len_of_terminated(list: Seq<u16>, behind: Seq<u16>)
    requires
        forall|i: int| 0 <= i < list.len() ==> list[i] != 0,
    ensures
        wide_len(list.push(0) + behind) == list.len(),
    decreases list.len(),
{
    let all = list.push(0) + behind;
    if list.len() > 0 {
        assert(all[0] == list[0]);
        assert(all.skip(1) =~= list.skip(1).push(0) + behind);
        wide_len_of_terminated(list.skip(1), behind);
    } else {
        assert(all[0] == 0);
    }
}

/// Decoding UTF-16 gives back the text that was encoded.
pub proof fn utf16_round_trip(text: Seq<char>)
    ensures
        utf16_lossy(utf16(text)) == text,
    decreases text.len(),
{
    if text.len() > 0 {
        decode_one(text[0], utf16(text.skip(1)));
        utf16_round_trip(text.skip(1));
        assert(seq![text[0]] + text.skip(1) =~= text);
    }
}

/// What [`wide_text`] wrote, [`wide_to_string`] reads back, whatever stands
/// behind it, for every text without a NUL character.
pub proof fn wide_round_trip(text: Seq<char>, behind: Seq<u16>)
    requires
        !text.contains('\0'),
    ensures
        ({
            let all = utf16(text).push(0) + behind;
            utf16_lossy(all.take(wide_len(all) as int)) == text
        }),
{
    let all = utf16(text).push(0) + behind;
    no_zero_unit(text);
    wide_len_of_terminated(utf16(text), behind);
    assert(all.take(utf16(text).len() as int) =~= utf16(text));
    utf16_round_trip(text);
}

/// A character below the surrogates' reach is one unit, its own value; any other
/// is a first and a second half that make up its value.
pub proof fn units_make_up_the_character(c: char)
    ensures
        (c as int) < 0x10000 ==> units(c).len() == 1 && units(c)[0] == c as int,
        c as int >= 0x10000 ==> {
            &&& units(c).len() == 2
            &&& 0xD800 <= units(c)[0] <= 0xDBFF
            &&& 0xDC00 <= units(c)[1] <= 0xDFFF
            &&& 0x10000 + (units(c)[0] - 0xD800) * 0x400 + (units(c)[1] - 0xDC00) == c as int
        },
{
    let v = c as u32 as int;
    if v >= 0x10000 {
        assert(v <= 0x10FFFF);
        let w = v - 0x10000;
        assert(w == (w / 0x400) * 0x400 + w % 0x400);
    }
}

/// A text in UTF-16 is its parts in UTF-16, one behind the other, down to the
/// single characters.
pub proof fn text_is_encoded_part_by_part(a: Seq<char>, c: char, b: Seq<char>)
    ensures
        utf16(a + b) == utf16(a) + utf16(b),
        utf16(seq![c]) == units(c),
        utf16(Seq::<char>::empty()).len() == 0,
{
    utf16_of_concat(a, b);
    assert(utf16(seq![c].skip(1)) =~= seq![]);
    assert(utf16(seq![c]) =~= units(c));
}

/// Units are read from the front: a pair of halves as the character that it
/// makes up, a half alone as the replacement character, any other unit as the
/// character with its value.
pub proof fn units_are_read_from_the_front(first: u16, second: u16, rest: Seq<u16>)
    ensures
        utf16_lossy(Seq::<u16>::empty()).len() == 0,
        first < 0xD800 || first > 0xDFFF ==> {
            let text = utf16_lossy(seq![first] + rest);
            text.len() == 1 + utf16_lossy(rest).len() && text[0] as int == first && text.skip(1)
                == utf16_lossy(rest)
        },
        0xD800 <= first <= 0xDBFF && 0xDC00 <= second <= 0xDFFF ==> {
            let text = utf16_lossy(seq![first, second] + rest);
            text.len() == 1 + utf16_lossy(rest).len() && text[0] as int == 0x10000 + (first
                - 0xD800) * 0x400 + (second - 0xDC00) && text.skip(1) == utf16_lossy(rest)
        },
        0xDC00 <= first <= 0xDFFF || (0xD800 <= first <= 0xDBFF && (rest.len() == 0 || rest[0]
            < 0xDC00 || rest[0] > 0xDFFF)) ==> utf16_lossy(seq![first] + rest) == seq!['\u{FFFD}']
            + utf16_lossy(rest),
{
    let one = seq![first] + rest;
    let two = seq![first, second] + rest;
    assert(one.skip(1) =~= rest);
    assert(two.skip(2) =~= rest);
    if first < 0xD800 || first > 0xDFFF {
        assert(utf16_lossy(one) == seq![first as char] + utf16_lossy(rest));
        assert(utf16_lossy(one).skip(1) =~= utf16_lossy(rest));
    }
    if 0xD800 <= first <= 0xDBFF && 0xDC00 <= second <= 0xDFFF {
        assert(utf16_lossy(two) == seq![paired(first, second)] + utf16_lossy(rest));
        assert(utf16_lossy(two).skip(1) =~= utf16_lossy(rest));
    }
}

/// A name ends before the first zero, or with the last unit.
pub proof fn a_name_ends_before_the_first_zero(list: Seq<u16>)
    ensures
        wide_len(list) <= list.len(),
        forall|i: int| 0 <= i < wide_len(list) ==> #[trigger] list[i] != 0,
        wide_len(list) < list.len() ==> list[wide_len(list) as int] == 0,
    decreases list.len(),
{
    if list.len() > 0 && list[0] != 0 {
        let rest = list.skip(1);
        a_name_ends_before_the_first_zero(rest);
        assert forall|i: int| 0 <= i < wide_len(list) implies #[trigger] list[i] != 0 by {
            if i > 0 {
                assert(list[i] == rest[i - 1]);
            }
        }
        if wide_len(list) < list.len() {
            assert(list[wide_len(list) as int] == rest[wide_len(rest) as int]);
        }
    }
}

/// Text that is put into units for the system and read back from them is the
/// same text, unless it holds a NUL character, which ends it.
pub proof fn text_survives_its_units(text: &str, list: Vec<u16>, buf: &[u16], again: String)
    requires
        !text@.contains('\0'),
        call_ensures(wide_text, (text,), list),
        buf@ == list@,
        call_ensures(wide_to_string, (buf,), again),
    ensures
        again@ == text@,
        list@.last() == 0,
        forall|i: int| 0 <= i < list@.len() - 1 ==> #[trigger] list@[i] != 0,
{
    wide_round_trip(text@, seq![]);
    assert(list@ + Seq::<u16>::empty() =~= list@);
    no_zero_unit(text@);
    assert forall|i: int| 0 <= i < list@.len() - 1 implies #[trigger] list@[i] != 0 by {
        assert(list@[i] == utf16(text@)[i]);
    }
}

} // verus!
