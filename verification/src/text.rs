//! Text: lists of texts, searching, decimal numbers, letter case, and UTF-8.
use vstd::prelude::*;
use vstd::utf8::{decode_utf8, is_scalar, valid_utf8};

verus! {

/// `String::push` appends one character.
pub assume_specification[ String::push ](text: &mut String, character: char)
    ensures
        final(text)@ == old(text)@.push(character),
;

/// `char::from_u32` gives the character with the scalar value `value`; surrogates
/// and values past the last scalar have none.
pub assume_specification[ char::from_u32 ](value: u32) -> (character: Option<char>)
    ensures
        character is Some <==> is_scalar(value),
        character matches Some(c) ==> c as u32 == value,
;

/// What `String::from_utf8_lossy` makes of some bytes.
pub uninterp spec fn utf8_lossy(bytes: Seq<u8>) -> Seq<char>;

/// Calls `String::from_utf8_lossy`. Bytes that are UTF-8 are decoded as they are;
/// of the others it is only said that the text is a function of the bytes.
#[verifier::external_body]
pub(crate) fn decode_lossy(bytes: &[u8]) -> (text: String)
    ensures
        text@ == utf8_lossy(bytes@),
        valid_utf8(bytes@) ==> text@ == decode_utf8(bytes@),
{
    String::from_utf8_lossy(bytes).into_owned()
}

/// The texts of a list, character by character.
pub open spec fn texts(list: Seq<String>) -> Seq<Seq<char>> {
    Seq::new(list.len(), |i: int| list[i]@)
}

/// A text or nothing, character by character.
pub open spec fn optional_text(text: Option<String>) -> Option<Seq<char>> {
    match text {
        Some(text) => Some(text@),
        None => None,
    }
}

/// Puts `text` behind the list.
pub fn push_text(list: &mut Vec<String>, text: &str)
    ensures
        texts(final(list)@) == texts(old(list)@).push(text@),
{
    list.push(text.to_string());
    assert(texts(list@) =~= texts(old(list)@).push(text@));
}

/// Puts all of `more` behind the list.
pub fn push_texts(list: &mut Vec<String>, more: &Vec<String>)
    ensures
        texts(final(list)@) == texts(old(list)@) + texts(more@),
{
    let mut i: usize = 0;
    assert(texts(old(list)@) + texts(more@).take(0) =~= texts(old(list)@));
    while i < more.len()
        invariant
            i <= more@.len(),
            texts(list@) == texts(old(list)@) + texts(more@).take(i as int),
        decreases more@.len() - i,
    {
        push_text(list, more[i].as_str());
        assert(texts(list@) =~= texts(old(list)@) + texts(more@).take(i + 1));
        i += 1;
    }
    assert(texts(more@).take(i as int) =~= texts(more@));
}

/// The list again, with the same texts.
pub fn copy_texts(list: &Vec<String>) -> (copy: Vec<String>)
    ensures
        texts(copy@) == texts(list@),
{
    let mut copy: Vec<String> = Vec::new();
    push_texts(&mut copy, list);
    assert(texts(copy@) =~= texts(list@));
    copy
}

/// The characters of `text`, in order.
pub fn characters(text: &str) -> (list: Vec<char>)
    ensures
        list@ == text@,
{
    let mut list: Vec<char> = Vec::new();
    for c in it: text.chars()
        invariant
            it.seq() == text@,
            list@ == text@.take(it.index()),
    {
        list.push(c);
    }
    list
}

/// The text made of `list[from..to]`.
pub fn text_of(list: &Vec<char>, from: usize, to: usize) -> (text: String)
    requires
        from <= to <= list@.len(),
    ensures
        text@ == list@.subrange(from as int, to as int),
{
    let mut text = String::new();
    let mut i: usize = from;
    while i < to
        invariant
            from <= i <= to <= list@.len(),
            text@ == list@.subrange(from as int, i as int),
        decreases to - i,
    {
        text.push(list[i]);
        i += 1;
    }
    text
}

/// Whether two texts are the same.
pub fn same_text(a: &str, b: &str) -> (same: bool)
    ensures
        same == (a@ == b@),
{
    a.to_string() == b.to_string()
}

// ---------------------------------------------------------------- searching

/// `needle` stands in `hay` at position `at`.
pub open spec fn occurs_at<T>(hay: Seq<T>, needle: Seq<T>, at: int) -> bool {
    &&& 0 <= at
    &&& at + needle.len() <= hay.len()
    &&& hay.subrange(at, at + needle.len()) == needle
}

/// `needle` stands somewhere in `hay`.
pub open spec fn occurs<T>(hay: Seq<T>, needle: Seq<T>) -> bool {
    exists|at: int| occurs_at(hay, needle, at)
}

/// `at` is the first position, from `from` on, at which `needle` stands in `hay`.
pub open spec fn first_at<T>(hay: Seq<T>, needle: Seq<T>, from: int, at: int) -> bool {
    &&& from <= at
    &&& occurs_at(hay, needle, at)
    &&& forall|other: int| from <= other < at ==> !occurs_at(hay, needle, other)
}

/// Whether `needle` stands in `hay` at position `at`.
fn stands_at(hay: &Vec<char>, needle: &Vec<char>, at: usize) -> (found: bool)
    ensures
        found == occurs_at(hay@, needle@, at as int),
{
    let total: usize = hay.len();
    if at > total || needle.len() > total - at {
        return false;
    }
    let mut i: usize = 0;
    while i < needle.len()
        invariant
            i <= needle@.len(),
            at + needle@.len() <= total,
            total == hay@.len(),
            forall|j: int| 0 <= j < i ==> hay@[at + j] == needle@[j],
        decreases needle@.len() - i,
    {
        if hay[at + i] != needle[i] {
            assert(hay@.subrange(at as int, at + needle@.len())[i as int] != needle@[i as int]);
            return false;
        }
        i += 1;
    }
    assert(hay@.subrange(at as int, at + needle@.len()) =~= needle@);
    true
}

/// The first position, from `from` on, at which `needle` stands in `hay`.
pub fn find_from(hay: &Vec<char>, needle: &Vec<char>, from: usize) -> (found: Option<usize>)
    ensures
        match found {
            Some(at) => first_at(hay@, needle@, from as int, at as int),
            None => forall|at: int| from <= at ==> !occurs_at(hay@, needle@, at),
        },
{
    let mut at: usize = from;
    while at <= hay.len()
        invariant
            from <= at,
            forall|other: int| from <= other < at ==> !occurs_at(hay@, needle@, other),
        decreases hay@.len() + 1 - at,
    {
        if stands_at(hay, needle, at) {
            return Some(at);
        }
        if at == hay.len() {
            return None;
        }
        at += 1;
    }
    None
}

/// Whether `needle` stands somewhere in `hay`.
pub fn contains_text(hay: &str, needle: &str) -> (found: bool)
    ensures
        found == occurs(hay@, needle@),
{
    let hay_list = characters(hay);
    let needle_list = characters(needle);
    match find_from(&hay_list, &needle_list, 0) {
        Some(at) => {
            assert(occurs_at(hay@, needle@, at as int));
            true
        },
        None => false,
    }
}

/// Whether the character `wanted` stands in `list`.
pub fn contains_char(list: &Vec<char>, wanted: char) -> (found: bool)
    ensures
        found == list@.contains(wanted),
{
    let mut i: usize = 0;
    while i < list.len()
        invariant
            i <= list@.len(),
            forall|j: int| 0 <= j < i ==> list@[j] != wanted,
        decreases list@.len() - i,
    {
        if list[i] == wanted {
            return true;
        }
        i += 1;
    }
    false
}

// ---------------------------------------------------------- decimal numbers

/// The digit for `value`, which is below ten.
pub open spec fn digit(value: nat) -> char {
    (value + 48) as char
}

/// `value` in decimal, without leading zeros.
pub open spec fn decimal(value: nat) -> Seq<char>
    decreases value,
{
    if value < 10 {
        seq![digit(value)]
    } else {
        decimal(value / 10).push(digit(value % 10))
    }
}

/// `value` in decimal, with a minus sign where it is negative.
pub open spec fn signed_decimal(value: int) -> Seq<char> {
    if value < 0 {
        seq!['-'] + decimal((-value) as nat)
    } else {
        decimal(value as nat)
    }
}

/// `value` in decimal.
pub fn decimal_text(value: u32) -> (text: String)
    ensures
        text@ == decimal(value as nat),
    decreases value,
{
    let last: char = (48 + (value % 10) as u8) as char;
    if value < 10 {
        let mut text = String::new();
        text.push(last);
        assert(text@ =~= decimal(value as nat));
        text
    } else {
        let mut text = decimal_text(value / 10);
        text.push(last);
        text
    }
}

/// `value` in decimal, with a minus sign where it is negative.
pub fn signed_decimal_text(value: i32) -> (text: String)
    ensures
        text@ == signed_decimal(value as int),
{
    if value < 0 {
        let magnitude: u32 = if value == i32::MIN {
            2147483648
        } else {
            (-value) as u32
        };
        let mut text = String::new();
        text.push('-');
        text.append(decimal_text(magnitude).as_str());
        assert(text@ =~= signed_decimal(value as int));
        text
    } else {
        decimal_text(value as u32)
    }
}

// ---------------------------------------------------------------- letter case

/// The scalar value of `c`, with the letters A to Z taken as a to z.
pub open spec fn ascii_lower(c: char) -> u32 {
    if 'A' <= c <= 'Z' {
        (c as u32 + 32) as u32
    } else {
        c as u32
    }
}

/// The two texts are the same but for the case of ASCII letters.
pub open spec fn same_ignoring_case(a: Seq<char>, b: Seq<char>) -> bool {
    &&& a.len() == b.len()
    &&& forall|i: int| 0 <= i < a.len() ==> ascii_lower(a[i]) == ascii_lower(b[i])
}

/// `c`, with the letters a to z taken as A to Z.
pub open spec fn ascii_upper(c: char) -> char {
    if 'a' <= c <= 'z' {
        (c as u32 - 32) as char
    } else {
        c
    }
}

fn lower(c: char) -> (value: u32)
    ensures
        value == ascii_lower(c),
{
    if 'A' <= c && c <= 'Z' {
        c as u32 + 32
    } else {
        c as u32
    }
}

/// `c`, with the letters a to z taken as A to Z.
pub fn upper(c: char) -> (letter: char)
    ensures
        letter == ascii_upper(c),
{
    if 'a' <= c && c <= 'z' {
        (c as u32 - 32) as u8 as char
    } else {
        c
    }
}

/// Whether the two texts are the same but for the case of ASCII letters.
pub fn equal_ignoring_case(a: &str, b: &str) -> (same: bool)
    ensures
        same == same_ignoring_case(a@, b@),
{
    let first = characters(a);
    let second = characters(b);
    if first.len() != second.len() {
        return false;
    }
    let mut i: usize = 0;
    while i < first.len()
        invariant
            first@.len() == second@.len(),
            first@ == a@,
            second@ == b@,
            i <= first@.len(),
            forall|j: int| 0 <= j < i ==> ascii_lower(first@[j]) == ascii_lower(second@[j]),
        decreases first@.len() - i,
    {
        if lower(first[i]) != lower(second[i]) {
            return false;
        }
        i += 1;
    }
    true
}

// --------------------------------------------------------------------- laws

/// A list of texts is taken text by text, and loses none.
pub proof fn texts_are_those_of_the_list(list: Seq<String>)
    ensures
        texts(list).len() == list.len(),
        forall|i: int| 0 <= i < list.len() ==> #[trigger] texts(list)[i] == list[i]@,
{
}

/// A text that is there is taken as it is.
pub proof fn an_optional_text_is_that_text(text: Option<String>)
    ensures
        text is Some <==> optional_text(text) is Some,
        text is Some ==> optional_text(text)->0 == text->0@,
{
}

/// A needle stands at a position exactly where each of its elements is the one
/// that stands there, from the first to the last.
pub proof fn standing_is_element_by_element<T>(hay: Seq<T>, needle: Seq<T>, at: int)
    ensures
        occurs_at(hay, needle, at) <==> 0 <= at && at + needle.len() <= hay.len() && forall|i: int|
            0 <= i < needle.len() ==> hay[at + i] == #[trigger] needle[i],
{
    if 0 <= at && at + needle.len() <= hay.len() {
        let piece = hay.subrange(at, at + needle.len());
        if forall|i: int| 0 <= i < needle.len() ==> hay[at + i] == #[trigger] needle[i] {
            assert(piece =~= needle);
        }
        if piece == needle {
            assert forall|i: int| 0 <= i < needle.len() implies hay[at + i] == #[trigger] needle[i] by {
                assert(piece[i] == needle[i]);
            }
        }
    }
}

/// A needle occurs in what is made by putting something before it and something
/// behind it, and in nothing else.
pub proof fn occurring_is_standing_between<T>(hay: Seq<T>, needle: Seq<T>)
    ensures
        occurs(hay, needle) <==> exists|before: Seq<T>, behind: Seq<T>|
            hay == #[trigger] (before + needle + behind),
{
    if occurs(hay, needle) {
        let at = choose|at: int| occurs_at(hay, needle, at);
        let before = hay.take(at);
        let behind = hay.skip(at + needle.len());
        assert(hay.subrange(at, at + needle.len()) == needle);
        assert(hay =~= before + needle + behind);
    }
    if exists|before: Seq<T>, behind: Seq<T>| hay == #[trigger] (before + needle + behind) {
        let (before, behind) = choose|before: Seq<T>, behind: Seq<T>|
            hay == #[trigger] (before + needle + behind);
        let at = before.len() as int;
        assert(hay.subrange(at, at + needle.len()) =~= needle);
        assert(occurs_at(hay, needle, at));
    }
}

/// A first position is one at which the needle stands, and no other one from
/// the start of the search on comes before it.
pub proof fn first_is_before_all_others<T>(
    hay: Seq<T>,
    needle: Seq<T>,
    from: int,
    at: int,
    other: int,
)
    requires
        first_at(hay, needle, from, at),
    ensures
        from <= at,
        occurs_at(hay, needle, at),
        from <= other && occurs_at(hay, needle, other) ==> at <= other,
{
}

/// The number that digits stand for.
pub open spec fn number_of(digits: Seq<char>) -> int
    decreases digits.len(),
{
    if digits.len() == 0 {
        0
    } else {
        10 * number_of(digits.drop_last()) + (digits.last() as int - 48)
    }
}

/// A number in decimal is made of digits, stands for that number, and has no
/// leading zero unless it is zero.
pub proof fn decimal_reads_back(value: nat)
    ensures
        number_of(decimal(value)) == value,
        decimal(value).len() > 0,
        forall|i: int| 0 <= i < decimal(value).len() ==> '0' <= #[trigger] decimal(value)[i] <= '9',
        decimal(value)[0] == '0' <==> value == 0,
        value == 0 ==> decimal(value).len() == 1,
    decreases value,
{
    let text = decimal(value);
    let last = value % 10;
    assert(digit(last) as int == last + 48);
    if value < 10 {
        assert(text.drop_last() =~= seq![]);
        assert(number_of(text.drop_last()) == 0);
        assert(text.last() == digit(value));
    } else {
        let front = decimal(value / 10);
        decimal_reads_back(value / 10);
        assert(text.drop_last() =~= front);
        assert(text.last() == digit(last));
        assert(text[0] == front[0]);
        assert forall|i: int| 0 <= i < text.len() implies '0' <= #[trigger] text[i] <= '9' by {
            if i < front.len() {
                assert(text[i] == front[i]);
            }
        }
    }
}

/// A negative number is a minus sign and its magnitude; any other is itself.
pub proof fn signed_decimal_reads_back(value: int)
    ensures
        value < 0 <==> signed_decimal(value)[0] == '-',
        value < 0 ==> signed_decimal(value).len() > 1 && number_of(signed_decimal(value).skip(1))
            == -value && signed_decimal(value)[1] != '0',
        value >= 0 ==> number_of(signed_decimal(value)) == value && (signed_decimal(value)[0]
            == '0' ==> value == 0),
{
    if value < 0 {
        let rest = decimal((-value) as nat);
        decimal_reads_back((-value) as nat);
        assert(signed_decimal(value).skip(1) =~= rest);
        assert(signed_decimal(value)[1] == rest[0]);
    } else {
        decimal_reads_back(value as nat);
    }
}

/// Two characters are the same but for their case exactly where they are the
/// same, or one is a letter A to Z and the other stands 32 behind it.
pub proof fn only_ascii_letters_have_a_case(a: char, b: char)
    ensures
        ascii_lower(a) == ascii_lower(b) <==> a == b || (65 <= a as int <= 90 && b as int == a as int
            + 32) || (65 <= b as int <= 90 && a as int == b as int + 32),
{
    if a as int == b as int {
        assert(a == b);
    }
}

/// Texts that are the same but for their case have the same length, and differ
/// nowhere but in the case of a letter.
pub proof fn case_is_ignored_letter_by_letter(a: Seq<char>, b: Seq<char>)
    ensures
        same_ignoring_case(a, b) <==> a.len() == b.len() && forall|i: int|
            0 <= i < a.len() ==> same_letter(#[trigger] a[i], b[i]),
{
    assert forall|i: int| 0 <= i < a.len() && a.len() == b.len() implies (same_letter(
        #[trigger] a[i],
        b[i],
    ) <==> ascii_lower(a[i]) == ascii_lower(b[i])) by {
        only_ascii_letters_have_a_case(a[i], b[i]);
    }
}

/// The characters are the same, or one is a letter A to Z and the other the
/// letter a to z that belongs to it.
pub open spec fn same_letter(a: char, b: char) -> bool {
    a == b || (65 <= a as int <= 90 && b as int == a as int + 32) || (65 <= b as int <= 90
        && a as int == b as int + 32)
}

/// Capital letters come 32 before the small ones; every other character stays.
pub proof fn only_small_letters_become_capitals(c: char)
    ensures
        97 <= c as int <= 122 ==> ascii_upper(c) as int == c as int - 32,
        !(97 <= c as int <= 122) ==> ascii_upper(c) == c,
{
}

/// A position is the first exactly where the needle stands there and nowhere
/// between the start of the search and it.
pub proof fn the_first_position_is_found<T>(hay: Seq<T>, needle: Seq<T>, from: int, at: int)
    ensures
        first_at(hay, needle, from, at) <==> {
            &&& from <= at
            &&& occurs_at(hay, needle, at)
            &&& forall|other: int| #[trigger] occurs_at(hay, needle, other) ==> other < from || other
                >= at
        },
{
}

} // verus!
