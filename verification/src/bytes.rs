//! Byte strings, as the operating system takes paths and arguments.
use vstd::prelude::*;
use vstd::utf8::{encode_utf8, encode_utf8_decode_utf8};

use crate::text::{decode_lossy, texts, utf8_lossy};

verus! {

/// The byte strings of a list, byte by byte.
pub open spec fn blobs(list: Seq<Vec<u8>>) -> Seq<Seq<u8>> {
    Seq::new(list.len(), |i: int| list[i]@)
}

/// The texts in UTF-8.
pub open spec fn encoded(list: Seq<Seq<char>>) -> Seq<Seq<u8>> {
    Seq::new(list.len(), |i: int| encode_utf8(list[i]))
}

/// Some bytes or nothing.
pub open spec fn optional_bytes(bytes: Option<Vec<u8>>) -> Option<Seq<u8>> {
    match bytes {
        Some(bytes) => Some(bytes@),
        None => None,
    }
}

/// A text or nothing, in UTF-8.
pub open spec fn optional_encoded(text: Option<Seq<char>>) -> Option<Seq<u8>> {
    match text {
        Some(text) => Some(encode_utf8(text)),
        None => None,
    }
}

/// The same bytes again.
pub fn copy_bytes(bytes: &[u8]) -> (copy: Vec<u8>)
    ensures
        copy@ == bytes@,
{
    vstd::slice::slice_to_vec(bytes)
}

/// The text in UTF-8.
pub fn bytes_of(text: &str) -> (bytes: Vec<u8>)
    ensures
        bytes@ == encode_utf8(text@),
{
    vstd::slice::slice_to_vec(text.as_bytes())
}

/// Puts `bytes` behind the list.
pub fn push_bytes(list: &mut Vec<Vec<u8>>, bytes: &[u8])
    ensures
        blobs(final(list)@) == blobs(old(list)@).push(bytes@),
{
    list.push(copy_bytes(bytes));
    assert(blobs(list@) =~= blobs(old(list)@).push(bytes@));
}

/// Puts `text` in UTF-8 behind the list.
pub fn push_word(list: &mut Vec<Vec<u8>>, text: &str)
    ensures
        blobs(final(list)@) == blobs(old(list)@).push(encode_utf8(text@)),
{
    push_bytes(list, text.as_bytes());
}

/// Puts those of `more` from `from` on behind the list.
pub fn push_from(list: &mut Vec<Vec<u8>>, more: &Vec<Vec<u8>>, from: usize)
    requires
        from <= more@.len(),
    ensures
        blobs(final(list)@) == blobs(old(list)@) + blobs(more@).skip(from as int),
{
    let mut i: usize = from;
    assert(blobs(list@) =~= blobs(old(list)@) + blobs(more@).subrange(from as int, from as int));
    while i < more.len()
        invariant
            from <= i <= more@.len(),
            blobs(list@) == blobs(old(list)@) + blobs(more@).subrange(from as int, i as int),
        decreases more@.len() - i,
    {
        push_bytes(list, more[i].as_slice());
        assert(blobs(list@) =~= blobs(old(list)@) + blobs(more@).subrange(from as int, i + 1));
        i += 1;
    }
    assert(blobs(more@).subrange(from as int, i as int) =~= blobs(more@).skip(from as int));
}

/// The texts in UTF-8.
pub fn encode_texts(list: &Vec<String>) -> (coded: Vec<Vec<u8>>)
    ensures
        blobs(coded@) == encoded(texts(list@)),
{
    let mut coded: Vec<Vec<u8>> = Vec::new();
    let mut i: usize = 0;
    assert(blobs(coded@) =~= encoded(texts(list@)).take(0));
    while i < list.len()
        invariant
            i <= list@.len(),
            blobs(coded@) == encoded(texts(list@)).take(i as int),
        decreases list@.len() - i,
    {
        push_word(&mut coded, list[i].as_str());
        assert(blobs(coded@) =~= encoded(texts(list@)).take(i + 1));
        i += 1;
    }
    assert(encoded(texts(list@)).take(i as int) =~= encoded(texts(list@)));
    coded
}

/// Whether the bytes are the text in UTF-8.
pub fn is_word(bytes: &[u8], text: &str) -> (same: bool)
    ensures
        same == (bytes@ == encode_utf8(text@)),
{
    let word = text.as_bytes();
    if bytes.len() != word.len() {
        return false;
    }
    let mut i: usize = 0;
    while i < bytes.len()
        invariant
            bytes@.len() == word@.len(),
            i <= bytes@.len(),
            forall|j: int| 0 <= j < i ==> bytes@[j] == word@[j],
            word@ == encode_utf8(text@),
        decreases bytes@.len() - i,
    {
        if bytes[i] != word[i] {
            return false;
        }
        i += 1;
    }
    assert(bytes@ =~= word@);
    true
}

/// A path as it is shown to a person.
pub fn show_path(path: &[u8]) -> (shown: String)
    ensures
        shown@ == utf8_lossy(path@),
{
    decode_lossy(path)
}

/// Two texts that are the same in UTF-8 are the same.
pub proof fn encoding_tells_texts_apart(a: Seq<char>, b: Seq<char>)
    requires
        encode_utf8(a) == encode_utf8(b),
    ensures
        a == b,
{
    encode_utf8_decode_utf8(a);
    encode_utf8_decode_utf8(b);
}

/// Lists of byte strings and of texts are taken one by one, and lose nothing.
pub proof fn lists_are_taken_one_by_one(list: Seq<Vec<u8>>, words: Seq<Seq<char>>)
    ensures
        blobs(list).len() == list.len(),
        forall|i: int| 0 <= i < list.len() ==> #[trigger] blobs(list)[i] == list[i]@,
        encoded(words).len() == words.len(),
        forall|i: int|
            0 <= i < words.len() ==> vstd::utf8::decode_utf8(#[trigger] encoded(words)[i])
                == words[i] && encoded(words)[i] == encode_utf8(words[i]),
{
    assert forall|i: int| 0 <= i < words.len() implies vstd::utf8::decode_utf8(
        #[trigger] encoded(words)[i],
    ) == words[i] && encoded(words)[i] == encode_utf8(words[i]) by {
        encode_utf8_decode_utf8(words[i]);
    }
}

/// What is there is taken as it is, and what is not there stays away.
pub proof fn what_is_there_is_taken(bytes: Option<Vec<u8>>, text: Option<Seq<char>>)
    ensures
        bytes is Some <==> optional_bytes(bytes) is Some,
        bytes is Some ==> optional_bytes(bytes)->0 == bytes->0@,
        text is Some <==> optional_encoded(text) is Some,
        text is Some ==> optional_encoded(text)->0 == encode_utf8(text->0),
{
}

} // verus!
