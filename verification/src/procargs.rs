//! The argument list of a running process, as the kernel hands it out.
//!
//! The record holds the argument count, the path of the executable, a run of
//! NUL bytes, and then the arguments, each with a NUL behind it:
//! `argc: i32 | exec_path\0 | \0 padding... | argv[0]\0 ...`.
use vstd::prelude::*;

use crate::text::{decode_lossy, occurs, occurs_at, same_text, texts, utf8_lossy};

verus! {

/// The number of bytes before the first NUL, or of all bytes where there is none.
pub open spec fn before_nul(bytes: Seq<u8>) -> nat
    decreases bytes.len(),
{
    if bytes.len() == 0 || bytes[0] == 0 {
        0
    } else {
        1 + before_nul(bytes.skip(1))
    }
}

/// The number of NUL bytes at the start.
pub open spec fn leading_nuls(bytes: Seq<u8>) -> nat
    decreases bytes.len(),
{
    if bytes.len() == 0 || bytes[0] != 0 {
        0
    } else {
        1 + leading_nuls(bytes.skip(1))
    }
}

/// The NUL-terminated strings that stand one behind the other; what follows
/// the last NUL is left out.
pub open spec fn strings(bytes: Seq<u8>) -> Seq<Seq<u8>>
    decreases bytes.len(),
{
    let n = before_nul(bytes) as int;
    if n >= bytes.len() {
        seq![]
    } else {
        seq![bytes.take(n)] + strings(bytes.skip(n + 1))
    }
}

/// The first `count` of a list, or all of it where it has fewer.
pub open spec fn up_to<T>(list: Seq<T>, count: int) -> Seq<T> {
    if 0 <= count < list.len() {
        list.take(count)
    } else {
        list
    }
}

/// What the record holds behind the count: the arguments, or nothing where
/// the path of the executable has no end.
pub open spec fn arguments(count: int, record: Seq<u8>) -> Option<Seq<Seq<u8>>> {
    let path_end = before_nul(record) as int;
    if path_end >= record.len() {
        None
    } else {
        let padded = record.skip(path_end);
        Some(up_to(strings(padded.skip(leading_nuls(padded) as int)), count))
    }
}

/// Bytes as texts, each decoded on its own.
pub open spec fn decoded(list: Seq<Seq<u8>>) -> Seq<Seq<char>> {
    Seq::new(list.len(), |i: int| utf8_lossy(list[i]))
}

/// The four bytes as a signed number, lowest byte first.
pub open spec fn little_endian(bytes: Seq<u8>) -> int {
    signed(bytes[0] + 0x100 * bytes[1] + 0x10000 * bytes[2] + 0x1000000 * bytes[3])
}

/// An unsigned number of 32 bits, taken as a signed one.
pub open spec fn signed(value: int) -> int {
    if value >= 0x80000000 {
        value - 0x100000000
    } else {
        value
    }
}

/// The end of the bytes that start at `from` and hold no NUL.
fn find_nul(bytes: &[u8], from: usize) -> (end: usize)
    requires
        from <= bytes@.len(),
    ensures
        end == from + before_nul(bytes@.skip(from as int)),
        from <= end <= bytes@.len(),
{
    let mut end: usize = from;
    while end < bytes.len() && bytes[end] != 0
        invariant
            from <= end <= bytes@.len(),
            from + before_nul(bytes@.skip(from as int)) == end + before_nul(
                bytes@.skip(end as int),
            ),
        decreases bytes@.len() - end,
    {
        assert(bytes@.skip(end as int).skip(1) =~= bytes@.skip(end + 1));
        end += 1;
    }
    end
}

/// The arguments that stand in `record` behind the path of the executable, at
/// most `count` of them. `None` where the path has no end.
pub fn split_arguments(count: i32, record: &[u8]) -> (found: Option<Vec<Vec<u8>>>)
    requires
        count >= 0,
    ensures
        match found {
            Some(list) => {
                &&& arguments(count as int, record@) is Some
                &&& Seq::new(list@.len(), |i: int| list@[i]@) == arguments(
                    count as int,
                    record@,
                )->0
            },
            None => arguments(count as int, record@) is None,
        },
{
    assert(record@.skip(0) =~= record@);
    let path_end: usize = find_nul(record, 0);
    if path_end >= record.len() {
        return None;
    }
    let ghost padded = record@.skip(path_end as int);
    let mut start: usize = path_end;
    while start < record.len() && record[start] == 0
        invariant
            path_end <= start <= record@.len(),
            path_end + leading_nuls(padded) == start + leading_nuls(record@.skip(start as int)),
        decreases record@.len() - start,
    {
        assert(record@.skip(start as int).skip(1) =~= record@.skip(start + 1));
        start += 1;
    }
    assert(padded.skip(leading_nuls(padded) as int) =~= record@.skip(start as int));
    let ghost all = strings(record@.skip(start as int));
    let mut list: Vec<Vec<u8>> = Vec::new();
    let ghost mut taken: Seq<Seq<u8>> = seq![];
    let limit: usize = count as usize;
    assert(taken + all =~= all);
    let mut open: bool = true;
    while open && list.len() < limit
        invariant
            start <= record@.len(),
            limit == count,
            taken == Seq::new(list@.len(), |i: int| list@[i]@),
            list@.len() <= limit,
            open ==> taken + strings(record@.skip(start as int)) == all,
            !open ==> taken == all,
        decreases (record@.len() - start) + (if open { 1int } else { 0 }),
    {
        let end: usize = find_nul(record, start);
        let ghost here = record@.skip(start as int);
        if end >= record.len() {
            open = false;
            assert(taken + strings(here) =~= taken);
        } else {
            let piece = vstd::slice::slice_subrange(record, start, end);
            let owned: Vec<u8> = vstd::slice::slice_to_vec(piece);
            let ghost next = taken.push(owned@);
            list.push(owned);
            proof {
                assert(here.take(before_nul(here) as int) =~= owned@);
                assert(here.skip(before_nul(here) as int + 1) =~= record@.skip(end + 1));
                assert(next + strings(record@.skip(end + 1)) =~= taken + strings(here));
                taken = next;
                assert(taken =~= Seq::new(list@.len(), |i: int| list@[i]@));
            }
            start = end + 1;
        }
    }
    assert(taken =~= up_to(all, count as int));
    Some(list)
}

/// The arguments of a process from the record that the kernel gave of it; the
/// count has its lowest byte first. `None` where the record is too short, has a
/// negative count or holds no path.
pub fn proc_argv(record: &[u8]) -> (argv: Option<Vec<String>>)
    ensures
        argv is Some <==> record@.len() >= 4 && little_endian(record@) >= 0 && arguments(
            little_endian(record@),
            record@.skip(4),
        ) is Some,
        argv matches Some(list) ==> texts(list@) == decoded(
            arguments(little_endian(record@), record@.skip(4))->0,
        ),
{
    if record.len() < 4 {
        return None;
    }
    let count: u32 = record[0] as u32 + 0x100 * record[1] as u32 + 0x10000 * record[2] as u32
        + 0x1000000 * record[3] as u32;
    if count >= 0x80000000 {
        return None;
    }
    let rest = vstd::slice::slice_subrange(record, 4, record.len());
    assert(rest@ =~= record@.skip(4));
    match split_arguments(count as i32, rest) {
        None => None,
        Some(list) => Some(decode_all(&list)),
    }
}

/// Each of the byte strings as a text.
fn decode_all(list: &Vec<Vec<u8>>) -> (decoded_list: Vec<String>)
    ensures
        texts(decoded_list@) == decoded(Seq::new(list@.len(), |i: int| list@[i]@)),
{
    let mut out: Vec<String> = Vec::new();
    let mut i: usize = 0;
    while i < list.len()
        invariant
            i <= list@.len(),
            out@.len() == i,
            forall|j: int| 0 <= j < i ==> (#[trigger] out@[j])@ == utf8_lossy(list@[j]@),
        decreases list@.len() - i,
    {
        out.push(decode_lossy(list[i].as_slice()));
        i += 1;
    }
    assert(texts(out@) =~= decoded(Seq::new(list@.len(), |i: int| list@[i]@)));
    out
}

/// Whether the arguments `needle` stand one behind the other in `haystack`.
pub fn argv_contains_args(haystack: &[String], needle: &[String]) -> (found: bool)
    ensures
        found == occurs(texts(haystack@), texts(needle@)),
{
    let total: usize = haystack.len();
    let wanted: usize = needle.len();
    let ghost hay = texts(haystack@);
    let ghost args = texts(needle@);
    if wanted > total {
        return false;
    }
    let mut at: usize = 0;
    while at <= total - wanted
        invariant
            at <= total - wanted + 1,
            wanted <= total,
            total == haystack@.len(),
            wanted == needle@.len(),
            hay == texts(haystack@),
            args == texts(needle@),
            forall|other: int| 0 <= other < at ==> !occurs_at(hay, args, other),
        decreases total - wanted + 1 - at,
    {
        let mut same: usize = 0;
        while same < wanted && same_text(haystack[at + same].as_str(), needle[same].as_str())
            invariant
                same <= wanted <= total,
                at <= total - wanted,
                total == haystack@.len(),
                wanted == needle@.len(),
                hay == texts(haystack@),
                args == texts(needle@),
                forall|j: int| 0 <= j < same ==> hay[at + j] == args[j],
            decreases wanted - same,
        {
            same += 1;
        }
        if same == wanted {
            assert(hay.subrange(at as int, at + wanted) =~= args);
            assert(occurs_at(hay, args, at as int));
            return true;
        }
        assert(hay.subrange(at as int, at + wanted)[same as int] != args[same as int]);
        if at == total - wanted {
            return false;
        }
        at += 1;
    }
    false
}

/// A process that was started with some arguments behind others is recognised
/// by those arguments.
pub proof fn forwarded_args_are_found(first: Seq<Seq<char>>, args: Seq<Seq<char>>, last: Seq<
    Seq<char>,
>)
    ensures
        occurs(first + args + last, args),
{
    let all = first + args + last;
    assert(all.subrange(first.len() as int, (first.len() + args.len()) as int) =~= args);
    assert(occurs_at(all, args, first.len() as int));
}

/// No byte is NUL.
pub open spec fn nul_free(bytes: Seq<u8>) -> bool {
    forall|i: int| 0 <= i < bytes.len() ==> bytes[i] != 0
}

/// The byte strings one behind the other, each with a NUL behind it.
pub open spec fn terminated(list: Seq<Seq<u8>>) -> Seq<u8>
    decreases list.len(),
{
    if list.len() == 0 {
        seq![]
    } else {
        list[0].push(0) + terminated(list.skip(1))
    }
}

/// `count` NUL bytes.
pub open spec fn nuls(count: nat) -> Seq<u8> {
    Seq::new(count, |i: int| 0u8)
}

proof fn before_nul_of_terminated(bytes: Seq<u8>, rest: Seq<u8>)
    requires
        nul_free(bytes),
        rest.len() > 0,
        rest[0] == 0,
    ensures
        before_nul(bytes + rest) == bytes.len(),
    decreases bytes.len(),
{
    if bytes.len() > 0 {
        assert((bytes + rest).skip(1) =~= bytes.skip(1) + rest);
        before_nul_of_terminated(bytes.skip(1), rest);
    } else {
        assert(bytes + rest =~= rest);
    }
}

proof fn leading_nuls_of_padded(count: nat, rest: Seq<u8>)
    requires
        rest.len() > 0 ==> rest[0] != 0,
    ensures
        leading_nuls(nuls(count) + rest) == count,
    decreases count,
{
    if count > 0 {
        assert((nuls(count) + rest).skip(1) =~= nuls((count - 1) as nat) + rest);
        leading_nuls_of_padded((count - 1) as nat, rest);
    } else {
        assert(nuls(count) + rest =~= rest);
    }
}

proof fn strings_of_terminated(list: Seq<Seq<u8>>, rest: Seq<u8>)
    requires
        forall|i: int| 0 <= i < list.len() ==> nul_free(#[trigger] list[i]),
    ensures
        strings(terminated(list) + rest) == list + strings(rest),
    decreases list.len(),
{
    if list.len() == 0 {
        assert(terminated(list) + rest =~= rest);
        assert(list + strings(rest) =~= strings(rest));
    } else {
        let tail = terminated(list.skip(1)) + rest;
        let all = terminated(list) + rest;
        assert(all =~= list[0] + seq![0u8] + tail);
        assert(all =~= list[0] + (seq![0u8] + tail));
        before_nul_of_terminated(list[0], seq![0u8] + tail);
        assert(all.take(list[0].len() as int) =~= list[0]);
        assert(all.skip(list[0].len() as int + 1) =~= tail);
        assert forall|i: int| 0 <= i < list.skip(1).len() implies nul_free(
            #[trigger] list.skip(1)[i],
        ) by {
            assert(list.skip(1)[i] == list[i + 1]);
        }
        strings_of_terminated(list.skip(1), rest);
        assert(seq![list[0]] + (list.skip(1) + strings(rest)) =~= list + strings(rest));
    }
}

/// A record that is laid out as the kernel does it is split into exactly the
/// arguments that it was made of, whatever follows them. The first string behind
/// the padding must not be empty: its NUL would count as padding.
pub proof fn record_gives_back_arguments(
    path: Seq<u8>,
    padding: nat,
    args: Seq<Seq<u8>>,
    rest: Seq<u8>,
)
    requires
        nul_free(path),
        padding >= 1,
        args.len() > 0 ==> args[0].len() > 0,
        forall|i: int| 0 <= i < args.len() ==> nul_free(#[trigger] args[i]),
    ensures
        arguments(args.len() as int, path + nuls(padding) + terminated(args) + rest) == Some(args),
{
    let listed = terminated(args) + rest;
    let record = path + nuls(padding) + terminated(args) + rest;
    let padded = nuls(padding) + listed;
    assert(record =~= path + padded);
    before_nul_of_terminated(path, padded);
    assert(record.skip(path.len() as int) =~= padded);
    if args.len() == 0 {
        assert(up_to(strings(padded.skip(leading_nuls(padded) as int)), 0) =~= args);
    } else {
        assert(nul_free(args[0]));
        assert(listed[0] == args[0][0]);
        leading_nuls_of_padded(padding, listed);
        assert(padded.skip(padding as int) =~= listed);
        strings_of_terminated(args, rest);
        assert(up_to(args + strings(rest), args.len() as int) =~= args);
    }
}

/// The bytes before the first NUL hold none, and a NUL follows them unless they
/// are all there is.
pub proof fn a_string_ends_before_the_first_nul(bytes: Seq<u8>)
    ensures
        before_nul(bytes) <= bytes.len(),
        forall|i: int| 0 <= i < before_nul(bytes) ==> #[trigger] bytes[i] != 0,
        before_nul(bytes) < bytes.len() ==> bytes[before_nul(bytes) as int] == 0,
    decreases bytes.len(),
{
    if bytes.len() > 0 && bytes[0] != 0 {
        let rest = bytes.skip(1);
        a_string_ends_before_the_first_nul(rest);
        assert forall|i: int| 0 <= i < before_nul(bytes) implies #[trigger] bytes[i] != 0 by {
            if i > 0 {
                assert(bytes[i] == rest[i - 1]);
            }
        }
        if before_nul(bytes) < bytes.len() {
            assert(bytes[before_nul(bytes) as int] == rest[before_nul(rest) as int]);
        }
    }
}

/// The padding is the NUL bytes at the start, and another byte follows them
/// unless they are all there is.
pub proof fn padding_ends_before_another_byte(bytes: Seq<u8>)
    ensures
        leading_nuls(bytes) <= bytes.len(),
        forall|i: int| 0 <= i < leading_nuls(bytes) ==> #[trigger] bytes[i] == 0,
        leading_nuls(bytes) < bytes.len() ==> bytes[leading_nuls(bytes) as int] != 0,
    decreases bytes.len(),
{
    if bytes.len() > 0 && bytes[0] == 0 {
        let rest = bytes.skip(1);
        padding_ends_before_another_byte(rest);
        assert forall|i: int| 0 <= i < leading_nuls(bytes) implies #[trigger] bytes[i] == 0 by {
            if i > 0 {
                assert(bytes[i] == rest[i - 1]);
            }
        }
        if leading_nuls(bytes) < bytes.len() {
            assert(bytes[leading_nuls(bytes) as int] == rest[leading_nuls(rest) as int]);
        }
    }
}

/// Strings that stand one behind the other are found as they are, and bytes
/// without a NUL behind them are none.
pub proof fn terminated_strings_are_found(list: Seq<Seq<u8>>, rest: Seq<u8>)
    requires
        forall|i: int| 0 <= i < list.len() ==> nul_free(#[trigger] list[i]),
        nul_free(rest),
    ensures
        strings(terminated(list) + rest) == list,
{
    strings_of_terminated(list, rest);
    a_string_ends_before_the_first_nul(rest);
    assert(strings(rest) =~= seq![]);
    assert(list + strings(rest) =~= list);
}

/// The start of a list is as long as asked for, or the whole list.
pub proof fn a_start_is_no_longer_than_asked(list: Seq<int>, count: int)
    requires
        count >= 0,
    ensures
        up_to(list, count).len() == if count < list.len() {
            count
        } else {
            list.len() as int
        },
        forall|i: int| 0 <= i < up_to(list, count).len() ==> #[trigger] up_to(list, count)[i] == list[i],
{
}

/// A record that is laid out as the kernel does it is split into the arguments
/// that it was made of, as many of them as the count says, whatever the count is.
pub proof fn a_record_is_split_up_to_its_count(
    count: int,
    path: Seq<u8>,
    padding: nat,
    args: Seq<Seq<u8>>,
    rest: Seq<u8>,
)
    requires
        count >= 0,
        nul_free(path),
        padding >= 1,
        args.len() > 0 ==> args[0].len() > 0,
        forall|i: int| 0 <= i < args.len() ==> nul_free(#[trigger] args[i]),
        nul_free(rest),
    ensures
        arguments(count, path + nuls(padding) + terminated(args) + rest) == Some(
            if count < args.len() {
                args.take(count)
            } else {
                args
            },
        ),
{
    let listed = terminated(args) + rest;
    let record = path + nuls(padding) + terminated(args) + rest;
    let padded = nuls(padding) + listed;
    assert(record =~= path + padded);
    before_nul_of_terminated(path, padded);
    assert(record.skip(path.len() as int) =~= padded);
    if args.len() > 0 {
        assert(nul_free(args[0]));
        assert(listed[0] == args[0][0]);
    } else {
        assert(listed =~= rest);
    }
    leading_nuls_of_padded(padding, listed);
    assert(padded.skip(padding as int) =~= listed);
    terminated_strings_are_found(args, rest);
}

/// A record gives nothing exactly where the path of the executable has no end.
pub proof fn only_a_record_without_a_path_gives_nothing(count: int, record: Seq<u8>)
    ensures
        arguments(count, record) is None <==> nul_free(record),
{
    a_string_ends_before_the_first_nul(record);
}

/// Each byte string is decoded on its own, and none is left out.
pub proof fn strings_are_decoded_one_by_one(list: Seq<Seq<u8>>)
    ensures
        decoded(list).len() == list.len(),
        forall|i: int| 0 <= i < list.len() ==> #[trigger] decoded(list)[i] == utf8_lossy(list[i]),
{
}

/// The count is the number whose bytes, the lowest first, are the four bytes;
/// it is negative exactly where the highest bit is set.
pub proof fn a_count_is_made_of_its_bytes(bytes: Seq<u8>)
    requires
        bytes.len() >= 4,
    ensures
        bytes[3] < 0x80 ==> little_endian(bytes) == ((bytes[3] * 0x100 + bytes[2]) * 0x100
            + bytes[1]) * 0x100 + bytes[0],
        bytes[3] >= 0x80 ==> little_endian(bytes) == (((bytes[3] - 0x100) * 0x100 + bytes[2])
            * 0x100 + bytes[1]) * 0x100 + bytes[0],
        little_endian(bytes) < 0 <==> bytes[3] >= 0x80,
{
}

/// A record that the kernel lays out for some arguments gives each of them back
/// decoded, in order, as many as its count says.
pub proof fn a_record_gives_its_arguments(
    record: &[u8],
    path: Seq<u8>,
    padding: nat,
    args: Seq<Seq<u8>>,
    argv: Option<Vec<String>>,
)
    requires
        record@.len() >= 4,
        little_endian(record@) >= 0,
        nul_free(path),
        padding >= 1,
        args.len() > 0 ==> args[0].len() > 0,
        forall|i: int| 0 <= i < args.len() ==> nul_free(#[trigger] args[i]),
        record@.skip(4) == path + nuls(padding) + terminated(args) + Seq::<u8>::empty(),
        call_ensures(proc_argv, (record,), argv),
    ensures
        argv is Some,
        little_endian(record@) >= args.len() ==> argv->0@.len() == args.len(),
        little_endian(record@) < args.len() ==> argv->0@.len() == little_endian(record@),
        forall|i: int|
            0 <= i < argv->0@.len() ==> (#[trigger] argv->0@[i])@ == utf8_lossy(args[i]),
{
    let count = little_endian(record@);
    a_record_is_split_up_to_its_count(count, path, padding, args, seq![]);
    let found = arguments(count, record@.skip(4))->0;
    let list = argv->0@;
    assert(texts(list) == decoded(found));
    assert(texts(list).len() == decoded(found).len());
    assert forall|i: int| 0 <= i < list.len() implies (#[trigger] list[i])@ == utf8_lossy(args[i]) by {
        assert(texts(list)[i] == decoded(found)[i]);
        assert(found[i] == args[i]);
    }
}

} // verus!
