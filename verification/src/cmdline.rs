//! The command line of a launch on Windows.
use vstd::prelude::*;

use crate::text::{characters, contains_char, occurs, occurs_at, texts};

verus! {

/// So many backslashes.
pub open spec fn backslashes(count: nat) -> Seq<char> {
    Seq::new(count, |i: int| '\\')
}

/// `text` as it stands between quotation marks, behind `slashes` backslashes:
/// the backslashes before a quotation mark and before the end are doubled, and
/// every quotation mark has one more before it.
pub open spec fn escaped(text: Seq<char>, slashes: nat) -> Seq<char>
    decreases text.len(),
{
    if text.len() == 0 {
        backslashes(slashes)
    } else if text[0] == '\\' {
        seq!['\\'] + escaped(text.skip(1), slashes + 1)
    } else if text[0] == '"' {
        backslashes(slashes + 1) + seq!['"'] + escaped(text.skip(1), 0)
    } else {
        seq![text[0]] + escaped(text.skip(1), 0)
    }
}

/// The argument cannot stand on a command line as it is: it is empty, or holds
/// what would end it or what has a meaning of its own.
pub open spec fn needs_quotes(arg: Seq<char>) -> bool {
    arg.len() == 0 || arg.contains(' ') || arg.contains('\t') || arg.contains('"')
}

/// An argument as it stands on the command line: in quotation marks where it
/// needs them.
pub open spec fn quoted(arg: Seq<char>) -> Seq<char> {
    if needs_quotes(arg) {
        seq!['"'] + escaped(arg, 0) + seq!['"']
    } else {
        arg
    }
}

/// The command line that starts the program at `path` with `args`: the path in
/// quotation marks, and each argument behind a space.
pub open spec fn command_line(path: Seq<char>, args: Seq<Seq<char>>) -> Seq<char>
    decreases args.len(),
{
    if args.len() == 0 {
        seq!['"'] + path + seq!['"']
    } else {
        command_line(path, args.drop_last()) + seq![' '] + quoted(args.last())
    }
}

/// The command line that has the shell open `item`.
pub open spec fn shell_line(item: Seq<char>) -> Seq<char> {
    "explorer.exe \""@ + item + "\""@
}

/// Puts so many backslashes behind the text.
fn push_backslashes(text: &mut String, count: usize)
    ensures
        final(text)@ == old(text)@ + backslashes(count as nat),
{
    let mut i: usize = 0;
    assert(text@ =~= old(text)@ + backslashes(0));
    while i < count
        invariant
            i <= count,
            text@ == old(text)@ + backslashes(i as nat),
        decreases count - i,
    {
        text.push('\\');
        assert(text@ =~= old(text)@ + backslashes((i + 1) as nat));
        i += 1;
    }
}

/// The argument as it stands on the command line.
pub fn quote(arg: &str) -> (text: String)
    ensures
        text@ == quoted(arg@),
{
    let list = characters(arg);
    if list.len() > 0 && !contains_char(&list, ' ') && !contains_char(&list, '\t')
        && !contains_char(&list, '"') {
        return arg.to_string();
    }
    let mut text = String::new();
    text.push('"');
    let mut slashes: usize = 0;
    let mut i: usize = 0;
    let ghost whole = seq!['"'] + escaped(arg@, 0);
    assert(list@.skip(0) =~= arg@);
    assert(text@ + escaped(list@.skip(0), 0) =~= whole);
    while i < list.len()
        invariant
            slashes <= i <= list@.len(),
            text@ + escaped(list@.skip(i as int), slashes as nat) == whole,
        decreases list@.len() - i,
    {
        let c: char = list[i];
        let ghost before = text@;
        let ghost rest = list@.skip(i as int);
        assert(rest[0] == c);
        assert(rest.skip(1) =~= list@.skip(i + 1));
        if c == '\\' {
            slashes += 1;
            text.push(c);
            assert(text@ + escaped(rest.skip(1), slashes as nat) =~= before + (seq![c] + escaped(
                rest.skip(1),
                slashes as nat,
            )));
        } else {
            if c == '"' {
                push_backslashes(&mut text, slashes);
                text.push('\\');
                assert(text@ =~= before + backslashes((slashes + 1) as nat));
            }
            let ghost guarded = text@;
            text.push(c);
            slashes = 0;
            assert(text@ + escaped(rest.skip(1), 0) =~= guarded + (seq![c] + escaped(
                rest.skip(1),
                0,
            )));
            assert(text@ + escaped(rest.skip(1), 0) =~= whole);
        }
        i += 1;
    }
    assert(list@.skip(i as int) =~= seq![]);
    push_backslashes(&mut text, slashes);
    text.push('"');
    assert(text@ =~= quoted(arg@));
    text
}

/// The command line that starts the program at `path` with `args`.
pub fn build_command_line(path: &str, args: &Vec<String>) -> (line: String)
    ensures
        line@ == command_line(path@, texts(args@)),
{
    let mut line = String::new();
    line.push('"');
    line.append(path);
    line.push('"');
    let mut i: usize = 0;
    let ghost all = texts(args@);
    assert(all.take(0) =~= seq![]);
    assert(line@ =~= command_line(path@, all.take(0)));
    while i < args.len()
        invariant
            i <= args@.len(),
            all == texts(args@),
            line@ == command_line(path@, all.take(i as int)),
        decreases args@.len() - i,
    {
        let piece = quote(args[i].as_str());
        line.push(' ');
        line.append(piece.as_str());
        assert(all.take(i + 1).drop_last() =~= all.take(i as int));
        assert(line@ =~= command_line(path@, all.take(i + 1)));
        i += 1;
    }
    assert(all.take(i as int) =~= all);
    line
}

/// The command line that has the shell open `item`.
pub fn build_shell_line(item: &str) -> (line: String)
    ensures
        line@ == shell_line(item@),
{
    "explorer.exe \"".to_string().concat(item).concat("\"")
}

/// Escaping leaves a text without quotation marks as it is, up to backslashes
/// behind it.
proof fn escaping_only_adds_at_the_end(text: Seq<char>, slashes: nat)
    requires
        !text.contains('"'),
    ensures
        text.is_prefix_of(escaped(text, slashes)),
    decreases text.len(),
{
    if text.len() > 0 {
        let rest = text.skip(1);
        assert(text.contains(text[0]));
        assert forall|c: char| rest.contains(c) implies text.contains(c) by {
            let i = choose|i: int| 0 <= i < rest.len() && rest[i] == c;
            assert(text[i + 1] == c);
        }
        let next: nat = if text[0] == '\\' {
            slashes + 1
        } else {
            0
        };
        escaping_only_adds_at_the_end(rest, next);
        let all = escaped(text, slashes);
        let behind = escaped(rest, next);
        assert(all =~= seq![text[0]] + behind);
        assert(all.subrange(0, text.len() as int) =~= seq![text[0]] + behind.subrange(
            0,
            rest.len() as int,
        ));
        assert(seq![text[0]] + rest =~= text);
    } else {
        assert(escaped(text, slashes).subrange(0, 0) =~= text);
    }
}

proof fn occurs_between(before: Seq<char>, middle: Seq<char>, behind: Seq<char>, needle: Seq<char>)
    requires
        occurs(middle, needle),
    ensures
        occurs(before + middle + behind, needle),
{
    let at = choose|at: int| occurs_at(middle, needle, at);
    let all = before + middle + behind;
    assert(all.subrange(before.len() + at, before.len() + at + needle.len()) =~= middle.subrange(
        at,
        at + needle.len(),
    ));
    assert(occurs_at(all, needle, before.len() + at));
}

/// The command line of a launch holds every argument that has no quotation
/// mark in it as it is. So the application that a bootstrapper starts with its
/// own command line is recognised by the arguments of the launch.
pub proof fn command_line_carries_arguments(path: Seq<char>, args: Seq<Seq<char>>, i: int)
    requires
        0 <= i < args.len(),
        !args[i].contains('"'),
    ensures
        occurs(command_line(path, args), args[i]),
    decreases args.len(),
{
    let before = command_line(path, args.drop_last()) + seq![' '];
    let last = args.last();
    let none = Seq::<char>::empty();
    if i == args.len() - 1 {
        if needs_quotes(last) {
            escaping_only_adds_at_the_end(last, 0);
            let middle = escaped(last, 0);
            assert(occurs_at(middle, last, 0));
            occurs_between(before + seq!['"'], middle, seq!['"'], last);
            assert(before + seq!['"'] + middle + seq!['"'] =~= before + quoted(last));
        } else {
            assert(last.subrange(0, last.len() as int) =~= last);
            assert(occurs_at(last, last, 0));
            occurs_between(before, last, none, last);
            assert(before + last + none =~= before + quoted(last));
        }
    } else {
        command_line_carries_arguments(path, args.drop_last(), i);
        let behind = seq![' '] + quoted(last);
        occurs_between(none, command_line(path, args.drop_last()), behind, args[i]);
        assert(none + command_line(path, args.drop_last()) + behind =~= command_line(path, args));
    }
}

// ---------------------------------------------------------------- splitting

/// The character ends an argument, where it stands outside quotation marks.
pub open spec fn is_blank(c: char) -> bool {
    c == ' ' || c == '\t'
}

/// The name of the program at the start of a line, and what stands behind it.
/// Quotation marks only tell which blanks belong to the name.
pub open spec fn take_program(line: Seq<char>, inside: bool) -> (Seq<char>, Seq<char>)
    decreases line.len(),
{
    if line.len() == 0 || (is_blank(line[0]) && !inside) {
        (seq![], line)
    } else if line[0] == '"' {
        take_program(line.skip(1), !inside)
    } else {
        let (name, rest) = take_program(line.skip(1), inside);
        (seq![line[0]] + name, rest)
    }
}

/// The argument at the start of a line, and what stands behind it; `inside`
/// tells whether the line starts inside quotation marks, and `slashes` how many
/// backslashes stand before it. Backslashes stand for themselves, but before a
/// quotation mark two of them stand for one, and one that is left over makes the
/// mark stand for itself. Inside quotation marks, two marks stand for one.
pub open spec fn take_argument(line: Seq<char>, inside: bool, slashes: nat) -> (
    Seq<char>,
    Seq<char>,
)
    decreases line.len(),
{
    if line.len() == 0 || (is_blank(line[0]) && !inside) {
        (backslashes(slashes), line)
    } else if line[0] == '\\' {
        take_argument(line.skip(1), inside, slashes + 1)
    } else if line[0] == '"' {
        let kept = backslashes(slashes / 2);
        if slashes % 2 == 1 {
            let (arg, rest) = take_argument(line.skip(1), inside, 0);
            (kept + seq!['"'] + arg, rest)
        } else if inside && line.len() > 1 && line[1] == '"' {
            let (arg, rest) = take_argument(line.skip(2), inside, 0);
            (kept + seq!['"'] + arg, rest)
        } else {
            let (arg, rest) = take_argument(line.skip(1), !inside, 0);
            (kept + arg, rest)
        }
    } else {
        let (arg, rest) = take_argument(line.skip(1), inside, 0);
        (backslashes(slashes) + seq![line[0]] + arg, rest)
    }
}

/// The arguments on a line, without the name of the program.
pub open spec fn arguments_on(line: Seq<char>) -> Seq<Seq<char>>
    decreases line.len(),
    via splitting_takes_something
{
    if line.len() == 0 {
        seq![]
    } else if is_blank(line[0]) {
        arguments_on(line.skip(1))
    } else {
        let (arg, rest) = take_argument(line, false, 0);
        seq![arg] + arguments_on(rest)
    }
}

#[via_fn]
proof fn splitting_takes_something(line: Seq<char>) {
    an_argument_takes_something(line, false, 0);
}

/// How a program on Windows splits its command line: its name, and then its
/// arguments.
pub open spec fn split_line(line: Seq<char>) -> Seq<Seq<char>> {
    let (name, rest) = take_program(line, false);
    seq![name] + arguments_on(rest)
}

proof fn an_argument_takes_something(line: Seq<char>, inside: bool, slashes: nat)
    ensures
        take_argument(line, inside, slashes).1.len() <= line.len(),
        line.len() > 0 && !(is_blank(line[0]) && !inside) ==> take_argument(
            line,
            inside,
            slashes,
        ).1.len() < line.len(),
    decreases line.len(),
{
    if line.len() > 0 && !(is_blank(line[0]) && !inside) {
        an_argument_takes_something(line.skip(1), inside, slashes + 1);
        an_argument_takes_something(line.skip(1), inside, 0);
        an_argument_takes_something(line.skip(1), !inside, 0);
        if line.len() > 1 {
            an_argument_takes_something(line.skip(2), inside, 0);
        }
    }
}

proof fn backslashes_are_counted(count: nat, line: Seq<char>, inside: bool, slashes: nat)
    ensures
        take_argument(backslashes(count) + line, inside, slashes) == take_argument(
            line,
            inside,
            slashes + count,
        ),
    decreases count,
{
    let all = backslashes(count) + line;
    if count == 0 {
        assert(all =~= line);
    } else {
        assert(all[0] == '\\');
        assert(all.skip(1) =~= backslashes((count - 1) as nat) + line);
        backslashes_are_counted((count - 1) as nat, line, inside, slashes + 1);
    }
}

/// What stands behind an argument: nothing, or a blank first.
spec fn ends_argument(rest: Seq<char>) -> bool {
    rest.len() == 0 || is_blank(rest[0])
}

proof fn an_escaped_argument_is_taken_back(text: Seq<char>, slashes: nat, rest: Seq<char>)
    requires
        ends_argument(rest),
    ensures
        take_argument(escaped(text, slashes) + seq!['"'] + rest, true, slashes) == (
            backslashes(slashes) + text,
            rest,
        ),
    decreases text.len(),
{
    let line = escaped(text, slashes) + seq!['"'] + rest;
    let closing = seq!['"'] + rest;
    if text.len() == 0 {
        assert(line =~= backslashes(slashes) + closing);
        backslashes_are_counted(slashes, closing, true, slashes);
        assert(closing.skip(1) =~= rest);
        assert(take_argument(rest, false, 0) == (backslashes(0), rest));
        assert(backslashes((slashes + slashes) / 2) + backslashes(0) =~= backslashes(slashes)
            + text);
    } else {
        let tail = text.skip(1);
        if text[0] == '\\' {
            an_escaped_argument_is_taken_back(tail, slashes + 1, rest);
            assert(line.skip(1) =~= escaped(tail, slashes + 1) + seq!['"'] + rest);
            assert(backslashes(slashes + 1) + tail =~= backslashes(slashes) + text);
        } else {
            an_escaped_argument_is_taken_back(tail, 0, rest);
            let behind = escaped(tail, 0) + seq!['"'] + rest;
            assert(backslashes(0) + tail =~= tail);
            if text[0] == '"' {
                let marked = seq!['"'] + behind;
                assert(line =~= backslashes(slashes + 1) + marked);
                backslashes_are_counted(slashes + 1, marked, true, slashes);
                assert(marked.skip(1) =~= behind);
                let total: nat = slashes + slashes + 1;
                assert(total % 2 == 1 && total / 2 == slashes);
                assert(take_argument(marked, true, total) == (
                    backslashes(slashes) + seq!['"'] + tail,
                    rest,
                ));
                assert(backslashes(slashes) + seq!['"'] + tail =~= backslashes(slashes) + text);
            } else {
                assert(line.skip(1) =~= behind);
                assert(backslashes(slashes) + seq![text[0]] + tail =~= backslashes(slashes) + text);
            }
        }
    }
}

proof fn a_plain_argument_is_taken_back(text: Seq<char>, slashes: nat, rest: Seq<char>)
    requires
        ends_argument(rest),
        forall|i: int| 0 <= i < text.len() ==> !is_blank(text[i]) && text[i] != '"',
    ensures
        take_argument(text + rest, false, slashes) == (backslashes(slashes) + text, rest),
    decreases text.len(),
{
    let line = text + rest;
    if text.len() == 0 {
        assert(line =~= rest);
        assert(backslashes(slashes) + text =~= backslashes(slashes));
    } else {
        let tail = text.skip(1);
        assert(line.skip(1) =~= tail + rest);
        assert(line[0] == text[0]);
        if text[0] == '\\' {
            a_plain_argument_is_taken_back(tail, slashes + 1, rest);
            assert(backslashes(slashes + 1) + tail =~= backslashes(slashes) + text);
        } else {
            a_plain_argument_is_taken_back(tail, 0, rest);
            assert(backslashes(0) + tail =~= tail);
            assert(backslashes(slashes) + seq![text[0]] + tail =~= backslashes(slashes) + text);
        }
    }
}

proof fn a_quoted_argument_is_taken_back(arg: Seq<char>, rest: Seq<char>)
    requires
        ends_argument(rest),
    ensures
        take_argument(quoted(arg) + rest, false, 0) == (arg, rest),
        quoted(arg).len() > 0,
        !is_blank(quoted(arg)[0]),
{
    assert(backslashes(0) + arg =~= arg);
    if needs_quotes(arg) {
        let line = quoted(arg) + rest;
        let behind = escaped(arg, 0) + seq!['"'] + rest;
        assert(line[0] == '"');
        assert(line.skip(1) =~= behind);
        an_escaped_argument_is_taken_back(arg, 0, rest);
    } else {
        assert forall|i: int| 0 <= i < arg.len() implies !is_blank(arg[i]) && arg[i] != '"' by {
            assert(arg.contains(arg[i]));
        }
        a_plain_argument_is_taken_back(arg, 0, rest);
    }
}

/// What stands on a command line behind the path.
spec fn behind_path(args: Seq<Seq<char>>) -> Seq<char>
    decreases args.len(),
{
    if args.len() == 0 {
        seq![]
    } else {
        seq![' '] + quoted(args[0]) + behind_path(args.skip(1))
    }
}

proof fn behind_path_grows(args: Seq<Seq<char>>)
    requires
        args.len() > 0,
    ensures
        behind_path(args) == behind_path(args.drop_last()) + seq![' '] + quoted(args.last()),
    decreases args.len(),
{
    let last = seq![' '] + quoted(args.last());
    if args.len() == 1 {
        assert(behind_path(args.skip(1)) =~= seq![]);
        assert(behind_path(args.drop_last()) =~= seq![]);
    } else {
        behind_path_grows(args.skip(1));
        assert(args.skip(1).drop_last() =~= args.drop_last().skip(1));
        assert(args.drop_last()[0] == args[0]);
        assert(args.skip(1).last() == args.last());
    }
    assert(behind_path(args) =~= behind_path(args.drop_last()) + last);
    assert(behind_path(args.drop_last()) + last =~= behind_path(args.drop_last()) + seq![' ']
        + quoted(args.last()));
}

proof fn a_line_is_path_and_rest(path: Seq<char>, args: Seq<Seq<char>>)
    ensures
        command_line(path, args) == seq!['"'] + path + seq!['"'] + behind_path(args),
    decreases args.len(),
{
    let start = seq!['"'] + path + seq!['"'];
    if args.len() == 0 {
        assert(start + behind_path(args) =~= start);
    } else {
        a_line_is_path_and_rest(path, args.drop_last());
        behind_path_grows(args);
        assert(command_line(path, args) =~= start + behind_path(args));
    }
}

proof fn a_path_is_taken_back(path: Seq<char>, rest: Seq<char>)
    requires
        !path.contains('"'),
        ends_argument(rest),
    ensures
        take_program(path + seq!['"'] + rest, true) == (path, rest),
    decreases path.len(),
{
    let line = path + seq!['"'] + rest;
    if path.len() == 0 {
        assert(line[0] == '"');
        assert(line.skip(1) =~= rest);
        assert(take_program(rest, false) == (path, rest)) by {
            assert(path =~= seq![]);
        }
    } else {
        let tail = path.skip(1);
        assert(path.contains(path[0]));
        assert forall|c: char| tail.contains(c) implies path.contains(c) by {
            let i = choose|i: int| 0 <= i < tail.len() && tail[i] == c;
            assert(path[i + 1] == c);
        }
        a_path_is_taken_back(tail, rest);
        assert(line.skip(1) =~= tail + seq!['"'] + rest);
        assert(seq![path[0]] + tail =~= path);
    }
}

proof fn arguments_are_taken_back(args: Seq<Seq<char>>)
    ensures
        arguments_on(behind_path(args)) == args,
        ends_argument(behind_path(args)),
    decreases args.len(),
{
    if args.len() == 0 {
        assert(arguments_on(behind_path(args)) =~= args);
    } else {
        let rest = behind_path(args.skip(1));
        arguments_are_taken_back(args.skip(1));
        a_quoted_argument_is_taken_back(args[0], rest);
        let line = quoted(args[0]) + rest;
        assert(behind_path(args)[0] == ' ');
        assert(behind_path(args).skip(1) =~= line);
        assert(arguments_on(line) == seq![args[0]] + arguments_on(rest));
        assert(seq![args[0]] + args.skip(1) =~= args);
    }
}

/// An application gets the arguments of the launch, whatever they are: splitting
/// the command line gives the path and then every argument, unchanged and in
/// order. A path cannot hold a quotation mark on Windows.
pub proof fn splitting_gives_path_and_arguments(path: Seq<char>, args: Seq<Seq<char>>)
    requires
        !path.contains('"'),
    ensures
        split_line(command_line(path, args)) == seq![path] + args,
{
    let rest = behind_path(args);
    a_line_is_path_and_rest(path, args);
    arguments_are_taken_back(args);
    a_path_is_taken_back(path, rest);
    let line = command_line(path, args);
    assert(line[0] == '"');
    assert(line.skip(1) =~= path + seq!['"'] + rest);
}

proof fn escaping_adds_no_nul(text: Seq<char>, slashes: nat)
    requires
        !text.contains('\0'),
    ensures
        !escaped(text, slashes).contains('\0'),
    decreases text.len(),
{
    if text.len() > 0 {
        let rest = text.skip(1);
        assert(text.contains(text[0]));
        assert forall|c: char| rest.contains(c) implies text.contains(c) by {
            let i = choose|i: int| 0 <= i < rest.len() && rest[i] == c;
            assert(text[i + 1] == c);
        }
        escaping_adds_no_nul(rest, slashes + 1);
        escaping_adds_no_nul(rest, 0);
        let next: nat = if text[0] == '\\' {
            slashes + 1
        } else {
            0
        };
        let behind = escaped(rest, next);
        let all = escaped(text, slashes);
        let head = all.len() - behind.len();
        assert forall|i: int| 0 <= i < all.len() implies all[i] != '\0' by {
            if i >= head {
                assert(all[i] == behind[i - head]);
                assert(behind.contains(behind[i - head]));
            }
        }
    }
}

/// A command line holds no NUL character where neither the path nor an argument
/// does.
pub proof fn a_command_line_adds_no_nul(path: Seq<char>, args: Seq<Seq<char>>)
    requires
        !path.contains('\0'),
        forall|i: int| 0 <= i < args.len() ==> !(#[trigger] args[i]).contains('\0'),
    ensures
        !command_line(path, args).contains('\0'),
    decreases args.len(),
{
    let all = command_line(path, args);
    if args.len() == 0 {
        assert forall|i: int| 0 <= i < all.len() implies all[i] != '\0' by {
            if 0 < i < all.len() - 1 {
                assert(path.contains(path[i - 1]));
            }
        }
    } else {
        let before = command_line(path, args.drop_last());
        let last = args.last();
        assert(!args[args.len() - 1].contains('\0'));
        assert forall|i: int| 0 <= i < args.drop_last().len() implies !(
        #[trigger] args.drop_last()[i]).contains('\0') by {
            assert(args.drop_last()[i] == args[i]);
        }
        a_command_line_adds_no_nul(path, args.drop_last());
        escaping_adds_no_nul(last, 0);
        let piece = quoted(last);
        assert forall|i: int| 0 <= i < piece.len() implies piece[i] != '\0' by {
            if needs_quotes(last) {
                if 0 < i < piece.len() - 1 {
                    assert(escaped(last, 0).contains(escaped(last, 0)[i - 1]));
                }
            } else {
                assert(last.contains(last[i]));
            }
        }
        assert forall|i: int| 0 <= i < all.len() implies all[i] != '\0' by {
            if i < before.len() {
                assert(all[i] == before[i]);
                assert(before.contains(before[i]));
            } else if i > before.len() {
                assert(all[i] == piece[i - before.len() - 1]);
            }
        }
    }
}

proof fn backslashes_add_up(a: nat, b: nat)
    ensures
        backslashes(a) + backslashes(b) == backslashes(a + b),
{
    assert(backslashes(a) + backslashes(b) =~= backslashes(a + b));
}

proof fn escaping_counts_backslashes(count: nat, rest: Seq<char>, slashes: nat)
    ensures
        escaped(backslashes(count) + rest, slashes) == backslashes(count) + escaped(
            rest,
            slashes + count,
        ),
    decreases count,
{
    let text = backslashes(count) + rest;
    if count == 0 {
        assert(text =~= rest);
        assert(backslashes(0) + escaped(rest, slashes) =~= escaped(rest, slashes));
    } else {
        let fewer = (count - 1) as nat;
        assert(text.skip(1) =~= backslashes(fewer) + rest);
        escaping_counts_backslashes(fewer, rest, slashes + 1);
        assert(text[0] == '\\');
        assert(seq!['\\'] + (backslashes(fewer) + escaped(rest, slashes + count)) =~= backslashes(
            count,
        ) + escaped(rest, slashes + count));
    }
}

/// Between quotation marks backslashes stand as they are before any other
/// character, twice before the end, and twice with one more before a quotation
/// mark, which stands behind them.
pub proof fn backslashes_are_doubled_before_quotes(count: nat, c: char, rest: Seq<char>)
    requires
        c != '\\',
        c != '"',
    ensures
        escaped(backslashes(count), 0) == backslashes(2 * count),
        escaped(backslashes(count) + seq!['"'] + rest, 0) == backslashes(2 * count + 1) + seq!['"']
            + escaped(rest, 0),
        escaped(backslashes(count) + seq![c] + rest, 0) == backslashes(count) + seq![c] + escaped(
            rest,
            0,
        ),
        backslashes(count).len() == count,
        forall|i: int| 0 <= i < count ==> #[trigger] backslashes(count)[i] == '\\',
{
    assert(backslashes(count) + seq![] =~= backslashes(count));
    escaping_counts_backslashes(count, seq![], 0);
    backslashes_add_up(count, count);
    let quote = seq!['"'] + rest;
    assert(backslashes(count) + seq!['"'] + rest =~= backslashes(count) + quote);
    escaping_counts_backslashes(count, quote, 0);
    assert(quote.skip(1) =~= rest);
    assert(backslashes(count) + (backslashes(count + 1) + seq!['"'] + escaped(rest, 0)) =~= (
    backslashes(count) + backslashes(count + 1)) + seq!['"'] + escaped(rest, 0));
    backslashes_add_up(count, count + 1);
    let other = seq![c] + rest;
    assert(backslashes(count) + seq![c] + rest =~= backslashes(count) + other);
    escaping_counts_backslashes(count, other, 0);
    assert(other.skip(1) =~= rest);
    assert(backslashes(count) + (seq![c] + escaped(rest, 0)) =~= backslashes(count) + seq![c]
        + escaped(rest, 0));
}

proof fn plain_text_is_not_escaped(text: Seq<char>)
    requires
        !text.contains('"'),
        !text.contains('\\'),
    ensures
        escaped(text, 0) == text,
    decreases text.len(),
{
    if text.len() > 0 {
        let rest = text.skip(1);
        assert(text.contains(text[0]));
        assert forall|c: char| rest.contains(c) implies text.contains(c) by {
            let i = choose|i: int| 0 <= i < rest.len() && rest[i] == c;
            assert(text[i + 1] == c);
        }
        plain_text_is_not_escaped(rest);
        assert(seq![text[0]] + rest =~= text);
    } else {
        assert(backslashes(0) =~= text);
    }
}

/// An argument stands as it is exactly where it holds something, and neither a
/// space nor a tab nor a quotation mark; any other stands between two quotation
/// marks, and with nothing added where it holds no backslash and no such mark.
pub proof fn only_what_needs_it_is_quoted(arg: Seq<char>)
    ensures
        arg.len() > 0 && !arg.contains(' ') && !arg.contains('\t') && !arg.contains('"') ==> quoted(
            arg,
        ) == arg,
        arg.len() == 0 || arg.contains(' ') || arg.contains('\t') || arg.contains('"') ==> quoted(
            arg,
        ) == seq!['"'] + escaped(arg, 0) + seq!['"'],
        (arg.len() == 0 || arg.contains(' ') || arg.contains('\t')) && !arg.contains('"')
            && !arg.contains('\\') ==> quoted(arg) == seq!['"'] + arg + seq!['"'],
{
    if !arg.contains('"') && !arg.contains('\\') {
        plain_text_is_not_escaped(arg);
    }
}

/// A command line starts with the path between quotation marks; each further
/// argument adds a space and itself.
pub proof fn a_command_line_grows_by_arguments(
    path: Seq<char>,
    args: Seq<Seq<char>>,
    arg: Seq<char>,
)
    ensures
        command_line(path, Seq::empty()) == seq!['"'] + path + seq!['"'],
        command_line(path, args.push(arg)) == command_line(path, args) + seq![' '] + quoted(arg),
{
    assert(args.push(arg).drop_last() =~= args);
}

/// The shell is given what it is to open between quotation marks.
pub proof fn the_shell_gets_the_item_in_quotes(item: Seq<char>)
    ensures
        shell_line(item) == "explorer.exe "@ + seq!['"'] + item + seq!['"'],
{
    reveal_strlit("explorer.exe \"");
    reveal_strlit("explorer.exe ");
    reveal_strlit("\"");
    assert(shell_line(item) =~= "explorer.exe "@ + seq!['"'] + item + seq!['"']);
}

/// A command line that was built gives its path and every argument back, in
/// order, to a program that splits it as Windows programs do.
pub proof fn a_built_line_gives_everything_back(path: &str, args: Vec<String>, line: String)
    requires
        !path@.contains('"'),
        call_ensures(build_command_line, (path, &args), line),
    ensures
        split_line(line@) == seq![path@] + texts(args@),
{
    splitting_gives_path_and_arguments(path@, texts(args@));
}

/// An argument without anything special is put on the command line as it is, and
/// what the shell is to open stands between quotation marks behind its name.
pub proof fn built_pieces_are_as_described(arg: &str, text: String, item: &str, line: String)
    requires
        call_ensures(quote, (arg,), text),
        call_ensures(build_shell_line, (item,), line),
    ensures
        arg@.len() > 0 && !arg@.contains(' ') && !arg@.contains('\t') && !arg@.contains('"')
            ==> text@ == arg@,
        (arg@.contains(' ') || arg@.contains('\t') || arg@.len() == 0) && !arg@.contains('"')
            && !arg@.contains('\\') ==> text@ == seq!['"'] + arg@ + seq!['"'],
        line@ == "explorer.exe "@ + seq!['"'] + item@ + seq!['"'],
{
    only_what_needs_it_is_quoted(arg@);
    the_shell_gets_the_item_in_quotes(item@);
}

} // verus!
