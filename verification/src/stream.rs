//! The captured output of an application.
//!
//! Another thread reads the output line by line and sends each line through a
//! channel. A [`ChildStdout`] or [`ChildStderr`] is the receiving end: it gives
//! the lines back as a stream of bytes, each line with its newline.
use std::sync::mpsc::Receiver;
use vstd::prelude::*;
use vstd::utf8::encode_utf8;

use crate::text::optional_text;

verus! {

/// The receiving half of a channel of the standard library.
#[verifier::external_type_specification]
#[verifier::external_body]
#[verifier::reject_recursive_types(T)]
pub struct ExReceiver<T>(std::sync::mpsc::Receiver<T>);

/// Why no line came in time.
#[derive(Debug, Clone, Copy, PartialEq, Eq, Structural)]
pub enum RecvTimeoutError {
    /// The time is up.
    Timeout,
    /// The output has ended.
    Disconnected,
}

/// Calls `Receiver::recv`, which waits for the next line; `None` where the
/// sender is gone and no line is left. What comes is up to the sender.
#[verifier::external_body]
fn next_line(lines: &Receiver<String>) -> (line: Option<String>) {
    lines.recv().ok()
}

/// Calls `Receiver::recv_timeout`, which waits for the next line no longer than
/// `timeout`. What comes is up to the sender and the clock.
#[verifier::external_body]
fn next_line_within(lines: &Receiver<String>, timeout: core::time::Duration) -> (line: Result<
    String,
    RecvTimeoutError,
>) {
    match lines.recv_timeout(timeout) {
        Ok(line) => Ok(line),
        Err(std::sync::mpsc::RecvTimeoutError::Timeout) => Err(RecvTimeoutError::Timeout),
        Err(std::sync::mpsc::RecvTimeoutError::Disconnected) => Err(RecvTimeoutError::Disconnected),
    }
}

/// Where no bytes wait to be read, `line` is what a receive on the channel may
/// give; where some do, the channel is not asked.
pub closed spec fn comes_from(
    source: Receiver<String>,
    waiting: Seq<u8>,
    line: Option<String>,
) -> bool {
    if waiting.len() == 0 {
        call_ensures(next_line, (&source,), line)
    } else {
        line is None
    }
}

/// `line` is what a receive on the channel may give that waits no longer than
/// `timeout`.
pub closed spec fn comes_within(
    source: Receiver<String>,
    timeout: core::time::Duration,
    line: Result<String, RecvTimeoutError>,
) -> bool {
    call_ensures(next_line_within, (&source, timeout), line)
}

/// Makes the call on the channel, and gives what it gave.
fn asked<F: Fn(&Receiver<String>) -> Option<String>>(call: F, lines: &Receiver<String>) -> (line:
    Option<String>)
    requires
        call_requires(call, (lines,)),
    ensures
        call_ensures(call, (lines,), line),
{
    call(lines)
}

/// Makes the call on the channel with the timeout, and gives what it gave.
fn asked_within<
    F: Fn(&Receiver<String>, core::time::Duration) -> Result<String, RecvTimeoutError>,
>(call: F, lines: &Receiver<String>, timeout: core::time::Duration) -> (line: Result<
    String,
    RecvTimeoutError,
>)
    requires
        call_requires(call, (lines, timeout)),
    ensures
        call_ensures(call, (lines, timeout), line),
{
    call(lines, timeout)
}

/// The bytes that a line gives: its own in UTF-8, and a newline.
pub open spec fn line_bytes(line: Seq<char>) -> Seq<u8> {
    encode_utf8(line).push(10)
}

/// The bytes at hand once `line` has come in, where bytes still wait to be read
/// only those. `None` stands for the end of the output.
pub open spec fn at_hand(waiting: Seq<u8>, line: Option<Seq<char>>) -> Seq<u8> {
    if waiting.len() > 0 {
        waiting
    } else {
        match line {
            Some(line) => line_bytes(line),
            None => seq![],
        }
    }
}

/// The smaller of two numbers.
pub open spec fn smaller(a: nat, b: nat) -> nat {
    if a <= b {
        a
    } else {
        b
    }
}

/// Reading into `buffer` with `line` at the other end of the channel gives
/// `count` bytes, fills the buffer as `filled` and leaves `left` waiting.
pub open spec fn reads(
    waiting: Seq<u8>,
    line: Option<Seq<char>>,
    buffer: Seq<u8>,
    count: nat,
    filled: Seq<u8>,
    left: Seq<u8>,
) -> bool {
    let source = at_hand(waiting, line);
    &&& count == smaller(buffer.len(), source.len())
    &&& filled == source.take(count as int) + buffer.skip(count as int)
    &&& left == source.skip(count as int)
}

/// The receiving end of a channel of lines, read as bytes.
struct Lines {
    lines: Receiver<String>,
    buf: Vec<u8>,
    pos: usize,
}

impl Lines {
    /// The bytes that have come in and were not read yet.
    spec fn waiting(&self) -> Seq<u8> {
        if self.pos < self.buf@.len() {
            self.buf@.skip(self.pos as int)
        } else {
            seq![]
        }
    }

    /// Puts a line that has come in where the bytes of the last one were.
    fn refill(&mut self, line: String)
        ensures
            final(self).lines == old(self).lines,
            final(self).waiting() == line_bytes(line@),
            final(self).pos == 0,
            final(self).buf@ == line_bytes(line@),
            final(self).buf@ == encode_utf8(line@) + seq![10u8],
    {
        let mut bytes: Vec<u8> = vstd::slice::slice_to_vec(line.as_str().as_bytes());
        bytes.push(10);
        self.buf = bytes;
        self.pos = 0;
        assert(self.buf@.skip(0) =~= self.buf@);
    }

    fn is_drained(&self) -> (drained: bool)
        ensures
            drained == (self.waiting().len() == 0),
    {
        self.pos >= self.buf.len()
    }

    fn read_line(&mut self, line: Option<String>, buffer: &mut [u8]) -> (count: usize)
        ensures
            final(self).lines == old(self).lines,
            reads(
                old(self).waiting(),
                optional_text(line),
                old(buffer)@,
                count as nat,
                final(buffer)@,
                final(self).waiting(),
            ),
    {
        let ghost source = at_hand(self.waiting(), optional_text(line));
        if self.is_drained() {
            match line {
                Some(line) => {
                    self.refill(line);
                },
                None => {
                    assert(source.take(0) + buffer@.skip(0) =~= buffer@);
                    assert(source.skip(0) =~= source);
                    return 0;
                },
            }
        }
        assert(self.waiting() == source);
        let total: usize = self.buf.len();
        let left: usize = total - self.pos;
        let count: usize = if buffer.len() <= left {
            buffer.len()
        } else {
            left
        };
        let mut i: usize = 0;
        let ghost start = buffer@;
        assert(source.take(0) + start.skip(0) =~= buffer@);
        while i < count
            invariant
                i <= count <= source.len(),
                count <= start.len(),
                buffer@.len() == start.len(),
                self.pos + source.len() == total,
                total == self.buf@.len(),
                source == self.buf@.skip(self.pos as int),
                buffer@ == source.take(i as int) + start.skip(i as int),
            decreases count - i,
        {
            buffer[i] = self.buf[self.pos + i];
            assert(buffer@ =~= source.take(i + 1) + start.skip(i + 1));
            i += 1;
        }
        self.pos = self.pos + count;
        assert(self.waiting() =~= source.skip(count as int));
        count
    }

    fn fill_line(&mut self, line: Option<String>)
        ensures
            final(self).lines == old(self).lines,
            final(self).waiting() == at_hand(old(self).waiting(), optional_text(line)),
            final(self).pos <= final(self).buf@.len(),
    {
        if self.is_drained() {
            match line {
                Some(line) => {
                    self.refill(line);
                },
                None => {
                    self.buf = Vec::new();
                    self.pos = 0;
                },
            }
        }
    }

    fn skip(&mut self, amt: usize)
        ensures
            final(self).lines == old(self).lines,
            final(self).waiting() == old(self).waiting().skip(
                smaller(amt as nat, old(self).waiting().len()) as int,
            ),
    {
        let ghost before = self.waiting();
        let total: usize = self.buf.len();
        if amt <= usize::MAX - self.pos {
            self.pos = self.pos + amt;
        } else {
            self.pos = total;
        }
        assert(self.waiting() =~= before.skip(smaller(amt as nat, before.len()) as int));
    }
}

/// The captured standard output of an application.
pub struct ChildStdout {
    lines: Lines,
}

impl ChildStdout {
    /// The channel that the lines come through.
    pub closed spec fn source(&self) -> Receiver<String> {
        self.lines.lines
    }

    /// The bytes that have come in and were not read yet.
    pub closed spec fn waiting(&self) -> Seq<u8> {
        self.lines.waiting()
    }

    /// Waits for a whole line, no longer than `timeout`. Bytes of a line that
    /// was read in part stay where they are. Which line comes, or why none does,
    /// is up to the sender and the clock.
    pub fn recv_timeout(&self, timeout: core::time::Duration) -> (line: Result<
        String,
        RecvTimeoutError,
    >)
        ensures
            comes_within(self.source(), timeout, line),
    {
        asked_within(next_line_within, &self.lines.lines, timeout)
    }

    /// Reads bytes into `buffer` and tells how many. Waits for a line where no
    /// bytes wait to be read; no bytes come once the output has ended.
    pub fn read(&mut self, buffer: &mut [u8]) -> (count: usize)
        ensures
            final(self).source() == old(self).source(),
            exists|line: Option<String>|
                {
                    &&& #[trigger] comes_from(old(self).source(), old(self).waiting(), line)
                    &&& reads(
                        old(self).waiting(),
                        optional_text(line),
                        old(buffer)@,
                        count as nat,
                        final(buffer)@,
                        final(self).waiting(),
                    )
                },
    {
        let line = if self.lines.is_drained() {
            asked(next_line, &self.lines.lines)
        } else {
            None
        };
        assert(comes_from(self.source(), self.waiting(), line));
        self.read_line(line, buffer)
    }

    /// Reads bytes into `buffer`, where `line` is what the channel gives if no
    /// bytes wait to be read.
    pub fn read_line(&mut self, line: Option<String>, buffer: &mut [u8]) -> (count: usize)
        ensures
            final(self).source() == old(self).source(),
            reads(
                old(self).waiting(),
                optional_text(line),
                old(buffer)@,
                count as nat,
                final(buffer)@,
                final(self).waiting(),
            ),
    {
        self.lines.read_line(line, buffer)
    }

    /// The bytes that wait to be read. Waits for a line where there are none;
    /// none come once the output has ended.
    pub fn fill_buf(&mut self) -> (bytes: &[u8])
        ensures
            final(self).source() == old(self).source(),
            bytes@ == final(self).waiting(),
            exists|line: Option<String>|
                {
                    &&& #[trigger] comes_from(old(self).source(), old(self).waiting(), line)
                    &&& final(self).waiting() == at_hand(
                        old(self).waiting(),
                        optional_text(line),
                    )
                },
    {
        let line = if self.lines.is_drained() {
            asked(next_line, &self.lines.lines)
        } else {
            None
        };
        assert(comes_from(self.source(), self.waiting(), line));
        self.fill_line(line)
    }

    /// The bytes that wait to be read, where `line` is what the channel gives
    /// if there are none.
    pub fn fill_line(&mut self, line: Option<String>) -> (bytes: &[u8])
        ensures
            final(self).source() == old(self).source(),
            bytes@ == final(self).waiting(),
            final(self).waiting() == at_hand(old(self).waiting(), optional_text(line)),
    {
        self.lines.fill_line(line);
        vstd::slice::slice_subrange(
            self.lines.buf.as_slice(),
            self.lines.pos,
            self.lines.buf.len(),
        )
    }

    /// Marks `amt` of the waiting bytes as read, or all of them where there
    /// are fewer.
    pub fn consume(&mut self, amt: usize)
        ensures
            final(self).source() == old(self).source(),
            final(self).waiting() == old(self).waiting().skip(
                smaller(amt as nat, old(self).waiting().len()) as int,
            ),
    {
        self.lines.skip(amt);
    }
}

/// The standard output whose lines come through `lines`.
pub fn make_child_stdout(lines: Receiver<String>) -> (stdout: ChildStdout)
    ensures
        stdout.source() == lines,
        stdout.waiting() == Seq::<u8>::empty(),
{
    ChildStdout { lines: Lines { lines, buf: Vec::new(), pos: 0 } }
}

/// The captured standard error of an application.
pub struct ChildStderr {
    lines: Lines,
}

impl ChildStderr {
    /// The channel that the lines come through.
    pub closed spec fn source(&self) -> Receiver<String> {
        self.lines.lines
    }

    /// The bytes that have come in and were not read yet.
    pub closed spec fn waiting(&self) -> Seq<u8> {
        self.lines.waiting()
    }

    /// Reads bytes into `buffer` and tells how many. Waits for a line where no
    /// bytes wait to be read; no bytes come once the output has ended.
    pub fn read(&mut self, buffer: &mut [u8]) -> (count: usize)
        ensures
            final(self).source() == old(self).source(),
            exists|line: Option<String>|
                {
                    &&& #[trigger] comes_from(old(self).source(), old(self).waiting(), line)
                    &&& reads(
                        old(self).waiting(),
                        optional_text(line),
                        old(buffer)@,
                        count as nat,
                        final(buffer)@,
                        final(self).waiting(),
                    )
                },
    {
        let line = if self.lines.is_drained() {
            asked(next_line, &self.lines.lines)
        } else {
            None
        };
        assert(comes_from(self.source(), self.waiting(), line));
        self.read_line(line, buffer)
    }

    /// Reads bytes into `buffer`, where `line` is what the channel gives if no
    /// bytes wait to be read.
    pub fn read_line(&mut self, line: Option<String>, buffer: &mut [u8]) -> (count: usize)
        ensures
            final(self).source() == old(self).source(),
            reads(
                old(self).waiting(),
                optional_text(line),
                old(buffer)@,
                count as nat,
                final(buffer)@,
                final(self).waiting(),
            ),
    {
        self.lines.read_line(line, buffer)
    }

    /// The bytes that wait to be read. Waits for a line where there are none;
    /// none come once the output has ended.
    pub fn fill_buf(&mut self) -> (bytes: &[u8])
        ensures
            final(self).source() == old(self).source(),
            bytes@ == final(self).waiting(),
            exists|line: Option<String>|
                {
                    &&& #[trigger] comes_from(old(self).source(), old(self).waiting(), line)
                    &&& final(self).waiting() == at_hand(
                        old(self).waiting(),
                        optional_text(line),
                    )
                },
    {
        let line = if self.lines.is_drained() {
            asked(next_line, &self.lines.lines)
        } else {
            None
        };
        assert(comes_from(self.source(), self.waiting(), line));
        self.fill_line(line)
    }

    /// The bytes that wait to be read, where `line` is what the channel gives
    /// if there are none.
    pub fn fill_line(&mut self, line: Option<String>) -> (bytes: &[u8])
        ensures
            final(self).source() == old(self).source(),
            bytes@ == final(self).waiting(),
            final(self).waiting() == at_hand(old(self).waiting(), optional_text(line)),
    {
        self.lines.fill_line(line);
        vstd::slice::slice_subrange(
            self.lines.buf.as_slice(),
            self.lines.pos,
            self.lines.buf.len(),
        )
    }

    /// Marks `amt` of the waiting bytes as read, or all of them where there
    /// are fewer.
    pub fn consume(&mut self, amt: usize)
        ensures
            final(self).source() == old(self).source(),
            final(self).waiting() == old(self).waiting().skip(
                smaller(amt as nat, old(self).waiting().len()) as int,
            ),
    {
        self.lines.skip(amt);
    }
}

/// The standard error whose lines come through `lines`.
pub fn make_child_stderr(lines: Receiver<String>) -> (stderr: ChildStderr)
    ensures
        stderr.source() == lines,
        stderr.waiting() == Seq::<u8>::empty(),
{
    ChildStderr { lines: Lines { lines, buf: Vec::new(), pos: 0 } }
}

/// What reading a line of the output of an application came to.
#[derive(Debug, Clone, Copy, PartialEq, Eq, Structural)]
pub enum LineRead {
    /// A line was read; it was delivered, or nobody receives lines any more.
    Read { delivered: bool },
    /// A line was read that is not UTF-8; it is not delivered.
    NotText,
    /// The output could not be read.
    Failed,
}

/// Whether to go on reading the output of an application. It is read on though
/// nobody receives its lines, and behind a line that is not UTF-8, or the
/// application would stall.
pub fn goes_on_draining(line: LineRead) -> (goes_on: bool)
    ensures
        goes_on == (line != LineRead::Failed),
{
    match line {
        LineRead::Read { .. } | LineRead::NotText => true,
        LineRead::Failed => false,
    }
}

/// The bytes of several lines, one behind the other.
pub open spec fn lines_bytes(lines: Seq<Seq<char>>) -> Seq<u8>
    decreases lines.len(),
{
    if lines.len() == 0 {
        seq![]
    } else {
        line_bytes(lines[0]) + lines_bytes(lines.skip(1))
    }
}

/// What the channel gives where `queue` is what was sent and not received yet.
pub open spec fn front(queue: Seq<Seq<char>>) -> Option<Seq<char>> {
    if queue.len() > 0 {
        Some(queue[0])
    } else {
        None
    }
}

/// What is left in the channel after bytes were asked for.
pub open spec fn queue_after(waiting: Seq<u8>, queue: Seq<Seq<char>>) -> Seq<Seq<char>> {
    if waiting.len() > 0 || queue.len() == 0 {
        queue
    } else {
        queue.skip(1)
    }
}

/// No byte of the output is lost, repeated or moved by a read: what it gives,
/// what then waits and what is still in the channel make up what there was.
pub proof fn reading_keeps_every_byte(
    waiting: Seq<u8>,
    queue: Seq<Seq<char>>,
    buffer: Seq<u8>,
    count: nat,
    filled: Seq<u8>,
    left: Seq<u8>,
)
    requires
        reads(waiting, front(queue), buffer, count, filled, left),
    ensures
        filled.take(count as int) + left + lines_bytes(queue_after(waiting, queue)) == waiting
            + lines_bytes(queue),
        filled.skip(count as int) == buffer.skip(count as int),
        filled.len() == buffer.len(),
{
    let source = at_hand(waiting, front(queue));
    assert(filled.take(count as int) =~= source.take(count as int));
    assert(source.take(count as int) + source.skip(count as int) =~= source);
    assert(filled.skip(count as int) =~= buffer.skip(count as int));
    if waiting.len() == 0 {
        assert(waiting + lines_bytes(queue) =~= lines_bytes(queue));
        if queue.len() == 0 {
            assert(source + lines_bytes(queue) =~= lines_bytes(queue));
        }
    }
}

/// The bytes that several reads give, one behind the other: those at the start
/// of what each has filled.
pub open spec fn given(filled: Seq<Seq<u8>>, counts: Seq<nat>) -> Seq<u8>
    decreases counts.len(),
{
    if counts.len() == 0 {
        seq![]
    } else {
        given(filled.drop_last(), counts.drop_last()) + filled.last().take(counts.last() as int)
    }
}

/// Reads that follow each other: what waits and what is in the channel before
/// each of them and after the last.
pub open spec fn is_run(
    waiting: Seq<Seq<u8>>,
    queues: Seq<Seq<Seq<char>>>,
    buffers: Seq<Seq<u8>>,
    counts: Seq<nat>,
    filled: Seq<Seq<u8>>,
) -> bool {
    &&& buffers.len() == counts.len() == filled.len()
    &&& waiting.len() == queues.len() == counts.len() + 1
    &&& forall|i: int|
        0 <= i < counts.len() ==> {
            &&& #[trigger] reads(
                waiting[i],
                front(queues[i]),
                buffers[i],
                counts[i],
                filled[i],
                waiting[i + 1],
            )
            &&& queues[i + 1] == queue_after(waiting[i], queues[i])
        }
}

/// However many reads there are and however large their buffers: what they give
/// together, what then waits and what is still in the channel make up the lines
/// that were sent.
pub proof fn reads_together_keep_every_byte(
    waiting: Seq<Seq<u8>>,
    queues: Seq<Seq<Seq<char>>>,
    buffers: Seq<Seq<u8>>,
    counts: Seq<nat>,
    filled: Seq<Seq<u8>>,
)
    requires
        is_run(waiting, queues, buffers, counts, filled),
    ensures
        given(filled, counts) + waiting.last() + lines_bytes(queues.last()) == waiting[0]
            + lines_bytes(queues[0]),
    decreases counts.len(),
{
    if counts.len() == 0 {
        assert(given(filled, counts) + waiting[0] =~= waiting[0]);
    } else {
        let n = counts.len() - 1;
        let (w, q) = (waiting.drop_last(), queues.drop_last());
        let (b, c, f) = (buffers.drop_last(), counts.drop_last(), filled.drop_last());
        assert forall|i: int| 0 <= i < c.len() implies {
            &&& #[trigger] reads(w[i], front(q[i]), b[i], c[i], f[i], w[i + 1])
            &&& q[i + 1] == queue_after(w[i], q[i])
        } by {
            assert(reads(
                waiting[i],
                front(queues[i]),
                buffers[i],
                counts[i],
                filled[i],
                waiting[i + 1],
            ));
        }
        reads_together_keep_every_byte(w, q, b, c, f);
        assert(reads(
            waiting[n],
            front(queues[n]),
            buffers[n],
            counts[n],
            filled[n],
            waiting[n + 1],
        ));
        reading_keeps_every_byte(
            waiting[n],
            queues[n],
            buffers[n],
            counts[n],
            filled[n],
            waiting[n + 1],
        );
        let piece = filled.last().take(counts.last() as int);
        let rest = lines_bytes(queues.last());
        assert(given(filled, counts) + waiting.last() + rest =~= given(f, c) + (piece
            + waiting.last() + rest));
        assert(given(f, c) + (waiting[n] + lines_bytes(queues[n])) =~= given(f, c) + w.last()
            + lines_bytes(q.last()));
    }
}

/// Reads of one stream that follow each other, as `read` makes them: what waits
/// before each of them and after the last, and the line that the channel gave to
/// each where no bytes waited.
pub open spec fn is_reading(
    source: Receiver<String>,
    waiting: Seq<Seq<u8>>,
    lines: Seq<Option<String>>,
    buffers: Seq<Seq<u8>>,
    counts: Seq<nat>,
    filled: Seq<Seq<u8>>,
) -> bool {
    &&& buffers.len() == counts.len() == filled.len() == lines.len()
    &&& waiting.len() == counts.len() + 1
    &&& forall|i: int|
        0 <= i < counts.len() ==> {
            &&& #[trigger] comes_from(source, waiting[i], lines[i])
            &&& reads(
                waiting[i],
                optional_text(lines[i]),
                buffers[i],
                counts[i],
                filled[i],
                waiting[i + 1],
            )
        }
}

/// The bytes of the lines that the channel gave to several reads.
pub open spec fn received(lines: Seq<Option<String>>) -> Seq<u8>
    decreases lines.len(),
{
    if lines.len() == 0 {
        seq![]
    } else {
        received(lines.drop_last()) + at_hand(seq![], optional_text(lines.last()))
    }
}

/// However many reads there are and however large their buffers: what they give
/// together and what then waits is what waited before them and the lines that
/// the channel gave them, each whole, in order and once.
pub proof fn reads_give_what_was_received(
    source: Receiver<String>,
    waiting: Seq<Seq<u8>>,
    lines: Seq<Option<String>>,
    buffers: Seq<Seq<u8>>,
    counts: Seq<nat>,
    filled: Seq<Seq<u8>>,
)
    requires
        is_reading(source, waiting, lines, buffers, counts, filled),
    ensures
        given(filled, counts) + waiting.last() == waiting[0] + received(lines),
    decreases counts.len(),
{
    if counts.len() == 0 {
        assert(given(filled, counts) + waiting.last() =~= waiting[0] + received(lines));
    } else {
        let n = counts.len() - 1;
        let (w, l) = (waiting.drop_last(), lines.drop_last());
        let (b, c, f) = (buffers.drop_last(), counts.drop_last(), filled.drop_last());
        assert forall|i: int| 0 <= i < c.len() implies {
            &&& #[trigger] comes_from(source, w[i], l[i])
            &&& reads(w[i], optional_text(l[i]), b[i], c[i], f[i], w[i + 1])
        } by {
            assert(comes_from(source, waiting[i], lines[i]));
        }
        reads_give_what_was_received(source, w, l, b, c, f);
        assert(comes_from(source, waiting[n], lines[n]));
        let came = at_hand(seq![], optional_text(lines[n]));
        let shown = at_hand(waiting[n], optional_text(lines[n]));
        let piece = filled[n].take(counts[n] as int);
        assert(piece =~= shown.take(counts[n] as int));
        assert(piece + waiting[n + 1] =~= shown);
        assert(shown =~= waiting[n] + came);
        assert(given(filled, counts) + waiting.last() =~= given(f, c) + (piece + waiting[n + 1]));
        assert(given(f, c) + (waiting[n] + came) =~= (given(f, c) + w.last()) + came);
        assert((waiting[0] + received(l)) + came =~= waiting[0] + received(lines));
    }
}

/// Asking for the waiting bytes and marking some of them as read loses no
/// byte either: those, what then waits and what is in the channel make up
/// what there was.
pub proof fn filling_keeps_every_byte(
    waiting: Seq<u8>,
    queue: Seq<Seq<char>>,
    amt: nat,
)
    ensures
        ({
            let shown = at_hand(waiting, front(queue));
            let used = smaller(amt, shown.len()) as int;
            shown.take(used) + shown.skip(used) + lines_bytes(queue_after(waiting, queue))
                == waiting + lines_bytes(queue)
        }),
{
    let shown = at_hand(waiting, front(queue));
    let used = smaller(amt, shown.len()) as int;
    assert(shown.take(used) + shown.skip(used) =~= shown);
    if waiting.len() == 0 {
        assert(waiting + lines_bytes(queue) =~= lines_bytes(queue));
        if queue.len() == 0 {
            assert(shown + lines_bytes(queue) =~= lines_bytes(queue));
        }
    }
}

/// A read into a buffer with room gives nothing only at the end of the output.
pub proof fn nothing_is_read_only_at_the_end(
    waiting: Seq<u8>,
    line: Option<Seq<char>>,
    buffer: Seq<u8>,
    filled: Seq<u8>,
    left: Seq<u8>,
)
    requires
        buffer.len() > 0,
        reads(waiting, line, buffer, 0, filled, left),
    ensures
        waiting.len() == 0,
        line is None,
{
}

/// A line gives all of its characters and then one newline: the bytes before
/// the last one decode to the line, whatever it is.
pub proof fn a_line_gives_all_of_its_characters(line: Seq<char>)
    ensures
        line_bytes(line) == encode_utf8(line) + seq![10u8],
        line_bytes(line).len() == encode_utf8(line).len() + 1,
        line_bytes(line).last() == 10,
        vstd::utf8::decode_utf8(line_bytes(line).drop_last()) == line,
{
    vstd::utf8::encode_utf8_decode_utf8(line);
    assert(line_bytes(line).drop_last() =~= encode_utf8(line));
    assert(line_bytes(line) =~= encode_utf8(line) + seq![10u8]);
}

/// Different lines give different bytes.
pub proof fn lines_are_told_by_their_bytes(one: Seq<char>, other: Seq<char>)
    requires
        line_bytes(one) == line_bytes(other),
    ensures
        one == other,
{
    a_line_gives_all_of_its_characters(one);
    a_line_gives_all_of_its_characters(other);
}

/// The bytes at hand are those that wait; only where none do, those of the line
/// that comes, all of them; and none at the end of the output.
pub proof fn waiting_bytes_come_first(waiting: Seq<u8>, line: Seq<char>)
    ensures
        waiting.len() > 0 ==> at_hand(waiting, Some(line)) == waiting && at_hand(waiting, None)
            == waiting,
        waiting.len() == 0 ==> at_hand(waiting, Some(line)) == encode_utf8(line) + seq![10u8]
            && at_hand(waiting, None).len() == 0,
{
    a_line_gives_all_of_its_characters(line);
}

/// A read gives the next bytes in order, as many as there are and fit: it fills
/// the buffer or leaves nothing waiting.
pub proof fn a_read_gives_as_much_as_fits(
    waiting: Seq<u8>,
    line: Option<Seq<char>>,
    buffer: Seq<u8>,
    count: nat,
    filled: Seq<u8>,
    left: Seq<u8>,
)
    requires
        reads(waiting, line, buffer, count, filled, left),
    ensures
        count <= buffer.len(),
        filled.len() == buffer.len(),
        count == buffer.len() || left.len() == 0,
        waiting.len() > 0 ==> filled.take(count as int) + left == waiting,
        waiting.len() == 0 && line is Some ==> filled.take(count as int) + left == encode_utf8(
            line->0,
        ) + seq![10u8],
        waiting.len() == 0 && line is None ==> count == 0 && left.len() == 0,
        forall|i: int| count <= i < buffer.len() ==> #[trigger] filled[i] == buffer[i],
{
    let shown = at_hand(waiting, line);
    assert(filled.take(count as int) =~= shown.take(count as int));
    assert(shown.take(count as int) + shown.skip(count as int) =~= shown);
    if line is Some {
        waiting_bytes_come_first(waiting, line->0);
    }
}

/// The smaller of two numbers is one of them and no larger than either.
pub proof fn the_smaller_is_one_of_both(a: nat, b: nat)
    ensures
        smaller(a, b) == a || smaller(a, b) == b,
        smaller(a, b) <= a && smaller(a, b) <= b,
{
}

/// While bytes wait to be read, no line is taken from the channel.
pub proof fn the_channel_is_left_alone_while_bytes_wait(
    source: Receiver<String>,
    waiting: Seq<u8>,
    line: Option<String>,
)
    requires
        waiting.len() > 0,
    ensures
        comes_from(source, waiting, line) <==> line is None,
{
}

/// Output is read on after every line, whoever receives it and whether or not it
/// is text; only a failed read ends it.
pub proof fn only_a_failed_read_ends_the_output(line: LineRead, goes_on: bool)
    requires
        call_ensures(goes_on_draining, (line,), goes_on),
    ensures
        line is Read ==> goes_on,
        line is NotText ==> goes_on,
        line is Failed ==> !goes_on,
{
}

/// A line that comes in where nothing waits gives all of its bytes and a newline
/// on the standard output, however long it is.
pub proof fn output_gives_whole_lines(
    stream: &mut ChildStdout,
    line: String,
    bytes: &[u8],
)
    requires
        old(stream).waiting().len() == 0,
        call_ensures(ChildStdout::fill_line, (stream, Some(line)), bytes),
    ensures
        bytes@ == encode_utf8(line@) + seq![10u8],
        vstd::utf8::decode_utf8(bytes@.drop_last()) == line@,
        final(stream).waiting() == bytes@,
{
    a_line_gives_all_of_its_characters(line@);
}

/// Marking bytes as read takes that many from the front of those that wait, or
/// all of them where there are fewer, and leaves the others in order.
pub proof fn output_is_consumed_from_the_front(
    stream: &mut ChildStdout,
    amt: usize,
)
    requires
        call_ensures(ChildStdout::consume, (stream, amt), ()),
    ensures
        amt <= old(stream).waiting().len() ==> final(stream).waiting() == old(
            stream,
        ).waiting().skip(amt as int),
        amt > old(stream).waiting().len() ==> final(stream).waiting().len() == 0,
{
}

/// A line that comes in where nothing waits gives all of its bytes and a newline
/// on the standard error, however long it is.
pub proof fn error_output_gives_whole_lines(
    stream: &mut ChildStderr,
    line: String,
    bytes: &[u8],
)
    requires
        old(stream).waiting().len() == 0,
        call_ensures(ChildStderr::fill_line, (stream, Some(line)), bytes),
    ensures
        bytes@ == encode_utf8(line@) + seq![10u8],
        vstd::utf8::decode_utf8(bytes@.drop_last()) == line@,
        final(stream).waiting() == bytes@,
{
    a_line_gives_all_of_its_characters(line@);
}

/// Marking bytes as read takes that many from the front of those that wait, or
/// all of them where there are fewer, and leaves the others in order.
pub proof fn error_output_is_consumed_from_the_front(
    stream: &mut ChildStderr,
    amt: usize,
)
    requires
        call_ensures(ChildStderr::consume, (stream, amt), ()),
    ensures
        amt <= old(stream).waiting().len() ==> final(stream).waiting() == old(
            stream,
        ).waiting().skip(amt as int),
        amt > old(stream).waiting().len() ==> final(stream).waiting().len() == 0,
{
}

/// What comes in is what the channel gave: it is asked where no bytes wait, and
/// asked with the very timeout of the caller.
proof fn what_comes_in_is_from_the_channel(
    source: Receiver<String>,
    line: Option<String>,
    timeout: core::time::Duration,
    timed: Result<String, RecvTimeoutError>,
)
    ensures
        comes_from(source, seq![], line) <==> call_ensures(next_line, (&source,), line),
        comes_within(source, timeout, timed) <==> call_ensures(
            next_line_within,
            (&source, timeout),
            timed,
        ),
{
}

/// The bytes that wait are those of the buffer from the position on.
proof fn bytes_wait_behind_the_position(lines: Lines)
    ensures
        lines.pos <= lines.buf@.len() ==> lines.buf@.take(lines.pos as int) + lines.waiting()
            == lines.buf@,
        lines.pos > lines.buf@.len() ==> lines.waiting().len() == 0,
{
    if lines.pos <= lines.buf@.len() {
        assert(lines.buf@.take(lines.pos as int) + lines.waiting() =~= lines.buf@);
    }
}

/// A read of the standard output gives the bytes that wait, and only where none do those
/// of the line that comes, in order and without a gap: what it gives and what then
/// waits make up what there was, and it stops early only where nothing is left.
pub proof fn output_is_read_without_a_gap(
    stream: &mut ChildStdout,
    line: Option<String>,
    buffer: &mut [u8],
    count: usize,
)
    requires
        call_ensures(ChildStdout::read_line, (stream, line, buffer), count),
    ensures
        count <= old(buffer)@.len(),
        final(buffer)@.len() == old(buffer)@.len(),
        count == old(buffer)@.len() || final(stream).waiting().len() == 0,
        old(stream).waiting().len() > 0 ==> final(buffer)@.take(count as int) + final(stream).waiting() == old(stream).waiting(),
        old(stream).waiting().len() == 0 && line is Some ==> final(buffer)@.take(count as int)
            + final(stream).waiting() == encode_utf8(line->0@) + seq![10u8],
        old(stream).waiting().len() == 0 && line is None ==> count == 0 && final(stream).waiting().len() == 0,
{
    a_read_gives_as_much_as_fits(
        old(stream).waiting(),
        optional_text(line),
        old(buffer)@,
        count as nat,
        final(buffer)@,
        final(stream).waiting(),
    );
}

/// A read of the standard error gives the bytes that wait, and only where none do those
/// of the line that comes, in order and without a gap: what it gives and what then
/// waits make up what there was, and it stops early only where nothing is left.
pub proof fn error_output_is_read_without_a_gap(
    stream: &mut ChildStderr,
    line: Option<String>,
    buffer: &mut [u8],
    count: usize,
)
    requires
        call_ensures(ChildStderr::read_line, (stream, line, buffer), count),
    ensures
        count <= old(buffer)@.len(),
        final(buffer)@.len() == old(buffer)@.len(),
        count == old(buffer)@.len() || final(stream).waiting().len() == 0,
        old(stream).waiting().len() > 0 ==> final(buffer)@.take(count as int) + final(stream).waiting() == old(stream).waiting(),
        old(stream).waiting().len() == 0 && line is Some ==> final(buffer)@.take(count as int)
            + final(stream).waiting() == encode_utf8(line->0@) + seq![10u8],
        old(stream).waiting().len() == 0 && line is None ==> count == 0 && final(stream).waiting().len() == 0,
{
    a_read_gives_as_much_as_fits(
        old(stream).waiting(),
        optional_text(line),
        old(buffer)@,
        count as nat,
        final(buffer)@,
        final(stream).waiting(),
    );
}

} // verus!
