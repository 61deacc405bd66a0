//! Passing on what an application writes to its terminal.
//!
//! The helper reads the terminal line by line and writes each line to its own
//! output. Once a write has failed nobody listens any more, but the terminal
//! must still be read, or the application would stall when it is full.
use vstd::prelude::*;

verus! {

/// The state of passing on one stream.
pub struct Relay {
    /// Nobody listens: what is read is thrown away.
    pub sink: bool,
}

/// What a read of the terminal came to.
#[derive(Debug, Clone, Copy, PartialEq, Eq, Structural)]
pub enum ReadOutcome {
    /// The application has closed its side.
    End,
    /// Something was read.
    Data,
    /// A line was read that is not UTF-8; it cannot be passed on as text.
    NotText,
    /// The terminal could not be read.
    Failed,
}

/// What to do after a read.
#[derive(Debug, Clone, Copy, PartialEq, Eq, Structural)]
pub enum RelayStep {
    /// Write what was read, flush, and report whether the write worked.
    Write,
    /// Read again.
    ReadOn,
    /// The stream is done.
    Stop,
}

impl Relay {
    /// A stream that somebody listens to.
    pub fn new() -> (relay: Relay)
        ensures
            !relay.sink,
    {
        Relay { sink: false }
    }

    /// What a read leads to.
    pub open spec fn after_read(&self, outcome: ReadOutcome) -> RelayStep {
        match outcome {
            ReadOutcome::Data => if self.sink {
                RelayStep::ReadOn
            } else {
                RelayStep::Write
            },
            ReadOutcome::NotText => RelayStep::ReadOn,
            ReadOutcome::End | ReadOutcome::Failed => RelayStep::Stop,
        }
    }

    /// Takes in what a read came to.
    pub fn on_read(&self, outcome: ReadOutcome) -> (step: RelayStep)
        ensures
            step == self.after_read(outcome),
    {
        match outcome {
            ReadOutcome::Data => if self.sink {
                RelayStep::ReadOn
            } else {
                RelayStep::Write
            },
            ReadOutcome::NotText => RelayStep::ReadOn,
            ReadOutcome::End | ReadOutcome::Failed => RelayStep::Stop,
        }
    }

    /// Takes in whether a write worked.
    pub fn on_write(&mut self, worked: bool)
        ensures
            final(self).sink == (old(self).sink || !worked),
    {
        if !worked {
            self.sink = true;
        }
    }
}

/// Which of the pieces that are read one after the other get written, where
/// the write of the piece at `i` would work if `works[i]`.
pub open spec fn writes(relay: Relay, works: Seq<bool>) -> Seq<bool>
    decreases works.len(),
{
    if works.len() == 0 {
        seq![]
    } else {
        let written = relay.after_read(ReadOutcome::Data) == RelayStep::Write;
        let after = Relay { sink: relay.sink || (written && !works[0]) };
        seq![written] + writes(after, works.skip(1))
    }
}

/// A piece is written exactly where every write before it has worked: nothing
/// is held back while somebody listens, and nothing is written afterwards.
pub proof fn written_until_the_first_failure(relay: Relay, works: Seq<bool>, i: int)
    requires
        0 <= i < works.len(),
    ensures
        writes(relay, works).len() == works.len(),
        writes(relay, works)[i] == (!relay.sink && forall|j: int| 0 <= j < i ==> works[j]),
    decreases works.len(),
{
    let written = relay.after_read(ReadOutcome::Data) == RelayStep::Write;
    let after = Relay { sink: relay.sink || (written && !works[0]) };
    let rest = works.skip(1);
    if rest.len() > 0 {
        let k = if i > 0 {
            i - 1
        } else {
            0
        };
        written_until_the_first_failure(after, rest, k);
        if i > 0 {
            assert(writes(relay, works)[i] == writes(after, rest)[i - 1]);
            assert(forall|j: int| 0 <= j < i - 1 ==> rest[j] == works[j + 1]);
            if (!after.sink && forall|j: int| 0 <= j < i - 1 ==> rest[j]) {
                assert forall|j: int| 0 <= j < i implies works[j] by {
                    if j > 0 {
                        assert(rest[j - 1]);
                    }
                }
            }
        }
    } else {
        assert(writes(after, rest) =~= seq![]);
    }
}

/// Whether or not anybody listens, what was read never ends the stream, be it
/// text or not: only its end or a failed read does.
pub proof fn data_never_stops_the_stream(relay: Relay, outcome: ReadOutcome)
    ensures
        relay.after_read(outcome) == RelayStep::Stop <==> outcome == ReadOutcome::End || outcome
            == ReadOutcome::Failed,
{
}

/// What was read is written exactly where it is text and no write has failed
/// yet.
pub proof fn text_is_written_while_somebody_listens(relay: Relay, outcome: ReadOutcome)
    ensures
        relay.after_read(outcome) == RelayStep::Write <==> outcome == ReadOutcome::Data
            && !relay.sink,
        relay.after_read(outcome) == RelayStep::ReadOn <==> outcome == ReadOutcome::NotText || (
        outcome == ReadOutcome::Data && relay.sink),
{
}

/// Once a write has failed nobody listens any more, whatever writes follow.
pub proof fn a_failed_write_is_remembered(relay: &mut Relay, worked: bool)
    requires
        call_ensures(Relay::on_write, (relay, worked), ()),
    ensures
        final(relay).sink <==> old(relay).sink || !worked,
{
}

} // verus!
