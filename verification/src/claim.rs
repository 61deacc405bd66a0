//! Which of the running processes of a bundle is the one that was just launched.
//!
//! The launch itself gives no process identifier. The launcher notes which
//! processes of the bundle run before the launch, looks at them again and again
//! afterwards, and claims a new one whose arguments are those of the launch.
//! Only after many looks does it make do with a new process whose arguments do
//! not match or cannot be read.
use vstd::prelude::*;

use crate::error::{Error, ErrorView};
use crate::procargs::argv_contains_args;
use crate::text::{occurs, texts};

verus! {

/// How often to look at most.
pub const CLAIM_ATTEMPTS: u32 = 50;

/// From which look on a process is claimed though its arguments do not match.
pub const CLAIM_UNVERIFIED_FROM: u32 = 25;

/// The pause between two looks, in milliseconds.
pub const CLAIM_POLL: u64 = 200;

/// The search for the process of one launch.
pub struct Claim {
    /// The processes of the bundle that ran before the launch.
    pub before: Vec<i32>,
    /// The arguments that the application was given.
    pub args: Vec<String>,
    /// How many looks have led to nothing so far.
    pub attempt: u32,
    /// A new process to make do with.
    pub fallback: Option<u32>,
}

/// A running process of the bundle, as one look found it.
pub struct Running {
    pub pid: i32,
    /// Its arguments, where they were read.
    pub argv: Option<Vec<String>>,
}

/// What a look led to.
#[derive(Debug, Clone, Copy, PartialEq, Eq, Structural)]
pub enum ClaimStep {
    /// This is the process; `verified` tells whether it was recognised.
    Claimed { pid: u32, verified: bool },
    /// Find out whether the helper still runs, and report it.
    AskHelper,
    /// The application did not appear.
    GiveUp,
}

/// What the state of the helper led to.
#[derive(Debug, Clone, Copy, PartialEq, Eq, Structural)]
pub enum HelperStep {
    /// Look again after [`CLAIM_POLL`] milliseconds.
    LookAgain,
    /// The application will not appear.
    GiveUp,
}

impl Claim {
    /// The process identifier is one that did not run before the launch.
    pub open spec fn is_new(&self, pid: i32) -> bool {
        pid > 0 && !self.before@.contains(pid)
    }

    /// The process cannot be told from the launched one.
    pub open spec fn is_mine(&self, running: Running) -> bool {
        ||| self.args@.len() == 0
        ||| (running.argv matches Some(argv) && occurs(texts(argv@), texts(self.args@)))
    }

    /// The process at `i` is the first new one that cannot be told from the
    /// launched one.
    pub open spec fn is_match(&self, running: Seq<Running>, i: int) -> bool {
        &&& 0 <= i < running.len()
        &&& self.is_new(running[i].pid)
        &&& self.is_mine(running[i])
        &&& forall|j: int|
            0 <= j < i ==> !(self.is_new((#[trigger] running[j]).pid) && self.is_mine(running[j]))
    }

    /// The last new process, or else what was known before.
    pub open spec fn last_new(&self, running: Seq<Running>) -> Option<u32>
        decreases running.len(),
    {
        if running.len() == 0 {
            self.fallback
        } else if self.is_new(running.last().pid) {
            Some(running.last().pid as u32)
        } else {
            self.last_new(running.drop_last())
        }
    }

    /// A look at `running` leads to `step` and leaves the search as `after`.
    pub open spec fn looks(&self, running: Seq<Running>, after: Claim, step: ClaimStep) -> bool {
        if self.attempt >= CLAIM_ATTEMPTS {
            after == *self && step == ClaimStep::GiveUp
        } else {
            ||| exists|i: int|
                {
                    &&& self.is_match(running, i)
                    &&& after == *self
                    &&& step == ClaimStep::Claimed {
                        pid: (#[trigger] running[i]).pid as u32,
                        verified: true,
                    }
                }
            ||| {
                &&& forall|i: int|
                    0 <= i < running.len() ==> !(self.is_new((#[trigger] running[i]).pid)
                        && self.is_mine(running[i]))
                &&& after == (Claim { fallback: self.last_new(running), ..*self })
                &&& step == match after.fallback {
                    Some(pid) if self.attempt >= CLAIM_UNVERIFIED_FROM => ClaimStep::Claimed {
                        pid,
                        verified: false,
                    },
                    _ => ClaimStep::AskHelper,
                }
            }
        }
    }

    /// A search that starts.
    pub fn new(before: Vec<i32>, args: Vec<String>) -> (claim: Claim)
        ensures
            claim == (Claim { before, args, attempt: 0, fallback: None }),
    {
        Claim { before, args, attempt: 0, fallback: None }
    }

    fn ran_before(&self, pid: i32) -> (yes: bool)
        ensures
            yes == self.before@.contains(pid),
    {
        let mut i: usize = 0;
        while i < self.before.len()
            invariant
                i <= self.before@.len(),
                forall|j: int| 0 <= j < i ==> self.before@[j] != pid,
            decreases self.before@.len() - i,
        {
            if self.before[i] == pid {
                return true;
            }
            i += 1;
        }
        false
    }

    /// Whether the arguments of the process have a say in the matter.
    pub fn needs_argv(&self, pid: i32) -> (yes: bool)
        ensures
            yes == (self.is_new(pid) && self.args@.len() > 0),
    {
        pid > 0 && self.args.len() > 0 && !self.ran_before(pid)
    }

    /// Looks at the running processes of the bundle.
    pub fn look(&mut self, running: &Vec<Running>) -> (step: ClaimStep)
        ensures
            old(self).looks(running@, *final(self), step),
    {
        if self.attempt >= CLAIM_ATTEMPTS {
            return ClaimStep::GiveUp;
        }
        let mut fallback: Option<u32> = self.fallback;
        let mut i: usize = 0;
        assert(running@.take(0) =~= seq![]);
        while i < running.len()
            invariant
                i <= running@.len(),
                self.attempt < CLAIM_ATTEMPTS,
                *self == *old(self),
                fallback == self.last_new(running@.take(i as int)),
                forall|j: int|
                    0 <= j < i ==> !(self.is_new((#[trigger] running@[j]).pid) && self.is_mine(
                        running@[j],
                    )),
            decreases running@.len() - i,
        {
            let pid: i32 = running[i].pid;
            proof {
                assert(running@.take(i + 1).drop_last() =~= running@.take(i as int));
                assert(running@.take(i + 1).last() == running@[i as int]);
            }
            if pid > 0 && !self.ran_before(pid) {
                let mine: bool = self.args.len() == 0 || match &running[i].argv {
                    Some(argv) => argv_contains_args(argv.as_slice(), self.args.as_slice()),
                    None => false,
                };
                if mine {
                    assert(self.is_match(running@, i as int));
                    return ClaimStep::Claimed { pid: pid as u32, verified: true };
                }
                fallback = Some(pid as u32);
            }
            i += 1;
        }
        assert(running@.take(i as int) =~= running@);
        self.fallback = fallback;
        match fallback {
            Some(pid) if self.attempt >= CLAIM_UNVERIFIED_FROM => ClaimStep::Claimed {
                pid,
                verified: false,
            },
            _ => ClaimStep::AskHelper,
        }
    }

    /// Takes in whether the helper has exited. A helper that is gone will
    /// launch nothing any more.
    pub fn helper_seen(&mut self, exited: bool) -> (step: HelperStep)
        ensures
            exited || old(self).attempt >= CLAIM_ATTEMPTS ==> {
                &&& step == HelperStep::GiveUp
                &&& *final(self) == *old(self)
            },
            !exited && old(self).attempt < CLAIM_ATTEMPTS ==> {
                &&& step == HelperStep::LookAgain
                &&& *final(self) == (Claim {
                    attempt: (old(self).attempt + 1) as u32,
                    ..*old(self)
                })
            },
    {
        if exited || self.attempt >= CLAIM_ATTEMPTS {
            HelperStep::GiveUp
        } else {
            self.attempt = self.attempt + 1;
            HelperStep::LookAgain
        }
    }

    /// The process to make do with, if there is one, is new.
    pub open spec fn sound(&self) -> bool {
        self.fallback matches Some(pid) ==> pid <= i32::MAX && self.is_new(pid as i32)
    }
}

/// The error for a launch whose process did not appear, with what the helper
/// had to say.
pub fn claim_failed(helper_stderr: &str) -> (error: Error)
    ensures
        error@ == ErrorView::Platform("helper failed to launch app: "@ + helper_stderr@),
{
    Error::Platform("helper failed to launch app: ".to_string().concat(helper_stderr))
}

proof fn last_new_is_new(claim: Claim, running: Seq<Running>)
    requires
        claim.sound(),
    ensures
        claim.last_new(running) matches Some(pid) ==> pid <= i32::MAX && claim.is_new(pid as i32),
    decreases running.len(),
{
    if running.len() > 0 && !claim.is_new(running.last().pid) {
        last_new_is_new(claim, running.drop_last());
    }
}

/// Whatever is claimed did not run before the launch, and a search stays sound
/// from look to look.
pub proof fn claimed_is_new(
    claim: Claim,
    running: Seq<Running>,
    after: Claim,
    step: ClaimStep,
)
    requires
        claim.sound(),
        claim.looks(running, after, step),
    ensures
        after.sound(),
        step matches ClaimStep::Claimed { pid, .. } ==> pid <= i32::MAX && claim.is_new(
            pid as i32,
        ),
{
    last_new_is_new(claim, running);
}

/// A process is claimed as the launched one only where its arguments hold
/// those of the launch; in the first looks there is no other way to be claimed.
pub proof fn claimed_carries_the_arguments(
    claim: Claim,
    running: Seq<Running>,
    after: Claim,
    pid: u32,
    verified: bool,
)
    requires
        claim.args@.len() > 0,
        claim.looks(running, after, ClaimStep::Claimed { pid, verified }),
        verified || claim.attempt < CLAIM_UNVERIFIED_FROM,
    ensures
        exists|i: int|
            {
                &&& 0 <= i < running.len()
                &&& (#[trigger] running[i]).pid as u32 == pid
                &&& running[i].argv is Some
                &&& occurs(texts(running[i].argv->0@), texts(claim.args@))
            },
{
}

/// Where one of the new processes carries the arguments of the launch, the
/// look claims a process that does, and none that merely is new.
pub proof fn matching_process_is_preferred(
    claim: Claim,
    running: Seq<Running>,
    i: int,
    after: Claim,
    step: ClaimStep,
)
    requires
        claim.attempt < CLAIM_ATTEMPTS,
        0 <= i < running.len(),
        claim.is_new(running[i].pid),
        claim.is_mine(running[i]),
        claim.looks(running, after, step),
    ensures
        step matches ClaimStep::Claimed { verified, .. } && verified,
{
}

/// One look leads to one step.
pub proof fn look_is_unique(
    claim: Claim,
    running: Seq<Running>,
    after: Claim,
    step: ClaimStep,
    other_after: Claim,
    other_step: ClaimStep,
)
    requires
        claim.looks(running, after, step),
        claim.looks(running, other_after, other_step),
    ensures
        after == other_after,
        step == other_step,
{
}

/// A search that has used up its looks gives up.
pub proof fn search_ends(claim: Claim, running: Seq<Running>, after: Claim, step: ClaimStep)
    requires
        claim.attempt >= CLAIM_ATTEMPTS,
        claim.looks(running, after, step),
    ensures
        step == ClaimStep::GiveUp,
{
}

/// A launch whose search began when the process of another launch was already
/// running never claims that process.
pub proof fn later_claims_are_of_other_processes(
    claim: Claim,
    running: Seq<Running>,
    after: Claim,
    pid: u32,
    verified: bool,
    taken: i32,
)
    requires
        claim.sound(),
        claim.before@.contains(taken),
        claim.looks(running, after, ClaimStep::Claimed { pid, verified }),
    ensures
        pid as i32 != taken,
{
    claimed_is_new(claim, running, after, ClaimStep::Claimed { pid, verified });
}

/// Two launches at the same time never claim the same process as recognised,
/// where the arguments of that process do not hold those of both launches.
pub proof fn recognised_processes_are_not_shared(
    one: Claim,
    other: Claim,
    one_running: Seq<Running>,
    other_running: Seq<Running>,
    one_after: Claim,
    other_after: Claim,
    pid: u32,
    argv: Seq<Seq<char>>,
)
    requires
        one.args@.len() > 0,
        other.args@.len() > 0,
        !(occurs(argv, texts(one.args@)) && occurs(argv, texts(other.args@))),
        forall|i: int|
            0 <= i < one_running.len() && (#[trigger] one_running[i]).pid as u32 == pid ==> (
            one_running[i].argv matches Some(list) && texts(list@) == argv),
        forall|i: int|
            0 <= i < other_running.len() && (#[trigger] other_running[i]).pid as u32 == pid ==> (
            other_running[i].argv matches Some(list) && texts(list@) == argv),
    ensures
        !(one.looks(one_running, one_after, ClaimStep::Claimed { pid, verified: true })
            && other.looks(other_running, other_after, ClaimStep::Claimed { pid, verified: true })),
{
    if one.looks(one_running, one_after, ClaimStep::Claimed { pid, verified: true }) {
        claimed_carries_the_arguments(one, one_running, one_after, pid, true);
    }
    if other.looks(other_running, other_after, ClaimStep::Claimed { pid, verified: true }) {
        claimed_carries_the_arguments(other, other_running, other_after, pid, true);
    }
}

/// A process is new exactly where its identifier names one and is none of those
/// that ran before.
pub proof fn new_is_what_did_not_run_before(claim: Claim, pid: i32)
    ensures
        claim.is_new(pid) <==> pid > 0 && forall|i: int|
            0 <= i < claim.before@.len() ==> #[trigger] claim.before@[i] != pid,
{
    if claim.before@.contains(pid) {
        let i = choose|i: int| 0 <= i < claim.before@.len() && claim.before@[i] == pid;
        assert(claim.before@[i] == pid);
    }
}

/// A process is recognised exactly where there is nothing to recognise it by, or
/// where all the arguments of the launch stand among its own, one behind the
/// other and in their order.
pub proof fn recognised_by_all_arguments(claim: Claim, running: Running)
    ensures
        claim.is_mine(running) <==> {
            ||| claim.args@.len() == 0
            ||| running.argv is Some && exists|at: int|
                {
                    &&& 0 <= at
                    &&& at + claim.args@.len() <= running.argv->0@.len()
                    &&& #[trigger] args_stand_at(running.argv->0@, claim.args@, at)
                }
        },
{
    if let Some(argv) = running.argv {
        let (hay, needle) = (texts(argv@), texts(claim.args@));
        if occurs(hay, needle) {
            let at = choose|at: int| crate::text::occurs_at(hay, needle, at);
            assert forall|k: int| 0 <= k < claim.args@.len() implies argv@[at + k]@ == (
            #[trigger] claim.args@[k])@ by {
                assert(hay.subrange(at, at + needle.len())[k] == needle[k]);
            }
            assert(args_stand_at(argv@, claim.args@, at));
        }
        if exists|at: int|
            {
                &&& 0 <= at
                &&& at + claim.args@.len() <= argv@.len()
                &&& #[trigger] args_stand_at(argv@, claim.args@, at)
            } {
            let at = choose|at: int|
                {
                    &&& 0 <= at
                    &&& at + claim.args@.len() <= argv@.len()
                    &&& #[trigger] args_stand_at(argv@, claim.args@, at)
                };
            assert forall|k: int| 0 <= k < needle.len() implies #[trigger] hay.subrange(
                at,
                at + needle.len(),
            )[k] == needle[k] by {
                assert(argv@[at + k]@ == claim.args@[k]@);
            }
            assert(hay.subrange(at, at + needle.len()) =~= needle);
            assert(crate::text::occurs_at(hay, needle, at));
        }
    }
}

/// The arguments stand one by one in the list from `at` on.
pub open spec fn args_stand_at(argv: Seq<String>, args: Seq<String>, at: int) -> bool {
    forall|k: int| 0 <= k < args.len() ==> argv[at + k]@ == (#[trigger] args[k])@
}

/// A process with the arguments of the launch in its own is recognised, whatever
/// stands before and behind them; one that lacks one of them is not.
pub proof fn a_missing_argument_is_noticed(
    claim: Claim,
    running: Running,
    before: Seq<Seq<char>>,
    behind: Seq<Seq<char>>,
    at: int,
)
    requires
        running.argv is Some,
    ensures
        texts(running.argv->0@) == before + texts(claim.args@) + behind ==> claim.is_mine(running),
        0 <= at < claim.args@.len() && (forall|i: int|
            0 <= i < running.argv->0@.len() ==> (#[trigger] running.argv->0@[i])@
                != claim.args@[at]@) ==> !claim.is_mine(running),
{
    let (hay, needle) = (texts(running.argv->0@), texts(claim.args@));
    if hay == before + needle + behind {
        let from = before.len() as int;
        assert(hay.subrange(from, from + needle.len()) =~= needle);
        assert(crate::text::occurs_at(hay, needle, from));
    }
    if 0 <= at < claim.args@.len() && claim.is_mine(running) {
        let from = choose|from: int| crate::text::occurs_at(hay, needle, from);
        assert(hay.subrange(from, from + needle.len())[at] == needle[at]);
        assert(running.argv->0@[from + at]@ == claim.args@[at]@);
    }
}

/// The process to make do with is the last new one of the look, and what was
/// known before only where the look shows no new one.
pub proof fn the_last_new_process_is_kept(claim: Claim, running: Seq<Running>)
    ensures
        (forall|i: int| 0 <= i < running.len() ==> !claim.is_new((#[trigger] running[i]).pid))
            ==> claim.last_new(running) == claim.fallback,
        forall|i: int|
            {
                &&& 0 <= i < running.len()
                &&& claim.is_new((#[trigger] running[i]).pid)
                &&& forall|j: int| i < j < running.len() ==> !claim.is_new((#[trigger] running[j]).pid)
            } ==> claim.last_new(running) == Some(running[i].pid as u32),
    decreases running.len(),
{
    if running.len() > 0 {
        let rest = running.drop_last();
        let last = running.len() - 1;
        the_last_new_process_is_kept(claim, rest);
        assert forall|i: int|
            {
                &&& 0 <= i < running.len()
                &&& claim.is_new((#[trigger] running[i]).pid)
                &&& forall|j: int| i < j < running.len() ==> !claim.is_new((#[trigger] running[j]).pid)
            } implies claim.last_new(running) == Some(running[i].pid as u32) by {
            if i < last {
                assert(!claim.is_new(running[last].pid));
                assert(rest[i] == running[i]);
                assert forall|j: int| i < j < rest.len() implies !claim.is_new(
                    (#[trigger] rest[j]).pid,
                ) by {
                    assert(rest[j] == running[j]);
                }
            }
        }
        if forall|i: int| 0 <= i < running.len() ==> !claim.is_new((#[trigger] running[i]).pid) {
            assert(!claim.is_new(running[last].pid));
            assert forall|i: int| 0 <= i < rest.len() implies !claim.is_new(
                (#[trigger] rest[i]).pid,
            ) by {
                assert(rest[i] == running[i]);
            }
        }
    }
}

/// What a look leads to: of fifty looks each claims the first new process that
/// it recognises. Where it recognises none it keeps the last new one in mind,
/// and from the look with number twenty-five on makes do with that.
pub proof fn what_a_look_claims(
    claim: Claim,
    running: Seq<Running>,
    after: Claim,
    step: ClaimStep,
)
    requires
        claim.looks(running, after, step),
    ensures
        after.before == claim.before,
        after.args == claim.args,
        after.attempt == claim.attempt,
        claim.attempt >= 50 ==> step == ClaimStep::GiveUp && after == claim,
        claim.attempt < 50 ==> match step {
            ClaimStep::Claimed { pid, verified: true } => after == claim && exists|i: int|
                {
                    &&& 0 <= i < running.len()
                    &&& (#[trigger] running[i]).pid as u32 == pid
                    &&& claim.is_new(running[i].pid)
                    &&& claim.is_mine(running[i])
                    &&& forall|j: int|
                        0 <= j < i && claim.is_new((#[trigger] running[j]).pid) ==> !claim.is_mine(
                            running[j],
                        )
                },
            ClaimStep::Claimed { pid, verified: false } => {
                &&& claim.attempt >= 25
                &&& after.fallback == Some(pid)
                &&& after.fallback == claim.last_new(running)
                &&& forall|i: int|
                    0 <= i < running.len() && claim.is_new((#[trigger] running[i]).pid)
                        ==> !claim.is_mine(running[i])
            },
            ClaimStep::AskHelper => {
                &&& claim.attempt < 25 || after.fallback is None
                &&& after.fallback == claim.last_new(running)
                &&& forall|i: int|
                    0 <= i < running.len() && claim.is_new((#[trigger] running[i]).pid)
                        ==> !claim.is_mine(running[i])
            },
            ClaimStep::GiveUp => false,
        },
{
}

/// The first new process that is recognised is claimed as recognised.
pub proof fn the_first_recognised_is_claimed(claim: Claim, running: Seq<Running>, i: int)
    requires
        claim.attempt < 50,
        0 <= i < running.len(),
        claim.is_new(running[i].pid),
        claim.is_mine(running[i]),
        forall|j: int|
            0 <= j < i && claim.is_new((#[trigger] running[j]).pid) ==> !claim.is_mine(running[j]),
    ensures
        claim.looks(
            running,
            claim,
            ClaimStep::Claimed { pid: running[i].pid as u32, verified: true },
        ),
{
    assert(claim.is_match(running, i));
}

/// A search makes do with an unrecognised process halfway through its looks,
/// which take ten seconds together.
pub proof fn a_search_takes_ten_seconds()
    ensures
        CLAIM_ATTEMPTS == 50,
        2 * CLAIM_UNVERIFIED_FROM == CLAIM_ATTEMPTS,
        CLAIM_ATTEMPTS * CLAIM_POLL == 10000,
{
}

/// A search is sound exactly where the process to make do with, if there is one,
/// is a new one.
pub proof fn sound_is_with_a_new_fallback(claim: Claim, pid: u32)
    requires
        claim.fallback == Some(pid),
        pid <= i32::MAX,
    ensures
        claim.sound() <==> pid > 0 && !claim.before@.contains(pid as i32),
{
}

/// The arguments of a process are asked for exactly where the process is new and
/// there are arguments to compare them with.
pub proof fn arguments_are_asked_for_where_they_matter(claim: Claim, pid: i32, yes: bool)
    requires
        call_ensures(Claim::needs_argv, (&claim, pid), yes),
    ensures
        yes <==> pid > 0 && !claim.before@.contains(pid) && claim.args@.len() > 0,
{
}

/// A search goes on to its next look exactly where the helper still runs and
/// fewer than fifty looks were taken; nothing else of it changes.
pub proof fn a_search_goes_on_while_the_helper_runs(
    claim: &mut Claim,
    exited: bool,
    step: HelperStep,
)
    requires
        call_ensures(Claim::helper_seen, (claim, exited), step),
    ensures
        step == HelperStep::LookAgain <==> !exited && old(claim).attempt < 50,
        step == HelperStep::LookAgain ==> final(claim).attempt == old(claim).attempt + 1,
        step == HelperStep::GiveUp ==> final(claim).attempt == old(claim).attempt,
        final(claim).before == old(claim).before,
        final(claim).args == old(claim).args,
        final(claim).fallback == old(claim).fallback,
{
}

/// In its first looks a search for arguments claims only a process that is new
/// and holds all of them, one behind the other and in their order.
pub proof fn a_look_claims_what_holds_the_arguments(
    claim: &mut Claim,
    running: Vec<Running>,
    pid: u32,
    verified: bool,
)
    requires
        call_ensures(Claim::look, (claim, &running), ClaimStep::Claimed { pid, verified }),
        old(claim).args@.len() > 0,
        old(claim).attempt < 25,
    ensures
        verified,
        exists|i: int, at: int|
            {
                &&& 0 <= i < running@.len()
                &&& (#[trigger] running@[i]).pid as u32 == pid
                &&& running@[i].pid > 0
                &&& !old(claim).before@.contains(running@[i].pid)
                &&& running@[i].argv is Some
                &&& 0 <= at
                &&& at + old(claim).args@.len() <= running@[i].argv->0@.len()
                &&& #[trigger] args_stand_at(running@[i].argv->0@, old(claim).args@, at)
            },
{
    let before = *old(claim);
    let after = *final(claim);
    what_a_look_claims(before, running@, after, ClaimStep::Claimed { pid, verified });
    let i = choose|i: int|
        {
            &&& 0 <= i < running@.len()
            &&& (#[trigger] running@[i]).pid as u32 == pid
            &&& before.is_new(running@[i].pid)
            &&& before.is_mine(running@[i])
            &&& forall|j: int|
                0 <= j < i && before.is_new((#[trigger] running@[j]).pid) ==> !before.is_mine(
                    running@[j],
                )
        };
    recognised_by_all_arguments(before, running@[i]);
    let at = choose|at: int|
        {
            &&& 0 <= at
            &&& at + before.args@.len() <= running@[i].argv->0@.len()
            &&& #[trigger] args_stand_at(running@[i].argv->0@, before.args@, at)
        };
    assert(running@[i].pid as u32 == pid);
    assert(args_stand_at(running@[i].argv->0@, before.args@, at));
}

/// A launch that failed says what the helper said.
pub proof fn a_failed_launch_says_what_the_helper_said(helper_stderr: &str, error: Error)
    requires
        call_ensures(claim_failed, (helper_stderr,), error),
    ensures
        error@ == ErrorView::Platform("helper failed to launch app: "@ + helper_stderr@),
{
}

/// A search starts before its first look and with nothing to make do with.
pub proof fn a_search_starts_with_nothing(before: Vec<i32>, args: Vec<String>, claim: Claim)
    requires
        call_ensures(Claim::new, (before, args), claim),
    ensures
        claim.before == before,
        claim.args == args,
        claim.attempt == 0,
        claim.fallback is None,
        claim.sound(),
{
}

} // verus!
