//! Which process to track after a launch on Windows.
//!
//! The launched process may be a bootstrapper that starts the real application
//! as another process and exits. The launcher polls: it looks at the launched
//! process and at the processes of the same executable that are new since the
//! launch, and decides from what it saw, again and again, until it has settled
//! on one process.
use std::collections::HashSet;
use vstd::prelude::*;

use crate::cmdline::{command_line, command_line_carries_arguments};
use crate::text::{contains_text, equal_ignoring_case, occurs, same_ignoring_case, texts};
use crate::wide::{utf16, utf16_lossy, wide_len, wide_round_trip, wide_to_string};

verus! {

broadcast use vstd::std_specs::hash::group_hash_axioms;

/// How long the real application may take to appear, in milliseconds.
pub const ADOPT_DEADLINE: u64 = 30000;

/// How long to wait before "no other process has appeared" is taken to mean
/// that none will, in milliseconds.
pub const ADOPT_GRACE: u64 = 3000;

/// How long a process whose command line cannot be read stays out of the
/// question, in milliseconds.
pub const VERIFY_FALLBACK: u64 = 5000;

/// The pause between two looks, in milliseconds.
pub const ADOPT_POLL: u64 = 200;

/// What a launch fixed once and for all.
pub struct Launched {
    /// The process that the launch itself started.
    pub pid: u32,
    /// The launched process only hands the launch on to the running shell.
    pub via_shell: bool,
    /// The processes of the executable that ran before the launch.
    pub before: HashSet<u32>,
    /// The arguments that the application was given.
    pub args: Vec<String>,
}

/// A process of the executable, as one look found it.
pub struct Candidate {
    pub pid: u32,
    /// It owns a top-level window.
    pub windowed: bool,
    /// Its command line, where it could be read.
    pub command_line: Option<String>,
}

/// What one look saw.
pub struct Sight {
    /// The launched process is running.
    pub alive: bool,
    /// The launched process owns a top-level window.
    pub windowed: bool,
    /// The processes of the executable.
    pub candidates: Vec<Candidate>,
    /// The time since the launch, in milliseconds.
    pub elapsed: u64,
}

/// Why the launched process itself is the one to track.
#[derive(Debug, Clone, Copy, PartialEq, Eq, Structural)]
pub enum Reason {
    /// It shows a window.
    OwnWindow,
    /// It runs on, and no other process has appeared in the grace period.
    NoHandoff,
    /// It is gone and left no other process behind.
    EarlyExit,
    /// The real application did not appear in time.
    TimedOut,
}

/// What to do after a look.
#[derive(Debug, Clone, Copy, PartialEq, Eq, Structural)]
pub enum Decision {
    /// Track the launched process.
    Keep(Reason),
    /// Open this process and track it.
    Adopt(u32),
    /// Look again after [`ADOPT_POLL`] milliseconds.
    Wait,
}

impl Launched {
    /// The process is new since the launch, and is not the launched one.
    pub open spec fn is_sibling(&self, pid: u32) -> bool {
        !self.before@.contains(pid) && pid != self.pid
    }

    /// A command line holds every argument of the launch.
    pub open spec fn carried_by(&self, command_line: Seq<char>) -> bool {
        forall|i: int|
            0 <= i < self.args@.len() ==> occurs(command_line, #[trigger] texts(self.args@)[i])
    }

    /// The candidate can be taken for the application of this launch.
    pub open spec fn accepts(&self, candidate: Candidate, elapsed: u64) -> bool {
        &&& self.is_sibling(candidate.pid)
        &&& candidate.windowed
        &&& match candidate.command_line {
            Some(line) => self.carried_by(line@),
            None => self.args@.len() == 0 || elapsed >= VERIFY_FALLBACK,
        }
    }

    /// The candidate at `i` is the first that can be taken for the application.
    pub open spec fn is_choice(&self, sight: Sight, i: int) -> bool {
        &&& 0 <= i < sight.candidates@.len()
        &&& self.accepts(sight.candidates@[i], sight.elapsed)
        &&& forall|j: int|
            0 <= j < i ==> !self.accepts(#[trigger] sight.candidates@[j], sight.elapsed)
    }

    /// Some process has appeared since the launch.
    pub open spec fn has_sibling(&self, sight: Sight) -> bool {
        exists|i: int|
            0 <= i < sight.candidates@.len() && self.is_sibling(
                (#[trigger] sight.candidates@[i]).pid,
            )
    }

    /// What to do where no process can be adopted.
    pub open spec fn settled(&self, sight: Sight) -> Decision {
        if sight.alive && !self.has_sibling(sight) && sight.elapsed >= ADOPT_GRACE {
            Decision::Keep(Reason::NoHandoff)
        } else if !sight.alive && !self.has_sibling(sight) && !self.via_shell {
            Decision::Keep(Reason::EarlyExit)
        } else if sight.elapsed >= ADOPT_DEADLINE {
            Decision::Keep(Reason::TimedOut)
        } else {
            Decision::Wait
        }
    }

    /// The launched process shows a window of its own: it is the application.
    pub open spec fn shows_itself(&self, alive: bool, windowed: bool) -> bool {
        !self.via_shell && alive && windowed
    }

    /// `decision` is the one to take after this look: keep a launched process
    /// that shows itself, else adopt the first candidate that can be taken for
    /// the application, else settle.
    pub open spec fn decides(&self, sight: Sight, decision: Decision) -> bool {
        if self.shows_itself(sight.alive, sight.windowed) {
            decision == Decision::Keep(Reason::OwnWindow)
        } else {
            ||| exists|i: int|
                self.is_choice(sight, i) && decision == Decision::Adopt(
                    (#[trigger] sight.candidates@[i]).pid,
                )
            ||| (forall|i: int|
                0 <= i < sight.candidates@.len() ==> !self.accepts(
                    #[trigger] sight.candidates@[i],
                    sight.elapsed,
                )) && decision == self.settled(sight)
        }
    }

    /// Whether the launched process shows a window of its own. Where it does,
    /// the other processes need not be looked at.
    pub fn is_application(&self, alive: bool, windowed: bool) -> (yes: bool)
        ensures
            yes == self.shows_itself(alive, windowed),
    {
        !self.via_shell && alive && windowed
    }

    /// Those of `current` that are new since the launch and not the launched
    /// process, in the order of `current`.
    pub fn siblings(&self, current: &Vec<u32>) -> (found: Vec<u32>)
        ensures
            found@ == current@.filter(|pid: u32| self.is_sibling(pid)),
    {
        let mut found: Vec<u32> = Vec::new();
        let ghost pred = |pid: u32| self.is_sibling(pid);
        let mut i: usize = 0;
        proof {
            reveal(Seq::filter);
            assert(current@.take(0) =~= seq![]);
        }
        while i < current.len()
            invariant
                i <= current@.len(),
                pred == (|pid: u32| self.is_sibling(pid)),
                found@ == current@.take(i as int).filter(pred),
            decreases current@.len() - i,
        {
            let pid: u32 = current[i];
            proof {
                reveal(Seq::filter);
                assert(current@.take(i + 1).drop_last() =~= current@.take(i as int));
            }
            if !self.before.contains(&pid) && pid != self.pid {
                found.push(pid);
            }
            i += 1;
        }
        assert(current@.take(i as int) =~= current@);
        found
    }

    /// Whether the command line holds every argument of the launch.
    fn is_carried_by(&self, command_line: &str) -> (carried: bool)
        ensures
            carried == self.carried_by(command_line@),
    {
        let mut i: usize = 0;
        while i < self.args.len()
            invariant
                i <= self.args@.len(),
                forall|j: int|
                    0 <= j < i ==> occurs(command_line@, #[trigger] texts(self.args@)[j]),
            decreases self.args@.len() - i,
        {
            if !contains_text(command_line, self.args[i].as_str()) {
                assert(!occurs(command_line@, texts(self.args@)[i as int]));
                return false;
            }
            i += 1;
        }
        true
    }

    fn can_adopt(&self, candidate: &Candidate, elapsed: u64) -> (yes: bool)
        ensures
            yes == self.accepts(*candidate, elapsed),
    {
        if self.before.contains(&candidate.pid) || candidate.pid == self.pid
            || !candidate.windowed {
            return false;
        }
        match &candidate.command_line {
            Some(line) => self.is_carried_by(line.as_str()),
            None => self.args.len() == 0 || elapsed >= VERIFY_FALLBACK,
        }
    }

    /// Which process to track, as far as this look tells.
    pub fn decide(&self, sight: &Sight) -> (decision: Decision)
        ensures
            self.decides(*sight, decision),
            decision matches Decision::Adopt(pid) ==> exists|i: int|
                {
                    &&& 0 <= i < sight.candidates@.len()
                    &&& (#[trigger] sight.candidates@[i]).pid == pid
                    &&& sight.candidates@[i].command_line matches Some(line) ==> forall|k: int|
                        0 <= k < self.args@.len() ==> occurs(
                            line@,
                            (#[trigger] self.args@[k])@,
                        )
                },
    {
        if self.is_application(sight.alive, sight.windowed) {
            return Decision::Keep(Reason::OwnWindow);
        }
        let mut i: usize = 0;
        while i < sight.candidates.len()
            invariant
                i <= sight.candidates@.len(),
                !self.shows_itself(sight.alive, sight.windowed),
                forall|j: int|
                    0 <= j < i ==> !self.accepts(
                        #[trigger] sight.candidates@[j],
                        sight.elapsed,
                    ),
            decreases sight.candidates@.len() - i,
        {
            if self.can_adopt(&sight.candidates[i], sight.elapsed) {
                assert(self.is_choice(*sight, i as int));
                proof {
                    taken_for_the_application(*self, sight.candidates@[i as int], sight.elapsed);
                }
                return Decision::Adopt(sight.candidates[i].pid);
            }
            i += 1;
        }
        self.settle(sight)
    }

    /// What to do where no process can be adopted: none qualified, or the one
    /// that did could not be opened.
    pub fn settle(&self, sight: &Sight) -> (decision: Decision)
        ensures
            decision == self.settled(*sight),
    {
        let mut appeared = false;
        let mut i: usize = 0;
        while i < sight.candidates.len() && !appeared
            invariant
                i <= sight.candidates@.len(),
                appeared ==> self.has_sibling(*sight),
                !appeared ==> forall|j: int|
                    0 <= j < i ==> !self.is_sibling((#[trigger] sight.candidates@[j]).pid),
            decreases sight.candidates@.len() - i,
        {
            let pid: u32 = sight.candidates[i].pid;
            if !self.before.contains(&pid) && pid != self.pid {
                assert(self.is_sibling(sight.candidates@[i as int].pid));
                appeared = true;
            }
            i += 1;
        }
        if sight.alive && !appeared && sight.elapsed >= ADOPT_GRACE {
            Decision::Keep(Reason::NoHandoff)
        } else if !sight.alive && !appeared && !self.via_shell {
            Decision::Keep(Reason::EarlyExit)
        } else if sight.elapsed >= ADOPT_DEADLINE {
            Decision::Keep(Reason::TimedOut)
        } else {
            Decision::Wait
        }
    }
}

/// A running process: the name of its executable in UTF-16, up to the first
/// zero, and its identifier.
pub struct ProcessEntry {
    pub name: Vec<u16>,
    pub pid: u32,
}

impl ProcessEntry {
    /// The process runs the executable with this name, in whatever letter case.
    pub open spec fn runs(&self, exe_name: Seq<char>) -> bool {
        same_ignoring_case(utf16_lossy(self.name@.take(wide_len(self.name@) as int)), exe_name)
    }
}

/// The processes that run the executable with this name, in whatever letter
/// case; none where the name is empty.
pub fn pids_for_exe(exe_name: &str, entries: &Vec<ProcessEntry>) -> (pids: HashSet<u32>)
    ensures
        forall|pid: u32| #[trigger]
            pids@.contains(pid) <==> exe_name@.len() > 0 && exists|i: int|
                0 <= i < entries@.len() && (#[trigger] entries@[i]).pid == pid && entries@[i].runs(
                    exe_name@,
                ),
{
    let mut pids: HashSet<u32> = HashSet::new();
    if exe_name.is_empty() {
        return pids;
    }
    let mut i: usize = 0;
    while i < entries.len()
        invariant
            i <= entries@.len(),
            forall|pid: u32| #[trigger]
                pids@.contains(pid) <==> exists|j: int|
                    0 <= j < i && (#[trigger] entries@[j]).pid == pid && entries@[j].runs(
                        exe_name@,
                    ),
        decreases entries@.len() - i,
    {
        let name = wide_to_string(entries[i].name.as_slice());
        let ghost before = pids@;
        if equal_ignoring_case(name.as_str(), exe_name) {
            pids.insert(entries[i].pid);
        }
        assert forall|pid: u32| #[trigger] pids@.contains(pid) <==> exists|j: int|
            0 <= j < i + 1 && (#[trigger] entries@[j]).pid == pid && entries@[j].runs(
                exe_name@,
            ) by {
            if before.contains(pid) {
                let j = choose|j: int|
                    0 <= j < i && (#[trigger] entries@[j]).pid == pid && entries@[j].runs(
                        exe_name@,
                    );
                assert(0 <= j < i + 1 && entries@[j].pid == pid);
            }
            if pids@.contains(pid) && !before.contains(pid) {
                assert(entries@[i as int].pid == pid);
            }
        }
        i += 1;
    }
    pids
}

/// One look leads to one decision.
pub proof fn decision_is_unique(launched: Launched, sight: Sight, a: Decision, b: Decision)
    requires
        launched.decides(sight, a),
        launched.decides(sight, b),
    ensures
        a == b,
{
}

/// A process whose command line can be read and lacks one of the launch's
/// arguments is never adopted, however long the launch takes.
pub proof fn mismatched_is_never_adopted(launched: Launched, sight: Sight, pid: u32)
    requires
        forall|i: int|
            0 <= i < sight.candidates@.len() && (#[trigger] sight.candidates@[i]).pid == pid ==> {
                &&& sight.candidates@[i].command_line is Some
                &&& !launched.carried_by(sight.candidates@[i].command_line->0@)
            },
    ensures
        !launched.decides(sight, Decision::Adopt(pid)),
{
}

/// While arguments were given, a process whose command line cannot be read is
/// not adopted before the fallback time has passed.
pub proof fn unreadable_is_not_adopted_early(launched: Launched, sight: Sight, pid: u32)
    requires
        launched.args@.len() > 0,
        sight.elapsed < VERIFY_FALLBACK,
        forall|i: int|
            0 <= i < sight.candidates@.len() && (#[trigger] sight.candidates@[i]).pid == pid
                ==> sight.candidates@[i].command_line is None,
    ensures
        !launched.decides(sight, Decision::Adopt(pid)),
{
}

/// A process that ran before the launch is never adopted, nor is the launched
/// process taken for another one.
pub proof fn only_new_processes_are_adopted(launched: Launched, sight: Sight, pid: u32)
    requires
        launched.before@.contains(pid) || pid == launched.pid,
    ensures
        !launched.decides(sight, Decision::Adopt(pid)),
{
}

/// Two launches with arguments of which each carries one that the other's
/// application does not hold on its command line never adopt the same process,
/// as long as that command line can be read.
pub proof fn launches_do_not_share_a_process(
    one: Launched,
    other: Launched,
    one_sight: Sight,
    other_sight: Sight,
    pid: u32,
    line: Seq<char>,
)
    requires
        one.carried_by(line) ==> !other.carried_by(line),
        forall|i: int|
            0 <= i < one_sight.candidates@.len() && (#[trigger] one_sight.candidates@[i]).pid == pid
                ==> (one_sight.candidates@[i].command_line matches Some(read) && read@ == line),
        forall|i: int|
            0 <= i < other_sight.candidates@.len() && (
            #[trigger] other_sight.candidates@[i]).pid == pid ==> (
            other_sight.candidates@[i].command_line matches Some(read) && read@ == line),
    ensures
        !(one.decides(one_sight, Decision::Adopt(pid)) && other.decides(
            other_sight,
            Decision::Adopt(pid),
        )),
{
}

/// The looking ends: from the deadline on, no look leads to another one,
/// whether or not the process to adopt could be opened.
pub proof fn waiting_ends(launched: Launched, sight: Sight)
    requires
        sight.elapsed >= ADOPT_DEADLINE,
    ensures
        !launched.decides(sight, Decision::Wait),
        launched.settled(sight) != Decision::Wait,
{
}

/// A launched process that shows a window is kept, whatever other processes
/// of the executable have appeared.
pub proof fn own_window_comes_first(launched: Launched, sight: Sight)
    requires
        !launched.via_shell,
        sight.alive,
        sight.windowed,
    ensures
        launched.decides(sight, Decision::Keep(Reason::OwnWindow)),
        forall|pid: u32| !launched.decides(sight, Decision::Adopt(pid)),
{
}

/// A new process with a window that was started with the command line of the
/// launch is taken for the application, however little time has passed. The
/// arguments must hold no quotation mark: on the command line it would have a
/// backslash before it.
pub proof fn own_command_line_is_recognised(
    launched: Launched,
    path: Seq<char>,
    candidate: Candidate,
    elapsed: u64,
)
    requires
        forall|i: int|
            0 <= i < launched.args@.len() ==> !(#[trigger] texts(launched.args@)[i]).contains('"'),
        launched.is_sibling(candidate.pid),
        candidate.windowed,
        candidate.command_line matches Some(line) && line@ == command_line(
            path,
            texts(launched.args@),
        ),
    ensures
        launched.accepts(candidate, elapsed),
{
    let args = texts(launched.args@);
    assert forall|i: int| 0 <= i < launched.args@.len() implies occurs(
        command_line(path, args),
        #[trigger] args[i],
    ) by {
        command_line_carries_arguments(path, args, i);
    }
}

/// A process can be taken for the application exactly where it is new, is not
/// the launched one, has a window, and holds every single argument of the launch
/// on its command line. Where the line cannot be read, there must be no argument
/// to look for, or five seconds must have passed.
pub proof fn taken_for_the_application(launched: Launched, candidate: Candidate, elapsed: u64)
    ensures
        launched.accepts(candidate, elapsed) <==> {
            &&& !launched.before@.contains(candidate.pid)
            &&& candidate.pid != launched.pid
            &&& candidate.windowed
            &&& candidate.command_line matches Some(line) ==> forall|k: int|
                0 <= k < launched.args@.len() ==> occurs(line@, (#[trigger] launched.args@[k])@)
            &&& candidate.command_line is None ==> launched.args@.len() == 0 || elapsed >= 5000
        },
{
    if let Some(line) = candidate.command_line {
        if forall|k: int|
            0 <= k < launched.args@.len() ==> occurs(line@, (#[trigger] launched.args@[k])@) {
            assert forall|k: int| 0 <= k < launched.args@.len() implies occurs(
                line@,
                #[trigger] texts(launched.args@)[k],
            ) by {
                assert(occurs(line@, launched.args@[k]@));
            }
        }
        if launched.carried_by(line@) {
            assert forall|k: int| 0 <= k < launched.args@.len() implies occurs(
                line@,
                (#[trigger] launched.args@[k])@,
            ) by {
                assert(occurs(line@, texts(launched.args@)[k]));
            }
        }
    }
}

/// A command line carries a launch exactly where each argument stands on it:
/// one that is missing is enough to rule it out, wherever it stands in the list.
pub proof fn every_argument_counts(launched: Launched, line: Seq<char>, at: int)
    requires
        0 <= at < launched.args@.len(),
        !occurs(line, launched.args@[at]@),
    ensures
        !launched.carried_by(line),
{
    assert(texts(launched.args@)[at] == launched.args@[at]@);
}

/// Each argument counts only for itself: with one argument more, a command line
/// carries the launch exactly where it did before and holds that one too.
pub proof fn arguments_count_one_by_one(
    fewer: Launched,
    more: Launched,
    extra: String,
    line: Seq<char>,
)
    requires
        more.args@ == fewer.args@.push(extra),
    ensures
        more.carried_by(line) <==> fewer.carried_by(line) && occurs(line, extra@),
{
    let last = fewer.args@.len() as int;
    assert(texts(more.args@)[last] == extra@);
    assert forall|i: int| 0 <= i < last implies #[trigger] texts(more.args@)[i] == texts(
        fewer.args@,
    )[i] by {
        assert(more.args@[i] == fewer.args@[i]);
    }
    if more.carried_by(line) {
        assert forall|i: int| 0 <= i < last implies occurs(line, #[trigger] texts(fewer.args@)[i]) by {
            assert(occurs(line, texts(more.args@)[i]));
        }
    }
    if fewer.carried_by(line) && occurs(line, extra@) {
        assert forall|i: int| 0 <= i < more.args@.len() implies occurs(
            line,
            #[trigger] texts(more.args@)[i],
        ) by {
            if i < last {
                assert(occurs(line, texts(fewer.args@)[i]));
            }
        }
    }
}

/// An adopted process is one that the look found, with a window and new since
/// the launch, and its command line holds every argument of the launch.
pub proof fn an_adopted_process_has_every_argument(launched: Launched, sight: Sight, pid: u32)
    requires
        launched.decides(sight, Decision::Adopt(pid)),
    ensures
        launched.via_shell || !sight.alive || !sight.windowed,
        exists|i: int|
            {
                &&& 0 <= i < sight.candidates@.len()
                &&& (#[trigger] sight.candidates@[i]).pid == pid
                &&& sight.candidates@[i].windowed
                &&& !launched.before@.contains(pid)
                &&& pid != launched.pid
                &&& sight.candidates@[i].command_line matches Some(line) ==> forall|k: int|
                    0 <= k < launched.args@.len() ==> occurs(
                        line@,
                        (#[trigger] launched.args@[k])@,
                    )
                &&& sight.candidates@[i].command_line is None ==> launched.args@.len() == 0
                    || sight.elapsed >= 5000
            },
{
    let i = choose|i: int|
        launched.is_choice(sight, i) && Decision::Adopt(pid) == Decision::Adopt(
            (#[trigger] sight.candidates@[i]).pid,
        );
    taken_for_the_application(launched, sight.candidates@[i], sight.elapsed);
    assert(sight.candidates@[i].pid == pid);
}

/// The first process that can be taken for the application is adopted, unless
/// the launched process shows itself.
pub proof fn the_first_that_fits_is_adopted(launched: Launched, sight: Sight, i: int)
    requires
        launched.via_shell || !sight.alive || !sight.windowed,
        0 <= i < sight.candidates@.len(),
        launched.accepts(sight.candidates@[i], sight.elapsed),
        forall|j: int|
            0 <= j < i ==> !launched.accepts(#[trigger] sight.candidates@[j], sight.elapsed),
    ensures
        launched.decides(sight, Decision::Adopt(sight.candidates@[i].pid)),
        forall|decision: Decision| #[trigger]
            launched.decides(sight, decision) ==> decision == Decision::Adopt(
                sight.candidates@[i].pid,
            ),
{
    assert(launched.is_choice(sight, i));
}

/// Where nothing can be adopted, the launched process is kept after three
/// seconds in which nothing else appeared, or at once where it is gone and the
/// shell was not involved, and in any event after thirty seconds.
pub proof fn how_a_look_is_settled(launched: Launched, sight: Sight)
    ensures
        ({
            let alone = forall|i: int|
                0 <= i < sight.candidates@.len() ==> launched.before@.contains(
                    (#[trigger] sight.candidates@[i]).pid,
                ) || sight.candidates@[i].pid == launched.pid;
            let settled = launched.settled(sight);
            &&& settled == Decision::Keep(Reason::NoHandoff) <==> sight.alive && alone
                && sight.elapsed >= 3000
            &&& settled == Decision::Keep(Reason::EarlyExit) <==> !sight.alive && alone
                && !launched.via_shell
            &&& settled == Decision::Wait <==> sight.elapsed < 30000 && !(sight.alive && alone
                && sight.elapsed >= 3000) && !(!sight.alive && alone && !launched.via_shell)
            &&& settled == Decision::Keep(Reason::TimedOut) <==> sight.elapsed >= 30000 && !(
            sight.alive && alone) && !(!sight.alive && alone && !launched.via_shell)
        }),
{
    if exists|i: int|
        0 <= i < sight.candidates@.len() && !launched.before@.contains(
            (#[trigger] sight.candidates@[i]).pid,
        ) && sight.candidates@[i].pid != launched.pid {
        let i = choose|i: int|
            0 <= i < sight.candidates@.len() && !launched.before@.contains(
                (#[trigger] sight.candidates@[i]).pid,
            ) && sight.candidates@[i].pid != launched.pid;
        assert(launched.is_sibling(sight.candidates@[i].pid));
    }
}

/// A look that shows the launched process leads to keeping it, and one that
/// finds nothing to adopt leads to what is settled; nothing else is decided.
pub proof fn what_a_look_leads_to(launched: Launched, sight: Sight, decision: Decision)
    ensures
        !launched.via_shell && sight.alive && sight.windowed ==> (launched.decides(sight, decision)
            <==> decision == Decision::Keep(Reason::OwnWindow)),
        (launched.via_shell || !sight.alive || !sight.windowed) && (forall|i: int|
            0 <= i < sight.candidates@.len() ==> !launched.accepts(
                #[trigger] sight.candidates@[i],
                sight.elapsed,
            )) ==> (launched.decides(sight, decision) <==> decision == launched.settled(sight)),
{
}

/// A process is new exactly where it did not run before the launch and is not
/// the launched one.
pub proof fn new_since_the_launch(launched: Launched, pid: u32)
    ensures
        launched.is_sibling(pid) <==> !launched.before@.contains(pid) && pid != launched.pid,
{
}

/// The times between two looks and up to the last one: after the fallback time
/// looks still follow, and the grace period holds several.
pub proof fn looks_fit_in_their_times()
    ensures
        ADOPT_POLL == 200,
        ADOPT_GRACE == 15 * ADOPT_POLL,
        VERIFY_FALLBACK == 25 * ADOPT_POLL,
        ADOPT_DEADLINE == 150 * ADOPT_POLL,
{
}

/// A process runs an executable exactly where its name, which a zero ends, is
/// that of the executable but for letter case; what stands behind the zero does
/// not count.
pub proof fn a_process_is_known_by_its_name(
    entry: ProcessEntry,
    name: Seq<char>,
    behind: Seq<u16>,
    exe_name: Seq<char>,
)
    requires
        !name.contains('\0'),
        entry.name@ == utf16(name).push(0) + behind,
    ensures
        entry.runs(exe_name) <==> same_ignoring_case(name, exe_name),
{
    wide_round_trip(name, behind);
}

/// A look never adopts a process whose command line can be read and lacks any of
/// the arguments of the launch, where each identifier stands for one process.
pub proof fn a_stranger_is_never_adopted(
    launched: Launched,
    sight: Sight,
    decision: Decision,
    at: int,
    k: int,
)
    requires
        call_ensures(Launched::decide, (&launched, &sight), decision),
        forall|i: int, j: int|
            0 <= i < j < sight.candidates@.len() ==> (#[trigger] sight.candidates@[i]).pid != (
            #[trigger] sight.candidates@[j]).pid,
        0 <= at < sight.candidates@.len(),
        0 <= k < launched.args@.len(),
        sight.candidates@[at].command_line matches Some(line) && !occurs(
            line@,
            launched.args@[k]@,
        ),
    ensures
        decision != Decision::Adopt(sight.candidates@[at].pid),
{
    if decision == Decision::Adopt(sight.candidates@[at].pid) {
        let pid = sight.candidates@[at].pid;
        let i = choose|i: int|
            {
                &&& 0 <= i < sight.candidates@.len()
                &&& (#[trigger] sight.candidates@[i]).pid == pid
                &&& sight.candidates@[i].command_line matches Some(line) ==> forall|k: int|
                    0 <= k < launched.args@.len() ==> occurs(
                        line@,
                        (#[trigger] launched.args@[k])@,
                    )
            };
        if i < at {
            assert(sight.candidates@[i].pid != sight.candidates@[at].pid);
        }
        if at < i {
            assert(sight.candidates@[at].pid != sight.candidates@[i].pid);
        }
        assert(occurs(sight.candidates@[at].command_line->0@, launched.args@[k]@));
    }
}

/// The processes that have appeared are those of the list that did not run
/// before the launch and are not the launched one, and none is left out.
pub proof fn all_that_have_appeared_are_listed(
    launched: Launched,
    current: Vec<u32>,
    found: Vec<u32>,
    pid: u32,
)
    requires
        call_ensures(Launched::siblings, (&launched, &current), found),
    ensures
        found@.contains(pid) <==> current@.contains(pid) && !launched.before@.contains(pid) && pid
            != launched.pid,
        found@.len() <= current@.len(),
{
    let pred = |p: u32| launched.is_sibling(p);
    filtering_keeps_what_fits(current@, pred, pid);
}

proof fn filtering_keeps_what_fits(list: Seq<u32>, pred: spec_fn(u32) -> bool, pid: u32)
    ensures
        list.filter(pred).contains(pid) <==> list.contains(pid) && pred(pid),
        list.filter(pred).len() <= list.len(),
    decreases list.len(),
{
    reveal(Seq::filter);
    if list.len() > 0 {
        let rest = list.drop_last();
        let last = list.last();
        filtering_keeps_what_fits(rest, pred, pid);
        let front = rest.filter(pred);
        if list.contains(pid) {
            let i = choose|i: int| 0 <= i < list.len() && list[i] == pid;
            if i < rest.len() {
                assert(rest[i] == pid);
            }
        }
        if rest.contains(pid) {
            let i = choose|i: int| 0 <= i < rest.len() && rest[i] == pid;
            assert(list[i] == pid);
        }
        assert(list[list.len() - 1] == last);
        if pred(last) {
            assert(list.filter(pred) == front.push(last));
            if front.contains(pid) {
                let i = choose|i: int| 0 <= i < front.len() && front[i] == pid;
                assert(front.push(last)[i] == pid);
            }
            if front.push(last).contains(pid) {
                let i = choose|i: int| 0 <= i < front.push(last).len() && front.push(last)[i] == pid;
                if i < front.len() {
                    assert(front[i] == pid);
                }
            }
            assert(front.push(last)[front.len() as int] == last);
        } else {
            assert(list.filter(pred) == front);
        }
    }
}

/// A launched process that shows itself is the application, and one that hands
/// the launch to the shell never is.
pub proof fn what_counts_as_showing_itself(
    launched: Launched,
    alive: bool,
    windowed: bool,
    yes: bool,
)
    requires
        call_ensures(Launched::is_application, (&launched, alive, windowed), yes),
    ensures
        yes <==> !launched.via_shell && alive && windowed,
        launched.shows_itself(alive, windowed) <==> !launched.via_shell && alive && windowed,
{
}

} // verus!
