//! Steering an application on Windows.
use vstd::prelude::*;

use crate::child::{
    kill_outcome, kill_result, result_view, wait_outcome, wait_result, HandleState, IoFailure,
    KillReply, WaitReply,
};
use crate::error::{Error, ErrorView};
use crate::exit::ExitStatus;
use crate::keys::{code_to_vk, modifier_keys, modifier_vks, Code, Modifiers};
use crate::text::{decimal, decimal_text};

verus! {

/// How long to ask for the foreground, in milliseconds.
pub const FOCUS_DEADLINE: u64 = 5000;

/// The pause between two requests for the foreground, in milliseconds.
pub const FOCUS_POLL: u64 = 100;

/// The same pause while a key waits to be typed, in milliseconds.
pub const KEYSTROKE_FOCUS_POLL: u64 = 50;

/// How long a window that has come to the front needs before it can be typed
/// into, in milliseconds.
pub const INPUT_READY: u64 = 120;

/// The pause between two key events, in milliseconds.
pub const KEY_GAP: u64 = 40;

/// How long the window must stay in front after the last key event, in
/// milliseconds.
pub const INPUT_HOLD: u64 = 400;

/// The rights to ask for when opening a process that is to be tracked: wait
/// for it, end it, ask how it ended, and put it into a job.
pub const TRACKING_ACCESS: u32 = 0x0010_1101;

/// The exit code of a process that is ended by force.
pub const KILLED_CODE: u32 = 1;

/// An application on Windows.
pub struct WindowsHandle {
    pub pid: u32,
}

/// A top-level window, as one enumeration found it.
#[derive(Debug, Clone, Copy, PartialEq, Eq, Structural)]
pub struct Window {
    /// Its handle.
    pub handle: u64,
    /// The process that owns it.
    pub pid: u32,
    pub visible: bool,
    /// Another window owns it.
    pub owned: bool,
    /// The length of its title.
    pub title_len: i32,
}

/// What to do after a request for the foreground.
pub enum FocusStep {
    /// The window is in front.
    Focused,
    /// Ask again after the pause.
    AskAgain,
    /// Another window stays in front.
    Failed(Error),
}

/// A key event.
#[derive(Debug, Clone, Copy, PartialEq, Eq, Structural)]
pub struct KeyStep {
    pub key: u8,
    /// The key comes up; otherwise it goes down.
    pub up: bool,
}

impl Window {
    /// The window is the main one of the process: one can see it, no other
    /// window owns it, and it has a title.
    pub open spec fn is_main(&self, pid: u32) -> bool {
        self.pid == pid && self.visible && !self.owned && self.title_len > 0
    }
}

/// The first top-level window that the process owns.
pub fn find_window_by_pid(windows: &Vec<Window>, pid: u32) -> (found: Option<u64>)
    ensures
        match found {
            Some(handle) => exists|i: int|
                {
                    &&& 0 <= i < windows@.len()
                    &&& (#[trigger] windows@[i]).pid == pid
                    &&& windows@[i].handle == handle
                    &&& forall|j: int| 0 <= j < i ==> (#[trigger] windows@[j]).pid != pid
                },
            None => forall|i: int| 0 <= i < windows@.len() ==> (#[trigger] windows@[i]).pid != pid,
        },
{
    let mut i: usize = 0;
    while i < windows.len()
        invariant
            i <= windows@.len(),
            forall|j: int| 0 <= j < i ==> (#[trigger] windows@[j]).pid != pid,
        decreases windows@.len() - i,
    {
        if windows[i].pid == pid {
            assert(windows@[i as int].pid == pid);
            return Some(windows[i].handle);
        }
        i += 1;
    }
    None
}

/// The handle is that of the first window that is a main one of the process.
pub open spec fn is_main_window(windows: Seq<Window>, pid: u32, handle: u64) -> bool {
    exists|i: int|
        {
            &&& 0 <= i < windows.len()
            &&& (#[trigger] windows[i]).is_main(pid)
            &&& windows[i].handle == handle
            &&& forall|j: int| 0 <= j < i ==> !(#[trigger] windows[j]).is_main(pid)
        }
}

/// None of the windows is a main one of the process.
pub open spec fn has_no_main_window(windows: Seq<Window>, pid: u32) -> bool {
    forall|i: int| 0 <= i < windows.len() ==> !(#[trigger] windows[i]).is_main(pid)
}

/// The first window that is a main one of the process.
pub fn find_main_window_by_pid(windows: &Vec<Window>, pid: u32) -> (found: Option<u64>)
    ensures
        match found {
            Some(handle) => is_main_window(windows@, pid, handle),
            None => has_no_main_window(windows@, pid),
        },
{
    let mut i: usize = 0;
    while i < windows.len()
        invariant
            i <= windows@.len(),
            forall|j: int| 0 <= j < i ==> !(#[trigger] windows@[j]).is_main(pid),
        decreases windows@.len() - i,
    {
        let window = windows[i];
        if window.pid == pid && window.visible && !window.owned && window.title_len > 0 {
            assert(windows@[i as int].is_main(pid));
            return Some(window.handle);
        }
        i += 1;
    }
    None
}

/// The error for an application without a window to steer.
pub fn no_window() -> (error: Error)
    ensures
        error@ == ErrorView::Platform("no window found for process"@),
{
    Error::Platform("no window found for process".to_string())
}

/// What is done to a window to bring it to the front, in order.
#[derive(Debug, Clone, Copy, PartialEq, Eq, Structural)]
pub enum ForegroundAction {
    /// Share the input of the thread that owns the window in front.
    Attach,
    /// Show the window as it was before it was minimised.
    Restore,
    /// Put the window on top of the others.
    BringToTop,
    /// Ask for the foreground.
    SetForeground,
    /// Stop sharing the input.
    Detach,
}

/// The input of the thread in front is shared: there is one, and it is not ours.
pub open spec fn shares_input(front_thread: u32, our_thread: u32) -> bool {
    front_thread != 0 && front_thread != our_thread
}

/// What is done to a window to bring it to the front, in order.
pub open spec fn foreground_actions(
    front_thread: u32,
    our_thread: u32,
    minimised: bool,
) -> Seq<ForegroundAction> {
    (if shares_input(front_thread, our_thread) {
        seq![ForegroundAction::Attach]
    } else {
        seq![]
    }) + (if minimised {
        seq![ForegroundAction::Restore]
    } else {
        seq![]
    }) + seq![ForegroundAction::BringToTop, ForegroundAction::SetForeground] + (if shares_input(
        front_thread,
        our_thread,
    ) {
        seq![ForegroundAction::Detach]
    } else {
        seq![]
    })
}

/// What to do to a window to bring it to the front, in order. The show state
/// changes only where the window is minimised.
pub fn force_foreground(front_thread: u32, our_thread: u32, minimised: bool) -> (actions: Vec<
    ForegroundAction,
>)
    ensures
        actions@ == foreground_actions(front_thread, our_thread, minimised),
{
    let attach: bool = front_thread != 0 && front_thread != our_thread;
    let mut actions: Vec<ForegroundAction> = Vec::new();
    if attach {
        actions.push(ForegroundAction::Attach);
    }
    if minimised {
        actions.push(ForegroundAction::Restore);
    }
    actions.push(ForegroundAction::BringToTop);
    actions.push(ForegroundAction::SetForeground);
    if attach {
        actions.push(ForegroundAction::Detach);
    }
    assert(actions@ =~= foreground_actions(front_thread, our_thread, minimised));
    actions
}

/// The key events that type `key` with the keys `held` held: those go down in
/// order, the key goes down and up, and those come up in reverse order.
pub open spec fn chord(held: Seq<u8>, key: u8) -> Seq<KeyStep> {
    Seq::new(held.len(), |i: int| KeyStep { key: held[i], up: false }) + seq![
        KeyStep { key, up: false },
        KeyStep { key, up: true },
    ] + Seq::new(held.len(), |i: int| KeyStep { key: held[held.len() - 1 - i], up: true })
}

/// The key events that type `key` with the keys `held` held, in order.
pub fn chord_steps(held: &Vec<u8>, key: u8) -> (steps: Vec<KeyStep>)
    ensures
        steps@ == chord(held@, key),
{
    let mut steps: Vec<KeyStep> = Vec::new();
    let mut i: usize = 0;
    while i < held.len()
        invariant
            i <= held@.len(),
            steps@ == Seq::new(i as nat, |k: int| KeyStep { key: held@[k], up: false }),
        decreases held@.len() - i,
    {
        steps.push(KeyStep { key: held[i], up: false });
        assert(steps@ =~= Seq::new((i + 1) as nat, |k: int| KeyStep { key: held@[k], up: false }));
        i += 1;
    }
    steps.push(KeyStep { key, up: false });
    steps.push(KeyStep { key, up: true });
    let ghost pressed = steps@;
    let mut left: usize = held.len();
    assert(steps@ =~= pressed + Seq::new(
        0,
        |k: int| KeyStep { key: held@[held@.len() - 1 - k], up: true },
    ));
    while left > 0
        invariant
            left <= held@.len(),
            steps@ == pressed + Seq::new(
                (held@.len() - left) as nat,
                |k: int| KeyStep { key: held@[held@.len() - 1 - k], up: true },
            ),
        decreases left,
    {
        left -= 1;
        steps.push(KeyStep { key: held[left], up: true });
        assert(steps@ =~= pressed + Seq::new(
            (held@.len() - left) as nat,
            |k: int| KeyStep { key: held@[held@.len() - 1 - k], up: true },
        ));
    }
    assert(steps@ =~= chord(held@, key));
    steps
}

/// Whether the window that was in front before is to be put there again: there
/// was one, and it is not the one that was typed into.
pub fn gives_focus_back(previous: u64, target: u64) -> (gives: bool)
    ensures
        gives == (previous != 0 && previous != target),
{
    previous != 0 && previous != target
}

/// Whether ending a process takes a call: only one that runs is ended by force,
/// with [`KILLED_CODE`] as its exit code.
pub fn must_terminate(state: HandleState) -> (yes: bool)
    ensures
        yes == (state == HandleState::Running),
{
    state == HandleState::Running
}

impl WindowsHandle {
    /// What to do after a request for the foreground: `front` is the process
    /// that is in front now, `elapsed` the time since the first request in
    /// milliseconds.
    pub fn focus(&self, front: u32, elapsed: u64) -> (step: FocusStep)
        ensures
            front == self.pid ==> step is Focused,
            front != self.pid && elapsed < FOCUS_DEADLINE ==> step is AskAgain,
            front != self.pid && elapsed >= FOCUS_DEADLINE ==> (step matches FocusStep::Failed(
                error,
            ) && error@ == ErrorView::Platform(
                "focus: pid "@ + decimal(self.pid as nat)
                    + " not foreground after 5s (foreground was pid "@ + decimal(front as nat)
                    + ")"@,
            )),
    {
        if front == self.pid {
            return FocusStep::Focused;
        }
        if elapsed < FOCUS_DEADLINE {
            return FocusStep::AskAgain;
        }
        let own = decimal_text(self.pid);
        let other = decimal_text(front);
        FocusStep::Failed(
            Error::Platform(
                "focus: pid ".to_string().concat(own.as_str()).concat(
                    " not foreground after 5s (foreground was pid ",
                ).concat(other.as_str()).concat(")"),
            ),
        )
    }

    /// The same as [`WindowsHandle::focus`], while a key waits to be typed.
    pub fn focus_for_keystroke(&self, front: u32, elapsed: u64) -> (step: FocusStep)
        ensures
            front == self.pid ==> step is Focused,
            front != self.pid && elapsed < FOCUS_DEADLINE ==> step is AskAgain,
            front != self.pid && elapsed >= FOCUS_DEADLINE ==> (step matches FocusStep::Failed(
                error,
            ) && error@ == ErrorView::Platform(
                "send_keystroke: target pid "@ + decimal(self.pid as nat)
                    + " not foreground (was "@ + decimal(front as nat) + ")"@,
            )),
    {
        if front == self.pid {
            return FocusStep::Focused;
        }
        if elapsed < FOCUS_DEADLINE {
            return FocusStep::AskAgain;
        }
        let own = decimal_text(self.pid);
        let other = decimal_text(front);
        FocusStep::Failed(
            Error::Platform(
                "send_keystroke: target pid ".to_string().concat(own.as_str()).concat(
                    " not foreground (was ",
                ).concat(other.as_str()).concat(")"),
            ),
        )
    }

    /// The key events that type the key with the modifiers held, in order.
    pub fn send_keystroke(&self, code: &Code, modifiers: Modifiers) -> (steps: Result<
        Vec<KeyStep>,
        Error,
    >)
        ensures
            match code.windows_key() {
                Some(key) => steps matches Ok(list) && list@ == chord(
                    modifier_keys(modifiers),
                    key,
                ),
                None => steps matches Err(error) && error@ == ErrorView::Unsupported,
            },
    {
        match code_to_vk(code) {
            Some(key) => {
                let held = modifier_vks(modifiers);
                Ok(chord_steps(&held, key))
            },
            None => Err(Error::Unsupported),
        }
    }

    /// Takes in the state of the process and, where it ran, whether ending it
    /// worked.
    pub fn kill_io(&self, state: HandleState, ended: bool) -> (outcome: Result<(), IoFailure>)
        ensures
            result_view(outcome) == kill_outcome(KillReply::Handle(state, ended)),
    {
        kill_result(KillReply::Handle(state, ended))
    }

    /// Takes in the state of the process: how it ended, or `None` while it runs.
    pub fn try_wait(&self, state: HandleState) -> (outcome: Result<
        Option<ExitStatus>,
        IoFailure,
    >)
        ensures
            result_view(outcome) == wait_outcome(WaitReply::Handle(state)),
    {
        wait_result(WaitReply::Handle(state))
    }
}

/// Every key that goes down comes up again, and the last that went down comes
/// up first: seen from the end, the events are the same with down and up
/// exchanged.
pub proof fn chord_releases_in_reverse(held: Seq<u8>, key: u8, i: int)
    requires
        0 <= i < chord(held, key).len(),
    ensures
        chord(held, key).len() == 2 * held.len() + 2,
        chord(held, key)[chord(held, key).len() - 1 - i].key == chord(held, key)[i].key,
        chord(held, key)[chord(held, key).len() - 1 - i].up == !chord(held, key)[i].up,
        chord(held, key)[i].up <==> i > held.len(),
{
}

/// The input of another thread is never left shared.
pub proof fn sharing_ends(front_thread: u32, our_thread: u32, minimised: bool)
    ensures
        ({
            let actions = foreground_actions(front_thread, our_thread, minimised);
            &&& actions.first() == ForegroundAction::Attach <==> actions.last()
                == ForegroundAction::Detach
            &&& actions.contains(ForegroundAction::SetForeground)
        }),
{
    let actions = foreground_actions(front_thread, our_thread, minimised);
    let at: int = (if shares_input(front_thread, our_thread) {
        1int
    } else {
        0
    }) + (if minimised {
        1int
    } else {
        0
    }) + 1;
    assert(actions[at] == ForegroundAction::SetForeground);
}

/// A window is the main one of a process exactly where the process owns it, one
/// can see it, no window owns it and its title is not empty; the main window is
/// the first such one.
pub proof fn what_a_main_window_is(window: Window, windows: Seq<Window>, pid: u32, handle: u64)
    ensures
        window.is_main(pid) <==> window.pid == pid && window.visible && !window.owned
            && window.title_len > 0,
        is_main_window(windows, pid, handle) <==> exists|i: int|
            {
                &&& 0 <= i < windows.len()
                &&& (#[trigger] windows[i]).handle == handle
                &&& windows[i].is_main(pid)
                &&& forall|j: int| 0 <= j < i ==> !(#[trigger] windows[j]).is_main(pid)
            },
        has_no_main_window(windows, pid) <==> forall|i: int|
            0 <= i < windows.len() ==> !(#[trigger] windows[i]).is_main(pid),
{
    if is_main_window(windows, pid, handle) {
        let i = choose|i: int|
            {
                &&& 0 <= i < windows.len()
                &&& (#[trigger] windows[i]).is_main(pid)
                &&& windows[i].handle == handle
                &&& forall|j: int| 0 <= j < i ==> !(#[trigger] windows[j]).is_main(pid)
            };
        assert(windows[i].handle == handle);
    }
}

/// A process has a main window or it has none, and no more than one is found.
pub proof fn one_main_window_at_most(windows: Seq<Window>, pid: u32, one: u64, other: u64)
    requires
        is_main_window(windows, pid, one),
    ensures
        !has_no_main_window(windows, pid),
        is_main_window(windows, pid, other) ==> one == other,
{
}

/// A window is put on top and then asked to the front, in that order and once
/// each. It is restored before that exactly where it is minimised, and the input
/// of the thread in front is shared around all of it exactly where there is such
/// a thread and it is another one.
pub proof fn what_brings_a_window_to_the_front(
    front_thread: u32,
    our_thread: u32,
    minimised: bool,
)
    ensures
        ({
            let actions = foreground_actions(front_thread, our_thread, minimised);
            let shared = front_thread != 0 && front_thread != our_thread;
            let before: int = if shared {
                1
            } else {
                0
            };
            let top: int = if minimised {
                before + 1
            } else {
                before
            };
            &&& actions.len() == top + 2 + before
            &&& shared ==> actions[0] == ForegroundAction::Attach && actions.last()
                == ForegroundAction::Detach
            &&& minimised ==> actions[before] == ForegroundAction::Restore
            &&& actions[top] == ForegroundAction::BringToTop
            &&& actions[top + 1] == ForegroundAction::SetForeground
        }),
{
}

/// The held keys go down one by one in their order, then the key itself; the
/// same keys come up afterwards, the key itself first and the held ones from the
/// last to the first.
pub proof fn chord_presses_in_order(held: Seq<u8>, key: u8, i: int)
    requires
        0 <= i < held.len(),
    ensures
        ({
            let steps = chord(held, key);
            let count = held.len() as int;
            &&& steps.len() == 2 * count + 2
            &&& steps[i] == KeyStep { key: held[i], up: false }
            &&& steps[count] == KeyStep { key, up: false }
            &&& steps[count + 1] == KeyStep { key, up: true }
            &&& steps[2 * count + 1 - i] == KeyStep { key: held[i], up: true }
        }),
{
}

/// A key without held ones is just pressed and let go.
pub proof fn a_bare_key_is_two_events(key: u8)
    ensures
        chord(seq![], key) == seq![KeyStep { key, up: false }, KeyStep { key, up: true }],
{
    assert(chord(seq![], key) =~= seq![KeyStep { key, up: false }, KeyStep { key, up: true }]);
}

/// The times of steering a window, in milliseconds, and the rights and the exit
/// code that go with a process.
pub proof fn times_and_rights_on_windows()
    ensures
        FOCUS_DEADLINE == 5000,
        FOCUS_POLL == 100,
        KEYSTROKE_FOCUS_POLL == 50,
        INPUT_READY == 120,
        KEY_GAP == 40,
        INPUT_HOLD == 400,
        TRACKING_ACCESS == 0x0010_0000 + 0x1000 + 0x0100 + 0x0001,
        KILLED_CODE == 1,
{
}

/// The main window that is found is the first visible window of the process
/// that no other window owns and that has a title; windows of other processes,
/// hidden ones, owned ones and those without a title do not count.
pub proof fn the_main_window_of_a_process_is_found(
    windows: Vec<Window>,
    pid: u32,
    found: Option<u64>,
)
    requires
        call_ensures(find_main_window_by_pid, (&windows, pid), found),
    ensures
        match found {
            Some(handle) => exists|i: int|
                {
                    &&& 0 <= i < windows@.len()
                    &&& (#[trigger] windows@[i]).handle == handle
                    &&& windows@[i].pid == pid
                    &&& windows@[i].visible
                    &&& !windows@[i].owned
                    &&& windows@[i].title_len > 0
                    &&& forall|j: int|
                        0 <= j < i ==> !((#[trigger] windows@[j]).pid == pid && windows@[j].visible
                            && !windows@[j].owned && windows@[j].title_len > 0)
                },
            None => forall|i: int|
                0 <= i < windows@.len() ==> !((#[trigger] windows@[i]).pid == pid
                    && windows@[i].visible && !windows@[i].owned && windows@[i].title_len > 0),
        },
{
    match found {
        Some(handle) => {
            let i = choose|i: int|
                {
                    &&& 0 <= i < windows@.len()
                    &&& (#[trigger] windows@[i]).is_main(pid)
                    &&& windows@[i].handle == handle
                    &&& forall|j: int| 0 <= j < i ==> !(#[trigger] windows@[j]).is_main(pid)
                };
            assert(windows@[i].handle == handle);
            assert forall|j: int| 0 <= j < i implies !((#[trigger] windows@[j]).pid == pid
                && windows@[j].visible && !windows@[j].owned && windows@[j].title_len > 0) by {
                assert(!windows@[j].is_main(pid));
            }
        },
        None => {
            assert forall|i: int| 0 <= i < windows@.len() implies !((
            #[trigger] windows@[i]).pid == pid && windows@[i].visible && !windows@[i].owned
                && windows@[i].title_len > 0) by {
                assert(!windows@[i].is_main(pid));
            }
        },
    }
}

/// The foreground is asked for until the process is in front, for five seconds;
/// while a key waits to be typed just the same.
pub proof fn focus_is_asked_for_five_seconds(
    handle: WindowsHandle,
    front: u32,
    elapsed: u64,
    step: FocusStep,
    typing: FocusStep,
)
    requires
        call_ensures(WindowsHandle::focus, (&handle, front, elapsed), step),
        call_ensures(WindowsHandle::focus_for_keystroke, (&handle, front, elapsed), typing),
    ensures
        step is Focused <==> front == handle.pid,
        step is AskAgain <==> front != handle.pid && elapsed < 5000,
        step is Failed <==> front != handle.pid && elapsed >= 5000,
        typing is Focused <==> step is Focused,
        typing is AskAgain <==> step is AskAgain,
        typing is Failed <==> step is Failed,
{
}

/// The focus goes back to the window that had it, unless none had it or it is
/// the very window that was typed into; only a process that runs is ended by
/// force.
pub proof fn what_is_left_to_do(
    previous: u64,
    target: u64,
    gives: bool,
    state: HandleState,
    must: bool,
)
    requires
        call_ensures(gives_focus_back, (previous, target), gives),
        call_ensures(must_terminate, (state,), must),
    ensures
        gives <==> previous != 0 && previous != target,
        must <==> state == HandleState::Running,
{
}

/// A key that Windows knows is typed with the held modifiers around it, each of
/// which goes down before it and comes up after it.
pub proof fn a_key_is_typed_inside_its_modifiers(
    handle: WindowsHandle,
    code: Code,
    modifiers: Modifiers,
    steps: Result<Vec<KeyStep>, Error>,
)
    requires
        call_ensures(WindowsHandle::send_keystroke, (&handle, &code, modifiers), steps),
    ensures
        steps is Ok <==> code.windows_key() is Some,
        steps matches Err(error) ==> error@ == ErrorView::Unsupported,
        steps matches Ok(list) ==> {
            let held = modifier_keys(modifiers);
            let count = held.len() as int;
            &&& list@.len() == 2 * count + 2
            &&& code.windows_key() == Some(list@[count].key)
            &&& !list@[count].up && list@[count + 1].up
            &&& list@[count + 1].key == list@[count].key
            &&& forall|i: int|
                0 <= i < count ==> {
                    &&& (#[trigger] held[i]) == list@[i].key
                    &&& !list@[i].up
                    &&& list@[2 * count + 1 - i].key == held[i]
                    &&& list@[2 * count + 1 - i].up
                }
        },
{
    if let Ok(list) = steps {
        let held = modifier_keys(modifiers);
        let count = held.len() as int;
        let key = code.windows_key()->0;
        assert(list@ == chord(held, key));
        assert(list@[count] == KeyStep { key, up: false });
        assert(list@[count + 1] == KeyStep { key, up: true });
        assert forall|i: int| 0 <= i < count implies {
            &&& (#[trigger] held[i]) == list@[i].key
            &&& !list@[i].up
            &&& list@[2 * count + 1 - i].key == held[i]
            &&& list@[2 * count + 1 - i].up
        } by {
            chord_presses_in_order(held, key, i);
        }
    }
}

/// A request for the foreground that failed names the process that was to come
/// to the front and the one that is there; an application without a window is
/// told apart from that.
pub proof fn failed_focus_names_both_processes(
    handle: WindowsHandle,
    front: u32,
    elapsed: u64,
    step: FocusStep,
    typing: FocusStep,
    missing: Error,
)
    requires
        call_ensures(WindowsHandle::focus, (&handle, front, elapsed), step),
        call_ensures(WindowsHandle::focus_for_keystroke, (&handle, front, elapsed), typing),
        call_ensures(no_window, (), missing),
    ensures
        missing@ == ErrorView::Platform("no window found for process"@),
        step matches FocusStep::Failed(error) ==> error@ == ErrorView::Platform(
            "focus: pid "@ + decimal(handle.pid as nat)
                + " not foreground after 5s (foreground was pid "@ + decimal(front as nat) + ")"@,
        ),
        typing matches FocusStep::Failed(error) ==> error@ == ErrorView::Platform(
            "send_keystroke: target pid "@ + decimal(handle.pid as nat) + " not foreground (was "@
                + decimal(front as nat) + ")"@,
        ),
{
}

} // verus!
