//! The handle to a running application.
use vstd::prelude::*;

use crate::error::{Error, ErrorView, IoErrorKind};
use crate::exit::{make_exit_status, ExitEvent, ExitState, ExitStatus};
use crate::keys::{cg_flags, Code, Modifiers};
use crate::macos::{key_press, route_to, FocusPlan, KeyPost, MacOSHandle};
use crate::stream::{ChildStderr, ChildStdout};
use crate::windows::{
    find_main_window_by_pid, has_no_main_window, is_main_window, no_window, Window,
};

verus! {

/// The platforms that differ in how applications are launched and steered.
#[derive(Debug, Clone, Copy, PartialEq, Eq, Structural)]
pub enum Platform {
    MacOs,
    Windows,
    Other,
}

/// Why an operation on a process failed.
pub enum IoFailure {
    /// The system refused, with this error number.
    Os(Option<i32>),
    /// The operation failed in another way.
    Other(IoErrorKind, String),
}

/// An [`IoFailure`], with its text as a sequence.
pub enum IoFailureView {
    Os(Option<i32>),
    Other(IoErrorKind, Seq<char>),
}

impl View for IoFailure {
    type V = IoFailureView;

    open spec fn view(&self) -> IoFailureView {
        match self {
            IoFailure::Os(code) => IoFailureView::Os(*code),
            IoFailure::Other(kind, text) => IoFailureView::Other(*kind, text@),
        }
    }
}

/// What a process said to a signal: the return value of `kill` and, where that
/// is not zero, the error number.
#[derive(Debug, Clone, Copy, PartialEq, Eq, Structural)]
pub struct SignalReply {
    pub ret: i32,
    pub errno: Option<i32>,
}

/// What a look at a process handle found.
#[derive(Debug, Clone, Copy, PartialEq, Eq, Structural)]
pub enum HandleState {
    /// The process runs.
    Running,
    /// The process has ended, with this exit code where it could be learned.
    Ended(Option<u32>),
    /// The handle could not be looked at.
    Unknown,
}

/// What asking a process to end came to.
#[derive(Debug, Clone, Copy, PartialEq, Eq, Structural)]
pub enum KillReply {
    /// It was sent the signal that ends it.
    Signal(SignalReply),
    /// The state of its handle, and whether ending it worked where it ran.
    Handle(HandleState, bool),
    /// There is no way to end it on this platform.
    Unsupported,
}

/// What asking for the end of a process came to.
#[derive(Debug, Clone, Copy, PartialEq, Eq, Structural)]
pub enum WaitReply {
    /// It was sent the signal that does nothing.
    Signal(SignalReply),
    /// The state of its handle.
    Handle(HandleState),
    /// There is no way to find out on this platform.
    Unsupported,
}

/// What to do while waiting for the end of a process.
pub enum WaitStep {
    /// It has ended.
    Done(ExitStatus),
    /// Waiting makes no sense any more.
    Failed(IoFailure),
    /// Ask again after [`WAIT_POLL`] milliseconds.
    AskAgain,
}

/// The pause between two questions for the end of a process, in milliseconds.
pub const WAIT_POLL: u64 = 100;

/// The error number for a process that does not exist.
pub const NO_SUCH_PROCESS: i32 = 3;

/// Reads `libc::ESRCH`. It is 3 on macOS, the one platform on which processes
/// are sent signals here, as it is on Linux and Windows.
#[verifier::external_body]
fn no_such_process() -> (code: i32)
    ensures
        code == NO_SUCH_PROCESS,
{
    libc::ESRCH
}

impl SignalReply {
    /// The process does not exist.
    pub open spec fn says_gone(&self) -> bool {
        self.ret != 0 && self.errno == Some(NO_SUCH_PROCESS)
    }

    fn is_gone(&self) -> (gone: bool)
        ensures
            gone == self.says_gone(),
    {
        self.ret != 0 && match self.errno {
            Some(code) => code == no_such_process(),
            None => false,
        }
    }
}

fn failed(text: &str) -> (failure: IoFailure)
    ensures
        failure@ == IoFailureView::Other(IoErrorKind::Other, text@),
{
    IoFailure::Other(IoErrorKind::Other, text.to_string())
}

fn unsupported() -> (failure: IoFailure)
    ensures
        failure@ == IoFailureView::Other(IoErrorKind::Unsupported, "unsupported platform"@),
{
    IoFailure::Other(IoErrorKind::Unsupported, "unsupported platform".to_string())
}

/// Whether asking a process to end succeeded. A process that has already ended
/// counts as ended.
pub open spec fn kill_outcome(reply: KillReply) -> Result<(), IoFailureView> {
    match reply {
        KillReply::Signal(signal) => if signal.ret == 0 || signal.says_gone() {
            Ok(())
        } else {
            Err(IoFailureView::Os(signal.errno))
        },
        KillReply::Handle(state, ended) => if state != HandleState::Running || ended {
            Ok(())
        } else {
            Err(IoFailureView::Other(IoErrorKind::Other, "TerminateProcess failed"@))
        },
        KillReply::Unsupported => Err(
            IoFailureView::Other(IoErrorKind::Unsupported, "unsupported platform"@),
        ),
    }
}

/// How a process ended, or `None` while it runs. The real status cannot be
/// learned through a signal: a process that is gone counts as successful.
pub open spec fn wait_outcome(reply: WaitReply) -> Result<Option<ExitStatus>, IoFailureView> {
    match reply {
        WaitReply::Signal(signal) => if signal.ret == 0 {
            Ok(None)
        } else if signal.says_gone() {
            Ok(Some(ExitStatus { raw: 0 }))
        } else {
            Err(IoFailureView::Os(signal.errno))
        },
        WaitReply::Handle(HandleState::Running) => Ok(None),
        WaitReply::Handle(HandleState::Ended(Some(code))) => Ok(Some(ExitStatus { raw: code })),
        WaitReply::Handle(HandleState::Ended(None)) => Err(
            IoFailureView::Other(IoErrorKind::Other, "GetExitCodeProcess failed"@),
        ),
        WaitReply::Handle(HandleState::Unknown) => Err(
            IoFailureView::Other(IoErrorKind::Other, "WaitForSingleObject failed"@),
        ),
        WaitReply::Unsupported => Err(
            IoFailureView::Other(IoErrorKind::Unsupported, "unsupported platform"@),
        ),
    }
}

/// A result, with its error as a view.
pub open spec fn result_view<T>(result: Result<T, IoFailure>) -> Result<T, IoFailureView> {
    match result {
        Ok(value) => Ok(value),
        Err(failure) => Err(failure@),
    }
}

/// Whether asking a process to end succeeded.
pub fn kill_result(reply: KillReply) -> (outcome: Result<(), IoFailure>)
    ensures
        result_view(outcome) == kill_outcome(reply),
{
    match reply {
        KillReply::Signal(signal) => {
            if signal.ret == 0 || signal.is_gone() {
                Ok(())
            } else {
                Err(IoFailure::Os(signal.errno))
            }
        },
        KillReply::Handle(state, ended) => {
            if state != HandleState::Running || ended {
                Ok(())
            } else {
                Err(failed("TerminateProcess failed"))
            }
        },
        KillReply::Unsupported => Err(unsupported()),
    }
}

/// How a process ended, or `None` while it runs.
pub fn wait_result(reply: WaitReply) -> (outcome: Result<Option<ExitStatus>, IoFailure>)
    ensures
        result_view(outcome) == wait_outcome(reply),
{
    match reply {
        WaitReply::Signal(signal) => {
            if signal.ret == 0 {
                Ok(None)
            } else if signal.is_gone() {
                let status = make_exit_status(0);
                Ok(Some(status))
            } else {
                Err(IoFailure::Os(signal.errno))
            }
        },
        WaitReply::Handle(HandleState::Running) => Ok(None),
        WaitReply::Handle(HandleState::Ended(Some(code))) => Ok(Some(ExitStatus { raw: code })),
        WaitReply::Handle(HandleState::Ended(None)) => Err(failed("GetExitCodeProcess failed")),
        WaitReply::Handle(HandleState::Unknown) => Err(failed("WaitForSingleObject failed")),
        WaitReply::Unsupported => Err(unsupported()),
    }
}

/// What was seen of an application that is to come to the front.
pub enum FocusLook {
    /// Whether it has terminated, and whether it is hidden.
    MacOs { terminated: bool, hidden: bool },
    /// The top-level windows of the desktop.
    Windows(Vec<Window>),
    /// There is no way to look on this platform.
    Other,
}

/// How to start bringing an application to the front.
#[derive(Debug, Clone, Copy, PartialEq, Eq, Structural)]
pub enum FocusStart {
    /// Follow the plan and activate the application with all its windows.
    Activate(FocusPlan),
    /// Ask for the foreground for this window until it is in front.
    Foreground(u64),
}

/// A running application.
pub struct Child {
    /// The process identifier.
    pub pid: u32,
    /// The captured output, where the launch asked for it.
    pub stdout: Option<ChildStdout>,
    /// The captured error output, where the launch asked for it.
    pub stderr: Option<ChildStderr>,
    /// There is a handle through which the application can be steered.
    pub gui: bool,
}

impl Child {
    /// The application with this identifier. `gui` tells whether there is a
    /// handle through which it can be steered.
    pub fn new(
        pid: u32,
        stdout: Option<ChildStdout>,
        stderr: Option<ChildStderr>,
        gui: bool,
    ) -> (child: Child)
        ensures
            child == (Child { pid, stdout, stderr, gui }),
    {
        Child { pid, stdout, stderr, gui }
    }

    /// The process identifier.
    pub fn id(&self) -> (pid: u32)
        ensures
            pid == self.pid,
    {
        self.pid
    }

    /// Takes in what asking the process to end came to.
    pub fn kill(&mut self, reply: KillReply) -> (outcome: Result<(), IoFailure>)
        ensures
            result_view(outcome) == kill_outcome(reply),
            *final(self) == *old(self),
    {
        kill_result(reply)
    }

    /// Takes in what asking for the end of the process came to: its status, or
    /// `None` while it runs.
    pub fn try_wait(&mut self, reply: WaitReply) -> (outcome: Result<
        Option<ExitStatus>,
        IoFailure,
    >)
        ensures
            result_view(outcome) == wait_outcome(reply),
            *final(self) == *old(self),
    {
        wait_result(reply)
    }

    /// Takes in what asking for the end of the process came to, while waiting
    /// for it.
    pub fn wait(&mut self, reply: WaitReply) -> (step: WaitStep)
        ensures
            *final(self) == *old(self),
            match wait_outcome(reply) {
                Ok(Some(status)) => step == WaitStep::Done(status),
                Ok(None) => step is AskAgain,
                Err(view) => step matches WaitStep::Failed(failure) && failure@ == view,
            },
    {
        match self.try_wait(reply) {
            Ok(Some(status)) => WaitStep::Done(status),
            Ok(None) => WaitStep::AskAgain,
            Err(failure) => WaitStep::Failed(failure),
        }
    }

    /// Registers a callback for the end of the process, whose state is `state`.
    /// Where the process has already ended, the callback is handed back, to be
    /// called at once with the status that comes with it.
    pub fn on_exit<C>(&self, state: &mut ExitState<C>, callback: C) -> (due: Option<
        (C, ExitStatus),
    >)
        ensures
            final(state)@ == old(state)@.after(ExitEvent::Register(callback)),
            match due {
                Some(pair) => old(state)@.called(ExitEvent::Register(callback)) == seq![pair],
                None => old(state)@.called(ExitEvent::Register(callback)).len() == 0,
            },
    {
        state.on_exit(callback)
    }

    /// How to start bringing the application to the front.
    pub fn focus(&self, look: &FocusLook) -> (start: Result<FocusStart, Error>)
        ensures
            match look {
                FocusLook::MacOs { terminated, hidden } => if !self.gui {
                    start matches Err(error) && error@ == ErrorView::Platform(
                        "no GUI handle available"@,
                    )
                } else if *terminated {
                    start matches Err(error) && error@ == ErrorView::Terminated
                } else {
                    start == Ok::<_, Error>(FocusStart::Activate(FocusPlan { unhide: *hidden }))
                },
                FocusLook::Windows(windows) => match start {
                    Ok(FocusStart::Foreground(handle)) => is_main_window(
                        windows@,
                        self.pid,
                        handle,
                    ),
                    Ok(_) => false,
                    Err(error) => error@ == ErrorView::Platform("no window found for process"@)
                        && has_no_main_window(windows@, self.pid),
                },
                FocusLook::Other => start matches Err(error) && error@ == ErrorView::Unsupported,
            },
    {
        match look {
            FocusLook::MacOs { terminated, hidden } => {
                if !self.gui {
                    return Err(Error::Platform("no GUI handle available".to_string()));
                }
                let handle = MacOSHandle { pid: self.pid };
                match handle.focus(*terminated, *hidden) {
                    Ok(plan) => Ok(FocusStart::Activate(plan)),
                    Err(error) => Err(error),
                }
            },
            FocusLook::Windows(windows) => match find_main_window_by_pid(windows, self.pid) {
                Some(handle) => Ok(FocusStart::Foreground(handle)),
                None => Err(no_window()),
            },
            FocusLook::Other => Err(Error::Unsupported),
        }
    }

    /// The events that type the key in the application with the modifiers
    /// held, in order. On macOS the application need not be in front;
    /// `frontmost` is the process that is. On the other platforms there is no
    /// such way to type.
    pub fn send_keystroke(
        &self,
        platform: Platform,
        code: &Code,
        modifiers: Modifiers,
        frontmost: Option<i32>,
    ) -> (posts: Result<Vec<KeyPost>, Error>)
        ensures
            match platform {
                Platform::MacOs => if !self.gui {
                    posts matches Err(error) && error@ == ErrorView::Platform(
                        "no GUI handle available"@,
                    )
                } else {
                    match code.macos_keycode() {
                        Some(keycode) => posts matches Ok(list) && list@ == key_press(
                            keycode,
                            cg_flags(modifiers) as u64,
                            route_to(self.pid, frontmost),
                        ),
                        None => posts matches Err(error) && error@ == ErrorView::Platform(
                            "unsupported key: "@ + code.spelling(),
                        ),
                    }
                },
                _ => posts matches Err(error) && error@ == ErrorView::Unsupported,
            },
    {
        match platform {
            Platform::MacOs => {
                if !self.gui {
                    return Err(Error::Platform("no GUI handle available".to_string()));
                }
                let handle = MacOSHandle { pid: self.pid };
                handle.send_keystroke(code, modifiers, frontmost)
            },
            _ => Err(Error::Unsupported),
        }
    }
}

/// A process that no longer exists counts as ended: asking it to end succeeds,
/// and waiting for it gives success.
pub proof fn a_process_that_is_gone_has_ended(signal: SignalReply)
    requires
        signal.says_gone(),
    ensures
        kill_outcome(KillReply::Signal(signal)) == Ok::<_, IoFailureView>(()),
        wait_outcome(WaitReply::Signal(signal)) == Ok::<_, IoFailureView>(
            Some(ExitStatus { raw: 0 }),
        ),
{
}

/// Waiting for a process reports its end only where it does not run any more.
pub proof fn a_running_process_has_not_ended(reply: WaitReply)
    requires
        reply matches WaitReply::Signal(signal) ==> signal.ret == 0,
        reply matches WaitReply::Handle(state) ==> state == HandleState::Running,
        !(reply is Unsupported),
    ensures
        wait_outcome(reply) == Ok::<_, IoFailureView>(None::<ExitStatus>),
{
}

/// What asking for the end of a process comes to, reply by reply: a process that
/// runs has not ended, one whose exit code is known ended with exactly that code,
/// and one that a signal does not find ended with success.
pub proof fn waiting_tells_how_a_process_ended(
    code: u32,
    ret: i32,
    errno: Option<i32>,
)
    ensures
        wait_outcome(WaitReply::Handle(HandleState::Ended(Some(code)))) == Ok::<_, IoFailureView>(
            Some(ExitStatus { raw: code }),
        ),
        wait_outcome(WaitReply::Handle(HandleState::Running)) == Ok::<_, IoFailureView>(
            None::<ExitStatus>,
        ),
        ({
            let reply = WaitReply::Signal(SignalReply { ret, errno });
            &&& ret == 0 ==> wait_outcome(reply) == Ok::<_, IoFailureView>(None::<ExitStatus>)
            &&& ret != 0 && errno == Some(3i32) ==> wait_outcome(reply) == Ok::<_, IoFailureView>(
                Some(ExitStatus { raw: 0 }),
            )
            &&& ret != 0 && errno != Some(3i32) ==> wait_outcome(reply) == Err::<
                Option<ExitStatus>,
                _,
            >(IoFailureView::Os(errno))
        }),
{
}

/// The exit codes that waiting reports differ where those of the processes do.
pub proof fn waiting_tells_exit_codes_apart(one: u32, other: u32)
    requires
        wait_outcome(WaitReply::Handle(HandleState::Ended(Some(one)))) == wait_outcome(
            WaitReply::Handle(HandleState::Ended(Some(other))),
        ),
    ensures
        one == other,
{
}

/// Where waiting cannot tell, it says what failed.
pub proof fn waiting_tells_what_failed()
    ensures
        wait_outcome(WaitReply::Handle(HandleState::Ended(None))) == Err::<Option<ExitStatus>, _>(
            IoFailureView::Other(IoErrorKind::Other, "GetExitCodeProcess failed"@),
        ),
        wait_outcome(WaitReply::Handle(HandleState::Unknown)) == Err::<Option<ExitStatus>, _>(
            IoFailureView::Other(IoErrorKind::Other, "WaitForSingleObject failed"@),
        ),
        wait_outcome(WaitReply::Unsupported) == Err::<Option<ExitStatus>, _>(
            IoFailureView::Other(IoErrorKind::Unsupported, "unsupported platform"@),
        ),
{
}

/// Asking a process to end fails only where the process is still there and could
/// not be ended; the reason is then the one that the system gave.
pub proof fn ending_fails_only_for_a_process_that_stays(
    ret: i32,
    errno: Option<i32>,
    state: HandleState,
    ended: bool,
)
    ensures
        ({
            let reply = KillReply::Signal(SignalReply { ret, errno });
            &&& ret == 0 || errno == Some(3i32) ==> kill_outcome(reply) == Ok::<_, IoFailureView>(
                (),
            )
            &&& ret != 0 && errno != Some(3i32) ==> kill_outcome(reply) == Err::<(), _>(
                IoFailureView::Os(errno),
            )
        }),
        kill_outcome(KillReply::Handle(state, ended)) is Err <==> state == HandleState::Running
            && !ended,
        kill_outcome(KillReply::Handle(HandleState::Running, false)) == Err::<(), _>(
            IoFailureView::Other(IoErrorKind::Other, "TerminateProcess failed"@),
        ),
        kill_outcome(KillReply::Unsupported) == Err::<(), _>(
            IoFailureView::Other(IoErrorKind::Unsupported, "unsupported platform"@),
        ),
{
}

/// A result is viewed as the result that it is, and a failure as its number or
/// its kind and text.
pub proof fn results_are_viewed_as_they_are(
    status: Option<ExitStatus>,
    code: Option<i32>,
    kind: IoErrorKind,
    text: String,
)
    ensures
        result_view(Ok::<_, IoFailure>(status)) == Ok::<_, IoFailureView>(status),
        result_view(Ok::<_, IoFailure>(())) == Ok::<_, IoFailureView>(()),
        result_view(Err::<(), _>(IoFailure::Os(code))) == Err::<(), _>(IoFailureView::Os(code)),
        result_view(Err::<(), _>(IoFailure::Other(kind, text))) == Err::<(), _>(
            IoFailureView::Other(kind, text@),
        ),
        result_view(Err::<Option<ExitStatus>, _>(IoFailure::Os(code))) == Err::<
            Option<ExitStatus>,
            _,
        >(IoFailureView::Os(code)),
        result_view(Err::<Option<ExitStatus>, _>(IoFailure::Other(kind, text))) == Err::<
            Option<ExitStatus>,
            _,
        >(IoFailureView::Other(kind, text@)),
{
}

/// Whoever waits on a process handle is told the exit code of the process, every
/// one as it is, and is told of an end only where there was one.
pub proof fn an_exit_code_is_reported_as_it_is(
    state: HandleState,
    outcome: Result<Option<ExitStatus>, IoFailure>,
)
    requires
        call_ensures(wait_result, (WaitReply::Handle(state),), outcome),
    ensures
        match state {
            HandleState::Ended(Some(code)) => outcome == Ok::<_, IoFailure>(
                Some(ExitStatus { raw: code }),
            ),
            HandleState::Running => outcome == Ok::<_, IoFailure>(None::<ExitStatus>),
            _ => outcome is Err,
        },
{
}

/// Whoever asks through signals is told that a process runs where the signal
/// reached it, that it succeeded where there is no such process, and else the
/// error number of the system.
pub proof fn a_signal_tells_whether_a_process_is_there(
    ret: i32,
    errno: Option<i32>,
    waited: Result<Option<ExitStatus>, IoFailure>,
    killed: Result<(), IoFailure>,
)
    requires
        call_ensures(wait_result, (WaitReply::Signal(SignalReply { ret, errno }),), waited),
        call_ensures(kill_result, (KillReply::Signal(SignalReply { ret, errno }),), killed),
    ensures
        ret == 0 ==> waited == Ok::<_, IoFailure>(None::<ExitStatus>) && killed is Ok,
        ret != 0 && errno == Some(3i32) ==> waited == Ok::<_, IoFailure>(
            Some(ExitStatus { raw: 0 }),
        ) && killed is Ok,
        ret != 0 && errno != Some(3i32) ==> {
            &&& waited matches Err(IoFailure::Os(code)) && code == errno
            &&& killed matches Err(IoFailure::Os(code)) && code == errno
        },
{
}

/// Ending a process through its handle fails exactly where the process runs and
/// could not be ended.
pub proof fn ending_through_a_handle(
    state: HandleState,
    ended: bool,
    outcome: Result<(), IoFailure>,
)
    requires
        call_ensures(kill_result, (KillReply::Handle(state, ended),), outcome),
    ensures
        outcome is Err <==> state == HandleState::Running && !ended,
{
}

/// The pause between two questions, and the number for a process that is not
/// there.
pub proof fn times_and_numbers_of_waiting()
    ensures
        WAIT_POLL == 100,
        NO_SUCH_PROCESS == 3,
{
}

/// An application on macOS is activated exactly where it can be steered and has
/// not terminated, and is shown first exactly where it is hidden.
pub proof fn how_focusing_starts_on_macos(
    child: Child,
    terminated: bool,
    hidden: bool,
    start: Result<FocusStart, Error>,
)
    requires
        call_ensures(Child::focus, (&child, &(FocusLook::MacOs { terminated, hidden })), start),
    ensures
        start is Ok <==> child.gui && !terminated,
        start matches Ok(how) ==> (how matches FocusStart::Activate(plan) && plan.unhide == hidden),
        child.gui && terminated ==> (start matches Err(error) && error@ == ErrorView::Terminated),
{
}

/// An application on Windows is brought to the front by its main window, and not
/// at all where it has none.
pub proof fn how_focusing_starts_on_windows(
    child: Child,
    windows: Vec<Window>,
    start: Result<FocusStart, Error>,
)
    requires
        call_ensures(Child::focus, (&child, &FocusLook::Windows(windows)), start),
    ensures
        start is Ok <==> exists|i: int|
            0 <= i < windows@.len() && (#[trigger] windows@[i]).is_main(child.pid),
        start matches Ok(how) ==> (how matches FocusStart::Foreground(handle) && is_main_window(
            windows@,
            child.pid,
            handle,
        )),
{
    if let Ok(FocusStart::Foreground(handle)) = start {
        let i = choose|i: int|
            {
                &&& 0 <= i < windows@.len()
                &&& (#[trigger] windows@[i]).is_main(child.pid)
                &&& windows@[i].handle == handle
                &&& forall|j: int| 0 <= j < i ==> !(#[trigger] windows@[j]).is_main(child.pid)
            };
        assert(windows@[i].is_main(child.pid));
    }
}

/// A key is typed on macOS where the application can be steered and the key has
/// a code there, by one press and one release; nowhere else.
pub proof fn where_a_key_can_be_typed(
    child: Child,
    platform: Platform,
    code: Code,
    modifiers: Modifiers,
    frontmost: Option<i32>,
    posts: Result<Vec<KeyPost>, Error>,
)
    requires
        call_ensures(
            Child::send_keystroke,
            (&child, platform, &code, modifiers, frontmost),
            posts,
        ),
    ensures
        posts is Ok <==> platform == Platform::MacOs && child.gui && code.macos_keycode() is Some,
        posts matches Ok(list) ==> {
            &&& list@.len() == 2
            &&& list@[0].down && !list@[1].down
            &&& list@[0].keycode == code.macos_keycode()->0
            &&& list@[1].keycode == code.macos_keycode()->0
            &&& list@[0].flags == cg_flags(modifiers) as u64
            &&& list@[1].flags == list@[0].flags
            &&& list@[1].route == list@[0].route
        },
{
}

/// Waiting for an application through its handle is done exactly where the
/// application has ended, with its exit code, every one as it is; the application
/// stays what it was.
pub proof fn waiting_is_done_with_the_exit_code(
    child: &mut Child,
    state: HandleState,
    step: WaitStep,
)
    requires
        call_ensures(Child::wait, (child, WaitReply::Handle(state)), step),
    ensures
        *final(child) == *old(child),
        match state {
            HandleState::Ended(Some(code)) => step == WaitStep::Done(ExitStatus { raw: code }),
            HandleState::Running => step is AskAgain,
            _ => step is Failed,
        },
{
}

/// Asking once for the end of an application gives its exit code, every one as
/// it is, and nothing while it runs.
pub proof fn asking_gives_the_exit_code(
    child: &mut Child,
    state: HandleState,
    outcome: Result<Option<ExitStatus>, IoFailure>,
)
    requires
        call_ensures(Child::try_wait, (child, WaitReply::Handle(state)), outcome),
    ensures
        *final(child) == *old(child),
        match state {
            HandleState::Ended(Some(code)) => outcome == Ok::<_, IoFailure>(
                Some(ExitStatus { raw: code }),
            ),
            HandleState::Running => outcome == Ok::<_, IoFailure>(None::<ExitStatus>),
            _ => outcome is Err,
        },
{
}

} // verus!
