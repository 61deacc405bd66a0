//! What a platform is to do for a launch, and what to make of how it went.
use vstd::prelude::*;
use vstd::utf8::encode_utf8;

use crate::bundle::BundleView;
use crate::bytes::{encoded, optional_encoded};
use crate::cmdline::{
    a_command_line_adds_no_nul, command_line, shell_line, split_line,
    splitting_gives_path_and_arguments,
};
use crate::command::{CommandView, Stdio};
use crate::error::{Error, ErrorView};
use crate::helper::{asks_for, launches, HelperRequest, ParsedView, RequestView};
use crate::text::{optional_text, texts};
use crate::wide::{utf16, utf16_lossy, wide_len, wide_round_trip};

verus! {

/// How long a launch may take, in seconds.
pub const LAUNCH_TIMEOUT: u64 = 30;

/// The process gets no console of its parent.
pub const DETACHED_PROCESS: u32 = 0x8;

/// The process leads a process group of its own.
pub const CREATE_NEW_PROCESS_GROUP: u32 = 0x200;

/// A launch of a bundle through the workspace, in an instance of its own.
pub struct BundleLaunch {
    /// The path of the bundle, as it is shown to a person.
    pub bundle: String,
    pub args: Vec<String>,
    /// A URL for the application to open.
    pub url: Option<String>,
    /// The application comes to the front.
    pub activates: bool,
    /// The application is hidden, by the launch and once more after it.
    pub hides: bool,
}

/// A launch of a bundle through the helper, which passes its output on.
pub struct HelperLaunch {
    /// What the helper is asked to do.
    pub request: HelperRequest,
    /// The arguments for the application, by which its process is recognised.
    pub args: Vec<String>,
    /// The standard output is handed to the caller.
    pub stdout: bool,
    /// The standard error is handed to the caller.
    pub stderr: bool,
}

/// A launch of a program as a process.
pub struct ProcessLaunch {
    /// The command line in UTF-16, with a zero behind it.
    pub command_line: Vec<u16>,
    /// The process only has the shell open something, and ends.
    pub via_shell: bool,
    /// The window of the application is minimised and does not come to the front.
    pub minimised: bool,
    /// The standard output is captured.
    pub stdout: bool,
    /// The standard error is captured.
    pub stderr: bool,
    pub creation_flags: u32,
    /// The application ends with the launcher.
    pub bound: bool,
}

/// What a platform is to do for a launch.
pub enum SpawnPlan {
    Bundle(BundleLaunch),
    Helper(HelperLaunch),
    Process(ProcessLaunch),
}

/// A [`SpawnPlan`], with its texts as sequences.
#[verifier::ext_equal]
pub enum PlanView {
    Bundle {
        bundle: Seq<char>,
        args: Seq<Seq<char>>,
        url: Option<Seq<char>>,
        activates: bool,
        hides: bool,
    },
    Helper { request: RequestView, args: Seq<Seq<char>>, stdout: bool, stderr: bool },
    Process {
        command_line: Seq<u16>,
        via_shell: bool,
        minimised: bool,
        stdout: bool,
        stderr: bool,
        creation_flags: u32,
        bound: bool,
    },
}

impl View for SpawnPlan {
    type V = PlanView;

    open spec fn view(&self) -> PlanView {
        match self {
            SpawnPlan::Bundle(launch) => PlanView::Bundle {
                bundle: launch.bundle@,
                args: texts(launch.args@),
                url: optional_text(launch.url),
                activates: launch.activates,
                hides: launch.hides,
            },
            SpawnPlan::Helper(launch) => PlanView::Helper {
                request: launch.request@,
                args: texts(launch.args@),
                stdout: launch.stdout,
                stderr: launch.stderr,
            },
            SpawnPlan::Process(launch) => PlanView::Process {
                command_line: launch.command_line@,
                via_shell: launch.via_shell,
                minimised: launch.minimised,
                stdout: launch.stdout,
                stderr: launch.stderr,
                creation_flags: launch.creation_flags,
                bound: launch.bound,
            },
        }
    }
}

impl CommandView {
    /// The standard output is to be captured.
    pub open spec fn pipes_stdout(self) -> bool {
        self.stdout_cfg == Some(Stdio::Piped)
    }

    /// The standard error is to be captured.
    pub open spec fn pipes_stderr(self) -> bool {
        self.stderr_cfg == Some(Stdio::Piped)
    }

    /// The shell is to open the first argument.
    pub open spec fn goes_through_shell(self) -> bool {
        self.detached && self.shell_open && self.args.len() > 0
    }

    /// What to do on macOS, for a path that is shown as `shown` and lies in
    /// the bundle `bundle`.
    pub open spec fn macos_plan(self, shown: Seq<char>, bundle: Option<BundleView>) -> Result<
        PlanView,
        ErrorView,
    > {
        match bundle {
            None => Err(ErrorView::NotFound("no .app bundle found for "@ + shown)),
            Some(bundle) => if self.pipes_stdout() || self.pipes_stderr() {
                Ok(
                    PlanView::Helper {
                        request: RequestView {
                            bundle: Some(bundle.path),
                            background: self.background,
                            detached: self.detached,
                            url: optional_encoded(self.url),
                            app_args: encoded(self.args),
                        },
                        args: self.args,
                        stdout: self.pipes_stdout(),
                        stderr: self.pipes_stderr(),
                    },
                )
            } else {
                Ok(
                    PlanView::Bundle {
                        bundle: bundle.shown,
                        args: self.args,
                        url: self.url,
                        activates: !self.background,
                        hides: self.background,
                    },
                )
            },
        }
    }

    /// What to do on Windows, for a program whose path is shown as `shown`.
    /// Where the shell is to open the first argument no output is captured: the
    /// process that could be captured is not the application.
    pub open spec fn windows_plan(self, shown: Seq<char>) -> PlanView {
        PlanView::Process {
            command_line: utf16(
                if self.goes_through_shell() {
                    shell_line(self.args[0])
                } else {
                    command_line(shown, self.args)
                },
            ).push(0),
            via_shell: self.goes_through_shell(),
            minimised: self.background,
            stdout: self.pipes_stdout() && !self.goes_through_shell(),
            stderr: self.pipes_stderr() && !self.goes_through_shell(),
            creation_flags: if self.detached {
                DETACHED_PROCESS | CREATE_NEW_PROCESS_GROUP
            } else {
                0
            },
            bound: !self.detached,
        }
    }
}

/// What a launch of a bundle came to.
pub enum LaunchReply {
    /// Nothing was heard of it in time.
    TimedOut,
    /// It failed, with this description where there is one.
    Failed(Option<String>),
    /// The application runs as this process.
    Launched(i32),
}

/// The process of a bundle that was launched.
pub fn launched_process(reply: LaunchReply) -> (pid: Result<u32, Error>)
    ensures
        match reply {
            LaunchReply::TimedOut => pid matches Err(error) && error@ == ErrorView::Platform(
                "launch timed out after 30s"@,
            ),
            LaunchReply::Failed(Some(text)) => pid matches Err(error) && error@
                == ErrorView::Platform(text@),
            LaunchReply::Failed(None) => pid matches Err(error) && error@ == ErrorView::Platform(
                "unknown launch error"@,
            ),
            LaunchReply::Launched(id) => if id < 0 {
                pid matches Err(error) && error@ == ErrorView::Platform(
                    "process identifier unavailable"@,
                )
            } else {
                pid matches Ok(p) && p == id
            },
        },
{
    match reply {
        LaunchReply::TimedOut => Err(Error::Platform("launch timed out after 30s".to_string())),
        LaunchReply::Failed(Some(text)) => Err(Error::Platform(text)),
        LaunchReply::Failed(None) => Err(Error::Platform("unknown launch error".to_string())),
        LaunchReply::Launched(id) => {
            if id < 0 {
                Err(Error::Platform("process identifier unavailable".to_string()))
            } else {
                Ok(id as u32)
            }
        },
    }
}

/// Why a launch could not be carried out.
pub enum LaunchFailure {
    /// The text is no URL.
    InvalidUrl(String),
    /// The bundle does not say what its identifier is.
    NoBundleIdentifier,
    /// The helper could not be started: the program, the arguments before
    /// those of the helper, and the cause.
    HelperNotStarted(String, Vec<String>, String),
    /// The process could not be created.
    ProcessNotCreated,
    /// No pair of terminals could be opened; with the cause.
    TerminalNotOpened(String),
    /// A terminal has no name.
    TerminalUnnamed,
}

/// The texts one behind the other, with a space between two.
pub open spec fn spaced(list: Seq<Seq<char>>) -> Seq<char>
    decreases list.len(),
{
    if list.len() == 0 {
        seq![]
    } else if list.len() == 1 {
        list[0]
    } else {
        spaced(list.drop_last()) + " "@ + list.last()
    }
}

impl LaunchFailure {
    /// What went wrong, in words.
    pub open spec fn words(&self) -> Seq<char> {
        match self {
            LaunchFailure::InvalidUrl(url) => "invalid URL: "@ + url@,
            LaunchFailure::NoBundleIdentifier => "could not determine bundle ID for PID lookup"@,
            LaunchFailure::HelperNotStarted(bin, prefix, cause) => {
                "failed to spawn launch-control helper ("@ + bin@ + " "@ + spaced(texts(prefix@))
                    + "): "@ + cause@
            },
            LaunchFailure::ProcessNotCreated => "CreateProcessW failed"@,
            LaunchFailure::TerminalNotOpened(cause) => "openpty failed: "@ + cause@,
            LaunchFailure::TerminalUnnamed => "ptsname failed"@,
        }
    }

    /// The error that stands for this failure.
    pub fn error(self) -> (error: Error)
        ensures
            error@ == ErrorView::Platform(self.words()),
    {
        Error::Platform(
            match self {
                LaunchFailure::InvalidUrl(url) => "invalid URL: ".to_string().concat(url.as_str()),
                LaunchFailure::NoBundleIdentifier => {
                    "could not determine bundle ID for PID lookup".to_string()
                },
                LaunchFailure::HelperNotStarted(bin, prefix, cause) => {
                    let joined = space_out(&prefix);
                    "failed to spawn launch-control helper (".to_string().concat(
                        bin.as_str(),
                    ).concat(" ").concat(joined.as_str()).concat("): ").concat(cause.as_str())
                },
                LaunchFailure::ProcessNotCreated => "CreateProcessW failed".to_string(),
                LaunchFailure::TerminalNotOpened(cause) => "openpty failed: ".to_string().concat(
                    cause.as_str(),
                ),
                LaunchFailure::TerminalUnnamed => "ptsname failed".to_string(),
            },
        )
    }
}

/// The texts one behind the other, with a space between two.
fn space_out(list: &Vec<String>) -> (text: String)
    ensures
        text@ == spaced(texts(list@)),
{
    let mut text = String::new();
    let mut i: usize = 0;
    let ghost all = texts(list@);
    assert(all.take(0) =~= seq![]);
    while i < list.len()
        invariant
            i <= list@.len(),
            all == texts(list@),
            text@ == spaced(all.take(i as int)),
        decreases list@.len() - i,
    {
        proof {
            assert(all.take(i + 1).drop_last() =~= all.take(i as int));
            assert(all.take(i + 1).last() == list@[i as int]@);
        }
        if i > 0 {
            text.append(" ");
        }
        text.append(list[i].as_str());
        assert(text@ =~= spaced(all.take(i + 1)));
        i += 1;
    }
    assert(all.take(i as int) =~= all);
    text
}

/// Output is captured exactly where it was asked to be piped: only then does a
/// launch go through the helper, and it hands over those streams alone.
pub proof fn output_is_captured_only_when_piped(
    command: CommandView,
    shown: Seq<char>,
    bundle: BundleView,
)
    ensures
        match command.macos_plan(shown, Some(bundle)) {
            Ok(PlanView::Helper { stdout, stderr, .. }) => {
                &&& stdout == command.pipes_stdout()
                &&& stderr == command.pipes_stderr()
                &&& stdout || stderr
            },
            Ok(PlanView::Bundle { .. }) => !command.pipes_stdout() && !command.pipes_stderr(),
            _ => false,
        },
        match command.windows_plan(shown) {
            PlanView::Process { stdout, stderr, via_shell, .. } => {
                &&& stdout ==> command.pipes_stdout()
                &&& stderr ==> command.pipes_stderr()
                &&& !via_shell ==> stdout == command.pipes_stdout() && stderr
                    == command.pipes_stderr()
            },
            _ => false,
        },
{
}

/// A launch in the background never takes the focus, on either platform.
pub proof fn background_never_takes_the_focus(
    command: CommandView,
    shown: Seq<char>,
    bundle: BundleView,
)
    requires
        command.background,
    ensures
        match command.macos_plan(shown, Some(bundle)) {
            Ok(PlanView::Bundle { activates, hides, .. }) => !activates && hides,
            Ok(PlanView::Helper { request, .. }) => request.background,
            _ => false,
        },
        command.windows_plan(shown) matches PlanView::Process { minimised, .. } && minimised,
{
}

/// An application outlives its launcher exactly where it is detached: only
/// then is it not bound to the launcher's end, and only then does the helper
/// not follow it.
pub proof fn only_the_detached_outlive_the_launcher(
    command: CommandView,
    shown: Seq<char>,
    bundle: BundleView,
)
    ensures
        command.windows_plan(shown) matches PlanView::Process { bound, .. } && bound
            == !command.detached,
        command.macos_plan(shown, Some(bundle)) matches Ok(PlanView::Helper { request, .. })
            ==> request.detached == command.detached,
{
}

/// The arguments of a launch reach the application through the helper
/// unchanged: the helper reads its request back from the arguments it is
/// started with, and the last arguments that it launches the bundle with are
/// those of the launch.
pub proof fn arguments_reach_the_application(
    command: CommandView,
    shown: Seq<char>,
    bundle: BundleView,
    request: RequestView,
    stdout: Seq<u8>,
    stderr: Seq<u8>,
)
    requires
        command.macos_plan(shown, Some(bundle)) matches Ok(PlanView::Helper { request: r, .. }) && r
            == request,
    ensures
        RequestView::empty().then_read(asks_for(request)) == ParsedView::Request(request),
        encoded(command.args).is_suffix_of(launches(request, stdout, stderr)),
{
    crate::helper::helper_reads_what_was_asked(request);
    crate::helper::application_gets_its_arguments(request, stdout, stderr);
}

/// A URL is opened through the application whether or not its output is
/// captured: no plan leaves it out.
pub proof fn a_url_is_never_dropped(
    command: CommandView,
    shown: Seq<char>,
    bundle: BundleView,
    stdout: Seq<u8>,
    stderr: Seq<u8>,
)
    requires
        command.url is Some,
    ensures
        match command.macos_plan(shown, Some(bundle)) {
            Ok(PlanView::Bundle { url, .. }) => url == command.url,
            Ok(PlanView::Helper { request, .. }) => {
                &&& request.url == Some(encode_utf8(command.url->0))
                &&& launches(request, stdout, stderr).contains(encode_utf8(command.url->0))
            },
            _ => false,
        },
{
    if let Ok(PlanView::Helper { request, .. }) = command.macos_plan(shown, Some(bundle)) {
        let all = launches(request, stdout, stderr);
        crate::helper::application_gets_its_url(request, request.url->0, stdout, stderr);
        let at: int = if request.background {
            10
        } else {
            8
        };
        assert(all[at] == request.url->0);
    }
}

/// On Windows an application gets its path and its arguments: reading the
/// command line of the plan up to its zero and splitting it gives them back,
/// unchanged and in order. Neither can hold a NUL character there, and a path
/// cannot hold a quotation mark.
pub proof fn windows_gives_the_application_its_arguments(command: CommandView, shown: Seq<char>)
    requires
        !command.goes_through_shell(),
        !shown.contains('"'),
        !shown.contains('\0'),
        forall|i: int| 0 <= i < command.args.len() ==> !(#[trigger] command.args[i]).contains('\0'),
    ensures
        command.windows_plan(shown) matches PlanView::Process { command_line: units, .. }
            && split_line(utf16_lossy(units.take(wide_len(units) as int))) == seq![shown]
            + command.args,
{
    let line = command_line(shown, command.args);
    let units = utf16(line).push(0);
    a_command_line_adds_no_nul(shown, command.args);
    wide_round_trip(line, seq![]);
    assert(units + seq![] =~= units);
    splitting_gives_path_and_arguments(shown, command.args);
}

/// Without capture a bundle is launched with every argument of the command,
/// unchanged and in order, whether or not there is a URL; with its URL, under its
/// shown path, and in front unless it goes to the background.
pub proof fn a_bundle_gets_all_that_was_said(
    command: CommandView,
    shown: Seq<char>,
    bundle: BundleView,
)
    ensures
        match command.macos_plan(shown, Some(bundle)) {
            Ok(PlanView::Bundle { bundle: path, args, url, activates, hides }) => {
                &&& command.stdout_cfg != Some(Stdio::Piped)
                &&& command.stderr_cfg != Some(Stdio::Piped)
                &&& path == bundle.shown
                &&& args == command.args
                &&& url == command.url
                &&& activates == !command.background
                &&& hides == command.background
            },
            Ok(PlanView::Helper { .. }) => command.stdout_cfg == Some(Stdio::Piped)
                || command.stderr_cfg == Some(Stdio::Piped),
            _ => false,
        },
{
}

/// With capture the helper is asked for the very same: the path of the bundle,
/// the flags, the URL and every argument, and it hands over the streams that were
/// asked for.
pub proof fn the_helper_gets_all_that_was_said(
    command: CommandView,
    shown: Seq<char>,
    bundle: BundleView,
)
    ensures
        command.macos_plan(shown, Some(bundle)) matches Ok(
            PlanView::Helper { request, args, stdout, stderr },
        ) ==> {
            &&& args == command.args
            &&& stdout <==> command.stdout_cfg == Some(Stdio::Piped)
            &&& stderr <==> command.stderr_cfg == Some(Stdio::Piped)
            &&& request.bundle == Some(bundle.path)
            &&& request.background == command.background
            &&& request.detached == command.detached
            &&& request.url is Some <==> command.url is Some
            &&& command.url is Some ==> request.url->0 == encode_utf8(command.url->0)
            &&& request.app_args.len() == command.args.len()
            &&& forall|i: int|
                0 <= i < command.args.len() ==> #[trigger] request.app_args[i] == encode_utf8(
                    command.args[i],
                )
        },
{
}

/// Two commands that differ only in their URL launch a bundle with the same
/// arguments.
pub proof fn a_url_does_not_change_the_arguments(
    command: CommandView,
    url: Option<Seq<char>>,
    shown: Seq<char>,
    bundle: BundleView,
)
    ensures
        match (
            command.macos_plan(shown, Some(bundle)),
            (CommandView { url, ..command }).macos_plan(shown, Some(bundle)),
        ) {
            (Ok(PlanView::Bundle { args: one, .. }), Ok(PlanView::Bundle { args: other, .. })) => one
                == other && one == command.args,
            (Ok(PlanView::Helper { args: one, .. }), Ok(PlanView::Helper { args: other, .. })) => one
                == other && one == command.args,
            _ => false,
        },
{
}

/// Where the path lies in no bundle, the error names the path.
pub proof fn a_path_without_a_bundle_is_named(command: CommandView, shown: Seq<char>)
    ensures
        command.macos_plan(shown, None) == Err::<PlanView, _>(
            ErrorView::NotFound("no .app bundle found for "@ + shown),
        ),
{
}

/// What a launch on Windows comes to, point by point.
pub proof fn a_process_gets_all_that_was_said(command: CommandView, shown: Seq<char>)
    ensures
        ({
            let shell = command.detached && command.shell_open && command.args.len() > 0;
            match command.windows_plan(shown) {
                PlanView::Process {
                    command_line: units,
                    via_shell,
                    minimised,
                    stdout,
                    stderr,
                    creation_flags,
                    bound,
                } => {
                    &&& via_shell == shell
                    &&& minimised == command.background
                    &&& stdout <==> command.stdout_cfg == Some(Stdio::Piped) && !shell
                    &&& stderr <==> command.stderr_cfg == Some(Stdio::Piped) && !shell
                    &&& command.detached ==> creation_flags == 0x208 && !bound
                    &&& !command.detached ==> creation_flags == 0 && bound
                    &&& shell ==> units == utf16(
                        "explorer.exe \""@ + command.args[0] + "\""@,
                    ) + seq![0u16]
                    &&& !shell ==> units == utf16(command_line(shown, command.args)) + seq![0u16]
                },
                _ => false,
            }
        }),
{
    assert(DETACHED_PROCESS | CREATE_NEW_PROCESS_GROUP == 0x208u32) by (bit_vector);
    if let PlanView::Process { command_line: units, .. } = command.windows_plan(shown) {
        if command.goes_through_shell() {
            assert(units =~= utf16("explorer.exe \""@ + command.args[0] + "\""@) + seq![0u16]);
        } else {
            assert(units =~= utf16(command_line(shown, command.args)) + seq![0u16]);
        }
    }
}

/// A plan is viewed with everything that it holds.
pub proof fn plans_are_viewed_as_they_are(
    bundle: BundleLaunch,
    helper: HelperLaunch,
    process: ProcessLaunch,
)
    ensures
        SpawnPlan::Bundle(bundle)@ matches PlanView::Bundle {
            bundle: path,
            args,
            url,
            activates,
            hides,
        } && path == bundle.bundle@ && args == texts(bundle.args@) && url == optional_text(
            bundle.url,
        ) && activates == bundle.activates && hides == bundle.hides,
        SpawnPlan::Helper(helper)@ matches PlanView::Helper { request, args, stdout, stderr }
            && request == helper.request@ && args == texts(helper.args@) && stdout == helper.stdout
            && stderr == helper.stderr,
        SpawnPlan::Process(process)@ matches PlanView::Process {
            command_line: units,
            via_shell,
            minimised,
            stdout,
            stderr,
            creation_flags,
            bound,
        } && units == process.command_line@ && via_shell == process.via_shell && minimised
            == process.minimised && stdout == process.stdout && stderr == process.stderr
            && creation_flags == process.creation_flags && bound == process.bound,
{
}

proof fn spacing_goes_on(list: Seq<Seq<char>>, text: Seq<char>)
    requires
        list.len() > 0,
    ensures
        spaced(list.push(text)) == spaced(list) + " "@ + text,
{
    assert(list.push(text).drop_last() =~= list);
}

/// Texts are put one behind the other with one space between two, and none
/// around them.
pub proof fn texts_are_spaced_out(first: Seq<char>, second: Seq<char>, list: Seq<Seq<char>>)
    ensures
        spaced(Seq::<Seq<char>>::empty()).len() == 0,
        spaced(seq![first]) == first,
        list.len() > 0 ==> spaced(list.push(second)) == spaced(list) + seq![' '] + second,
{
    reveal_strlit(" ");
    assert(" "@ =~= seq![' ']);
    if list.len() > 0 {
        spacing_goes_on(list, second);
    }
}

/// Each failure of a launch is put in words of its own, with what it is about.
pub proof fn launch_failures_are_explained(
    url: String,
    bin: String,
    prefix: Vec<String>,
    cause: String,
)
    ensures
        LaunchFailure::InvalidUrl(url).words() == "invalid URL: "@ + url@,
        LaunchFailure::NoBundleIdentifier.words()
            == "could not determine bundle ID for PID lookup"@,
        LaunchFailure::HelperNotStarted(bin, prefix, cause).words()
            == "failed to spawn launch-control helper ("@ + bin@ + " "@ + spaced(texts(prefix@))
            + "): "@ + cause@,
        LaunchFailure::ProcessNotCreated.words() == "CreateProcessW failed"@,
        LaunchFailure::TerminalNotOpened(cause).words() == "openpty failed: "@ + cause@,
        LaunchFailure::TerminalUnnamed.words() == "ptsname failed"@,
        LAUNCH_TIMEOUT == 30,
{
}

/// A bundle was launched exactly where a process identifier came back, which is
/// then the process; everything else is an error that says what happened.
pub proof fn a_launch_gives_its_process(reply: LaunchReply, pid: Result<u32, Error>)
    requires
        call_ensures(launched_process, (reply,), pid),
    ensures
        pid is Ok <==> (reply matches LaunchReply::Launched(id) && id >= 0),
        pid matches Ok(p) ==> (reply matches LaunchReply::Launched(id) && p == id),
        reply matches LaunchReply::Failed(Some(text)) ==> (pid matches Err(error) && error@
            == ErrorView::Platform(text@)),
        reply is TimedOut ==> (pid matches Err(error) && error@ == ErrorView::Platform(
            "launch timed out after 30s"@,
        )),
{
}

} // verus!
