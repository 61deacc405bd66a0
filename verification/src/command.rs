//! The description of a launch, and what a platform is to do for it.
use vstd::prelude::*;

use crate::bundle::{
    find_app_bundle, has_no_bundle, is_bundle_of, optional_bundle, Bundle, BundleView,
};
use crate::bytes::{bytes_of, encode_texts};
use crate::child::Platform;
use crate::cmdline::{build_command_line, build_shell_line};
use crate::error::{Error, ErrorView};
use crate::helper::HelperRequest;
use crate::launch::{
    BundleLaunch, HelperLaunch, PlanView, ProcessLaunch, SpawnPlan, CREATE_NEW_PROCESS_GROUP,
    DETACHED_PROCESS,
};
use crate::text::{
    copy_texts, decode_lossy, optional_text, push_text, push_texts, texts, utf8_lossy,
};
use crate::wide::wide_text;

verus! {

/// What becomes of an output stream.
#[derive(Debug, Clone, Copy, PartialEq, Eq, Structural)]
pub enum Stdio {
    /// It goes where the launcher's own goes.
    Inherit,
    /// It is thrown away.
    Null,
    /// It is captured.
    Piped,
}

/// The description of a launch.
pub struct Command {
    /// The path of the application, as the bytes that the platform uses.
    pub path: Vec<u8>,
    /// The arguments for the application.
    pub args: Vec<String>,
    /// Launch without taking the focus.
    pub background: bool,
    /// The application outlives the launcher.
    pub detached: bool,
    /// On Windows, have the shell open the first argument.
    pub shell_open: bool,
    /// A URL to open with the application.
    pub url: Option<String>,
    pub stdout_cfg: Option<Stdio>,
    pub stderr_cfg: Option<Stdio>,
}

/// A [`Command`], with its texts as sequences.
#[verifier::ext_equal]
pub struct CommandView {
    pub path: Seq<u8>,
    pub args: Seq<Seq<char>>,
    pub background: bool,
    pub detached: bool,
    pub shell_open: bool,
    pub url: Option<Seq<char>>,
    pub stdout_cfg: Option<Stdio>,
    pub stderr_cfg: Option<Stdio>,
}

impl View for Command {
    type V = CommandView;

    open spec fn view(&self) -> CommandView {
        CommandView {
            path: self.path@,
            args: texts(self.args@),
            background: self.background,
            detached: self.detached,
            shell_open: self.shell_open,
            url: optional_text(self.url),
            stdout_cfg: self.stdout_cfg,
            stderr_cfg: self.stderr_cfg,
        }
    }
}

impl CommandView {
    /// What the platform is to do for the launch. The path exists or not, is
    /// shown as `shown` and lies in the bundle `bundle`.
    pub open spec fn plan(
        self,
        platform: Platform,
        exists: bool,
        shown: Seq<char>,
        bundle: Option<BundleView>,
    ) -> Result<PlanView, ErrorView> {
        if platform == Platform::Other {
            Err(ErrorView::Unsupported)
        } else if !exists {
            Err(ErrorView::NotFound(shown))
        } else if platform == Platform::MacOs {
            self.macos_plan(shown, bundle)
        } else {
            Ok(self.windows_plan(shown))
        }
    }
}

/// A plan or an error, as their views.
pub open spec fn plan_view(plan: Result<SpawnPlan, Error>) -> Result<PlanView, ErrorView> {
    match plan {
        Ok(plan) => Ok(plan@),
        Err(error) => Err(error@),
    }
}

/// The bundle is the one that the path names or lies in, with its path as it is
/// shown; there is none where the path has none.
pub open spec fn shows_bundle(path: Seq<u8>, bundle: Option<BundleView>) -> bool {
    match bundle {
        Some(bundle) => is_bundle_of(path, bundle.path) && bundle.shown == utf8_lossy(bundle.path),
        None => has_no_bundle(path),
    }
}

impl Command {
    /// A launch of the application at `path`, with nothing else said.
    pub fn new(path: &[u8]) -> (command: Command)
        ensures
            command@ == (CommandView {
                path: path@,
                args: seq![],
                background: false,
                detached: false,
                shell_open: false,
                url: None,
                stdout_cfg: None,
                stderr_cfg: None,
            }),
    {
        let command = Command {
            path: vstd::slice::slice_to_vec(path),
            args: Vec::new(),
            background: false,
            detached: false,
            shell_open: false,
            url: None,
            stdout_cfg: None,
            stderr_cfg: None,
        };
        assert(texts(command.args@) =~= seq![]);
        command
    }

    /// Adds an argument.
    pub fn arg(&mut self, arg: &str) -> (this: &mut Self)
        ensures
            this@ == (CommandView { args: old(self)@.args.push(arg@), ..old(self)@ }),
            *final(self) == *final(this),
    {
        push_text(&mut self.args, arg);
        self
    }

    /// Adds several arguments.
    pub fn args(&mut self, args: &Vec<String>) -> (this: &mut Self)
        ensures
            this@ == (CommandView { args: old(self)@.args + texts(args@), ..old(self)@ }),
            *final(self) == *final(this),
    {
        push_texts(&mut self.args, args);
        self
    }

    /// Has the application open a URL.
    pub fn url(&mut self, url: &str) -> (this: &mut Self)
        ensures
            this@ == (CommandView { url: Some(url@), ..old(self)@ }),
            *final(self) == *final(this),
    {
        self.url = Some(url.to_string());
        self
    }

    /// Launches without taking the focus, or with it.
    pub fn background(&mut self, bg: bool) -> (this: &mut Self)
        ensures
            this@ == (CommandView { background: bg, ..old(self)@ }),
            *final(self) == *final(this),
    {
        self.background = bg;
        self
    }

    /// Has the application outlive the launcher, or not.
    pub fn detached(&mut self, detached: bool) -> (this: &mut Self)
        ensures
            this@ == (CommandView { detached, ..old(self)@ }),
            *final(self) == *final(this),
    {
        self.detached = detached;
        self
    }

    /// Has the shell open the first argument of a detached launch on Windows,
    /// or not.
    pub fn shell_open(&mut self, shell_open: bool) -> (this: &mut Self)
        ensures
            this@ == (CommandView { shell_open, ..old(self)@ }),
            *final(self) == *final(this),
    {
        self.shell_open = shell_open;
        self
    }

    /// Says what becomes of the standard output.
    pub fn stdout(&mut self, cfg: Stdio) -> (this: &mut Self)
        ensures
            this@ == (CommandView { stdout_cfg: Some(cfg), ..old(self)@ }),
            *final(self) == *final(this),
    {
        self.stdout_cfg = Some(cfg);
        self
    }

    /// Says what becomes of the standard error.
    pub fn stderr(&mut self, cfg: Stdio) -> (this: &mut Self)
        ensures
            this@ == (CommandView { stderr_cfg: Some(cfg), ..old(self)@ }),
            *final(self) == *final(this),
    {
        self.stderr_cfg = Some(cfg);
        self
    }

    /// What the platform is to do for the launch, where it is known whether
    /// the path exists.
    pub fn spawn(&mut self, platform: Platform, exists: bool) -> (plan: Result<SpawnPlan, Error>)
        ensures
            *final(self) == *old(self),
            exists|bundle: Option<BundleView>| #[trigger]
                shows_bundle(old(self).path@, bundle) && plan_view(plan) == old(self)@.plan(
                    platform,
                    exists,
                    utf8_lossy(old(self).path@),
                    bundle,
                ),
    {
        let shown = decode_lossy(self.path.as_slice());
        let bundle: Option<Bundle> = match find_app_bundle(self.path.as_slice()) {
            Some(path) => {
                let shown = decode_lossy(path.as_slice());
                Some(Bundle { path, shown })
            },
            None => None,
        };
        assert(shows_bundle(self.path@, optional_bundle(bundle)));
        self.plan_for(platform, exists, shown.as_str(), bundle)
    }

    /// What the platform is to do for the launch. The path exists or not, is
    /// shown as `shown` and lies in the bundle `bundle`.
    pub fn plan_for(
        &self,
        platform: Platform,
        exists: bool,
        shown: &str,
        bundle: Option<Bundle>,
    ) -> (plan: Result<SpawnPlan, Error>)
        ensures
            plan_view(plan) == self@.plan(platform, exists, shown@, optional_bundle(bundle)),
    {
        match platform {
            Platform::Other => Err(Error::Unsupported),
            Platform::MacOs => {
                if !exists {
                    return Err(Error::NotFound(shown.to_string()));
                }
                match bundle {
                    Some(bundle) => Ok(self.launch_bundle(bundle)),
                    None => Err(
                        Error::NotFound("no .app bundle found for ".to_string().concat(shown)),
                    ),
                }
            },
            Platform::Windows => {
                if !exists {
                    return Err(Error::NotFound(shown.to_string()));
                }
                Ok(self.launch_process(shown))
            },
        }
    }

    fn pipes(cfg: &Option<Stdio>) -> (yes: bool)
        ensures
            yes == (*cfg == Some(Stdio::Piped)),
    {
        match cfg {
            Some(cfg) => *cfg == Stdio::Piped,
            None => false,
        }
    }

    fn launch_bundle(&self, bundle: Bundle) -> (plan: SpawnPlan)
        ensures
            forall|shown: Seq<char>| #[trigger]
                self@.macos_plan(shown, Some(bundle@)) == Ok::<_, ErrorView>(plan@),
    {
        let stdout: bool = Self::pipes(&self.stdout_cfg);
        let stderr: bool = Self::pipes(&self.stderr_cfg);
        let args = copy_texts(&self.args);
        if stdout || stderr {
            let url: Option<Vec<u8>> = match &self.url {
                Some(url) => Some(bytes_of(url.as_str())),
                None => None,
            };
            let request = HelperRequest {
                bundle: bundle.path,
                background: self.background,
                detached: self.detached,
                url,
                app_args: encode_texts(&self.args),
            };
            SpawnPlan::Helper(HelperLaunch { request, args, stdout, stderr })
        } else {
            let url: Option<String> = match &self.url {
                Some(url) => Some(url.as_str().to_string()),
                None => None,
            };
            SpawnPlan::Bundle(
                BundleLaunch {
                    bundle: bundle.shown,
                    args,
                    url,
                    activates: !self.background,
                    hides: self.background,
                },
            )
        }
    }

    fn launch_process(&self, shown: &str) -> (plan: SpawnPlan)
        ensures
            plan@ == self@.windows_plan(shown@),
    {
        let via_shell: bool = self.detached && self.shell_open && self.args.len() > 0;
        let line: String = if via_shell {
            build_shell_line(self.args[0].as_str())
        } else {
            build_command_line(shown, &self.args)
        };
        let stdout: bool = Self::pipes(&self.stdout_cfg);
        let stderr: bool = Self::pipes(&self.stderr_cfg);
        SpawnPlan::Process(
            ProcessLaunch {
                command_line: wide_text(line.as_str()),
                via_shell,
                minimised: self.background,
                stdout: stdout && !via_shell,
                stderr: stderr && !via_shell,
                creation_flags: if self.detached {
                    DETACHED_PROCESS | CREATE_NEW_PROCESS_GROUP
                } else {
                    0
                },
                bound: !self.detached,
            },
        )
    }
}

/// A command is viewed with everything that was said, argument by argument.
pub proof fn commands_are_viewed_as_they_are(command: Command)
    ensures
        command@.path == command.path@,
        command@.args.len() == command.args@.len(),
        forall|i: int|
            0 <= i < command.args@.len() ==> #[trigger] command@.args[i] == command.args@[i]@,
        command@.background == command.background,
        command@.detached == command.detached,
        command@.shell_open == command.shell_open,
        command@.url is Some <==> command.url is Some,
        command.url matches Some(url) ==> command@.url == Some(url@),
        command@.stdout_cfg == command.stdout_cfg,
        command@.stderr_cfg == command.stderr_cfg,
{
}

/// Only macOS and Windows launch anything, and only what exists: anything else
/// is refused before the bundle is looked at. A program on Windows needs none.
pub proof fn only_what_exists_is_launched(
    command: CommandView,
    exists: bool,
    shown: Seq<char>,
    bundle: Option<BundleView>,
)
    ensures
        command.plan(Platform::Other, exists, shown, bundle) == Err::<PlanView, _>(
            ErrorView::Unsupported,
        ),
        !exists ==> command.plan(Platform::MacOs, exists, shown, bundle) == Err::<PlanView, _>(
            ErrorView::NotFound(shown),
        ),
        !exists ==> command.plan(Platform::Windows, exists, shown, bundle) == Err::<PlanView, _>(
            ErrorView::NotFound(shown),
        ),
        exists ==> command.plan(Platform::Windows, exists, shown, bundle) == Ok::<_, ErrorView>(
            command.windows_plan(shown),
        ),
        exists ==> command.plan(Platform::MacOs, exists, shown, bundle) == command.macos_plan(
            shown,
            bundle,
        ),
{
}

/// A plan and an error are viewed as what they are.
pub proof fn outcomes_of_a_launch_are_viewed_as_they_are(plan: SpawnPlan, error: Error)
    ensures
        plan_view(Ok(plan)) == Ok::<_, ErrorView>(plan@),
        plan_view(Err(error)) == Err::<PlanView, _>(error@),
{
}

/// The bundle of a launch is the one of its path, shown as its own path is
/// decoded; there is none exactly where the path has none.
pub proof fn a_launch_shows_its_own_bundle(path: Seq<u8>, bundle: BundleView)
    ensures
        shows_bundle(path, Some(bundle)) <==> is_bundle_of(path, bundle.path) && bundle.shown
            == utf8_lossy(bundle.path),
        shows_bundle(path, None) <==> has_no_bundle(path),
{
}

/// Whatever else a command says, a plan to launch its bundle carries its
/// arguments, its URL and its flags as they are.
pub proof fn a_plan_carries_what_the_command_says(
    command: Command,
    platform: Platform,
    exists: bool,
    shown: &str,
    bundle: Option<Bundle>,
    plan: Result<SpawnPlan, Error>,
)
    requires
        call_ensures(Command::plan_for, (&command, platform, exists, shown, bundle), plan),
    ensures
        plan is Ok <==> exists && (platform == Platform::Windows || (platform == Platform::MacOs
            && bundle is Some)),
        plan matches Ok(SpawnPlan::Bundle(launch)) ==> {
            &&& platform == Platform::MacOs
            &&& bundle is Some
            &&& texts(launch.args@) == texts(command.args@)
            &&& optional_text(launch.url) == optional_text(command.url)
            &&& launch.bundle@ == bundle->0.shown@
            &&& launch.activates == !command.background
            &&& launch.hides == command.background
            &&& command.stdout_cfg != Some(Stdio::Piped)
            &&& command.stderr_cfg != Some(Stdio::Piped)
        },
        plan matches Ok(SpawnPlan::Helper(launch)) ==> {
            &&& platform == Platform::MacOs
            &&& bundle is Some
            &&& texts(launch.args@) == texts(command.args@)
            &&& launch.stdout == (command.stdout_cfg == Some(Stdio::Piped))
            &&& launch.stderr == (command.stderr_cfg == Some(Stdio::Piped))
            &&& launch.stdout || launch.stderr
            &&& launch.request.bundle@ == bundle->0.path@
            &&& launch.request.background == command.background
            &&& launch.request.detached == command.detached
            &&& launch.request.url is Some <==> command.url is Some
            &&& launch.request.app_args@.len() == command.args@.len()
        },
        plan matches Ok(SpawnPlan::Process(launch)) ==> {
            &&& platform == Platform::Windows
            &&& launch.minimised == command.background
            &&& launch.bound == !command.detached
            &&& launch.via_shell == (command.detached && command.shell_open && command.args@.len()
                > 0)
            &&& launch.stdout == (command.stdout_cfg == Some(Stdio::Piped) && !launch.via_shell)
            &&& launch.stderr == (command.stderr_cfg == Some(Stdio::Piped) && !launch.via_shell)
        },
{
    match plan {
        Ok(SpawnPlan::Bundle(launch)) => {
            assert(plan_view(plan) == Ok::<_, ErrorView>(SpawnPlan::Bundle(launch)@));
        },
        Ok(SpawnPlan::Helper(launch)) => {
            assert(plan_view(plan) == Ok::<_, ErrorView>(SpawnPlan::Helper(launch)@));
            let request = launch.request@;
            assert(request.app_args.len() == launch.request.app_args@.len());
            assert(command@.args.len() == command.args@.len());
        },
        Ok(SpawnPlan::Process(launch)) => {
            assert(plan_view(plan) == Ok::<_, ErrorView>(SpawnPlan::Process(launch)@));
            assert(command@.args.len() == command.args@.len());
        },
        Err(error) => {
            assert(plan_view(plan) is Err);
        },
    }
}

/// A launch comes to a plan exactly where the path exists and the platform can
/// launch it: on Windows always, on macOS where it names a bundle or lies in one.
/// A launch of the bundle carries every argument of the command in order, and the
/// command stays what it was.
pub proof fn a_launch_carries_every_argument(
    command: &mut Command,
    platform: Platform,
    exists: bool,
    plan: Result<SpawnPlan, Error>,
)
    requires
        call_ensures(Command::spawn, (command, platform, exists), plan),
    ensures
        *final(command) == *old(command),
        plan is Ok <==> exists && (platform == Platform::Windows || (platform == Platform::MacOs
            && !has_no_bundle(old(command).path@))),
        plan matches Ok(SpawnPlan::Bundle(launch)) ==> {
            &&& launch.args@.len() == old(command).args@.len()
            &&& forall|i: int|
                0 <= i < launch.args@.len() ==> (#[trigger] launch.args@[i])@ == old(
                    command,
                ).args@[i]@
            &&& optional_text(launch.url) == optional_text(old(command).url)
            &&& launch.activates == !old(command).background
            &&& launch.hides == old(command).background
        },
        plan matches Ok(SpawnPlan::Helper(launch)) ==> {
            &&& launch.args@.len() == old(command).args@.len()
            &&& forall|i: int|
                0 <= i < launch.args@.len() ==> (#[trigger] launch.args@[i])@ == old(
                    command,
                ).args@[i]@
            &&& is_bundle_of(old(command).path@, launch.request.bundle@)
        },
{
    let before = *old(command);
    let shown = utf8_lossy(before.path@);
    let bundle = choose|bundle: Option<BundleView>| #[trigger]
        shows_bundle(before.path@, bundle) && plan_view(plan) == before@.plan(
            platform,
            exists,
            shown,
            bundle,
        );
    if let Some(found) = bundle {
        crate::bundle::bundle_is_unique(before.path@, found.path, found.path);
    }
    match plan {
        Ok(SpawnPlan::Bundle(launch)) => {
            assert(plan_view(plan) == Ok::<_, ErrorView>(SpawnPlan::Bundle(launch)@));
            let args = texts(launch.args@);
            assert(args == texts(before.args@));
            assert(args.len() == texts(before.args@).len());
            assert forall|i: int| 0 <= i < launch.args@.len() implies (
            #[trigger] launch.args@[i])@ == before.args@[i]@ by {
                assert(args[i] == texts(before.args@)[i]);
            }
        },
        Ok(SpawnPlan::Helper(launch)) => {
            assert(plan_view(plan) == Ok::<_, ErrorView>(SpawnPlan::Helper(launch)@));
            let args = texts(launch.args@);
            assert(args == texts(before.args@));
            assert(args.len() == texts(before.args@).len());
            assert forall|i: int| 0 <= i < launch.args@.len() implies (
            #[trigger] launch.args@[i])@ == before.args@[i]@ by {
                assert(args[i] == texts(before.args@)[i]);
            }
            assert(launch.request@.bundle == Some(launch.request.bundle@));
        },
        _ => {},
    }
}

} // verus!
