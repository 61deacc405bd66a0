//! Commands, launch plans, command lines and the helper.
use launch_control::adopt::{
    pids_for_exe, Candidate, Decision, Launched, ProcessEntry, Reason, Sight,
};
use launch_control::bundle::{bundle_id_from_plist, bundle_id_in, find_app_bundle, Bundle};
use launch_control::bytes::{bytes_of, is_word, show_path};
use launch_control::claim::{claim_failed, Claim, ClaimStep, HelperStep, Running};
use launch_control::cmdline::{build_command_line, build_shell_line, quote};
use launch_control::command::{Command, Stdio};
use launch_control::error::{Error, IoErrorKind};
use launch_control::helper::{
    follows_parent, helper_args, helper_place, logged_process, open_args, open_outcome,
    parse_helper_args, resolve_helper, resolve_shown, HelperFailure, HelperInvocation,
    HelperPlace, HelperProbe, HelperRequest, Stream,
};
use launch_control::launch::{launched_process, LaunchFailure, LaunchReply, SpawnPlan};
use launch_control::procargs::{argv_contains_args, proc_argv, split_arguments};
use launch_control::wide::{wide_text, wide_to_string};
use launch_control::Platform;
use std::collections::HashSet;

fn strings(list: &[&str]) -> Vec<String> {
    list.iter().map(|s| s.to_string()).collect()
}

fn blobs(list: &[&str]) -> Vec<Vec<u8>> {
    list.iter().map(|s| s.as_bytes().to_vec()).collect()
}

fn platform_text<T>(result: Result<T, Error>) -> String {
    match result {
        Err(Error::Platform(text)) => text,
        _ => panic!("not a platform error"),
    }
}

fn not_found_text<T>(result: Result<T, Error>) -> String {
    match result {
        Err(Error::NotFound(text)) => text,
        _ => panic!("not a missing application"),
    }
}

// ------------------------------------------------------------------ commands

#[test]
fn builder_collects_everything() {
    let mut command = Command::new(b"/Applications/Foo.app");
    command
        .arg("-v")
        .args(&strings(&["a b", ""]))
        .url("foo://bar")
        .background(true)
        .detached(true)
        .shell_open(true)
        .stdout(Stdio::Piped)
        .stderr(Stdio::Null);
    assert_eq!(command.path, b"/Applications/Foo.app".to_vec());
    assert_eq!(command.args, strings(&["-v", "a b", ""]));
    assert_eq!(command.url, Some("foo://bar".to_string()));
    assert!(command.background && command.detached && command.shell_open);
    assert_eq!(command.stdout_cfg, Some(Stdio::Piped));
    assert_eq!(command.stderr_cfg, Some(Stdio::Null));
    command.background(false);
    assert!(!command.background);
}

#[test]
fn a_new_command_asks_for_nothing() {
    let command = Command::new(b"/x");
    assert!(command.args.is_empty() && command.url.is_none());
    assert!(!command.background && !command.detached && !command.shell_open);
    assert!(command.stdout_cfg.is_none() && command.stderr_cfg.is_none());
}

#[test]
fn other_platforms_are_unsupported() {
    let mut command = Command::new(b"/x");
    assert!(matches!(command.spawn(Platform::Other, true), Err(Error::Unsupported)));
    assert!(matches!(command.spawn(Platform::Other, false), Err(Error::Unsupported)));
}

#[test]
fn a_missing_path_is_not_found() {
    let mut command = Command::new(b"/Applications/\xFFoo.app");
    let shown = "/Applications/\u{FFFD}oo.app";
    assert_eq!(not_found_text(command.spawn(Platform::MacOs, false)), shown);
    assert_eq!(not_found_text(command.spawn(Platform::Windows, false)), shown);
}

#[test]
fn a_path_outside_bundles_is_not_found_on_macos() {
    let mut command = Command::new(b"/usr/bin/true");
    assert_eq!(
        not_found_text(command.spawn(Platform::MacOs, true)),
        "no .app bundle found for /usr/bin/true"
    );
}

#[test]
fn a_plain_launch_goes_through_the_workspace() {
    let mut command = Command::new(b"/Applications/Foo.app/Contents/MacOS/Foo");
    command.arg("x").url("foo://bar").stdout(Stdio::Inherit).stderr(Stdio::Null);
    match command.spawn(Platform::MacOs, true) {
        Ok(SpawnPlan::Bundle(launch)) => {
            assert_eq!(launch.bundle, "/Applications/Foo.app");
            assert_eq!(launch.args, strings(&["x"]));
            assert_eq!(launch.url, Some("foo://bar".to_string()));
            assert!(launch.activates && !launch.hides);
        },
        _ => panic!("wrong plan"),
    }
    command.background(true);
    match command.spawn(Platform::MacOs, true) {
        Ok(SpawnPlan::Bundle(launch)) => assert!(!launch.activates && launch.hides),
        _ => panic!("wrong plan"),
    }
}

#[test]
fn a_piped_launch_goes_through_the_helper() {
    let mut command = Command::new(b"/Applications/Foo.app");
    command.arg("--detached").arg("x").detached(true).stderr(Stdio::Piped);
    match command.spawn(Platform::MacOs, true) {
        Ok(SpawnPlan::Helper(launch)) => {
            assert!(!launch.stdout && launch.stderr);
            assert_eq!(launch.args, strings(&["--detached", "x"]));
            assert_eq!(
                helper_args(&strings(&["__sub"]), &launch.request),
                blobs(&[
                    "__sub", "--bundle", "/Applications/Foo.app", "--detached", "--",
                    "--detached", "x"
                ])
            );
        },
        _ => panic!("wrong plan"),
    }
}

#[test]
fn a_url_is_opened_though_output_is_captured() {
    let mut command = Command::new(b"/Foo.app");
    command.url("foo://b\u{e4}r").arg("x").stdout(Stdio::Piped);
    match command.spawn(Platform::MacOs, true) {
        Ok(SpawnPlan::Helper(launch)) => {
            assert_eq!(launch.request.url, Some("foo://b\u{e4}r".as_bytes().to_vec()));
            let args = helper_args(&Vec::new(), &launch.request);
            assert_eq!(
                args,
                blobs(&["--bundle", "/Foo.app", "--url", "foo://b\u{e4}r", "--", "x"])
            );
            let read = match parse_helper_args(&args) {
                Ok(read) => read,
                Err(_) => panic!("not read back"),
            };
            assert_eq!(
                open_args(&read, b"o", b"e"),
                blobs(&[
                    "-n", "-a", "/Foo.app", "--stdout", "o", "--stderr", "e", "-u",
                    "foo://b\u{e4}r", "--args", "x"
                ])
            );
        },
        _ => panic!("wrong plan"),
    }
}

#[test]
fn paths_that_are_not_text_are_handed_on_as_they_are() {
    let mut command = Command::new(b"/\xFF.app/Contents/MacOS/x");
    command.stdout(Stdio::Piped);
    match command.spawn(Platform::MacOs, true) {
        Ok(SpawnPlan::Helper(launch)) => {
            assert_eq!(launch.request.bundle, b"/\xFF.app".to_vec());
            let args = helper_args(&Vec::new(), &launch.request);
            assert_eq!(args[1], b"/\xFF.app".to_vec());
            match parse_helper_args(&args) {
                Ok(read) => assert_eq!(open_args(&read, b"o", b"e")[2], b"/\xFF.app".to_vec()),
                Err(_) => panic!("not read back"),
            }
        },
        _ => panic!("wrong plan"),
    }
    command.stdout(Stdio::Null);
    match command.spawn(Platform::MacOs, true) {
        Ok(SpawnPlan::Bundle(launch)) => assert_eq!(launch.bundle, "/\u{FFFD}.app"),
        _ => panic!("wrong plan"),
    }
}

#[test]
fn a_plan_follows_the_texts_it_is_given() {
    let command = Command::new(b"ignored");
    let bundle = Bundle { path: b"/B.app".to_vec(), shown: "<B>".to_string() };
    match command.plan_for(Platform::MacOs, true, "shown", Some(bundle)) {
        Ok(SpawnPlan::Bundle(launch)) => assert_eq!(launch.bundle, "<B>"),
        _ => panic!("wrong plan"),
    }
    assert_eq!(
        not_found_text(command.plan_for(Platform::MacOs, true, "shown", None)),
        "no .app bundle found for shown"
    );
}

#[test]
fn a_windows_launch_builds_a_command_line() {
    let mut command = Command::new(b"C:\\a b\\app.exe");
    command.arg("plain").arg("two words").stdout(Stdio::Piped).background(true);
    match command.spawn(Platform::Windows, true) {
        Ok(SpawnPlan::Process(launch)) => {
            assert_eq!(
                wide_to_string(&launch.command_line),
                "\"C:\\a b\\app.exe\" plain \"two words\""
            );
            assert_eq!(launch.command_line.last(), Some(&0));
            assert!(launch.stdout && !launch.stderr && !launch.via_shell);
            assert!(launch.minimised && launch.bound);
            assert_eq!(launch.creation_flags, 0);
        },
        _ => panic!("wrong plan"),
    }
}

#[test]
fn a_shell_launch_opens_the_first_argument() {
    let mut command = Command::new(b"C:\\app.exe");
    command.arg("C:\\my place.rbxl").detached(true).shell_open(true).stdout(Stdio::Piped);
    match command.spawn(Platform::Windows, true) {
        Ok(SpawnPlan::Process(launch)) => {
            assert_eq!(
                wide_to_string(&launch.command_line),
                "explorer.exe \"C:\\my place.rbxl\""
            );
            assert!(launch.via_shell && !launch.stdout && !launch.stderr);
            assert!(!launch.bound && !launch.minimised);
            assert_eq!(launch.creation_flags, 0x208);
        },
        _ => panic!("wrong plan"),
    }
    command.detached(false);
    match command.spawn(Platform::Windows, true) {
        Ok(SpawnPlan::Process(launch)) => assert!(!launch.via_shell && launch.stdout),
        _ => panic!("wrong plan"),
    }
}

#[test]
fn a_shell_launch_needs_an_argument() {
    let mut command = Command::new(b"C:\\app.exe");
    command.detached(true).shell_open(true);
    match command.spawn(Platform::Windows, true) {
        Ok(SpawnPlan::Process(launch)) => {
            assert!(!launch.via_shell);
            assert_eq!(wide_to_string(&launch.command_line), "\"C:\\app.exe\"");
        },
        _ => panic!("wrong plan"),
    }
}

// --------------------------------------------------------------- how it went

#[test]
fn launch_replies_give_the_process_or_the_reason() {
    assert!(matches!(launched_process(LaunchReply::Launched(77)), Ok(77)));
    assert!(matches!(launched_process(LaunchReply::Launched(0)), Ok(0)));
    assert_eq!(
        platform_text(launched_process(LaunchReply::Launched(-1))),
        "process identifier unavailable"
    );
    assert_eq!(
        platform_text(launched_process(LaunchReply::TimedOut)),
        "launch timed out after 30s"
    );
    assert_eq!(
        platform_text(launched_process(LaunchReply::Failed(None))),
        "unknown launch error"
    );
    assert_eq!(
        platform_text(launched_process(LaunchReply::Failed(Some("nope".to_string())))),
        "nope"
    );
}

#[test]
fn launch_failures_say_what_happened() {
    let words = |failure: LaunchFailure| platform_text::<()>(Err(failure.error()));
    assert_eq!(words(LaunchFailure::InvalidUrl(":".to_string())), "invalid URL: :");
    assert_eq!(
        words(LaunchFailure::NoBundleIdentifier),
        "could not determine bundle ID for PID lookup"
    );
    assert_eq!(
        words(LaunchFailure::HelperNotStarted(
            "/bin/h".to_string(),
            strings(&["a", "b"]),
            "gone".to_string()
        )),
        "failed to spawn launch-control helper (/bin/h a b): gone"
    );
    assert_eq!(
        words(LaunchFailure::HelperNotStarted("h".to_string(), Vec::new(), "x".to_string())),
        "failed to spawn launch-control helper (h ): x"
    );
    assert_eq!(words(LaunchFailure::ProcessNotCreated), "CreateProcessW failed");
    assert_eq!(
        words(LaunchFailure::TerminalNotOpened("full".to_string())),
        "openpty failed: full"
    );
    assert_eq!(words(LaunchFailure::TerminalUnnamed), "ptsname failed");
}

#[test]
fn errors_have_messages_and_io_kinds() {
    let cases = vec![
        (
            Error::NotFound("p".to_string()),
            "application not found: p",
            IoErrorKind::NotFound,
            "p",
        ),
        (Error::Platform("m".to_string()), "platform error: m", IoErrorKind::Other, "m"),
        (
            Error::Terminated,
            "application has terminated",
            IoErrorKind::BrokenPipe,
            "application has terminated",
        ),
        (
            Error::Unsupported,
            "operation not supported on this platform",
            IoErrorKind::Unsupported,
            "operation not supported on this platform",
        ),
    ];
    for (error, message, kind, text) in cases {
        assert_eq!(error.message(), message);
        assert_eq!(error.into_io(), (kind, text.to_string()));
    }
}

// ------------------------------------------------------------- command lines

#[test]
fn arguments_are_quoted_where_needed() {
    assert_eq!(quote("plain"), "plain");
    assert_eq!(quote("back\\slash\\"), "back\\slash\\");
    assert_eq!(quote(""), "\"\"");
    assert_eq!(quote("two words"), "\"two words\"");
    assert_eq!(quote("a\tb"), "\"a\tb\"");
    assert_eq!(quote("a\"b"), "\"a\\\"b\"");
    assert_eq!(quote("\"\""), "\"\\\"\\\"\"");
    assert_eq!(quote("C:\\my dir\\"), "\"C:\\my dir\\\\\"");
    assert_eq!(quote("a\\\\\"b c"), "\"a\\\\\\\\\\\"b c\"");
    assert_eq!(quote("a\\b c"), "\"a\\b c\"");
}

#[test]
fn command_lines_join_path_and_arguments() {
    assert_eq!(build_command_line("x.exe", &Vec::new()), "\"x.exe\"");
    assert_eq!(
        build_command_line("x.exe", &strings(&["a", "", "b c"])),
        "\"x.exe\" a \"\" \"b c\""
    );
    assert_eq!(build_shell_line("a b"), "explorer.exe \"a b\"");
}

/// Splits a command line behind the program's name as a C program does.
fn split(line: &str) -> Vec<String> {
    let chars: Vec<char> = line.chars().collect();
    let mut args = Vec::new();
    let mut i = 0;
    while i < chars.len() {
        if chars[i] == ' ' || chars[i] == '\t' {
            i += 1;
            continue;
        }
        let mut arg = String::new();
        let mut inside = false;
        while i < chars.len() && (inside || (chars[i] != ' ' && chars[i] != '\t')) {
            let start = i;
            while i < chars.len() && chars[i] == '\\' {
                i += 1;
            }
            let slashes = i - start;
            if i < chars.len() && chars[i] == '"' {
                arg.push_str(&"\\".repeat(slashes / 2));
                if slashes % 2 == 1 {
                    arg.push('"');
                } else if inside && chars.get(i + 1) == Some(&'"') {
                    arg.push('"');
                    i += 1;
                } else {
                    inside = !inside;
                }
                i += 1;
            } else {
                arg.push_str(&"\\".repeat(slashes));
                if slashes == 0 {
                    arg.push(chars[i]);
                    i += 1;
                }
            }
        }
        args.push(arg);
    }
    args
}

#[test]
fn command_lines_are_split_into_what_they_were_made_of() {
    let args = strings(&[
        "", "x", "a b", "tab\there", "q\"q", "\"", "\\", "a\\", "a b\\", "a b\\\\", "\\\"",
        "a\\\\\"b",
        "\\\\srv\\x y\\", "\"\"", " ", "é 😀",
    ]);
    let line = build_command_line("C:\\Program Files\\a.exe", &args);
    let start = "\"C:\\Program Files\\a.exe\"";
    assert!(line.starts_with(start));
    assert_eq!(split(&line[start.len()..]), args);
}

#[test]
fn empty_arguments_are_not_lost() {
    let mut command = Command::new(b"C:\\a.exe");
    command.args(&strings(&["", "x"]));
    match command.spawn(Platform::Windows, true) {
        Ok(SpawnPlan::Process(launch)) => {
            assert_eq!(wide_to_string(&launch.command_line), "\"C:\\a.exe\" \"\" x");
        },
        _ => panic!("wrong plan"),
    }
}

// --------------------------------------------------------------- the helper

#[test]
fn helper_reads_its_request_back() {
    let request = HelperRequest {
        bundle: b"/A.app".to_vec(),
        background: true,
        detached: true,
        url: Some(b"--".to_vec()),
        app_args: blobs(&["--bundle", "--", "-x", "naïve"]),
    };
    let args = helper_args(&Vec::new(), &request);
    assert_eq!(
        args,
        blobs(&[
            "--bundle", "/A.app", "--background", "--detached", "--url", "--", "--", "--bundle",
            "--", "-x", "naïve"
        ])
    );
    match parse_helper_args(&args) {
        Ok(read) => {
            assert_eq!(read.bundle, b"/A.app".to_vec());
            assert_eq!(read.url, Some(b"--".to_vec()));
            assert!(read.background && read.detached);
            assert_eq!(read.app_args, request.app_args);
        },
        Err(_) => panic!("not read back"),
    }
}

#[test]
fn helper_needs_a_bundle() {
    for args in [&["--background"][..], &[][..], &["--bundle"][..], &["--", "--bundle", "x"][..]] {
        match parse_helper_args(&blobs(args)) {
            Err(failure) => {
                assert_eq!(failure.message(), "launch-control: --bundle <path> required");
                assert_eq!(failure.exit_code(), 2);
            },
            Ok(_) => panic!("no bundle was given"),
        }
    }
}

#[test]
fn a_last_bundle_flag_without_a_path_takes_the_bundle_back() {
    let args = blobs(&["--bundle", "x", "--bundle"]);
    assert!(matches!(parse_helper_args(&args), Err(HelperFailure::BundleMissing)));
}

#[test]
fn helper_refuses_unknown_arguments() {
    match parse_helper_args(&blobs(&["--bundle", "x", "--what"])) {
        Err(failure) => {
            assert_eq!(failure.message(), "launch-control: unknown arg: --what");
            assert_eq!(failure.exit_code(), 2);
        },
        Ok(_) => panic!("unknown argument"),
    }
    match parse_helper_args(&vec![b"-\xFF".to_vec()]) {
        Err(failure) => {
            assert_eq!(failure.message(), "launch-control: unknown arg: -\u{FFFD}");
        },
        Ok(_) => panic!("unknown argument"),
    }
    match parse_helper_args(&blobs(&["--bundle", "x", "--url", "u", "--url"])) {
        Ok(read) => assert_eq!(read.url, None),
        Err(_) => panic!("a URL flag without a URL"),
    }
}

#[test]
fn helper_failures_say_what_happened() {
    let cases = vec![
        (
            HelperFailure::Pty(Stream::Stdout, "x".to_string()),
            "launch-control: create_pty(stdout) failed: x",
        ),
        (
            HelperFailure::Pty(Stream::Stderr, "y".to_string()),
            "launch-control: create_pty(stderr) failed: y",
        ),
        (
            HelperFailure::OpenNotStarted("z".to_string()),
            "launch-control: failed to spawn /usr/bin/open: z",
        ),
        (HelperFailure::OpenFailed("w".to_string()), "launch-control: open failed: w"),
    ];
    for (failure, message) in cases {
        assert_eq!(failure.message(), message);
        assert_eq!(failure.exit_code(), 1);
    }
}

#[test]
fn the_bundle_is_opened_with_its_terminals() {
    let mut request = HelperRequest {
        bundle: b"/A.app".to_vec(),
        background: false,
        detached: false,
        url: None,
        app_args: Vec::new(),
    };
    assert_eq!(
        open_args(&request, b"/dev/ttys1", b"/dev/ttys2"),
        blobs(&["-n", "-a", "/A.app", "--stdout", "/dev/ttys1", "--stderr", "/dev/ttys2"])
    );
    request.background = true;
    request.app_args = blobs(&["--args"]);
    assert_eq!(
        open_args(&request, b"o", b"e"),
        blobs(&[
            "-n", "-g", "-j", "-a", "/A.app", "--stdout", "o", "--stderr", "e", "--args", "--args"
        ])
    );
}

#[test]
fn opening_succeeds_only_with_success() {
    assert!(open_outcome(Some(true), "noise").is_ok());
    for outcome in [open_outcome(Some(false), "why"), open_outcome(None, "why")] {
        match outcome {
            Err(failure) => assert_eq!(failure.message(), "launch-control: open failed: why"),
            Ok(()) => panic!("it failed"),
        }
    }
}

#[test]
fn only_attached_helpers_follow_a_living_parent() {
    assert!(follows_parent(false, 2));
    assert!(!follows_parent(false, 1));
    assert!(!follows_parent(false, 0));
    assert!(!follows_parent(true, 500));
}

#[test]
fn the_last_process_is_logged() {
    assert_eq!(logged_process("id", &vec![3, 9, -1, 0]), Some(9));
    assert_eq!(logged_process("id", &vec![-1]), None);
    assert_eq!(logged_process("", &vec![3]), None);
}

#[test]
fn the_helper_is_found_or_the_reason_is_given() {
    let invocation = || HelperInvocation {
        bin: b"/h".to_vec(),
        prefix_args: strings(&["sub"]),
    };
    match resolve_helper(HelperProbe::Configured(invocation(), true)) {
        Ok(found) => {
            assert_eq!(found.bin, b"/h".to_vec());
            assert_eq!(found.prefix_args, strings(&["sub"]));
        },
        Err(_) => panic!("configured"),
    }
    assert_eq!(
        platform_text(resolve_helper(HelperProbe::Configured(invocation(), false))),
        "configured helper bin does not exist: /h"
    );
    match resolve_helper(HelperProbe::Sibling(b"/d/launch-control".to_vec(), true)) {
        Ok(found) => {
            assert_eq!(found.bin, b"/d/launch-control".to_vec());
            assert!(found.prefix_args.is_empty());
        },
        Err(_) => panic!("sibling"),
    }
    assert_eq!(
        platform_text(resolve_helper(HelperProbe::Sibling(b"/d/x".to_vec(), false))),
        "launch-control helper not found at /d/x (call set_helper_invocation, or deploy the binary as a sibling)"
    );
    assert_eq!(
        platform_text(resolve_helper(HelperProbe::NoCurrentExe("e".to_string()))),
        "current_exe failed: e"
    );
    assert_eq!(
        platform_text(resolve_helper(HelperProbe::NoDirectory)),
        "current_exe has no parent dir"
    );
    assert_eq!(
        platform_text(resolve_shown(HelperProbe::Configured(invocation(), false), "<h>")),
        "configured helper bin does not exist: <h>"
    );
}

#[test]
fn a_configured_helper_comes_first() {
    let invocation = HelperInvocation { bin: b"/h".to_vec(), prefix_args: strings(&["sub"]) };
    match helper_place(Some(invocation)) {
        HelperPlace::Configured(found) => {
            assert_eq!(found.bin, b"/h".to_vec());
            assert_eq!(found.prefix_args, strings(&["sub"]));
        },
        HelperPlace::BesideProgram => panic!("a caller has said where"),
    }
    assert!(matches!(helper_place(None), HelperPlace::BesideProgram));
}

#[test]
fn byte_strings_are_compared_and_shown() {
    assert_eq!(bytes_of("\u{e4}"), vec![0xC3, 0xA4]);
    assert!(is_word(b"--url", "--url"));
    assert!(!is_word(b"--url", "--urn") && !is_word(b"--ur", "--url"));
    assert_eq!(show_path(b"/a\xFFb"), "/a\u{FFFD}b");
}

// ------------------------------------------------------------------- bundles

fn bundle_of(path: &[u8]) -> Option<Vec<u8>> {
    find_app_bundle(path)
}

#[test]
fn bundles_are_found_from_inside() {
    assert_eq!(
        bundle_of(b"/Applications/Foo.app/Contents/MacOS/Foo"),
        Some(b"/Applications/Foo.app".to_vec())
    );
    assert_eq!(bundle_of(b"/Applications/Foo.app"), Some(b"/Applications/Foo.app".to_vec()));
    assert_eq!(bundle_of(b"Foo.app/x"), Some(b"Foo.app".to_vec()));
    assert_eq!(bundle_of(b"/a/b"), None);
    assert_eq!(bundle_of(b""), None);
    assert_eq!(bundle_of(b"/"), None);
}

#[test]
fn a_bundle_keeps_its_trailing_separators() {
    assert_eq!(bundle_of(b"/Foo.app/"), Some(b"/Foo.app/".to_vec()));
    assert_eq!(bundle_of(b"/Foo.app/./"), Some(b"/Foo.app/./".to_vec()));
    assert_eq!(bundle_of(b"/Foo.app//x/"), Some(b"/Foo.app".to_vec()));
}

#[test]
fn only_names_with_the_extension_are_bundles() {
    assert_eq!(bundle_of(b"/.app/x"), None);
    assert_eq!(bundle_of(b"/Foo.APP/x"), None);
    assert_eq!(bundle_of(b"/Foo.apps/x"), None);
    assert_eq!(bundle_of(b"/Fooapp/x"), None);
    assert_eq!(bundle_of(b"/..app/x"), Some(b"/..app".to_vec()));
}

#[test]
fn the_innermost_bundle_counts() {
    assert_eq!(
        bundle_of(b"/A.app/Contents/B.app/Contents/x"),
        Some(b"/A.app/Contents/B.app".to_vec())
    );
    assert_eq!(bundle_of(b"/A.app/B.app"), Some(b"/A.app/B.app".to_vec()));
}

#[test]
fn a_found_bundle_is_its_own_bundle() {
    for path in [&b"/A.app/Contents/x"[..], &b"A.app/"[..], &b"/A.app/B.app/c"[..]] {
        let bundle = bundle_of(path).unwrap();
        assert_eq!(bundle_of(&bundle), Some(bundle.clone()));
        assert!(path.starts_with(&bundle));
    }
}

#[test]
fn identifiers_are_read_from_property_lists() {
    let list = "<plist><key>Other</key><string>no</string>\n<key>CFBundleIdentifier</key>\n\
                \t<string>com.example.foo</string><string>more</string></plist>";
    assert_eq!(bundle_id_in(list), Some("com.example.foo".to_string()));
    assert_eq!(
        bundle_id_from_plist(list.as_bytes()),
        Some("com.example.foo".to_string())
    );
    assert_eq!(
        bundle_id_from_plist(b"\xFE<key>CFBundleIdentifier</key><string>a\xFFb</string>"),
        Some("a\u{FFFD}b".to_string())
    );
    assert_eq!(bundle_id_in("<key>CFBundleIdentifier</key><string></string>"), Some(String::new()));
}

#[test]
fn incomplete_property_lists_have_no_identifier() {
    assert_eq!(bundle_id_in(""), None);
    assert_eq!(bundle_id_in("<string>x</string>"), None);
    assert_eq!(bundle_id_in("<string>x</string><key>CFBundleIdentifier</key>"), None);
    assert_eq!(bundle_id_in("<key>CFBundleIdentifier</key><string>x"), None);
}

// --------------------------------------------------------- argument records

fn record(count: i32, rest: &[u8]) -> Vec<u8> {
    let mut bytes = count.to_le_bytes().to_vec();
    bytes.extend_from_slice(rest);
    bytes
}

#[test]
fn arguments_are_read_from_a_record() {
    let bytes = record(3, b"/bin/x\0\0\0\0/bin/x\0-a\0\0PATH=/\0");
    assert_eq!(proc_argv(&bytes), Some(strings(&["/bin/x", "-a", ""])));
    let bytes = record(2, b"/bin/x\0x\0\xFF\0E=1\0");
    assert_eq!(proc_argv(&bytes), Some(strings(&["x", "\u{FFFD}"])));
}

#[test]
fn short_records_give_what_they_hold() {
    assert_eq!(proc_argv(&record(5, b"p\0a\0b")), Some(strings(&["a"])));
    assert_eq!(proc_argv(&record(0, b"/bin/x\0\0ENV=1\0")), Some(Vec::new()));
    assert_eq!(proc_argv(&record(0x100, b"p\0a\0b\0")), Some(strings(&["a", "b"])));
    assert_eq!(proc_argv(&record(1, b"p\0\0\0")), Some(Vec::new()));
}

#[test]
fn broken_records_give_nothing() {
    assert_eq!(proc_argv(&[]), None);
    assert_eq!(proc_argv(&[1, 0, 0]), None);
    assert_eq!(proc_argv(&record(1, b"no end")), None);
    assert_eq!(proc_argv(&record(-1, b"p\0a\0")), None);
    assert_eq!(split_arguments(2, b"path"), None);
    assert_eq!(split_arguments(1, b"p\0\0a\0b\0"), Some(vec![b"a".to_vec()]));
    assert_eq!(split_arguments(0, b"p\0a\0"), Some(Vec::new()));
}

#[test]
fn argument_lists_are_searched_for_others() {
    let hay = strings(&["/bin/x", "-a", "1", "-a", "2"]);
    assert!(argv_contains_args(&hay, &[]));
    assert!(argv_contains_args(&hay, &strings(&["-a", "2"])));
    assert!(argv_contains_args(&hay, &hay));
    assert!(!argv_contains_args(&hay, &strings(&["-a", "3"])));
    assert!(!argv_contains_args(&hay, &strings(&["1", "2"])));
    assert!(!argv_contains_args(&[], &strings(&["1"])));
}

// ------------------------------------------------------- claiming a process

fn running(pid: i32, argv: Option<&[&str]>) -> Running {
    Running { pid, argv: argv.map(strings) }
}

#[test]
fn a_new_process_with_the_arguments_is_claimed() {
    let mut claim = Claim::new(vec![10], strings(&["-p", "7"]));
    assert!(!claim.needs_argv(10) && !claim.needs_argv(-1) && claim.needs_argv(11));
    let seen = vec![
        running(10, Some(&["x", "-p", "7"])),
        running(0, None),
        running(11, Some(&["x", "-p", "8"])),
        running(12, Some(&["x", "-p", "7"])),
    ];
    assert_eq!(claim.look(&seen), ClaimStep::Claimed { pid: 12, verified: true });
}

#[test]
fn without_arguments_any_new_process_is_claimed() {
    let mut claim = Claim::new(vec![10], Vec::new());
    assert!(!claim.needs_argv(11));
    let seen = vec![running(10, None), running(11, None), running(12, None)];
    assert_eq!(claim.look(&seen), ClaimStep::Claimed { pid: 11, verified: true });
}

#[test]
fn an_unverified_process_is_claimed_late() {
    let mut claim = Claim::new(vec![], strings(&["a"]));
    let seen = vec![running(20, None), running(21, Some(&["b"]))];
    for attempt in 0..25 {
        assert_eq!(claim.attempt, attempt);
        assert_eq!(claim.look(&seen), ClaimStep::AskHelper);
        assert_eq!(claim.helper_seen(false), HelperStep::LookAgain);
    }
    assert_eq!(claim.look(&Vec::new()), ClaimStep::Claimed { pid: 21, verified: false });
}

#[test]
fn the_search_gives_up() {
    let mut claim = Claim::new(vec![], strings(&["a"]));
    for _ in 0..50 {
        assert_eq!(claim.look(&Vec::new()), ClaimStep::AskHelper);
        assert_eq!(claim.helper_seen(false), HelperStep::LookAgain);
    }
    assert_eq!(claim.look(&vec![running(5, Some(&["a"]))]), ClaimStep::GiveUp);
    assert_eq!(claim.helper_seen(false), HelperStep::GiveUp);
    let mut claim = Claim::new(vec![], Vec::new());
    assert_eq!(claim.helper_seen(true), HelperStep::GiveUp);
    assert_eq!(
        platform_text::<()>(Err(claim_failed("boom"))),
        "helper failed to launch app: boom"
    );
}

#[test]
fn a_later_launch_claims_another_process() {
    let seen = || vec![running(30, None), running(31, None)];
    let mut first = Claim::new(vec![], Vec::new());
    assert_eq!(first.look(&seen()), ClaimStep::Claimed { pid: 30, verified: true });
    let mut second = Claim::new(vec![30], Vec::new());
    assert_eq!(second.look(&seen()), ClaimStep::Claimed { pid: 31, verified: true });
}

#[test]
fn launches_at_the_same_time_claim_different_processes() {
    let seen = || vec![running(30, Some(&["x", "a"])), running(31, Some(&["x", "b"]))];
    let mut one = Claim::new(vec![], strings(&["b"]));
    let mut other = Claim::new(vec![], strings(&["a"]));
    assert_eq!(one.look(&seen()), ClaimStep::Claimed { pid: 31, verified: true });
    assert_eq!(other.look(&seen()), ClaimStep::Claimed { pid: 30, verified: true });
}

// ------------------------------------------------------- adopting a process

fn launched(via_shell: bool, args: &[&str]) -> Launched {
    let mut before: HashSet<u32> = HashSet::new();
    before.insert(1);
    Launched { pid: 100, via_shell, before, args: strings(args) }
}

fn candidate(pid: u32, windowed: bool, line: Option<&str>) -> Candidate {
    Candidate { pid, windowed, command_line: line.map(|l| l.to_string()) }
}

fn sight(alive: bool, windowed: bool, candidates: Vec<Candidate>, elapsed: u64) -> Sight {
    Sight { alive, windowed, candidates, elapsed }
}

#[test]
fn a_launched_process_with_a_window_is_kept() {
    let other = || vec![candidate(7, true, Some("x a"))];
    let own = launched(false, &["a"]);
    assert!(own.is_application(true, true) && !own.is_application(false, true));
    assert_eq!(own.decide(&sight(true, true, other(), 0)), Decision::Keep(Reason::OwnWindow));
    let shell = launched(true, &["a"]);
    assert_eq!(shell.decide(&sight(true, true, other(), 0)), Decision::Adopt(7));
}

#[test]
fn the_first_matching_sibling_is_adopted() {
    let own = launched(false, &["a.rbxl", "-id"]);
    let seen = vec![
        candidate(1, true, Some("a.rbxl -id")),
        candidate(100, true, Some("a.rbxl -id")),
        candidate(5, false, Some("a.rbxl -id")),
        candidate(6, true, Some("a.rbxl")),
        candidate(7, true, Some("\"x.exe\" a.rbxl -id 4")),
        candidate(8, true, Some("a.rbxl -id")),
    ];
    assert_eq!(own.siblings(&vec![1, 100, 5, 6]), vec![5, 6]);
    assert_eq!(own.decide(&sight(true, false, seen, 0)), Decision::Adopt(7));
}

#[test]
fn unreadable_siblings_wait_for_the_fallback() {
    let own = launched(false, &["a"]);
    let seen = || vec![candidate(7, true, None)];
    assert_eq!(own.decide(&sight(true, false, seen(), 4999)), Decision::Wait);
    assert_eq!(own.decide(&sight(true, false, seen(), 5000)), Decision::Adopt(7));
    assert_eq!(launched(false, &[]).decide(&sight(true, false, seen(), 0)), Decision::Adopt(7));
}

#[test]
fn mismatched_siblings_are_never_adopted() {
    let own = launched(false, &["a"]);
    let seen = || vec![candidate(7, true, Some("b"))];
    assert_eq!(own.decide(&sight(true, false, seen(), 29999)), Decision::Wait);
    assert_eq!(own.decide(&sight(true, false, seen(), 30000)), Decision::Keep(Reason::TimedOut));
    assert_eq!(own.decide(&sight(false, false, seen(), 29999)), Decision::Wait);
}

#[test]
fn launches_at_the_same_time_adopt_different_processes() {
    let seen = || {
        let list = vec![candidate(7, true, Some("x b")), candidate(8, true, Some("x a"))];
        sight(true, false, list, 0)
    };
    assert_eq!(launched(false, &["a"]).decide(&seen()), Decision::Adopt(8));
    assert_eq!(launched(false, &["b"]).decide(&seen()), Decision::Adopt(7));
}

#[test]
fn a_launch_without_siblings_settles() {
    let own = launched(false, &["a"]);
    let old = || vec![candidate(1, true, Some("a"))];
    assert_eq!(own.decide(&sight(true, false, old(), 2999)), Decision::Wait);
    assert_eq!(own.decide(&sight(true, false, old(), 3000)), Decision::Keep(Reason::NoHandoff));
    assert_eq!(own.decide(&sight(false, false, old(), 0)), Decision::Keep(Reason::EarlyExit));
    let shell = launched(true, &["a"]);
    assert_eq!(shell.decide(&sight(false, false, old(), 0)), Decision::Wait);
    assert_eq!(
        shell.decide(&sight(false, false, old(), 30000)),
        Decision::Keep(Reason::TimedOut)
    );
}

#[test]
fn a_process_that_cannot_be_opened_is_waited_for() {
    let own = launched(false, &["a"]);
    let seen = sight(true, false, vec![candidate(7, true, Some("a"))], 5000);
    assert_eq!(own.decide(&seen), Decision::Adopt(7));
    assert_eq!(own.settle(&seen), Decision::Wait);
}

#[test]
fn an_application_is_recognised_by_its_own_command_line() {
    let args = strings(&["C:\\my place.rbxl", "-task", "EditFile"]);
    let line = build_command_line("C:\\x.exe", &args);
    let own = Launched { pid: 100, via_shell: false, before: HashSet::new(), args };
    let seen = sight(true, false, vec![candidate(7, true, Some(&line))], 0);
    assert_eq!(own.decide(&seen), Decision::Adopt(7));
    let quoted = strings(&["a\"b"]);
    let line = build_command_line("C:\\x.exe", &quoted);
    let own = Launched { pid: 100, via_shell: false, before: HashSet::new(), args: quoted };
    let seen = sight(true, false, vec![candidate(7, true, Some(&line))], 0);
    assert_eq!(own.decide(&seen), Decision::Wait);
}

#[test]
fn processes_are_found_by_executable() {
    let entry = |name: &str, pid: u32| {
        let mut units = wide_text(name);
        units.extend_from_slice(&[120, 121]);
        ProcessEntry { name: units, pid }
    };
    let entries = vec![
        entry("App.exe", 1),
        entry("aPP.EXE", 2),
        entry("App.exe2", 3),
        entry("ÄPP.exe", 4),
        entry("", 5),
    ];
    let mut found: Vec<u32> = pids_for_exe("app.exe", &entries).into_iter().collect();
    found.sort();
    assert_eq!(found, vec![1, 2]);
    assert!(pids_for_exe("", &entries).is_empty());
    assert!(pids_for_exe("äpp.exe", &entries).is_empty());
}
