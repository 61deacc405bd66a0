//! Streams, ends, keys, windows, menus and memory.
use launch_control::child::{
    kill_result, wait_result, Child, FocusLook, FocusStart, HandleState, IoFailure, KillReply,
    SignalReply, WaitReply, WaitStep,
};
use launch_control::error::{Error, IoErrorKind};
use launch_control::exit::{
    make_exit_status, reported_exit_status, synth_exit_status, ExitState, ExitStatus,
};
use launch_control::keys::{
    code_to_macos_keycode, code_to_vk, modifier_vks, modifiers_to_cg_flags, Code, Modifiers, ALT,
    CONTROL, META, SHIFT,
};
use launch_control::macos::{
    is_pid_frontmost, key_event_failed, send_keystroke_to_pid, FocusPlan, KeyPost, KeyRoute,
    MacOSHandle,
};
use launch_control::menu::{
    press_step, Answer, BarReply, ItemPlace, PressEvent, PressStage, PressStep, Question, Walk,
    Wanted,
};
use launch_control::peb::{LineReader, MemoryRead, MemoryReply};
use launch_control::relay::{ReadOutcome, Relay, RelayStep};
use launch_control::stream::{
    goes_on_draining, make_child_stderr, make_child_stdout, LineRead, RecvTimeoutError,
};
use launch_control::text::{
    contains_char, contains_text, decimal_text, equal_ignoring_case, find_from,
    signed_decimal_text, upper,
};
use launch_control::wide::{from_wide, wide_text, wide_to_string};
use launch_control::windows::{
    chord_steps, find_main_window_by_pid, find_window_by_pid, force_foreground, gives_focus_back,
    must_terminate, no_window, FocusStep, ForegroundAction, KeyStep, Window, WindowsHandle,
};
use launch_control::Platform;
use std::sync::mpsc;
use std::time::Duration;

fn platform_text<T>(result: Result<T, Error>) -> String {
    match result {
        Err(Error::Platform(text)) => text,
        _ => panic!("not a platform error"),
    }
}

// ------------------------------------------------------------------- streams

#[test]
fn output_is_read_as_bytes() {
    let (sender, lines) = mpsc::channel();
    sender.send("häy".to_string()).unwrap();
    sender.send(String::new()).unwrap();
    drop(sender);
    let mut stdout = make_child_stdout(lines);
    let mut buffer = [9u8; 3];
    assert_eq!(stdout.read(&mut buffer), 3);
    assert_eq!(&buffer, "hä".as_bytes());
    assert_eq!(stdout.read(&mut buffer), 2);
    assert_eq!(&buffer[..2], b"y\n");
    assert_eq!(buffer[2], "hä".as_bytes()[2]);
    assert_eq!(stdout.read(&mut buffer), 1);
    assert_eq!(buffer[0], b'\n');
    assert_eq!(stdout.read(&mut buffer), 0);
    assert_eq!(stdout.read(&mut buffer), 0);
}

#[test]
fn error_output_is_read_as_bytes() {
    let (sender, lines) = mpsc::channel();
    sender.send("one".to_string()).unwrap();
    sender.send("two".to_string()).unwrap();
    drop(sender);
    let mut stderr = make_child_stderr(lines);
    assert_eq!(stderr.fill_buf(), b"one\n");
    stderr.consume(2);
    assert_eq!(stderr.fill_buf(), b"e\n");
    let mut buffer = [0u8; 8];
    assert_eq!(stderr.read(&mut buffer), 2);
    assert_eq!(stderr.read(&mut buffer), 4);
    assert_eq!(&buffer[..4], b"two\n");
    assert!(stderr.fill_buf().is_empty());
    stderr.consume(5);
    assert!(stderr.fill_buf().is_empty());
}

#[test]
fn buffered_reading_loses_nothing() {
    let (sender, lines) = mpsc::channel();
    for line in ["a", "", "bcd"] {
        sender.send(line.to_string()).unwrap();
    }
    drop(sender);
    let mut stdout = make_child_stdout(lines);
    let mut all: Vec<u8> = Vec::new();
    loop {
        let piece = stdout.fill_buf().to_vec();
        if piece.is_empty() {
            break;
        }
        all.push(piece[0]);
        stdout.consume(1);
    }
    assert_eq!(all, b"a\n\nbcd\n".to_vec());
}

#[test]
fn lines_can_be_handed_in() {
    let (_sender, lines) = mpsc::channel::<String>();
    let mut stdout = make_child_stdout(lines);
    let mut buffer = [0u8; 2];
    assert_eq!(stdout.read_line(Some("xyz".to_string()), &mut buffer), 2);
    assert_eq!(&buffer, b"xy");
    assert_eq!(stdout.fill_line(Some("unused".to_string())), b"z\n");
    stdout.consume(2);
    assert!(stdout.fill_line(None).is_empty());
    assert_eq!(stdout.read_line(None, &mut buffer), 0);
    let (_sender, lines) = mpsc::channel::<String>();
    let mut stderr = make_child_stderr(lines);
    assert_eq!(stderr.fill_line(Some("e".to_string())), b"e\n");
    assert_eq!(stderr.read_line(None, &mut buffer), 2);
    assert_eq!(&buffer, b"e\n");
}

#[test]
fn lines_come_in_time_or_not() {
    let (sender, lines) = mpsc::channel();
    let stdout = make_child_stdout(lines);
    assert_eq!(
        stdout.recv_timeout(Duration::from_millis(1)),
        Err(RecvTimeoutError::Timeout)
    );
    sender.send("line".to_string()).unwrap();
    assert_eq!(stdout.recv_timeout(Duration::from_secs(5)), Ok("line".to_string()));
    drop(sender);
    assert_eq!(
        stdout.recv_timeout(Duration::from_secs(5)),
        Err(RecvTimeoutError::Disconnected)
    );
}

#[test]
fn output_is_drained_though_nobody_receives_it() {
    assert!(goes_on_draining(LineRead::Read { delivered: true }));
    assert!(goes_on_draining(LineRead::Read { delivered: false }));
    assert!(goes_on_draining(LineRead::NotText));
    assert!(!goes_on_draining(LineRead::Failed));
}

#[test]
fn a_relay_becomes_a_sink() {
    let mut relay = Relay::new();
    assert_eq!(relay.on_read(ReadOutcome::Data), RelayStep::Write);
    relay.on_write(true);
    assert_eq!(relay.on_read(ReadOutcome::Data), RelayStep::Write);
    relay.on_write(false);
    assert_eq!(relay.on_read(ReadOutcome::Data), RelayStep::ReadOn);
    relay.on_write(true);
    assert_eq!(relay.on_read(ReadOutcome::Data), RelayStep::ReadOn);
    assert_eq!(relay.on_read(ReadOutcome::End), RelayStep::Stop);
    assert_eq!(Relay::new().on_read(ReadOutcome::Failed), RelayStep::Stop);
    assert_eq!(Relay::new().on_read(ReadOutcome::NotText), RelayStep::ReadOn);
    assert_eq!(relay.on_read(ReadOutcome::NotText), RelayStep::ReadOn);
}

// ---------------------------------------------------------------------- ends

#[test]
fn exit_statuses_are_encoded() {
    assert_eq!(make_exit_status(0), ExitStatus { raw: 0 });
    assert_eq!(make_exit_status(1), ExitStatus { raw: 0x100 });
    assert_eq!(make_exit_status(-1), ExitStatus { raw: 0xFF00 });
    assert_eq!(make_exit_status(0x1FF), ExitStatus { raw: 0xFF00 });
    assert_eq!(synth_exit_status(), ExitStatus { raw: 0 });
    assert_eq!(reported_exit_status(Some(7)), ExitStatus { raw: 7 });
    assert_eq!(reported_exit_status(None), ExitStatus { raw: 0 });
}

#[test]
fn callbacks_are_called_once_each() {
    let mut state: ExitState<&str> = ExitState::default();
    assert_eq!(state.on_exit("a"), None);
    assert_eq!(state.on_exit("b"), None);
    let status = ExitStatus { raw: 3 };
    assert_eq!(state.exited(status), vec!["a", "b"]);
    assert_eq!(state.on_exit("c"), Some(("c", status)));
    assert!(state.exited(ExitStatus { raw: 4 }).is_empty());
    assert_eq!(state.on_exit("d"), Some(("d", ExitStatus { raw: 4 })));
}

fn child(gui: bool) -> Child {
    Child::new(42, None, None, gui)
}

#[test]
fn a_child_registers_callbacks() {
    let mut state: ExitState<u8> = ExitState::default();
    assert_eq!(child(true).on_exit(&mut state, 1), None);
    state.exited(ExitStatus { raw: 9 });
    assert_eq!(child(true).on_exit(&mut state, 2), Some((2, ExitStatus { raw: 9 })));
    assert_eq!(child(true).id(), 42);
}

fn signal(ret: i32, errno: Option<i32>) -> SignalReply {
    SignalReply { ret, errno }
}

#[test]
fn killing_counts_the_dead_as_killed() {
    assert!(kill_result(KillReply::Signal(signal(0, None))).is_ok());
    assert!(kill_result(KillReply::Signal(signal(-1, Some(libc::ESRCH)))).is_ok());
    assert!(matches!(
        kill_result(KillReply::Signal(signal(-1, Some(libc::EPERM)))),
        Err(IoFailure::Os(Some(libc::EPERM)))
    ));
    assert!(matches!(
        kill_result(KillReply::Signal(signal(-1, None))),
        Err(IoFailure::Os(None))
    ));
    assert!(child(true).kill(KillReply::Handle(HandleState::Ended(None), false)).is_ok());
    assert!(child(true).kill(KillReply::Handle(HandleState::Unknown, false)).is_ok());
    assert!(child(true).kill(KillReply::Handle(HandleState::Running, true)).is_ok());
    match child(true).kill(KillReply::Handle(HandleState::Running, false)) {
        Err(IoFailure::Other(kind, text)) => {
            assert_eq!(kind, IoErrorKind::Other);
            assert_eq!(text, "TerminateProcess failed");
        },
        _ => panic!("it failed"),
    }
    match child(true).kill(KillReply::Unsupported) {
        Err(IoFailure::Other(kind, text)) => {
            assert_eq!(kind, IoErrorKind::Unsupported);
            assert_eq!(text, "unsupported platform");
        },
        _ => panic!("unsupported"),
    }
}

#[test]
fn waiting_tells_the_status() {
    assert!(matches!(wait_result(WaitReply::Signal(signal(0, None))), Ok(None)));
    assert!(matches!(
        child(true).try_wait(WaitReply::Signal(signal(-1, Some(libc::ESRCH)))),
        Ok(Some(ExitStatus { raw: 0 }))
    ));
    assert!(matches!(
        child(true).try_wait(WaitReply::Signal(signal(-1, Some(libc::EPERM)))),
        Err(IoFailure::Os(Some(libc::EPERM)))
    ));
    let handle = WindowsHandle { pid: 42 };
    assert!(matches!(handle.try_wait(HandleState::Running), Ok(None)));
    assert!(matches!(
        handle.try_wait(HandleState::Ended(Some(259))),
        Ok(Some(ExitStatus { raw: 259 }))
    ));
    for (state, expected) in [
        (HandleState::Ended(None), "GetExitCodeProcess failed"),
        (HandleState::Unknown, "WaitForSingleObject failed"),
    ] {
        match handle.try_wait(state) {
            Err(IoFailure::Other(kind, text)) => {
                assert_eq!(kind, IoErrorKind::Other);
                assert_eq!(text, expected);
            },
            _ => panic!("it failed"),
        }
    }
    assert!(matches!(
        child(true).try_wait(WaitReply::Unsupported),
        Err(IoFailure::Other(IoErrorKind::Unsupported, _))
    ));
    assert!(must_terminate(HandleState::Running));
    assert!(!must_terminate(HandleState::Ended(Some(0))) && !must_terminate(HandleState::Unknown));
    assert!(handle.kill_io(HandleState::Running, true).is_ok());
    assert!(handle.kill_io(HandleState::Running, false).is_err());
}

#[test]
fn waiting_goes_on_while_the_process_runs() {
    assert!(matches!(
        child(true).wait(WaitReply::Handle(HandleState::Running)),
        WaitStep::AskAgain
    ));
    assert!(matches!(
        child(true).wait(WaitReply::Handle(HandleState::Ended(Some(5)))),
        WaitStep::Done(ExitStatus { raw: 5 })
    ));
    assert!(matches!(
        child(true).wait(WaitReply::Handle(HandleState::Unknown)),
        WaitStep::Failed(_)
    ));
}

// --------------------------------------------------------------------- focus

fn window(handle: u64, pid: u32, visible: bool, owned: bool, title_len: i32) -> Window {
    Window { handle, pid, visible, owned, title_len }
}

#[test]
fn applications_come_to_the_front_on_macos() {
    let look = |terminated: bool, hidden: bool| FocusLook::MacOs { terminated, hidden };
    assert!(matches!(
        child(true).focus(&look(false, true)),
        Ok(FocusStart::Activate(FocusPlan { unhide: true }))
    ));
    assert!(matches!(
        child(true).focus(&look(false, false)),
        Ok(FocusStart::Activate(FocusPlan { unhide: false }))
    ));
    assert!(matches!(child(true).focus(&look(true, false)), Err(Error::Terminated)));
    assert_eq!(
        platform_text(child(false).focus(&look(true, false))),
        "no GUI handle available"
    );
    assert!(matches!(child(true).focus(&FocusLook::Other), Err(Error::Unsupported)));
}

#[test]
fn main_windows_are_visible_unowned_and_titled() {
    let windows = vec![
        window(1, 7, true, false, 4),
        window(2, 42, false, false, 4),
        window(3, 42, true, true, 4),
        window(4, 42, true, false, 0),
        window(5, 42, true, false, 1),
        window(6, 42, true, false, 9),
    ];
    assert_eq!(find_window_by_pid(&windows, 42), Some(2));
    assert_eq!(find_window_by_pid(&windows, 8), None);
    assert_eq!(find_main_window_by_pid(&windows, 42), Some(5));
    assert_eq!(find_main_window_by_pid(&windows, 8), None);
    assert!(matches!(
        child(false).focus(&FocusLook::Windows(windows)),
        Ok(FocusStart::Foreground(5))
    ));
    assert_eq!(
        platform_text(child(false).focus(&FocusLook::Windows(Vec::new()))),
        "no window found for process"
    );
    assert_eq!(platform_text::<()>(Err(no_window())), "no window found for process");
}

#[test]
fn the_foreground_is_asked_for_until_the_deadline() {
    let handle = WindowsHandle { pid: 42 };
    assert!(matches!(handle.focus(42, 9999), FocusStep::Focused));
    assert!(matches!(handle.focus(7, 4999), FocusStep::AskAgain));
    match handle.focus(7, 5000) {
        FocusStep::Failed(error) => assert_eq!(
            platform_text::<()>(Err(error)),
            "focus: pid 42 not foreground after 5s (foreground was pid 7)"
        ),
        _ => panic!("too late"),
    }
    assert!(matches!(handle.focus_for_keystroke(42, 9999), FocusStep::Focused));
    assert!(matches!(handle.focus_for_keystroke(7, 0), FocusStep::AskAgain));
    match handle.focus_for_keystroke(0, 5001) {
        FocusStep::Failed(error) => assert_eq!(
            platform_text::<()>(Err(error)),
            "send_keystroke: target pid 42 not foreground (was 0)"
        ),
        _ => panic!("too late"),
    }
}

#[test]
fn windows_are_forced_to_the_front() {
    assert_eq!(
        force_foreground(8, 9, true),
        vec![
            ForegroundAction::Attach,
            ForegroundAction::Restore,
            ForegroundAction::BringToTop,
            ForegroundAction::SetForeground,
            ForegroundAction::Detach
        ]
    );
    assert_eq!(
        force_foreground(9, 9, false),
        vec![ForegroundAction::BringToTop, ForegroundAction::SetForeground]
    );
    assert_eq!(
        force_foreground(0, 9, true),
        vec![
            ForegroundAction::Restore,
            ForegroundAction::BringToTop,
            ForegroundAction::SetForeground
        ]
    );
    assert!(gives_focus_back(3, 4));
    assert!(!gives_focus_back(3, 3));
    assert!(!gives_focus_back(0, 4));
}

// ---------------------------------------------------------------------- keys

#[test]
fn keys_have_their_codes() {
    assert_eq!(code_to_macos_keycode(&Code::KeyA), Some(0));
    assert_eq!(code_to_macos_keycode(&Code::KeyS), Some(1));
    assert_eq!(code_to_macos_keycode(&Code::Digit5), Some(23));
    assert_eq!(code_to_macos_keycode(&Code::Digit6), Some(22));
    assert_eq!(code_to_macos_keycode(&Code::F1), Some(122));
    assert_eq!(code_to_macos_keycode(&Code::Delete), Some(117));
    assert_eq!(code_to_macos_keycode(&Code::Other("Insert".to_string())), None);
    assert_eq!(code_to_vk(&Code::KeyS), Some(0x53));
    assert_eq!(code_to_vk(&Code::Digit0), Some(0x30));
    assert_eq!(code_to_vk(&Code::Enter), Some(0x0D));
    assert_eq!(code_to_vk(&Code::F1), None);
    assert_eq!(code_to_vk(&Code::Other("Insert".to_string())), None);
}

#[test]
fn keys_are_named_as_on_the_keyboard() {
    let codes = vec![
        (keyboard_types::Code::KeyQ, Some(12), Some(0x51)),
        (keyboard_types::Code::Backspace, Some(51), Some(0x08)),
        (keyboard_types::Code::Backquote, Some(50), None),
        (keyboard_types::Code::ArrowUp, Some(126), None),
        (keyboard_types::Code::F12, Some(111), None),
        (keyboard_types::Code::NumpadEnter, None, None),
    ];
    for (outside, keycode, vk) in codes {
        let name = format!("{outside:?}");
        let code = Code::with_name(&name);
        assert_eq!(code.name(), name);
        assert_eq!(code_to_macos_keycode(&code), keycode);
        assert_eq!(code_to_vk(&code), vk);
    }
}

#[test]
fn every_key_with_a_code_is_known_by_its_name() {
    let keys = vec![
        keyboard_types::Code::KeyA, keyboard_types::Code::KeyB, keyboard_types::Code::KeyC,
        keyboard_types::Code::KeyD, keyboard_types::Code::KeyE, keyboard_types::Code::KeyF,
        keyboard_types::Code::KeyG, keyboard_types::Code::KeyH, keyboard_types::Code::KeyI,
        keyboard_types::Code::KeyJ, keyboard_types::Code::KeyK, keyboard_types::Code::KeyL,
        keyboard_types::Code::KeyM, keyboard_types::Code::KeyN, keyboard_types::Code::KeyO,
        keyboard_types::Code::KeyP, keyboard_types::Code::KeyQ, keyboard_types::Code::KeyR,
        keyboard_types::Code::KeyS, keyboard_types::Code::KeyT, keyboard_types::Code::KeyU,
        keyboard_types::Code::KeyV, keyboard_types::Code::KeyW, keyboard_types::Code::KeyX,
        keyboard_types::Code::KeyY, keyboard_types::Code::KeyZ, keyboard_types::Code::Digit0,
        keyboard_types::Code::Digit1, keyboard_types::Code::Digit2, keyboard_types::Code::Digit3,
        keyboard_types::Code::Digit4, keyboard_types::Code::Digit5, keyboard_types::Code::Digit6,
        keyboard_types::Code::Digit7, keyboard_types::Code::Digit8, keyboard_types::Code::Digit9,
        keyboard_types::Code::F1, keyboard_types::Code::F2, keyboard_types::Code::F3,
        keyboard_types::Code::F4, keyboard_types::Code::F5, keyboard_types::Code::F6,
        keyboard_types::Code::F7, keyboard_types::Code::F8, keyboard_types::Code::F9,
        keyboard_types::Code::F10, keyboard_types::Code::F11, keyboard_types::Code::F12,
        keyboard_types::Code::Enter, keyboard_types::Code::Tab, keyboard_types::Code::Space,
        keyboard_types::Code::Backspace, keyboard_types::Code::Escape, keyboard_types::Code::Minus,
        keyboard_types::Code::Equal, keyboard_types::Code::BracketLeft,
        keyboard_types::Code::BracketRight, keyboard_types::Code::Backslash,
        keyboard_types::Code::Semicolon, keyboard_types::Code::Quote,
        keyboard_types::Code::Backquote, keyboard_types::Code::Comma, keyboard_types::Code::Period,
        keyboard_types::Code::Slash, keyboard_types::Code::ArrowLeft,
        keyboard_types::Code::ArrowRight, keyboard_types::Code::ArrowDown,
        keyboard_types::Code::ArrowUp, keyboard_types::Code::Home, keyboard_types::Code::End,
        keyboard_types::Code::PageUp, keyboard_types::Code::PageDown, keyboard_types::Code::Delete,
    ];
    let mut keycodes: Vec<u16> = Vec::new();
    let mut windows_keys: Vec<u8> = Vec::new();
    for key in &keys {
        let code = Code::with_name(&format!("{key:?}"));
        assert!(!matches!(code, Code::Other(_)));
        keycodes.push(code_to_macos_keycode(&code).unwrap());
        windows_keys.extend(code_to_vk(&code));
    }
    keycodes.sort();
    keycodes.dedup();
    assert_eq!(keycodes.len(), keys.len());
    windows_keys.sort();
    windows_keys.dedup();
    assert_eq!(windows_keys.len(), 42);
}

#[test]
fn modifier_bits_are_those_of_the_keyboard_crate() {
    assert_eq!(META, keyboard_types::Modifiers::META.bits());
    assert_eq!(SHIFT, keyboard_types::Modifiers::SHIFT.bits());
    assert_eq!(ALT, keyboard_types::Modifiers::ALT.bits());
    assert_eq!(CONTROL, keyboard_types::Modifiers::CONTROL.bits());
}

#[test]
fn modifiers_become_flags_and_keys() {
    let held = |bits: u32| Modifiers { bits };
    assert_eq!(modifiers_to_cg_flags(held(0)), 0);
    assert_eq!(modifiers_to_cg_flags(held(META)), 0x100000);
    assert_eq!(modifiers_to_cg_flags(held(SHIFT)), 0x020000);
    assert_eq!(modifiers_to_cg_flags(held(ALT)), 0x080000);
    assert_eq!(modifiers_to_cg_flags(held(CONTROL)), 0x040000);
    assert_eq!(modifiers_to_cg_flags(held(u32::MAX)), 0x1E0000);
    assert_eq!(modifiers_to_cg_flags(held(!(META | SHIFT | ALT | CONTROL))), 0);
    assert_eq!(modifier_vks(held(META | SHIFT | ALT | CONTROL)), vec![0x11, 0x10, 0x12, 0x5B]);
    assert_eq!(modifier_vks(held(META)), vec![0x5B]);
    assert!(modifier_vks(held(0)).is_empty());
}

#[test]
fn chords_release_in_reverse() {
    let step = |key: u8, up: bool| KeyStep { key, up };
    assert_eq!(
        chord_steps(&vec![0x11, 0x10], 0x53),
        vec![
            step(0x11, false),
            step(0x10, false),
            step(0x53, false),
            step(0x53, true),
            step(0x10, true),
            step(0x11, true)
        ]
    );
    let handle = WindowsHandle { pid: 1 };
    assert!(matches!(
        handle.send_keystroke(&Code::F1, Modifiers { bits: 0 }),
        Err(Error::Unsupported)
    ));
    match handle.send_keystroke(&Code::KeyS, Modifiers { bits: CONTROL }) {
        Ok(steps) => assert_eq!(steps, chord_steps(&vec![0x11], 0x53)),
        Err(_) => panic!("a key that Windows has"),
    }
}

#[test]
fn key_events_go_to_the_process_or_the_session() {
    let post = |down: bool, route: KeyRoute| KeyPost { keycode: 1, down, flags: 5, route };
    assert!(is_pid_frontmost(42, Some(42)));
    assert!(!is_pid_frontmost(42, Some(43)));
    assert!(!is_pid_frontmost(42, None));
    assert_eq!(
        send_keystroke_to_pid(42, 1, 5, Some(42)),
        vec![post(true, KeyRoute::Session), post(false, KeyRoute::Session)]
    );
    assert_eq!(
        send_keystroke_to_pid(42, 1, 5, None),
        vec![post(true, KeyRoute::Process(42)), post(false, KeyRoute::Process(42))]
    );
    assert_eq!(
        platform_text::<()>(Err(key_event_failed(post(true, KeyRoute::Session)))),
        "failed to create key-down event"
    );
    assert_eq!(
        platform_text::<()>(Err(key_event_failed(post(false, KeyRoute::Session)))),
        "failed to create key-up event"
    );
}

#[test]
fn keystrokes_are_typed_on_macos_only() {
    let meta = Modifiers { bits: META };
    match child(true).send_keystroke(Platform::MacOs, &Code::KeyS, meta, None) {
        Ok(posts) => assert_eq!(posts, send_keystroke_to_pid(42, 1, 0x100000, None)),
        Err(_) => panic!("a key that macOS has"),
    }
    let other = Code::with_name("Insert");
    assert_eq!(
        platform_text(child(true).send_keystroke(Platform::MacOs, &other, meta, None)),
        "unsupported key: Insert"
    );
    assert_eq!(
        platform_text(child(false).send_keystroke(Platform::MacOs, &other, meta, None)),
        "no GUI handle available"
    );
    for platform in [Platform::Windows, Platform::Other] {
        assert!(matches!(
            child(true).send_keystroke(platform, &Code::KeyS, meta, None),
            Err(Error::Unsupported)
        ));
    }
}

// --------------------------------------------------------------------- menus

struct Item {
    title: Option<&'static str>,
    cmd_char: Option<&'static str>,
    cmd_modifiers: Option<i32>,
}

struct Entry {
    title: Option<&'static str>,
    menus: Option<Vec<Option<Vec<Item>>>>,
}

fn item(title: &'static str, cmd_char: Option<&'static str>, cmd_modifiers: Option<i32>) -> Item {
    Item { title: Some(title), cmd_char, cmd_modifiers }
}

fn bar() -> Vec<Entry> {
    vec![
        Entry { title: None, menus: Some(vec![Some(vec![item("Save", None, None)])]) },
        Entry { title: Some("Empty"), menus: None },
        Entry {
            title: Some("File"),
            menus: Some(vec![
                None,
                Some(Vec::new()),
                Some(vec![
                    Item { title: None, cmd_char: None, cmd_modifiers: None },
                    item("Save As", Some("S"), Some(1)),
                    item("Save", Some("S"), Some(0)),
                    item("Save", Some("S"), Some(0)),
                ]),
            ]),
        },
        Entry {
            title: Some("Edit"),
            menus: Some(vec![Some(vec![
                item("Odd", Some("Z"), None),
                item("Undo", Some("Z"), Some(0)),
            ])]),
        },
    ]
}

/// Answers the questions of a walk and gives the place it ends at, with the
/// number of questions.
fn walk(mut walk: Walk, bar: &[Entry]) -> (Option<ItemPlace>, usize) {
    let text = |t: Option<&str>| Answer::Text(t.map(|t| t.to_string()));
    let at = |p: ItemPlace| -> &Item {
        &bar[p.entry].menus.as_ref().unwrap()[p.menu].as_ref().unwrap()[p.item]
    };
    let mut asked = 0;
    while let Some(question) = walk.question() {
        asked += 1;
        let answer = match question {
            Question::EntryTitle(entry) => text(bar[entry].title),
            Question::Menus(entry) => Answer::Count(bar[entry].menus.as_ref().map(|m| m.len())),
            Question::Items(entry, menu) => Answer::Count(
                bar[entry].menus.as_ref().unwrap()[menu].as_ref().map(|i| i.len()),
            ),
            Question::ItemTitle(place) => text(at(place).title),
            Question::CmdChar(place) => text(at(place).cmd_char),
            Question::CmdModifiers(place) => Answer::Number(at(place).cmd_modifiers),
        };
        walk.answer(answer);
    }
    (walk.found(), asked)
}

fn started(walk: Result<Walk, Error>) -> Walk {
    match walk {
        Ok(walk) => walk,
        Err(_) => panic!("the walk does not start"),
    }
}

#[test]
fn menu_items_are_found_by_title() {
    let handle = MacOSHandle { pid: 42 };
    let tree = bar();
    let entries = BarReply::Entries(tree.len());
    let find = |menu: &str, item: &str| {
        walk(started(handle.find_menu_item(menu, item, entries)), &tree).0
    };
    let place = |entry: usize, menu: usize, item: usize| Some(ItemPlace { entry, menu, item });
    assert_eq!(find("File", "Save"), place(2, 2, 2));
    assert_eq!(find("File", "Save As"), place(2, 2, 1));
    assert_eq!(find("", "Save"), place(0, 0, 0));
    assert_eq!(find("Edit", "Undo"), place(3, 0, 1));
    assert_eq!(find("Edit", "Save"), None);
    assert_eq!(find("file", "Save"), None);
    let press = handle.press_menu_item("File", "Save", entries);
    assert_eq!(walk(started(press), &tree).0, place(2, 2, 2));
}

#[test]
fn menu_items_are_found_by_key_equivalent() {
    let handle = MacOSHandle { pid: 42 };
    let tree = bar();
    let entries = BarReply::Entries(tree.len());
    let press = |c: char| walk(started(handle.press_menu_cmd_char(c, entries)), &tree).0;
    assert_eq!(press('s'), Some(ItemPlace { entry: 2, menu: 2, item: 2 }));
    assert_eq!(press('S'), Some(ItemPlace { entry: 2, menu: 2, item: 2 }));
    assert_eq!(press('z'), Some(ItemPlace { entry: 3, menu: 0, item: 1 }));
    assert_eq!(press('q'), None);
}

#[test]
fn a_walk_asks_no_more_than_it_needs() {
    let tree = bar();
    let wanted = || Wanted::Title { menu: "".to_string(), item: "Save".to_string() };
    assert_eq!(walk(Walk::new(wanted(), tree.len()), &tree).1, 4);
    assert_eq!(walk(Walk::new(wanted(), 0), &[]), (None, 0));
    let finished = Walk::new(wanted(), 0);
    assert_eq!(finished.question(), None);
    assert_eq!(finished.found(), None);
}

#[test]
fn menu_bars_that_cannot_be_walked_give_the_reason() {
    let handle = MacOSHandle { pid: 42 };
    let why = |reply: BarReply| platform_text(handle.press_menu_cmd_char('s', reply));
    assert_eq!(
        why(BarReply::NotTrusted),
        "accessibility permission not granted (AXIsProcessTrusted=false)"
    );
    assert_eq!(why(BarReply::NoApplication), "AXUIElementCreateApplication returned null");
    assert_eq!(
        why(BarReply::NoMenuBar(-25204)),
        "app not responding to accessibility queries (kAXErrorCannotComplete)"
    );
    assert_eq!(
        why(BarReply::NoMenuBar(-25212)),
        "app has no accessible menu bar (AXError -25212)"
    );
    assert_eq!(why(BarReply::NoChildren), "menu bar has no children");
    assert_eq!(
        platform_text(handle.find_menu_item("a", "b", BarReply::NoChildren)),
        "menu bar has no children"
    );
    assert_eq!(
        platform_text(handle.press_menu_item("a", "b", BarReply::NoApplication)),
        "AXUIElementCreateApplication returned null"
    );
}

#[test]
fn missing_menu_items_are_described() {
    let title = Wanted::Title { menu: "File".to_string(), item: "Save".to_string() };
    assert_eq!(
        platform_text::<()>(Err(title.not_found())),
        "no menu item matching 'File' > 'Save' found"
    );
    assert_eq!(
        platform_text::<()>(Err(Wanted::Command('s').not_found())),
        "no menu item matching plain ⌘s key equivalent found"
    );
}

fn failure(step: PressStep) -> String {
    match step {
        PressStep::Failed(error) => platform_text::<()>(Err(error)),
        _ => panic!("it did not fail"),
    }
}

#[test]
fn disabled_items_are_not_pressed() {
    let step = |stage: PressStage, enabled: Option<bool>| {
        press_step("Save", stage, PressEvent::Enabled(enabled))
    };
    assert!(matches!(step(PressStage::Found, None), PressStep::Press));
    assert!(matches!(step(PressStage::Found, Some(true)), PressStep::Press));
    assert!(matches!(step(PressStage::Found, Some(false)), PressStep::Show));
    assert!(matches!(step(PressStage::Shown, None), PressStep::Press));
    assert!(matches!(step(PressStage::Shown, Some(true)), PressStep::Press));
    assert_eq!(
        failure(step(PressStage::Shown, Some(false))),
        "menu item 'Save' is disabled (even after unhide)"
    );
    assert!(matches!(step(PressStage::Pressed, Some(true)), PressStep::Nothing));
}

#[test]
fn a_press_succeeds_or_tells_the_code() {
    let step = |stage: PressStage, code: i32| press_step("Save", stage, PressEvent::Code(code));
    assert!(matches!(step(PressStage::Pressed, 0), PressStep::Done));
    assert_eq!(
        failure(step(PressStage::Pressed, -25205)),
        "AXPress on menu item 'Save' failed (AXError -25205)"
    );
    assert!(matches!(step(PressStage::Found, 0), PressStep::Nothing));
    assert!(matches!(step(PressStage::Shown, 0), PressStep::Nothing));
}

// -------------------------------------------------------------------- memory

/// Reads a command line; `broken` is the read that fails.
fn read_line(block: Option<u64>, bytes: u16, buffer: u64, broken: usize) -> Option<String> {
    let mut reader = LineReader::new(block);
    let mut count = 0;
    while let Some(read) = reader.next_read() {
        let fails = count == broken;
        count += 1;
        let reply = match read {
            MemoryRead::Pointer(0x1020) => MemoryReply::Pointer(Some(0x2000)),
            MemoryRead::Length(0x2070) => MemoryReply::Length(Some(bytes)),
            MemoryRead::Pointer(0x2078) => MemoryReply::Pointer(Some(buffer)),
            MemoryRead::Units(0x3000, 3) => {
                MemoryReply::Units(Some(vec![0x61, 0xD83D, 0xDE00]))
            },
            _ => panic!("a read at the wrong place"),
        };
        let reply = match (fails, reply) {
            (false, reply) => reply,
            (true, MemoryReply::Pointer(_)) => MemoryReply::Pointer(None),
            (true, MemoryReply::Length(_)) => MemoryReply::Length(None),
            (true, MemoryReply::Units(_)) => MemoryReply::Units(None),
        };
        reader = reader.take_in(reply);
    }
    assert!(count <= 4);
    reader.line()
}

#[test]
fn command_lines_are_read_from_memory() {
    assert_eq!(read_line(Some(0x1000), 6, 0x3000, 9), Some("a😀".to_string()));
    assert_eq!(read_line(Some(0x1000), 7, 0x3000, 9), Some("a😀".to_string()));
}

#[test]
fn memory_that_leads_nowhere_gives_nothing() {
    assert_eq!(read_line(None, 6, 0x3000, 9), None);
    assert_eq!(read_line(Some(0), 6, 0x3000, 9), None);
    assert_eq!(read_line(Some(u64::MAX), 6, 0x3000, 9), None);
    assert_eq!(read_line(Some(0x1000), 0, 0x3000, 9), None);
    assert_eq!(read_line(Some(0x1000), 6, 0, 9), None);
    for broken in 0..4 {
        assert_eq!(read_line(Some(0x1000), 6, 0x3000, broken), None);
    }
}

// ---------------------------------------------------------------------- text

#[test]
fn wide_text_goes_there_and_back() {
    for text in ["", "plain", "ä€", "a😀b"] {
        let wide = wide_text(text);
        let expected: Vec<u16> = text.encode_utf16().chain([0]).collect();
        assert_eq!(wide, expected);
        assert_eq!(wide_to_string(&wide), text);
    }
    assert_eq!(wide_to_string(&[0x61, 0, 0x62]), "a");
    assert_eq!(wide_to_string(&[0x61, 0x62]), "ab");
    let mut wide = wide_text("name");
    wide.extend_from_slice(&[0x78, 0xD800]);
    assert_eq!(wide_to_string(&wide), "name");
}

#[test]
fn broken_wide_text_is_patched() {
    for units in [
        &[0xD800u16][..],
        &[0xDC00][..],
        &[0xD800, 0x61][..],
        &[0xD800, 0xD800, 0xDC00][..],
        &[0xDC00, 0xD800][..],
    ] {
        assert_eq!(from_wide(units, units.len()), String::from_utf16_lossy(units));
    }
    assert_eq!(from_wide(&[0xD83D, 0xDE00], 1), "\u{FFFD}");
}

#[test]
fn numbers_are_written_in_decimal() {
    for value in [0, 9, 10, 4294967295u32] {
        assert_eq!(decimal_text(value), format!("{value}"));
    }
    for value in [0, -1, 25204, -25204, i32::MIN, i32::MAX] {
        assert_eq!(signed_decimal_text(value), format!("{value}"));
    }
}

#[test]
fn texts_are_searched_and_compared() {
    assert!(contains_text("abcabd", "abd"));
    assert!(contains_text("abc", ""));
    assert!(!contains_text("abc", "abd"));
    assert!(!contains_text("", "a"));
    let hay: Vec<char> = "abcabc".chars().collect();
    let needle: Vec<char> = "bc".chars().collect();
    assert_eq!(find_from(&hay, &needle, 0), Some(1));
    assert_eq!(find_from(&hay, &needle, 2), Some(4));
    assert_eq!(find_from(&hay, &needle, 5), None);
    assert!(contains_char(&hay, 'c') && !contains_char(&hay, 'd'));
    assert!(equal_ignoring_case("aBZz[", "AbzZ["));
    assert!(!equal_ignoring_case("@", "`"));
    assert!(!equal_ignoring_case("é", "É"));
    assert_eq!(upper('a'), 'A');
    assert_eq!(upper('z'), 'Z');
    assert_eq!(upper('{'), '{');
    assert_eq!(upper('ß'), 'ß');
}
