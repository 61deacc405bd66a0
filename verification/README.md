# launch_control

Launching GUI applications and steering them afterwards: focus, keystrokes, menu
items, captured output, and the end of the process, on macOS and Windows. The
interface follows `std::process::Command` and `std::process::Child`.

- `src/` is the library, verified with Verus. It decides and computes, and does no
  input or output: what a platform call gave is handed in as a plain value, and
  what is to be done next comes back as one. Each function states in its contract
  what it returns; the public proof functions state what holds across functions.
- `app/` is the launcher around it. It asks the operating system, does what the
  library tells it, and offers the result as `Command` and `Child`. The helper
  program, which holds the terminals of an application whose output is captured,
  is `run_main`.
- `tests/` runs the library.

| | macOS | Windows |
|---|---|---|
| Launch | `NSWorkspace`, or `/usr/bin/open` through the helper | `CreateProcessW` |
| Recognise the process | `claim`, by its arguments | `adopt`, by its command line |
| Captured output | terminals held by the helper | pipes |
| End by force | `SIGKILL` | `TerminateProcess` |
| Focus | `NSRunningApplication` | `SetForegroundWindow` |
| Keystrokes | key events to the process or the session | in front only (`send_keystroke_in_front`) |
| Menu items | accessibility interface | - |

Output is captured exactly where a stream is set to `Stdio::Piped`. Arguments
reach the application as they were given: on Windows the command line is quoted so
that splitting it gives them back.
