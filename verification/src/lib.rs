//! Launching, observing and steering GUI applications.
//!
//! The library decides and computes; it does no input or output itself. What a
//! platform call gave is handed in as a plain value, and what is to be done
//! next comes back as one:
//!
//! - [`command`], [`launch`], [`cmdline`], [`bundle`]: the description of a
//!   launch, and what a platform is to do for it;
//! - [`helper`], [`relay`]: the process that holds the terminals of an
//!   application whose output is captured;
//! - [`claim`], [`procargs`], [`adopt`], [`peb`]: which of the running processes
//!   is the one that was launched;
//! - [`child`], [`exit`], [`stream`]: the handle to an application, its end, and
//!   its output;
//! - [`macos`], [`menu`], [`windows`], [`keys`]: steering an application;
//! - [`error`], [`bytes`], [`text`], [`wide`]: errors, byte strings and texts.
pub mod adopt;
pub mod bundle;
pub mod bytes;
pub mod child;
pub mod claim;
pub mod cmdline;
pub mod command;
pub mod error;
pub mod exit;
pub mod helper;
pub mod keys;
pub mod launch;
pub mod macos;
pub mod menu;
pub mod peb;
pub mod procargs;
pub mod relay;
pub mod stream;
pub mod text;
pub mod wide;
pub mod windows;

pub use crate::child::{Child, Platform};
pub use crate::command::{Command, Stdio};
pub use crate::error::{Error, IoErrorKind};
pub use crate::exit::{ExitState, ExitStatus};
pub use crate::keys::{Code, Modifiers};
pub use crate::stream::{ChildStderr, ChildStdout};
