//! Crash-handler lifecycle and signal-context capture library.
//!
//! The library models the decision logic of a process-wide crash reporter:
//! one-time installation of a handler configuration, the plan a signal
//! trampoline follows inside an interrupted thread, the filename policy for
//! dump artifacts, and the ownership contract of results crossing a C
//! boundary. Everything that touches the operating system (signal
//! registration, directory creation, the snapshot writer) is performed by the
//! embedding program, which feeds the outcomes of those steps into the
//! verified functions here.

pub mod api;
pub mod ffi;
pub mod filename;
pub mod signal;
pub mod store;
pub mod trampoline;

pub use api::{CrashType, MinidumpApi, MinidumpResult};
pub use ffi::{ErrorMessage, FFIResult, PathArg};
pub use filename::{derive_filename, generate_filename};
pub use signal::{CrashContext, SignalInfo};
pub use store::{init_crash_handler, ConfigStore, DumpPathCell, HandlerConfig, InstallError};
pub use trampoline::{handle_signal, plan_crash_capture, CapturePlan, TrampolinePlan};
