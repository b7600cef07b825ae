//! The high-level API surface for embedding programs, with the deliberate
//! fault triggers kept behind a capability checked at the boundary.
use crate::store::{init_crash_handler, install_outcome, ConfigStore, HandlerConfig};
use vstd::prelude::*;
use vstd::string::*;

verus! {

/// Boundary result of the high-level API: a success flag and, on failure,
/// the human-readable reason.
#[derive(Debug)]
pub struct MinidumpResult {
    /// Whether the operation succeeded.
    pub success: bool,
    /// The reason of a failure; `None` on success.
    pub error: Option<String>,
}

/// The fault classes the test harness can provoke deliberately.
#[derive(Debug, Clone, Copy, PartialEq, Eq, Structural)]
pub enum CrashType {
    /// A null-pointer dereference.
    Segfault,
    /// An explicit process abort.
    Abort,
    /// A misaligned memory access.
    BusError,
    /// An integer division by zero at the instruction level.
    DivideByZero,
    /// An undefined instruction encoding.
    IllegalInstruction,
    /// Unbounded recursion with non-trivial per-frame stack usage.
    StackOverflow,
}

impl CrashType {
    /// What the trigger for this fault class does.
    pub open spec fn spec_description(&self) -> Seq<char> {
        match self {
            CrashType::Segfault => "Null pointer dereference causing SIGSEGV"@,
            CrashType::Abort => "Process abort causing SIGABRT"@,
            CrashType::BusError => "Misaligned memory access causing SIGBUS"@,
            CrashType::DivideByZero => "Integer division by zero causing SIGFPE"@,
            CrashType::IllegalInstruction => "Invalid CPU instruction causing SIGILL"@,
            CrashType::StackOverflow => "Recursive function causing stack exhaustion"@,
        }
    }

    /// What the trigger for this fault class does.
    pub fn description(&self) -> (r: &'static str)
        ensures
            r@ == self.spec_description(),
    {
        match self {
            CrashType::Segfault => "Null pointer dereference causing SIGSEGV",
            CrashType::Abort => "Process abort causing SIGABRT",
            CrashType::BusError => "Misaligned memory access causing SIGBUS",
            CrashType::DivideByZero => "Integer division by zero causing SIGFPE",
            CrashType::IllegalInstruction => "Invalid CPU instruction causing SIGILL",
            CrashType::StackOverflow => "Recursive function causing stack exhaustion",
        }
    }
}

/// The high-level API. The deliberate fault triggers are guarded by a
/// capability flag fixed at construction: a production embedding constructs
/// the API without it, and every trigger request is then rejected instead
/// of provoking a crash.
pub struct MinidumpApi {
    /// Whether the deliberate fault triggers may run.
    pub triggers_available: bool,
}

impl MinidumpApi {
    /// An API handle with the fault triggers disabled: the production
    /// default.
    pub fn new() -> (r: MinidumpApi)
        ensures
            !r.triggers_available,
    {
        MinidumpApi { triggers_available: false }
    }

    /// An API handle for the test harness, with trigger availability as the
    /// embedding program's build dictates.
    pub fn with_crash_triggers(available: bool) -> (r: MinidumpApi)
        ensures
            r.triggers_available == available,
    {
        MinidumpApi { triggers_available: available }
    }

    /// Interprets the snapshot delegate's outcome of a manual dump: success
    /// on a written artifact, otherwise a failure carrying the delegate's
    /// textual reason.
    pub fn write_dump(&self, write_result: Result<(), String>) -> (r: MinidumpResult)
        ensures
            r.success == (write_result is Ok),
            write_result is Ok ==> r.error is None,
            write_result matches Err(m) ==> (r.error matches Some(s) && s@ == m@),
    {
        match write_result {
            Ok(()) => MinidumpResult { success: true, error: None },
            Err(m) => MinidumpResult { success: false, error: Some(m) },
        }
    }

    /// Installs the process-wide handlers with the default configuration,
    /// dumps going to `dump_path`. `directory_created` and
    /// `signals_registered` report the embedding program's environment
    /// steps, as for `init_crash_handler`, whose outcome this translates to
    /// a boundary result.
    pub fn install_handlers(
        &self,
        dump_path: String,
        store: &mut ConfigStore,
        directory_created: bool,
        signals_registered: bool,
    ) -> (r: MinidumpResult)
        ensures
            ({
                let outcome = install_outcome(
                    old(store).spec_initialized(),
                    directory_created,
                    signals_registered,
                );
                &&& r.success == (outcome is Ok)
                &&& outcome is Ok ==> r.error is None
                &&& outcome matches Err(e) ==> (r.error matches Some(m) && m@ == e.spec_message())
            }),
            final (store).spec_last_timestamp() == old(store).spec_last_timestamp(),
            (!directory_created || old(store).spec_initialized()) ==> final (store).spec_config()
                == old(store).spec_config(),
            (directory_created && !old(store).spec_initialized()) ==> (final (store).spec_config() matches Some(c) && ({
                &&& c.dump_directory == dump_path
                &&& c.filename_prefix@ == "crash"@
                &&& c.append_timestamp
                &&& !c.has_pre_dump_callback
            })),
    {
        let mut config = HandlerConfig::default();
        config.dump_directory = dump_path;
        match init_crash_handler(store, config, directory_created, signals_registered) {
            Ok(()) => MinidumpResult { success: true, error: None },
            Err(e) => MinidumpResult {
                success: false,
                error: Some(String::from_str(e.message())),
            },
        }
    }

    /// Liveness self-test: always reports success.
    pub fn test(&self) -> (r: bool)
        ensures
            r,
    {
        true
    }

    /// Decides a fault-trigger request. With the triggers available, the
    /// chosen class is returned for the embedding program to provoke — the
    /// provocation itself never returns normally. Without them, the request
    /// is rejected with an unavailable outcome; no process-terminating
    /// action is taken, and this function always returns.
    pub fn trigger_crash(&self, crash_type: CrashType) -> (r: Result<CrashType, String>)
        ensures
            self.triggers_available ==> r == Ok::<CrashType, String>(crash_type),
            !self.triggers_available ==> (r matches Err(m) && m@
                == "Crash triggers are only available in debug builds"@),
    {
        if self.triggers_available {
            Ok(crash_type)
        } else {
            Err(String::from_str("Crash triggers are only available in debug builds"))
        }
    }

    /// Whether the deliberate fault triggers may run.
    pub fn has_crash_triggers(&self) -> (r: bool)
        ensures
            r == self.triggers_available,
    {
        self.triggers_available
    }
}

} // verus!
