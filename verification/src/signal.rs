//! Identity of the supported fault signals and the per-fault crash context.
use vstd::prelude::*;

verus! {

/// Signal number of a segmentation violation, as delivered on Linux.
pub const SIGSEGV: i32 = 11;

/// Signal number of a bus error, as delivered on Linux.
pub const SIGBUS: i32 = 7;

/// Signal number of an abort, as delivered on Linux.
pub const SIGABRT: i32 = 6;

/// Signal number of an arithmetic exception, as delivered on Linux.
pub const SIGFPE: i32 = 8;

/// Signal number of an illegal instruction, as delivered on Linux.
pub const SIGILL: i32 = 4;

/// Signal number of a trace trap, as delivered on Linux.
pub const SIGTRAP: i32 = 5;

/// Signal metadata captured when a fault is delivered.
///
/// The embedding program reads these plain values out of the record the
/// operating system hands to its signal handler.
#[derive(Debug, Clone, Copy)]
pub struct SignalInfo {
    /// The fault signal's number.
    pub signal: i32,
    /// Sub-reason supplied by the operating system; 0 when absent.
    pub code: i32,
    /// Memory address implicated in the fault; 0 when absent.
    pub address: usize,
}

/// The name of a supported fault signal; "UNKNOWN" for any other number.
pub open spec fn spec_signal_name(sig: i32) -> Seq<char> {
    if sig == SIGSEGV {
        "SIGSEGV"@
    } else if sig == SIGBUS {
        "SIGBUS"@
    } else if sig == SIGABRT {
        "SIGABRT"@
    } else if sig == SIGFPE {
        "SIGFPE"@
    } else if sig == SIGILL {
        "SIGILL"@
    } else if sig == SIGTRAP {
        "SIGTRAP"@
    } else {
        "UNKNOWN"@
    }
}

impl SignalInfo {
    /// Builds the captured metadata from the values the operating system
    /// supplied; when the extended record is absent, code and address are 0.
    pub fn from_siginfo(sig: i32, parts: Option<(i32, usize)>) -> (r: SignalInfo)
        ensures
            r.signal == sig,
            parts matches Some(p) ==> r.code == p.0 && r.address == p.1,
            parts is None ==> r.code == 0 && r.address == 0,
    {
        match parts {
            Some((code, address)) => SignalInfo { signal: sig, code, address },
            None => SignalInfo { signal: sig, code: 0, address: 0 },
        }
    }

    /// The conventional name of the captured signal.
    pub fn signal_name(&self) -> (r: &'static str)
        ensures
            r@ == spec_signal_name(self.signal),
    {
        if self.signal == SIGSEGV {
            "SIGSEGV"
        } else if self.signal == SIGBUS {
            "SIGBUS"
        } else if self.signal == SIGABRT {
            "SIGABRT"
        } else if self.signal == SIGFPE {
            "SIGFPE"
        } else if self.signal == SIGILL {
            "SIGILL"
        } else if self.signal == SIGTRAP {
            "SIGTRAP"
        } else {
            "UNKNOWN"
        }
    }
}

/// Crash context handed to the snapshot writer: the fault's identity in the
/// form the writer consumes, built once per fault and consumed immediately.
#[derive(Debug, Clone, Copy)]
pub struct CrashContext {
    /// The fault class, as an exception type.
    pub exception_type: u32,
    /// The sub-reason supplied by the operating system.
    pub exception_code: u64,
    /// The memory address implicated in the fault.
    pub exception_address: u64,
    /// Identity of the faulting thread, so the snapshot can mark it.
    pub thread: u32,
}

impl CrashContext {
    /// Builds the context from captured signal metadata and the faulting
    /// thread's identity. The signed fields are carried over with their
    /// two's-complement bit patterns.
    pub fn from_signal(info: &SignalInfo, thread: u32) -> (r: CrashContext)
        ensures
            r.exception_type == info.signal as u32,
            r.exception_code == info.code as u64,
            r.exception_address == info.address as u64,
            r.thread == thread,
    {
        CrashContext {
            exception_type: #[verifier::truncate] (info.signal as u32),
            exception_code: #[verifier::truncate] (info.code as u64),
            exception_address: info.address as u64,
            thread,
        }
    }
}

} // verus!
