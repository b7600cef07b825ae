//! The plan a signal trampoline follows inside an interrupted thread.
//!
//! The trampoline itself runs in async-signal context, where ordinary error
//! propagation and blocking are forbidden; the embedding program's handler
//! therefore only performs a non-blocking read of the configuration store,
//! asks these pure functions for a plan, executes it best-effort, and always
//! finishes by restoring the default disposition of the delivered signal and
//! re-raising it, so the process terminates exactly as it would have without
//! instrumentation.
use crate::filename::{derive_filename, filename_spec, generate_filename, join_path};
use crate::signal::{spec_signal_name, CrashContext, SignalInfo, SIGABRT, SIGBUS, SIGFPE, SIGILL,
    SIGSEGV, SIGTRAP};
use crate::store::HandlerConfig;
use vstd::prelude::*;

verus! {

/// One planned capture: whether to run the configured callback, the full
/// path of the artifact, and the crash context for the snapshot writer.
pub struct CapturePlan {
    /// Whether the configured pre-dump callback is to be invoked first.
    pub invoke_callback: bool,
    /// Where the snapshot writer is to place the artifact.
    pub dump_path: String,
    /// The captured fault context handed to the snapshot writer.
    pub context: CrashContext,
}

/// What the trampoline does for one delivered fault: a best-effort capture
/// when the configuration was readable, and in every case the re-raise of
/// the original signal.
pub struct TrampolinePlan {
    /// The capture to attempt; `None` when the configuration could not be
    /// read without blocking, in which case capture is silently skipped.
    pub capture: Option<CapturePlan>,
    /// The signal whose default disposition is restored and which is then
    /// re-raised, unconditionally.
    pub reraise_signal: i32,
}

/// The full artifact path the policy derives for one fault.
pub open spec fn dump_path_spec(
    directory: Seq<char>,
    prefix: Seq<char>,
    sig: i32,
    append_timestamp: bool,
    timestamp: nat,
) -> Seq<char> {
    directory + seq!['/'] + filename_spec(
        prefix,
        spec_signal_name(sig),
        append_timestamp,
        timestamp,
    )
}

/// Plans the trampoline's work for one delivered fault signal.
///
/// `config_read` is the result of the embedding program's non-blocking read
/// of the configuration store: `None` — the store was locked when the fault
/// struck, or no configuration was ever installed — skips capture entirely,
/// since capture is attempted, never guaranteed, and must never block or
/// recurse. The re-raise of the delivered signal is part of the plan in
/// every case.
pub fn handle_signal(
    config_read: Option<&HandlerConfig>,
    info: &SignalInfo,
    timestamp: u64,
    thread: u32,
) -> (plan: TrampolinePlan)
    ensures
        plan.reraise_signal == info.signal,
        plan.capture is Some <==> config_read is Some,
        config_read matches Some(c) ==> plan.capture matches Some(p) && ({
            &&& p.invoke_callback == c.has_pre_dump_callback
            &&& p.dump_path@ == dump_path_spec(
                c.dump_directory@,
                c.filename_prefix@,
                info.signal,
                c.append_timestamp,
                timestamp as nat,
            )
            &&& p.context.exception_type == info.signal as u32
            &&& p.context.exception_code == info.code as u64
            &&& p.context.exception_address == info.address as u64
            &&& p.context.thread == thread
        }),
{
    match config_read {
        None => TrampolinePlan { capture: None, reraise_signal: info.signal },
        Some(config) => {
            let filename = generate_filename(config, info, timestamp);
            let dump_path = join_path(config.dump_directory.as_str(), filename.as_str());
            let context = CrashContext::from_signal(info, thread);
            TrampolinePlan {
                capture: Some(
                    CapturePlan {
                        invoke_callback: config.has_pre_dump_callback,
                        dump_path,
                        context,
                    },
                ),
                reraise_signal: info.signal,
            }
        },
    }
}

/// Plans the capture for the path-based variant, where only a dump
/// directory is configured: the filename uses the fixed prefix `crash`, no
/// timestamp, and no callback runs.
pub fn plan_crash_capture(path_read: Option<&String>, info: &SignalInfo, thread: u32) -> (plan:
    TrampolinePlan)
    ensures
        plan.reraise_signal == info.signal,
        plan.capture is Some <==> path_read is Some,
        path_read matches Some(d) ==> plan.capture matches Some(p) && ({
            &&& !p.invoke_callback
            &&& p.dump_path@ == dump_path_spec(d@, "crash"@, info.signal, false, 0)
            &&& p.context.exception_type == info.signal as u32
            &&& p.context.exception_code == info.code as u64
            &&& p.context.exception_address == info.address as u64
            &&& p.context.thread == thread
        }),
{
    match path_read {
        None => TrampolinePlan { capture: None, reraise_signal: info.signal },
        Some(directory) => {
            let filename = derive_filename("crash", info.signal_name(), false, 0);
            let dump_path = join_path(directory.as_str(), filename.as_str());
            let context = CrashContext::from_signal(info, thread);
            TrampolinePlan {
                capture: Some(CapturePlan { invoke_callback: false, dump_path, context }),
                reraise_signal: info.signal,
            }
        },
    }
}

/// The supported fault signals, in the order the installer registers them.
pub open spec fn spec_supported_signals() -> Seq<i32> {
    seq![SIGSEGV, SIGBUS, SIGABRT, SIGFPE, SIGILL, SIGTRAP]
}

/// The fixed set of fault signals the installer hooks, in registration
/// order. Registration fails fast: when hooking one of them fails, the
/// signals registered before it stay hooked, an accepted residual state.
pub fn supported_signals() -> (r: Vec<i32>)
    ensures
        r@ == spec_supported_signals(),
{
    let mut v: Vec<i32> = Vec::new();
    v.push(SIGSEGV);
    v.push(SIGBUS);
    v.push(SIGABRT);
    v.push(SIGFPE);
    v.push(SIGILL);
    v.push(SIGTRAP);
    proof {
        assert(v@ =~= spec_supported_signals());
    }
    v
}

} // verus!
