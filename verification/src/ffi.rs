//! The ownership contract of results crossing the C boundary.
//!
//! Every boundary operation yields an `FFIResult`: a success flag and an
//! optional error message whose ownership is explicit. A static message is
//! borrowed from the library and must never be released; an owned message
//! transfers to the caller, who must release it exactly once through the
//! dedicated release operation and through nothing else. Releasing twice, or
//! releasing a foreign string, is the caller's undefined behavior: it is
//! documented here, not guarded against.
use vstd::prelude::*;
use vstd::string::*;

verus! {

/// An error message crossing the C boundary, with its ownership marker.
#[derive(Debug)]
pub enum ErrorMessage {
    /// No message: the operation succeeded.
    Absent,
    /// A static message borrowed from the library. The caller must not
    /// release it.
    Borrowed(&'static str),
    /// A heap-allocated message owned by the caller once handed over, to be
    /// released exactly once through the release operation.
    Owned(String),
}

/// Outcome of a boundary-crossing operation.
#[derive(Debug)]
pub struct FFIResult {
    /// Whether the operation succeeded.
    pub success: bool,
    /// The error message carried on failure.
    pub error_message: ErrorMessage,
}

impl FFIResult {
    /// Well-formed: exactly the failures carry a message.
    pub open spec fn wf(&self) -> bool {
        self.success <==> self.error_message is Absent
    }

    /// A successful outcome.
    pub open spec fn spec_is_ok(&self) -> bool {
        self.success && self.error_message is Absent
    }

    /// A failure carrying the given static message.
    pub open spec fn spec_is_static_error(&self, msg: Seq<char>) -> bool {
        !self.success && (self.error_message matches ErrorMessage::Borrowed(m) && m@ == msg)
    }

    /// A failure carrying the given message, owned by the caller.
    pub open spec fn spec_is_owned_error(&self, msg: Seq<char>) -> bool {
        !self.success && (self.error_message matches ErrorMessage::Owned(m) && m@ == msg)
    }

    /// Whether the caller owes exactly one release call for the message.
    pub open spec fn spec_needs_release(&self) -> bool {
        self.error_message is Owned
    }

    /// The successful outcome.
    pub fn ok() -> (r: FFIResult)
        ensures
            r.spec_is_ok(),
            r.wf(),
            !r.spec_needs_release(),
    {
        FFIResult { success: true, error_message: ErrorMessage::Absent }
    }

    /// A failure with a static message: no release call is owed.
    pub fn static_error(msg: &'static str) -> (r: FFIResult)
        ensures
            r.spec_is_static_error(msg@),
            r.wf(),
            !r.spec_needs_release(),
    {
        FFIResult { success: false, error_message: ErrorMessage::Borrowed(msg) }
    }

    /// A failure whose message transfers to the caller: exactly one release
    /// call is owed.
    pub fn owned_error(msg: String) -> (r: FFIResult)
        ensures
            r.spec_is_owned_error(msg@),
            r.wf(),
            r.spec_needs_release(),
    {
        FFIResult { success: false, error_message: ErrorMessage::Owned(msg) }
    }

    /// Whether the message must be handed to the release operation —
    /// exactly once, and never for a static or absent message.
    pub fn needs_release(&self) -> (r: bool)
        ensures
            r == self.spec_needs_release(),
    {
        match &self.error_message {
            ErrorMessage::Owned(_) => true,
            ErrorMessage::Borrowed(_) => false,
            ErrorMessage::Absent => false,
        }
    }
}

/// A textual argument as it arrived over the C boundary, after the
/// embedding program inspected the pointer and attempted to decode it.
pub enum PathArg {
    /// The pointer was null.
    Null,
    /// The bytes were not valid text.
    Undecodable,
    /// The decoded text.
    Decoded(String),
}

/// Validates the arguments of a dump-writing call, before any side effect:
/// a missing handle or path is rejected as `Invalid parameters`, text that
/// does not decode as `Invalid path encoding`, both with static messages.
pub fn validate_dump_request(handle_present: bool, path: PathArg) -> (r: Result<String, FFIResult>)
    ensures
        !handle_present ==> (r matches Err(e) && e.spec_is_static_error("Invalid parameters"@)),
        handle_present && path is Null ==> (r matches Err(e) && e.spec_is_static_error(
            "Invalid parameters"@,
        )),
        handle_present && path is Undecodable ==> (r matches Err(e) && e.spec_is_static_error(
            "Invalid path encoding"@,
        )),
        handle_present ==> (path matches PathArg::Decoded(p) ==> r == Ok::<String, FFIResult>(p)),
        r is Ok ==> handle_present && path is Decoded,
        r matches Err(e) ==> e.wf() && !e.spec_needs_release(),
{
    if !handle_present {
        return Err(FFIResult::static_error("Invalid parameters"));
    }
    match path {
        PathArg::Null => Err(FFIResult::static_error("Invalid parameters")),
        PathArg::Undecodable => Err(FFIResult::static_error("Invalid path encoding")),
        PathArg::Decoded(p) => Ok(p),
    }
}

/// Validates the dump-path argument of a handler-installation call, before
/// any side effect: a null path is rejected as `Dump path is required`,
/// text that does not decode as `Invalid path encoding`, both static.
pub fn validate_install_request(path: PathArg) -> (r: Result<String, FFIResult>)
    ensures
        path is Null ==> (r matches Err(e) && e.spec_is_static_error("Dump path is required"@)),
        path is Undecodable ==> (r matches Err(e) && e.spec_is_static_error(
            "Invalid path encoding"@,
        )),
        path matches PathArg::Decoded(p) ==> r == Ok::<String, FFIResult>(p),
        r is Ok ==> path is Decoded,
        r matches Err(e) ==> e.wf() && !e.spec_needs_release(),
{
    match path {
        PathArg::Null => Err(FFIResult::static_error("Dump path is required")),
        PathArg::Undecodable => Err(FFIResult::static_error("Invalid path encoding")),
        PathArg::Decoded(p) => Ok(p),
    }
}

/// The boundary outcome when the parent directory of the artifact could not
/// be created: a static failure, reported before the writer runs.
pub fn directory_create_failure() -> (r: FFIResult)
    ensures
        r.spec_is_static_error("Failed to create output directory"@),
        r.wf(),
        !r.spec_needs_release(),
{
    FFIResult::static_error("Failed to create output directory")
}

/// The boundary outcome of the snapshot-write step: success, or a failure
/// whose message — the given prefix followed by the writer's textual reason
/// — is owned by the caller.
pub fn capture_outcome(prefix: &str, write_result: Result<(), String>) -> (r: FFIResult)
    ensures
        write_result is Ok ==> r.spec_is_ok() && !r.spec_needs_release(),
        write_result matches Err(m) ==> r.spec_is_owned_error(prefix@ + m@)
            && r.spec_needs_release(),
        r.wf(),
{
    match write_result {
        Ok(()) => FFIResult::ok(),
        Err(m) => {
            let mut text = String::from_str(prefix);
            text.append(m.as_str());
            FFIResult::owned_error(text)
        },
    }
}

/// The boundary outcome of registering the signal handlers: success, or a
/// static failure.
pub fn install_registration_outcome(signals_registered: bool) -> (r: FFIResult)
    ensures
        signals_registered ==> r.spec_is_ok(),
        !signals_registered ==> r.spec_is_static_error("Failed to install signal handler"@)
            && !r.spec_needs_release(),
        r.wf(),
{
    if signals_registered {
        FFIResult::ok()
    } else {
        FFIResult::static_error("Failed to install signal handler")
    }
}

/// The release contract of the boundary: exactly the outcomes built by the
/// owned-error path owe a release call; a successful outcome, and every
/// failure with a static message, must never be handed to the release
/// operation.
pub proof fn lemma_release_obligation(r: FFIResult)
    requires
        r.wf(),
    ensures
        r.spec_needs_release() <==> r.error_message is Owned,
        r.spec_is_ok() ==> !r.spec_needs_release(),
        forall|m: Seq<char>| #[trigger] r.spec_is_static_error(m) ==> !r.spec_needs_release(),
        forall|m: Seq<char>| #[trigger] r.spec_is_owned_error(m) ==> r.spec_needs_release(),
{
}

/// Predicate form of `capture_outcome`'s contract: what is observable of a
/// manual dump's boundary outcome, as a function of that call's own
/// arguments alone.
pub open spec fn spec_capture_outcome(
    r: FFIResult,
    write_ok: bool,
    prefix: Seq<char>,
    reason: Seq<char>,
) -> bool {
    if write_ok {
        r.spec_is_ok()
    } else {
        r.spec_is_owned_error(prefix + reason)
    }
}

/// Manual dump operations share no mutable state: the observable outcome of
/// a call is a function of that call's own arguments alone, so any two
/// outcomes of the same arguments agree, and two sequential calls — to
/// distinct paths or the same one — cannot influence each other.
pub proof fn lemma_manual_dumps_independent(
    r1: FFIResult,
    r2: FFIResult,
    write_ok: bool,
    prefix: Seq<char>,
    reason: Seq<char>,
)
    requires
        spec_capture_outcome(r1, write_ok, prefix, reason),
        spec_capture_outcome(r2, write_ok, prefix, reason),
    ensures
        r1.success == r2.success,
        r1.spec_needs_release() == r2.spec_needs_release(),
        forall|m: Seq<char>| #[trigger] r1.spec_is_owned_error(m) == r2.spec_is_owned_error(m),
{
}

} // verus!
