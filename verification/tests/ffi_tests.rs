use minidump_handler::ffi::{
    capture_outcome, directory_create_failure, install_registration_outcome,
    validate_dump_request, validate_install_request,
};
use minidump_handler::{ErrorMessage, FFIResult, PathArg};

fn static_message(r: &FFIResult) -> &'static str {
    match r.error_message {
        ErrorMessage::Borrowed(m) => m,
        _ => panic!("expected a static message"),
    }
}

fn owned_message(r: &FFIResult) -> &str {
    match &r.error_message {
        ErrorMessage::Owned(m) => m.as_str(),
        _ => panic!("expected an owned message"),
    }
}

#[test]
fn test_null_handle() {
    let result = validate_dump_request(false, PathArg::Decoded(String::from("test.dmp")));
    let err = result.err().expect("missing handle is rejected");
    assert!(!err.success);
    assert_eq!(static_message(&err), "Invalid parameters");
}

#[test]
fn test_dump_request_path_errors() {
    let null = validate_dump_request(true, PathArg::Null).err().expect("rejected");
    assert_eq!(static_message(&null), "Invalid parameters");
    assert!(!null.needs_release());

    let undecodable = validate_dump_request(true, PathArg::Undecodable).err().expect("rejected");
    assert_eq!(static_message(&undecodable), "Invalid path encoding");
    assert!(!undecodable.needs_release());
}

#[test]
fn test_dump_request_valid_path_passes_through() {
    let ok = validate_dump_request(true, PathArg::Decoded(String::from("/tmp/x/test.dmp")));
    assert_eq!(ok.ok().expect("accepted"), "/tmp/x/test.dmp");
}

#[test]
fn test_install_request_validation() {
    let null = validate_install_request(PathArg::Null).err().expect("rejected");
    assert_eq!(static_message(&null), "Dump path is required");

    let undecodable = validate_install_request(PathArg::Undecodable).err().expect("rejected");
    assert_eq!(static_message(&undecodable), "Invalid path encoding");

    let ok = validate_install_request(PathArg::Decoded(String::from("/tmp/dumps")));
    assert_eq!(ok.ok().expect("accepted"), "/tmp/dumps");
}

#[test]
fn test_capture_outcome_success_owes_no_release() {
    let r = capture_outcome("Failed to write minidump: ", Ok(()));
    assert!(r.success);
    assert!(!r.needs_release());
    assert!(matches!(r.error_message, ErrorMessage::Absent));
}

#[test]
fn test_capture_outcome_failure_owns_message() {
    let r = capture_outcome(
        "Failed to write minidump: ",
        Err(String::from("no space left")),
    );
    assert!(!r.success);
    assert!(r.needs_release());
    assert_eq!(owned_message(&r), "Failed to write minidump: no space left");
}

#[test]
fn test_static_errors_owe_no_release() {
    // The non-owned variants must never be handed to the release operation.
    let dir = directory_create_failure();
    assert!(!dir.success);
    assert!(!dir.needs_release());
    assert_eq!(static_message(&dir), "Failed to create output directory");

    let install = install_registration_outcome(false);
    assert!(!install.needs_release());
    assert_eq!(static_message(&install), "Failed to install signal handler");

    assert!(install_registration_outcome(true).success);
    assert!(!FFIResult::ok().needs_release());
    assert!(FFIResult::owned_error(String::from("boom")).needs_release());
    assert!(!FFIResult::static_error("boom").needs_release());
}

#[test]
fn test_sequential_dump_outcomes_do_not_interfere() {
    // Two manual dumps to distinct paths: each outcome is a function of its
    // own call alone, so recomputing the first after the second changes
    // nothing.
    let first = capture_outcome("Failed to write minidump: ", Ok(()));
    let second = capture_outcome(
        "Failed to write minidump: ",
        Err(String::from("second failed")),
    );
    let first_again = capture_outcome("Failed to write minidump: ", Ok(()));
    assert!(first.success);
    assert!(!second.success);
    assert_eq!(first.success, first_again.success);
    assert_eq!(first.needs_release(), first_again.needs_release());
    assert_eq!(owned_message(&second), "Failed to write minidump: second failed");
}
