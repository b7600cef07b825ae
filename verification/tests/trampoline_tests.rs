use minidump_handler::trampoline::supported_signals;
use minidump_handler::{handle_signal, plan_crash_capture, HandlerConfig, SignalInfo};

fn config() -> HandlerConfig {
    HandlerConfig {
        dump_directory: String::from("/tmp/dumps"),
        filename_prefix: String::from("crash"),
        append_timestamp: false,
        has_pre_dump_callback: false,
    }
}

#[test]
fn test_supported_signals() {
    assert_eq!(supported_signals(), vec![11, 7, 6, 8, 4, 5]);
}

#[test]
fn test_signal_names() {
    assert_eq!(SignalInfo { signal: 11, code: 0, address: 0 }.signal_name(), "SIGSEGV");
    assert_eq!(SignalInfo { signal: 7, code: 0, address: 0 }.signal_name(), "SIGBUS");
    assert_eq!(SignalInfo { signal: 6, code: 0, address: 0 }.signal_name(), "SIGABRT");
    assert_eq!(SignalInfo { signal: 8, code: 0, address: 0 }.signal_name(), "SIGFPE");
    assert_eq!(SignalInfo { signal: 4, code: 0, address: 0 }.signal_name(), "SIGILL");
    assert_eq!(SignalInfo { signal: 5, code: 0, address: 0 }.signal_name(), "SIGTRAP");
    assert_eq!(SignalInfo { signal: 12345, code: 0, address: 0 }.signal_name(), "UNKNOWN");
}

#[test]
fn test_from_siginfo() {
    let with_record = SignalInfo::from_siginfo(11, Some((2, 0xdead)));
    assert_eq!(with_record.signal, 11);
    assert_eq!(with_record.code, 2);
    assert_eq!(with_record.address, 0xdead);

    // An absent record leaves code and address at zero.
    let without = SignalInfo::from_siginfo(7, None);
    assert_eq!(without.signal, 7);
    assert_eq!(without.code, 0);
    assert_eq!(without.address, 0);
}

#[test]
fn test_plan_per_supported_signal() {
    let config = config();
    for (signal, name) in [
        (11, "sigsegv"),
        (7, "sigbus"),
        (6, "sigabrt"),
        (8, "sigfpe"),
        (4, "sigill"),
        (5, "sigtrap"),
    ] {
        let info = SignalInfo { signal, code: 1, address: 0x1000 };
        let plan = handle_signal(Some(&config), &info, 0, 77);
        assert_eq!(plan.reraise_signal, signal);
        let capture = plan.capture.expect("configuration readable");
        assert_eq!(capture.dump_path, format!("/tmp/dumps/crash_{}.dmp", name));
        assert!(!capture.invoke_callback);
        assert_eq!(capture.context.exception_type, signal as u32);
        assert_eq!(capture.context.exception_code, 1);
        assert_eq!(capture.context.exception_address, 0x1000);
        assert_eq!(capture.context.thread, 77);
    }
}

#[test]
fn test_plan_without_readable_config() {
    // Store locked or never installed: capture is skipped, the re-raise is
    // still planned.
    let info = SignalInfo { signal: 11, code: 0, address: 0 };
    let plan = handle_signal(None, &info, 0, 0);
    assert!(plan.capture.is_none());
    assert_eq!(plan.reraise_signal, 11);
}

#[test]
fn test_plan_with_timestamp_and_callback() {
    let config = HandlerConfig {
        append_timestamp: true,
        has_pre_dump_callback: true,
        ..config()
    };
    let info = SignalInfo { signal: 6, code: 0, address: 0 };
    let plan = handle_signal(Some(&config), &info, 1700000001, 1);
    let capture = plan.capture.expect("configuration readable");
    assert!(capture.invoke_callback);
    assert_eq!(capture.dump_path, "/tmp/dumps/crash_sigabrt_1700000001.dmp");
}

#[test]
fn test_negative_code_sign_extends() {
    let info = SignalInfo { signal: 11, code: -1, address: 0 };
    let plan = handle_signal(Some(&config()), &info, 0, 0);
    let capture = plan.capture.expect("configuration readable");
    assert_eq!(capture.context.exception_code, u64::MAX);
}

#[test]
fn test_path_variant_plan() {
    let dir = String::from("/tmp/dumps");
    let info = SignalInfo { signal: 8, code: 0, address: 0 };
    let plan = plan_crash_capture(Some(&dir), &info, 9);
    assert_eq!(plan.reraise_signal, 8);
    let capture = plan.capture.expect("path configured");
    // The path variant uses the fixed prefix and no timestamp.
    assert_eq!(capture.dump_path, "/tmp/dumps/crash_sigfpe.dmp");
    assert!(!capture.invoke_callback);
    assert_eq!(capture.context.thread, 9);

    let none = plan_crash_capture(None, &info, 9);
    assert!(none.capture.is_none());
    assert_eq!(none.reraise_signal, 8);
}
