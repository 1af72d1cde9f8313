use kernel_greeter::fault::FaultAction;
use kernel_greeter::greeter::{greeting_message, rust_hola_mundo, KernelLog};

const EXPECTED: &[u8] = b"KERN_INFO Hola Mundo desde Rust!\n\0";

#[test]
fn greet_once_records_the_fixed_message() {
    // A stub sink that records its arguments: after one call the recorded
    // format string is the fixed message bytes, the variadic-argument count
    // is zero, and the status is success.
    let mut log = KernelLog::new();
    let status = rust_hola_mundo(&mut log);
    assert_eq!(status, 0);
    assert_eq!(log.entries.len(), 1);
    assert_eq!(log.entries[0].message.as_slice(), EXPECTED);
    assert_eq!(log.entries[0].vararg_count, 0);
}

#[test]
fn greet_once_severity_and_text() {
    let mut log = KernelLog::new();
    let status = rust_hola_mundo(&mut log);
    assert_eq!(status, 0);
    assert_eq!(log.entries.len(), 1);
    let message = log.entries[0].message.as_slice();
    assert_eq!(&message[..10], b"KERN_INFO ");
    assert_eq!(&message[10..32], b"Hola Mundo desde Rust!");
    assert_eq!(&message[32..], b"\n\0");
}

#[test]
fn greeting_buffer_is_null_terminated_and_format_free() {
    let buffer = greeting_message();
    assert!(!buffer.is_empty());
    assert_eq!(*buffer.last().unwrap(), 0u8);
    for &byte in &buffer[..buffer.len() - 1] {
        assert_ne!(byte, 0u8);
    }
    for &byte in &buffer {
        assert_ne!(byte, b'%');
    }
}

#[test]
fn greeting_buffer_identical_on_every_call() {
    assert_eq!(greeting_message(), greeting_message());
}

#[test]
fn zero_greetings_leave_the_log_empty() {
    let log = KernelLog::new();
    assert_eq!(log.len(), 0);
    assert!(log.entries.is_empty());
}

#[test]
fn repeated_greetings_append_one_entry_each() {
    let mut log = KernelLog::new();
    for n in 1..=5usize {
        let status = rust_hola_mundo(&mut log);
        assert_eq!(status, 0);
        assert_eq!(log.len(), n);
    }
    for entry in &log.entries {
        assert_eq!(entry.message.as_slice(), EXPECTED);
        assert_eq!(entry.vararg_count, 0);
    }
}

#[test]
fn greeting_leaves_earlier_entries_untouched() {
    let mut log = KernelLog::new();
    log.record(vec![1u8, 2, 3], 7);
    let status = rust_hola_mundo(&mut log);
    assert_eq!(status, 0);
    assert_eq!(log.entries.len(), 2);
    assert_eq!(log.entries[0].message.as_slice(), &[1u8, 2, 3]);
    assert_eq!(log.entries[0].vararg_count, 7);
    assert_eq!(log.entries[1].message.as_slice(), EXPECTED);
}

#[test]
fn fault_handler_never_directs_a_return() {
    // A bounded probe of the fail-stop policy: however many steps of the
    // halt loop ask, the directive is always to keep halting.
    for _ in 0..10_000 {
        assert_eq!(kernel_greeter::fault::panic(), FaultAction::KeepHalting);
    }
}
