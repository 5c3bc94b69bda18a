use pty_sessions::decimal::decimal_string;
use pty_sessions::{io_advance, IoCall, IoProgress, ProvisionStep, TerminalError};

#[test]
fn numbers_are_written_in_decimal() {
    assert_eq!(decimal_string(0), "0");
    assert_eq!(decimal_string(7), "7");
    assert_eq!(decimal_string(10), "10");
    assert_eq!(decimal_string(909), "909");
    assert_eq!(decimal_string(1234567890), "1234567890");
    assert_eq!(decimal_string(u32::MAX), "4294967295");
    for n in [1u32, 9, 11, 99, 100, 101, 65535, 65536, 4294967294] {
        assert_eq!(decimal_string(n), n.to_string());
    }
}

#[test]
fn a_missing_session_is_named_by_its_identifier() {
    let error = TerminalError::SessionNotFound { session_id: 0 };
    assert_eq!(error.message(), "Terminal session 0 not found");
    let error = TerminalError::SessionNotFound { session_id: 42 };
    assert_eq!(error.message(), "Terminal session 42 not found");
    let error = TerminalError::SessionNotFound { session_id: u32::MAX };
    assert_eq!(error.message(), "Terminal session 4294967295 not found");
}

#[test]
fn a_provisioning_failure_names_the_call() {
    let message = |step| {
        TerminalError::Provisioning { step, detail: "denied".to_string() }.message()
    };
    assert_eq!(message(ProvisionStep::OpenPty), "Failed to open PTY: denied");
    assert_eq!(message(ProvisionStep::SpawnShell), "Failed to spawn shell: denied");
    assert_eq!(message(ProvisionStep::CloneReader), "Failed to clone reader: denied");
    assert_eq!(message(ProvisionStep::TakeWriter), "Failed to take writer: denied");
}

#[test]
fn an_io_failure_names_the_call() {
    let message =
        |call| TerminalError::Io { call, detail: "Broken pipe (os error 32)".to_string() }.message();
    assert_eq!(
        message(IoCall::Write),
        "Failed to write to terminal: Broken pipe (os error 32)"
    );
    assert_eq!(message(IoCall::Flush), "Failed to flush terminal: Broken pipe (os error 32)");
    assert_eq!(message(IoCall::Resize), "Failed to resize terminal: Broken pipe (os error 32)");
    assert_eq!(
        TerminalError::Io { call: IoCall::Write, detail: String::new() }.message(),
        "Failed to write to terminal: "
    );
}

#[test]
fn a_write_is_followed_by_a_flush() {
    assert_eq!(io_advance(IoCall::Write, Ok(())), IoProgress::Call(IoCall::Flush));
    assert_eq!(io_advance(IoCall::Flush, Ok(())), IoProgress::Done);
    assert_eq!(io_advance(IoCall::Resize, Ok(())), IoProgress::Done);
}

#[test]
fn a_failed_call_fails_the_command() {
    for call in [IoCall::Write, IoCall::Flush, IoCall::Resize] {
        assert_eq!(
            io_advance(call, Err("closed".to_string())),
            IoProgress::Failed { error: TerminalError::Io { call, detail: "closed".to_string() } }
        );
    }
}
