use systemctl_bot::errors::OperationError;
use systemctl_bot::systemctl::SystemctlImpl;

#[test]
fn test_success_response() {
    assert_eq!(
        SystemctlImpl::respond(true, "exit status: 0".to_string(), Vec::new()).ok(),
        Some(())
    );
}

#[test]
fn test_error_response() {
    assert_eq!(
        SystemctlImpl::respond(
            false,
            "signal: 9 (SIGKILL)".to_string(),
            "Example out".as_bytes().into(),
        )
        .map_err(|e| e.display_text()),
        Err("process failed with signal: 9 (SIGKILL)\n\nExample out".to_string())
    );
}

#[test]
fn respond_decodes_diagnostics() {
    assert_eq!(
        SystemctlImpl::respond(false, "exit status: 1".to_string(), "épreuve".as_bytes().into())
            .map_err(|e| e.display_text()),
        Err("process failed with exit status: 1\n\népreuve".to_string())
    );
}

#[test]
fn display_text_per_variant() {
    assert_eq!(OperationError::NotAuthorized.display_text(), "Command is not allowed");
    assert_eq!(
        OperationError::TransportFailure { message: "socket closed".to_string() }.display_text(),
        "socket closed"
    );
    assert_eq!(
        OperationError::NonZeroExit {
            status: "exit status: 1".to_string(),
            stderr: "unit not found".to_string(),
        }
        .display_text(),
        "process failed with exit status: 1\n\nunit not found"
    );
}
