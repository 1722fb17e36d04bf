use cef::{Cef, CefError, LogSeverity, Settings};

#[test]
fn settings_use_the_sandbox_on_windows_only() {
    assert_eq!(
        Cef::settings(false),
        Settings { no_sandbox: 1, remote_debugging_port: 8765, command_line_args_disabled: 0, log_severity: LogSeverity::Warning }
    );
    assert_eq!(Cef::settings(true).no_sandbox, 0);
    assert_eq!(Cef::settings(true).remote_debugging_port, 8765);
}

#[test]
fn subprocesses_exit_with_their_code() {
    assert_eq!(Cef::subprocess_exit_code(0), Some(0));
    assert_eq!(Cef::subprocess_exit_code(3), Some(3));
    assert_eq!(Cef::subprocess_exit_code(-1), None);
}

#[test]
fn initialization_succeeds_on_one_only() {
    assert_eq!(Cef::check_initialized(1), Ok(()));
    assert_eq!(Cef::check_initialized(0), Err(CefError::InitializeFailed));
    assert_eq!(Cef::check_initialized(2), Err(CefError::InitializeFailed));
    assert_eq!(CefError::InitializeFailed.message(), "failed to initialize!");
}

#[test]
fn prepared_application_is_linked() {
    let mut cef = Cef::prepare();
    assert!(cef.application.app.linked);
    assert!(cef.application.browser_process_handler.linked);
    cef.application.app_ptr();
    assert_eq!(cef.application.app.ref_count.load(), 2);
}
