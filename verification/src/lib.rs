//! Object lifetimes and event handling of a small Chromium Embedded
//! Framework application: reference counting of the objects handed to CEF,
//! the callback tables they install, and the decisions taken in their
//! callbacks.
use vstd::prelude::*;

pub mod application;
pub mod decimal;
pub mod handler;
pub mod ref_count;

use application::Application;

verus! {

/// CEF's log severities.
#[derive(Debug, Clone, Copy, PartialEq, Eq)]
pub enum LogSeverity {
    Default,
    Verbose,
    Info,
    Warning,
    Error,
    Fatal,
    Disable,
}

/// The settings that CEF is initialized with, those left at their default
/// aside.
#[derive(Debug, Clone, Copy, PartialEq, Eq)]
pub struct Settings {
    pub no_sandbox: i32,
    pub remote_debugging_port: i32,
    pub command_line_args_disabled: i32,
    pub log_severity: LogSeverity,
}

/// Why CEF could not be brought up.
#[derive(Debug, Clone, Copy, PartialEq, Eq)]
pub enum CefError {
    /// `cef_initialize` did not report success.
    InitializeFailed,
}

impl CefError {
    /// The text of the error.
    pub fn message(&self) -> (m: String)
        ensures
            m@ == "failed to initialize!"@,
    {
        match self {
            CefError::InitializeFailed => String::from_str("failed to initialize!"),
        }
    }
}

/// A running CEF, with the application it was started with.
#[derive(Debug)]
pub struct Cef {
    pub application: Application,
}

impl Cef {
    /// Sub-processes share the executable: a non-negative exit code from
    /// `cef_execute_process` means this process was one of them and is to
    /// exit with that code; a negative one means this is the browser
    /// process, which goes on.
    pub fn subprocess_exit_code(exit_code: i32) -> (exit: Option<i32>)
        ensures
            exit == (if exit_code >= 0 { Some(exit_code) } else { None::<i32> }),
    {
        if exit_code >= 0 {
            Some(exit_code)
        } else {
            None
        }
    }

    /// The settings CEF is initialized with: the sandbox is used on Windows
    /// only, remote debugging listens on port 8765, command line arguments
    /// are taken into account and warnings and worse are logged.
    pub fn settings(on_windows: bool) -> (s: Settings)
        ensures
            s == (Settings {
                no_sandbox: if on_windows { 0 } else { 1 },
                remote_debugging_port: 8765,
                command_line_args_disabled: 0,
                log_severity: LogSeverity::Warning,
            }),
    {
        Settings {
            no_sandbox: if on_windows { 0 } else { 1 },
            remote_debugging_port: 8765,
            command_line_args_disabled: 0,
            log_severity: LogSeverity::Warning,
        }
    }

    /// The application that CEF is to be initialized with: a new one, its
    /// objects linked back to it.
    pub fn prepare() -> (cef: Cef)
        ensures
            cef.application.app == application::app::App::fresh(true),
            cef.application.browser_process_handler
                == application::browser_process_handler::BrowserProcessHandler::fresh(true),
    {
        let mut application = Application::new();
        application.apply_pointers();
        Cef { application }
    }

    /// What `cef_initialize` reported: `1` is success, anything else an
    /// error.
    pub fn check_initialized(status: i32) -> (r: Result<(), CefError>)
        ensures
            r is Ok <==> status == 1,
            r matches Err(e) ==> e == CefError::InitializeFailed,
    {
        if status != 1 {
            Err(CefError::InitializeFailed)
        } else {
            Ok(())
        }
    }
}

} // verus!
