use backend::outcome::{StartupError, StartupOutcome};
use backend::report::{banner, exit_line, listening_line, log_settings, Level, LogLine, LogSettings};

#[test]
fn banner_names_program_and_version() {
    assert_eq!(
        banner("backend", "0.1.0"),
        LogLine { level: Level::Info, text: String::from("backend v0.1.0") }
    );
}

#[test]
fn banner_of_empty_parts_keeps_the_middle() {
    assert_eq!(banner("", "").text, " v");
}

#[test]
fn listening_line_names_the_address() {
    assert_eq!(
        listening_line("127.0.0.1:8000"),
        LogLine { level: Level::Info, text: String::from("backend listening on 127.0.0.1:8000") }
    );
}

#[test]
fn success_is_told_at_info_level() {
    assert_eq!(
        exit_line(&Ok(StartupOutcome::Completed)),
        LogLine {
            level: Level::Info,
            text: String::from("app exited successfully: all operations completed"),
        }
    );
}

#[test]
fn bind_failure_is_told_at_error_level() {
    let result = Err(StartupError::BindTcpListener(String::from("Address already in use (os error 98)")));
    assert_eq!(
        exit_line(&result),
        LogLine {
            level: Level::Error,
            text: String::from(
                "app exited due to error: could not bind to network interface: Address already in use (os error 98)"
            ),
        }
    );
}

#[test]
fn address_failure_is_told_at_error_level() {
    let result = Err(StartupError::GetListenerAddress(String::from("gone")));
    assert_eq!(
        exit_line(&result),
        LogLine {
            level: Level::Error,
            text: String::from("app exited due to error: could not get TCP listener address: gone"),
        }
    );
}

#[test]
fn serve_failure_is_told_at_error_level() {
    let result = Err(StartupError::ServeApp(String::from("broken")));
    assert_eq!(
        exit_line(&result),
        LogLine {
            level: Level::Error,
            text: String::from("app exited due to error: could not start Axum server: broken"),
        }
    );
}

#[test]
fn log_is_compact_without_target_from_debug_up() {
    assert_eq!(
        log_settings(),
        LogSettings { max_level: Level::Debug, show_target: false, compact: true }
    );
}
