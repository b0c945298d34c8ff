//! The lines that the server writes for its operator, and how loud each is.

use vstd::prelude::*;
use vstd::string::StringExecFns;
use crate::outcome::{
    result_view, spec_exit_code, StartupError, StartupErrorView, StartupOutcome,
};

verus! {

/// How loud a line is, from the quietest to the loudest.
#[derive(Clone, Copy, Debug, PartialEq, Eq, Structural)]
pub enum Level {
    Trace,
    Debug,
    Info,
    Warn,
    Error,
}

/// One line for the log.
#[derive(Debug, PartialEq, Eq)]
pub struct LogLine {
    pub level: Level,
    pub text: String,
}

/// The view of a [`LogLine`]: its level and the characters of its text.
pub struct LogLineView {
    pub level: Level,
    pub text: Seq<char>,
}

impl View for LogLine {
    type V = LogLineView;

    open spec fn view(&self) -> LogLineView {
        LogLineView { level: self.level, text: self.text@ }
    }
}

/// How the log is set up before the first line is written.
#[derive(Clone, Copy, Debug, PartialEq, Eq, Structural)]
pub struct LogSettings {
    /// The quietest level that is still written.
    pub max_level: Level,
    /// Whether a line names the module it comes from.
    pub show_target: bool,
    /// Whether the short form of a line is used.
    pub compact: bool,
}

/// The first line of a run: the program's name and version.
pub open spec fn banner_view(name: Seq<char>, version: Seq<char>) -> LogLineView {
    LogLineView { level: Level::Info, text: name + " v"@ + version }
}

/// The line that tells where the server listens.
pub open spec fn listening_view(address: Seq<char>) -> LogLineView {
    LogLineView { level: Level::Info, text: "backend listening on "@ + address }
}

/// The last line of a run: at info level for a success, at error level
/// for a failure, each followed by the message of what happened.
pub open spec fn exit_view(result: Result<StartupOutcome, StartupErrorView>) -> LogLineView {
    match result {
        Ok(outcome) => LogLineView {
            level: Level::Info,
            text: "app exited successfully: "@ + outcome.spec_message(),
        },
        Err(error) => LogLineView {
            level: Level::Error,
            text: "app exited due to error: "@ + error.message(),
        },
    }
}

/// The last line tells the result: it is written at error level exactly
/// when the run failed, which is exactly when the exit status is not zero,
/// and the line of a failure ends with the cause, word for word.
pub proof fn law_exit_line_tells_the_result(result: Result<StartupOutcome, StartupErrorView>)
    ensures
        exit_view(result).level == Level::Error <==> result is Err,
        exit_view(result).level == Level::Info <==> result is Ok,
        result is Err <==> spec_exit_code(result) != 0,
        result matches Err(error) ==> {
            let text = exit_view(result).text;
            &&& text.len() >= error.cause().len()
            &&& text.skip(text.len() - error.cause().len()) == error.cause()
        },
{
}

/// The settings of the log: everything from debug level up is written, in
/// the short form, without the name of the module.
pub fn log_settings() -> (settings: LogSettings)
    ensures
        settings == (LogSettings { max_level: Level::Debug, show_target: false, compact: true }),
{
    LogSettings { max_level: Level::Debug, show_target: false, compact: true }
}

/// The first line of a run: `name`, a space, the letter `v` and `version`,
/// at info level.
pub fn banner(name: &str, version: &str) -> (line: LogLine)
    ensures
        line@ == banner_view(name@, version@),
{
    let text = String::from_str(name).concat(" v").concat(version);
    LogLine { level: Level::Info, text }
}

/// The line that tells where the server listens: the words
/// `backend listening on` and the address, at info level.
pub fn listening_line(address: &str) -> (line: LogLine)
    ensures
        line@ == listening_view(address@),
{
    let text = String::from_str("backend listening on ").concat(address);
    LogLine { level: Level::Info, text }
}

/// The last line of a run. A success is told at info level, a failure at
/// error level; either way the line ends with the message of the result.
pub fn exit_line(result: &Result<StartupOutcome, StartupError>) -> (line: LogLine)
    ensures
        line@ == exit_view(result_view(*result)),
{
    match result {
        Ok(outcome) => {
            let message = outcome.message();
            let text = String::from_str("app exited successfully: ").concat(message.as_str());
            LogLine { level: Level::Info, text }
        },
        Err(error) => {
            let message = error.message();
            let text = String::from_str("app exited due to error: ").concat(message.as_str());
            LogLine { level: Level::Error, text }
        },
    }
}

} // verus!
