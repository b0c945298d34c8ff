//! How a run of the server ends: one way to succeed, three ways to fail.

use vstd::prelude::*;
use vstd::string::StringExecFns;

verus! {

/// The run ended without an error.
#[derive(Clone, Copy, Debug, PartialEq, Eq, Structural)]
pub enum StartupOutcome {
    /// The serve loop returned on its own.
    Completed,
}

/// The step of the start-up that failed, with the message of the I/O
/// failure underneath it.
#[derive(Debug, PartialEq, Eq)]
pub enum StartupError {
    /// The listening socket could not be created or bound.
    BindTcpListener(String),
    /// The bound socket would not tell its local address.
    GetListenerAddress(String),
    /// The serve loop stopped with an error.
    ServeApp(String),
}

/// The view of a [`StartupError`]: its variant and the characters of its
/// cause.
pub enum StartupErrorView {
    BindTcpListener(Seq<char>),
    GetListenerAddress(Seq<char>),
    ServeApp(Seq<char>),
}

impl View for StartupError {
    type V = StartupErrorView;

    open spec fn view(&self) -> StartupErrorView {
        match self {
            StartupError::BindTcpListener(cause) => StartupErrorView::BindTcpListener(cause@),
            StartupError::GetListenerAddress(cause) => StartupErrorView::GetListenerAddress(cause@),
            StartupError::ServeApp(cause) => StartupErrorView::ServeApp(cause@),
        }
    }
}

impl StartupErrorView {
    /// The message of the failure that this error wraps.
    pub open spec fn cause(self) -> Seq<char> {
        match self {
            StartupErrorView::BindTcpListener(cause) => cause,
            StartupErrorView::GetListenerAddress(cause) => cause,
            StartupErrorView::ServeApp(cause) => cause,
        }
    }

    /// What the message says before it quotes the cause.
    pub open spec fn lead(self) -> Seq<char> {
        match self {
            StartupErrorView::BindTcpListener(_) => "could not bind to network interface: "@,
            StartupErrorView::GetListenerAddress(_) => "could not get TCP listener address: "@,
            StartupErrorView::ServeApp(_) => "could not start Axum server: "@,
        }
    }

    /// The whole message: the lead, then the cause.
    pub open spec fn message(self) -> Seq<char> {
        self.lead() + self.cause()
    }

    /// The exit status that stands for this error.
    pub open spec fn exit_code(self) -> int {
        match self {
            StartupErrorView::BindTcpListener(_) => 1,
            StartupErrorView::GetListenerAddress(_) => 2,
            StartupErrorView::ServeApp(_) => 3,
        }
    }
}

/// The view of a start-up result.
pub open spec fn result_view(result: Result<StartupOutcome, StartupError>) -> Result<
    StartupOutcome,
    StartupErrorView,
> {
    match result {
        Ok(outcome) => Ok(outcome),
        Err(error) => Err(error@),
    }
}

/// The exit status that stands for a result: zero for a success, and for
/// each failure a status of its own.
pub open spec fn spec_exit_code(result: Result<StartupOutcome, StartupErrorView>) -> int {
    match result {
        Ok(_) => 0,
        Err(error) => error.exit_code(),
    }
}

/// Whether two results are the same way of ending, whatever their causes.
pub open spec fn same_ending(
    left: Result<StartupOutcome, StartupErrorView>,
    right: Result<StartupOutcome, StartupErrorView>,
) -> bool {
    match (left, right) {
        (Ok(_), Ok(_)) => true,
        (
            Err(StartupErrorView::BindTcpListener(_)),
            Err(StartupErrorView::BindTcpListener(_)),
        ) => true,
        (
            Err(StartupErrorView::GetListenerAddress(_)),
            Err(StartupErrorView::GetListenerAddress(_)),
        ) => true,
        (Err(StartupErrorView::ServeApp(_)), Err(StartupErrorView::ServeApp(_))) => true,
        _ => false,
    }
}

/// The exit status tells the ways of ending apart: two results have the
/// same status exactly when they end the same way, and only a success has
/// status zero.
pub proof fn law_exit_code_tells_endings_apart(
    left: Result<StartupOutcome, StartupErrorView>,
    right: Result<StartupOutcome, StartupErrorView>,
)
    ensures
        spec_exit_code(left) == spec_exit_code(right) <==> same_ending(left, right),
        spec_exit_code(left) == 0 <==> left is Ok,
        0 <= spec_exit_code(left) <= 3,
{
}

/// The exit status with which the program reports `result`.
pub fn exit_code(result: &Result<StartupOutcome, StartupError>) -> (code: u8)
    ensures
        code == spec_exit_code(result_view(*result)),
{
    match result {
        Ok(_) => 0,
        Err(StartupError::BindTcpListener(_)) => 1,
        Err(StartupError::GetListenerAddress(_)) => 2,
        Err(StartupError::ServeApp(_)) => 3,
    }
}

impl StartupOutcome {
    /// The message of the one way to succeed.
    pub open spec fn spec_message(self) -> Seq<char> {
        "all operations completed"@
    }

    /// The text that names this outcome in a log line.
    pub fn message(&self) -> (text: String)
        ensures
            text@ == self.spec_message(),
    {
        String::from_str("all operations completed")
    }
}

impl StartupError {
    /// The text that names this error in a log line: what could not be
    /// done, a colon, and the cause word for word.
    pub fn message(&self) -> (text: String)
        ensures
            text@ == self@.message(),
    {
        match self {
            StartupError::BindTcpListener(cause) => {
                String::from_str("could not bind to network interface: ").concat(cause.as_str())
            },
            StartupError::GetListenerAddress(cause) => {
                String::from_str("could not get TCP listener address: ").concat(cause.as_str())
            },
            StartupError::ServeApp(cause) => {
                String::from_str("could not start Axum server: ").concat(cause.as_str())
            },
        }
    }
}

} // verus!
