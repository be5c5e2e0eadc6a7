//! The failures that the supervisor's operations report.

use vstd::prelude::*;
use vstd::string::StringExecFns;

verus! {

/// Why no helper process came to run.
#[derive(Debug, PartialEq, Eq)]
pub enum SpawnFailure {
    /// The helper program could not be made into a command.
    Command(String),
    /// The operating system did not start the process.
    Launch(String),
}

/// A `SpawnFailure` with its detail as a sequence of characters.
pub enum SpawnFailureView {
    Command(Seq<char>),
    Launch(Seq<char>),
}

impl View for SpawnFailure {
    type V = SpawnFailureView;

    open spec fn view(&self) -> SpawnFailureView {
        match self {
            SpawnFailure::Command(detail) => SpawnFailureView::Command(detail@),
            SpawnFailure::Launch(detail) => SpawnFailureView::Launch(detail@),
        }
    }
}

/// A failure of one of the supervisor's operations.
#[derive(Debug, PartialEq, Eq)]
pub enum TunnelError {
    /// A process is owned already where a new one was to be spawned.
    AlreadyRunning,
    /// No helper process could be created.
    SpawnFailed(SpawnFailure),
    /// The helper's output ended before it announced an address.
    UrlNotFound,
    /// The owned process could not be terminated.
    KillFailed(String),
    /// A restart was asked for while no port is configured.
    NoPortConfigured,
}

/// A `TunnelError` with its details as sequences of characters.
pub enum ErrorView {
    AlreadyRunning,
    SpawnFailed(SpawnFailureView),
    UrlNotFound,
    KillFailed(Seq<char>),
    NoPortConfigured,
}

impl View for TunnelError {
    type V = ErrorView;

    open spec fn view(&self) -> ErrorView {
        match self {
            TunnelError::AlreadyRunning => ErrorView::AlreadyRunning,
            TunnelError::SpawnFailed(failure) => ErrorView::SpawnFailed(failure@),
            TunnelError::UrlNotFound => ErrorView::UrlNotFound,
            TunnelError::KillFailed(detail) => ErrorView::KillFailed(detail@),
            TunnelError::NoPortConfigured => ErrorView::NoPortConfigured,
        }
    }
}

/// The text that describes `error` to the caller of the failed operation.
pub open spec fn message_text(error: ErrorView) -> Seq<char> {
    match error {
        ErrorView::AlreadyRunning => "Tunnel is already running"@,
        ErrorView::SpawnFailed(SpawnFailureView::Command(detail)) =>
            "Failed to create `cloudflared` binary command: "@ + detail,
        ErrorView::SpawnFailed(SpawnFailureView::Launch(detail)) =>
            "Failed to spawn sidecar: "@ + detail,
        ErrorView::UrlNotFound => "Failed to get tunnel URL"@,
        ErrorView::KillFailed(detail) => "Failed to stop tunnel: "@ + detail,
        ErrorView::NoPortConfigured => "No port configured for restart"@,
    }
}

impl TunnelError {
    /// The text that describes this failure to the caller.
    pub fn message(&self) -> (text: String)
        ensures
            text@ == message_text(self@),
    {
        match self {
            TunnelError::AlreadyRunning => "Tunnel is already running".to_owned(),
            TunnelError::SpawnFailed(SpawnFailure::Command(detail)) =>
                "Failed to create `cloudflared` binary command: ".to_owned().concat(
                    detail.as_str(),
                ),
            TunnelError::SpawnFailed(SpawnFailure::Launch(detail)) =>
                "Failed to spawn sidecar: ".to_owned().concat(detail.as_str()),
            TunnelError::UrlNotFound => "Failed to get tunnel URL".to_owned(),
            TunnelError::KillFailed(detail) =>
                "Failed to stop tunnel: ".to_owned().concat(detail.as_str()),
            TunnelError::NoPortConfigured => "No port configured for restart".to_owned(),
        }
    }
}

} // verus!
