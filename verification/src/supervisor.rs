//! The supervisor's operations: start, stop, restart and status.
//!
//! Terminating a process, spawning one and waiting for its output are the
//! caller's work. An operation therefore runs in steps: each step reads and
//! updates the session and either ends the operation or names the work that
//! the caller is to perform next, as a task. The caller performs it and
//! resumes the task with what came of it. While a process is terminated or
//! spawned the caller keeps the session to itself; while it waits for the
//! address it does not.

use crate::command::{helper_arguments, helper_command, HelperCommand};
use crate::error::{ErrorView, SpawnFailure, TunnelError};
use crate::session::{idle_session, orderly, status_of, SessionView, TunnelProcess};
use crate::status::TunnelStatus;
use vstd::prelude::*;

verus! {

/// The owned process is to be terminated for a stop.
#[derive(Debug, PartialEq, Eq)]
pub struct StopTask {
    pid: u32,
}

/// The owned process is to be terminated so that a helper for `port` can
/// take its place.
#[derive(Debug, PartialEq, Eq)]
pub struct ReplaceTask {
    pid: u32,
    port: u16,
}

/// A helper process for `port` is to be spawned.
#[derive(Debug, PartialEq, Eq)]
pub struct SpawnTask {
    port: u16,
}

/// The address that the process `pid` announces is to be waited for.
#[derive(Debug, PartialEq, Eq)]
pub struct AwaitTask {
    pid: u32,
}

/// Where a stop stands after a step.
#[derive(Debug, PartialEq, Eq)]
pub enum StopStep {
    /// The stop has ended.
    Done(Result<(), TunnelError>),
    /// The owned process is to be terminated.
    Kill(StopTask),
}

/// Where a start or a restart stands after a step.
#[derive(Debug, PartialEq, Eq)]
pub enum StartStep {
    /// The operation has ended, with the public address or a failure.
    Done(Result<String, TunnelError>),
    /// The owned process is to be terminated first.
    Kill(ReplaceTask),
    /// A helper process is to be spawned.
    Spawn(SpawnTask),
    /// The helper's output is to be scanned until it announces the address
    /// or ends.
    Await(AwaitTask),
}

/// A `StopStep` as plain values.
pub enum StopStepView {
    Done(Result<(), ErrorView>),
    Kill { pid: u32 },
}

/// A `StartStep` as plain values.
pub enum StartStepView {
    Done(Result<Seq<char>, ErrorView>),
    Kill { pid: u32, port: u16 },
    Spawn { port: u16 },
    Await { pid: u32 },
}

impl View for StopStep {
    type V = StopStepView;

    open spec fn view(&self) -> StopStepView {
        match self {
            StopStep::Done(Ok(())) => StopStepView::Done(Ok(())),
            StopStep::Done(Err(error)) => StopStepView::Done(Err(error@)),
            StopStep::Kill(task) => StopStepView::Kill { pid: task.spec_pid() },
        }
    }
}

impl View for StartStep {
    type V = StartStepView;

    open spec fn view(&self) -> StartStepView {
        match self {
            StartStep::Done(Ok(url)) => StartStepView::Done(Ok(url@)),
            StartStep::Done(Err(error)) => StartStepView::Done(Err(error@)),
            StartStep::Kill(task) => StartStepView::Kill {
                pid: task.spec_pid(),
                port: task.spec_port(),
            },
            StartStep::Spawn(task) => StartStepView::Spawn { port: task.spec_port() },
            StartStep::Await(task) => StartStepView::Await { pid: task.spec_pid() },
        }
    }
}

/// What resuming a `ReplaceTask` gives: the next step, and the failure to
/// terminate the old process, which is to be logged and goes no further.
#[derive(Debug, PartialEq, Eq)]
pub struct Resumed {
    /// Where the operation stands now.
    pub step: StartStep,
    /// The failure that the caller logs.
    pub logged: Option<TunnelError>,
}

/// The first step of a stop: with no process owned the stop has succeeded;
/// else the owned process is to be terminated.
pub open spec fn stop_step(session: SessionView) -> StopStepView {
    match session.process {
        Some(pid) => StopStepView::Kill { pid },
        None => StopStepView::Done(Ok(())),
    }
}

/// The session after the attempt to terminate the process `pid`: where it
/// succeeded and `pid` is the owned process, nothing is owned, cached or
/// configured any more; else the session is unchanged.
pub open spec fn after_kill(session: SessionView, pid: u32, killed: bool) -> SessionView {
    if killed && session.process == Some(pid) {
        idle_session()
    } else {
        session
    }
}

/// How a start for `port` goes on once no process of another port stands in
/// its way: an owned process with its address cached answers the start with
/// that address; an owned process without one refuses it; with no process
/// owned the port is recorded and a helper is to be spawned.
pub open spec fn start_decision(session: SessionView, port: u16) -> (SessionView, StartStepView) {
    if session.process is Some {
        if session.port == Some(port) && session.url is Some {
            (session, StartStepView::Done(Ok(session.url->0)))
        } else {
            (session, StartStepView::Done(Err(ErrorView::AlreadyRunning)))
        }
    } else {
        (SessionView { port: Some(port), ..session }, StartStepView::Spawn { port })
    }
}

/// The first step of a start for `port`: an owned process that is bound to
/// another port is to be terminated first; else see `start_decision`.
pub open spec fn start_step(session: SessionView, port: u16) -> (SessionView, StartStepView) {
    match session.process {
        Some(pid) if session.port != Some(port) => (session, StartStepView::Kill { pid, port }),
        _ => start_decision(session, port),
    }
}

/// The first step of a restart: without a configured port it fails; an owned
/// process is to be terminated first; with none owned the start for the
/// configured port goes on at once.
pub open spec fn restart_step(session: SessionView) -> (SessionView, StartStepView) {
    match session.port {
        None => (session, StartStepView::Done(Err(ErrorView::NoPortConfigured))),
        Some(port) => match session.process {
            Some(pid) => (session, StartStepView::Kill { pid, port }),
            None => start_decision(session, port),
        },
    }
}

/// The step after the attempt to terminate the process `pid` for a start on
/// `port`: whatever came of the attempt, the start goes on.
pub open spec fn replace_step(session: SessionView, pid: u32, port: u16, killed: bool) -> (
    SessionView,
    StartStepView,
) {
    start_decision(after_kill(session, pid, killed), port)
}

/// The step after the attempt to spawn a helper for `port`: a spawned process
/// is stored in the empty slot and its address is to be waited for; with the
/// slot taken the start is refused; a failed attempt fails the start.
pub open spec fn spawn_step(session: SessionView, port: u16, spawned: Result<u32, ErrorView>) -> (
    SessionView,
    StartStepView,
) {
    match spawned {
        Ok(pid) => if session.process is None {
            (
                SessionView { process: Some(pid), url: None, port: Some(port) },
                StartStepView::Await { pid },
            )
        } else {
            (session, StartStepView::Done(Err(ErrorView::AlreadyRunning)))
        },
        Err(error) => (session, StartStepView::Done(Err(error))),
    }
}

impl StopTask {
    /// The id of the process that is to be terminated.
    pub closed spec fn spec_pid(&self) -> u32 {
        self.pid
    }

    /// The id of the process that is to be terminated.
    #[verifier::when_used_as_spec(spec_pid)]
    pub fn pid(&self) -> (pid: u32)
        ensures
            pid == self.spec_pid(),
    {
        self.pid
    }

    /// Ends the stop with what came of the attempt to terminate the process:
    /// after a success the session owns nothing; after a failure it is
    /// unchanged and the stop fails with `KillFailed`.
    pub fn resume(self, state: &mut TunnelProcess, killed: Result<(), String>) -> (result: Result<
        (),
        TunnelError,
    >)
        ensures
            final(state)@ == after_kill(old(state)@, self.spec_pid(), killed is Ok),
            orderly(old(state)@, final(state)@),
            match killed {
                Ok(_) => result is Ok,
                Err(detail) => result is Err && result->Err_0@ == ErrorView::KillFailed(detail@),
            },
    {
        proof {
            use_type_invariant(&*state);
        }
        match killed {
            Ok(_) => {
                state.release(self.pid);
                Ok(())
            },
            Err(detail) => Err(TunnelError::KillFailed(detail)),
        }
    }
}

impl ReplaceTask {
    /// The id of the process that is to be terminated.
    pub closed spec fn spec_pid(&self) -> u32 {
        self.pid
    }

    /// The port that the new helper is to target.
    pub closed spec fn spec_port(&self) -> u16 {
        self.port
    }

    /// The id of the process that is to be terminated.
    #[verifier::when_used_as_spec(spec_pid)]
    pub fn pid(&self) -> (pid: u32)
        ensures
            pid == self.spec_pid(),
    {
        self.pid
    }

    /// The port that the new helper is to target.
    #[verifier::when_used_as_spec(spec_port)]
    pub fn port(&self) -> (port: u16)
        ensures
            port == self.spec_port(),
    {
        self.port
    }

    /// Goes on with the start after the attempt to terminate the old
    /// process. A failure of that attempt leaves the session unchanged and is
    /// handed back to be logged; the start goes on either way.
    pub fn resume(self, state: &mut TunnelProcess, killed: Result<(), String>) -> (resumed: Resumed)
        ensures
            (final(state)@, resumed.step@) == replace_step(
                old(state)@,
                self.spec_pid(),
                self.spec_port(),
                killed is Ok,
            ),
            orderly(old(state)@, final(state)@),
            !(resumed.step@ is Kill),
            match killed {
                Ok(_) => resumed.logged is None,
                Err(detail) => resumed.logged is Some && resumed.logged->0@ == ErrorView::KillFailed(
                    detail@,
                ),
            },
    {
        proof {
            use_type_invariant(&*state);
        }
        let logged = match killed {
            Ok(_) => {
                state.release(self.pid);
                None
            },
            Err(detail) => Some(TunnelError::KillFailed(detail)),
        };
        let step = decide_start(state, self.port);
        Resumed { step, logged }
    }
}

impl SpawnTask {
    /// The port that the helper is to target.
    pub closed spec fn spec_port(&self) -> u16 {
        self.port
    }

    /// The port that the helper is to target.
    #[verifier::when_used_as_spec(spec_port)]
    pub fn port(&self) -> (port: u16)
        ensures
            port == self.spec_port(),
    {
        self.port
    }

    /// The command that starts the helper.
    pub fn command(&self) -> (command: HelperCommand)
        ensures
            command.program@ == "cloudflared"@,
            command.arguments() == helper_arguments(self.spec_port()),
    {
        helper_command(self.port)
    }

    /// Goes on with the start after the attempt to spawn the helper, which
    /// gave the id of the new process or failed.
    pub fn resume(self, state: &mut TunnelProcess, spawned: Result<u32, SpawnFailure>) -> (step:
        StartStep)
        ensures
            (final(state)@, step@) == spawn_step(
                old(state)@,
                self.spec_port(),
                match spawned {
                    Ok(pid) => Ok(pid),
                    Err(failure) => Err(ErrorView::SpawnFailed(failure@)),
                },
            ),
            orderly(old(state)@, final(state)@),
    {
        proof {
            use_type_invariant(&*state);
        }
        match spawned {
            Ok(pid) => {
                if state.owned_process().is_none() {
                    state.adopt(pid, self.port);
                    StartStep::Await(AwaitTask { pid })
                } else {
                    StartStep::Done(Err(TunnelError::AlreadyRunning))
                }
            },
            Err(failure) => StartStep::Done(Err(TunnelError::SpawnFailed(failure))),
        }
    }
}

impl AwaitTask {
    /// The id of the process whose output is to be scanned.
    pub closed spec fn spec_pid(&self) -> u32 {
        self.pid
    }

    /// The id of the process whose output is to be scanned.
    #[verifier::when_used_as_spec(spec_pid)]
    pub fn pid(&self) -> (pid: u32)
        ensures
            pid == self.spec_pid(),
    {
        self.pid
    }

    /// Ends the start with what the scan of the helper's output gave: the
    /// address, or nothing when the output ended before any was found.
    pub fn resume(self, signal: Option<String>) -> (result: Result<String, TunnelError>)
        ensures
            match signal {
                Some(url) => result is Ok && result->Ok_0@ == url@,
                None => result is Err && result->Err_0@ == ErrorView::UrlNotFound,
            },
    {
        match signal {
            Some(url) => Ok(url),
            None => Err(TunnelError::UrlNotFound),
        }
    }
}

fn decide_start(state: &mut TunnelProcess, port: u16) -> (step: StartStep)
    ensures
        (final(state)@, step@) == start_decision(old(state)@, port),
        orderly(old(state)@, final(state)@),
{
    proof {
        use_type_invariant(&*state);
    }
    if state.owned_process().is_some() {
        let bound = match state.get_current_port() {
            Some(current) => current == port,
            None => false,
        };
        match state.cached_url() {
            Some(url) => {
                if bound {
                    StartStep::Done(Ok(url))
                } else {
                    StartStep::Done(Err(TunnelError::AlreadyRunning))
                }
            },
            None => StartStep::Done(Err(TunnelError::AlreadyRunning)),
        }
    } else {
        state.configure(port);
        StartStep::Spawn(SpawnTask { port })
    }
}

/// Begins a start of the tunnel to the local service on `port`.
pub fn start_tunnel(state: &mut TunnelProcess, port: u16) -> (step: StartStep)
    ensures
        (final(state)@, step@) == start_step(old(state)@, port),
        orderly(old(state)@, final(state)@),
{
    proof {
        use_type_invariant(&*state);
    }
    match state.owned_process() {
        Some(pid) => {
            let bound = match state.get_current_port() {
                Some(current) => current == port,
                None => false,
            };
            if bound {
                decide_start(state, port)
            } else {
                StartStep::Kill(ReplaceTask { pid, port })
            }
        },
        None => decide_start(state, port),
    }
}

/// Begins a stop of the tunnel.
pub fn stop_tunnel_internal(state: &TunnelProcess) -> (step: StopStep)
    ensures
        step@ == stop_step(state@),
{
    match state.owned_process() {
        Some(pid) => StopStep::Kill(StopTask { pid }),
        None => StopStep::Done(Ok(())),
    }
}

/// Begins a stop of the tunnel.
pub fn stop_tunnel(state: &TunnelProcess) -> (step: StopStep)
    ensures
        step@ == stop_step(state@),
{
    stop_tunnel_internal(state)
}

/// Begins a restart of the tunnel on the configured port.
pub fn restart_tunnel(state: &mut TunnelProcess) -> (step: StartStep)
    ensures
        (final(state)@, step@) == restart_step(old(state)@),
        orderly(old(state)@, final(state)@),
{
    proof {
        use_type_invariant(&*state);
    }
    match state.get_current_port() {
        None => StartStep::Done(Err(TunnelError::NoPortConfigured)),
        Some(port) => match state.owned_process() {
            Some(pid) => StartStep::Kill(ReplaceTask { pid, port }),
            None => decide_start(state, port),
        },
    }
}

/// The snapshot of the session: whether a process is owned, the cached
/// address and the configured port.
pub fn get_tunnel_status(state: &TunnelProcess) -> (result: Result<TunnelStatus, TunnelError>)
    ensures
        result is Ok,
        result->Ok_0@ == status_of(state@),
{
    Ok(state.status())
}

} // verus!
