//! The session state: the slot for the owned helper process, the cached
//! public address and the configured port.

use crate::status::{StatusView, TunnelStatus};
use vstd::prelude::*;

verus! {

/// The state of one supervised session.
///
/// The owned helper process is held by its process id. The address is the one
/// that the owned process has announced; the port is the one that the tunnel
/// targets.
#[derive(Debug)]
pub struct TunnelProcess {
    process: Option<u32>,
    url: Option<String>,
    current_port: Option<u16>,
}

/// The session state as plain values.
pub struct SessionView {
    /// The id of the owned helper process.
    pub process: Option<u32>,
    /// The public address that the owned process has announced.
    pub url: Option<Seq<char>>,
    /// The local port that the tunnel targets.
    pub port: Option<u16>,
}

impl View for TunnelProcess {
    type V = SessionView;

    closed spec fn view(&self) -> SessionView {
        SessionView {
            process: self.process,
            url: match self.url {
                Some(url) => Some(url@),
                None => None,
            },
            port: self.current_port,
        }
    }
}

/// The session in which nothing is owned, cached or configured.
pub open spec fn idle_session() -> SessionView {
    SessionView { process: None, url: None, port: None }
}

/// An address is cached only while a process is owned, and a process is
/// owned only under a configured port.
pub open spec fn well_formed(session: SessionView) -> bool {
    &&& session.url is Some ==> session.process is Some
    &&& session.process is Some ==> session.port is Some
}

/// How a session may differ after an operation's step from what it was
/// before: it stays well formed; a process that is owned before and after is
/// the same process under the same port, and its address, once cached, stays;
/// a process that is newly owned has no address yet.
pub open spec fn orderly(before: SessionView, after: SessionView) -> bool {
    &&& well_formed(after)
    &&& before.process is Some && after.process is Some ==> {
        &&& after.process == before.process
        &&& after.port == before.port
        &&& before.url is Some ==> after.url == before.url
    }
    &&& before.process is None && after.process is Some ==> after.url is None
}

/// The session after the address `url` has been found in the output of the
/// process `pid`: it is cached if that process is still the owned one and has
/// no address yet.
pub open spec fn with_url(session: SessionView, pid: u32, url: Seq<char>) -> SessionView {
    if session.process == Some(pid) && session.url is None {
        SessionView { url: Some(url), ..session }
    } else {
        session
    }
}

/// What a status query reports of `session`.
pub open spec fn status_of(session: SessionView) -> StatusView {
    StatusView {
        is_running: session.process is Some,
        current_url: session.url,
        current_port: session.port,
    }
}

impl TunnelProcess {
    /// Every session is well formed.
    #[verifier::type_invariant]
    pub open spec fn wf(&self) -> bool {
        well_formed(self@)
    }

    /// A session that owns no process.
    pub fn new() -> (state: TunnelProcess)
        ensures
            state@ == idle_session(),
    {
        TunnelProcess { process: None, url: None, current_port: None }
    }

    /// Empties the slot and forgets the cached address and the configured
    /// port.
    fn reset_state(&mut self)
        ensures
            final(self)@ == idle_session(),
    {
        proof {
            use_type_invariant(&*self);
        }
        self.url = None;
        self.process = None;
        self.current_port = None;
    }

    /// The configured port.
    pub fn get_current_port(&self) -> (port: Option<u16>)
        ensures
            port == self@.port,
    {
        self.current_port
    }

    /// The id of the owned helper process.
    pub fn owned_process(&self) -> (process: Option<u32>)
        ensures
            process == self@.process,
    {
        self.process
    }

    /// The cached public address.
    pub fn cached_url(&self) -> (url: Option<String>)
        ensures
            match url {
                Some(text) => self@.url == Some(text@),
                None => self@.url is None,
            },
    {
        match &self.url {
            Some(text) => Some(text.clone()),
            None => None,
        }
    }

    /// Caches the address `url` that was found in the output of the process
    /// `pid`, if that process is still the owned one and no address is
    /// cached yet. Returns whether the address was cached.
    pub fn cache_url(&mut self, pid: u32, url: String) -> (cached: bool)
        ensures
            final(self)@ == with_url(old(self)@, pid, url@),
            cached == (old(self)@.process == Some(pid) && old(self)@.url is None),
            orderly(old(self)@, final(self)@),
    {
        proof {
            use_type_invariant(&*self);
        }
        match self.process {
            Some(owned) => {
                if owned == pid && self.url.is_none() {
                    self.url = Some(url);
                    true
                } else {
                    false
                }
            },
            None => false,
        }
    }

    /// Takes the process `pid` out of the session after it was terminated,
    /// with the address and the port; another process, or none, is left as
    /// it is.
    pub(crate) fn release(&mut self, pid: u32)
        ensures
            final(self)@ == (if old(self)@.process == Some(pid) {
                idle_session()
            } else {
                old(self)@
            }),
    {
        match self.process {
            Some(owned) => {
                if owned == pid {
                    self.reset_state();
                }
            },
            None => {},
        }
    }

    /// Records the port that the next helper process is to target.
    pub(crate) fn configure(&mut self, port: u16)
        requires
            old(self)@.process is None,
        ensures
            final(self)@ == (SessionView { port: Some(port), ..old(self)@ }),
    {
        proof {
            use_type_invariant(&*self);
        }
        self.current_port = Some(port);
    }

    /// Stores the freshly spawned process `pid` with the port it targets.
    pub(crate) fn adopt(&mut self, pid: u32, port: u16)
        requires
            old(self)@.process is None,
        ensures
            final(self)@ == (SessionView { process: Some(pid), url: None, port: Some(port) }),
    {
        proof {
            use_type_invariant(&*self);
        }
        self.current_port = Some(port);
        self.url = None;
        self.process = Some(pid);
    }

    /// The snapshot that a status query returns.
    pub fn status(&self) -> (status: TunnelStatus)
        ensures
            status@ == status_of(self@),
    {
        TunnelStatus {
            is_running: self.process.is_some(),
            current_url: self.cached_url(),
            current_port: self.current_port,
        }
    }
}

} // verus!
