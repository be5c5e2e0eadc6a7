//! The snapshot of the session that a status query returns.

use vstd::prelude::*;

verus! {

/// What a status query reports.
#[derive(Debug, PartialEq, Eq)]
pub struct TunnelStatus {
    /// Whether a helper process is owned.
    pub is_running: bool,
    /// The public address, once the helper has announced it.
    pub current_url: Option<String>,
    /// The local port that the tunnel targets.
    pub current_port: Option<u16>,
}

/// A `TunnelStatus` with its address as a sequence of characters.
pub struct StatusView {
    pub is_running: bool,
    pub current_url: Option<Seq<char>>,
    pub current_port: Option<u16>,
}

impl View for TunnelStatus {
    type V = StatusView;

    open spec fn view(&self) -> StatusView {
        StatusView {
            is_running: self.is_running,
            current_url: match self.current_url {
                Some(url) => Some(url@),
                None => None,
            },
            current_port: self.current_port,
        }
    }
}

} // verus!
