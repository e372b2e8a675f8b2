//! The per-server console connection cache.
//!
//! At most one control-channel handle exists per server. The manager owns the
//! state machine `Disconnected -> Connected`; any command error drops back to
//! `Disconnected` so the next tick reconnects instead of retrying a broken
//! channel. Handles are opaque tokens here; the caller keeps the real
//! connections and performs the network work the returned action names.

use vstd::prelude::*;

verus! {

/// The cached connection state for one server. The handle is an opaque token
/// naming a live connection owned by the caller.
#[derive(Clone, Copy, PartialEq, Eq, Structural, Debug)]
pub enum ConnState {
    Disconnected,
    Connected(u64),
}

/// What the caller must do to satisfy an `ensure` request.
#[derive(Clone, Copy, PartialEq, Eq, Structural, Debug)]
pub enum EnsureAction {
    /// The cached handle is live: reuse it, no network work.
    Reuse(u64),
    /// No cached handle: attempt a connection with the stored credentials and
    /// report the outcome back.
    Connect,
    /// The service is down: no connection exists or may be attempted.
    Absent,
}

/// The connection manager for one server.
pub struct ConnectionManager {
    state: ConnState,
}

impl ConnectionManager {
    pub closed spec fn spec_state(&self) -> ConnState {
        self.state
    }

    pub fn new() -> (manager: ConnectionManager)
        ensures
            manager.spec_state() == ConnState::Disconnected,
    {
        ConnectionManager { state: ConnState::Disconnected }
    }

    /// Decide how to satisfy a request for a live connection, given whether
    /// the OS reports the server's service active. An inactive service
    /// discards any cached handle and answers `Absent` without any connection
    /// attempt; an active service reuses the cached handle or asks the caller
    /// to connect.
    pub fn ensure_action(&mut self, service_active: bool) -> (action: EnsureAction)
        ensures
            !service_active ==> action == EnsureAction::Absent && final(self).spec_state()
                == ConnState::Disconnected,
            service_active ==> (old(self).spec_state() matches ConnState::Connected(h) ==> action
                == EnsureAction::Reuse(h) && final(self).spec_state() == old(self).spec_state()),
            service_active && old(self).spec_state() == ConnState::Disconnected ==> action
                == EnsureAction::Connect && final(self).spec_state() == old(self).spec_state(),
    {
        if !service_active {
            self.state = ConnState::Disconnected;
            return EnsureAction::Absent;
        }
        match self.state {
            ConnState::Connected(handle) => EnsureAction::Reuse(handle),
            ConnState::Disconnected => EnsureAction::Connect,
        }
    }

    /// Record the outcome of a connection attempt: cache the new handle, or
    /// stay disconnected when the attempt failed (non-fatal; the next tick
    /// retries).
    pub fn connect_outcome(&mut self, handle: Option<u64>)
        ensures
            final(self).spec_state() == match handle {
                Some(h) => ConnState::Connected(h),
                None => ConnState::Disconnected,
            },
    {
        match handle {
            Some(h) => {
                self.state = ConnState::Connected(h);
            },
            None => {
                self.state = ConnState::Disconnected;
            },
        }
    }

    /// A command on the cached handle errored: invalidate it immediately so
    /// the next tick reconnects rather than retrying a broken channel.
    pub fn command_errored(&mut self)
        ensures
            final(self).spec_state() == ConnState::Disconnected,
    {
        self.state = ConnState::Disconnected;
    }

    /// The cached handle, if any.
    pub fn cached(&self) -> (handle: Option<u64>)
        ensures
            handle == match self.spec_state() {
                ConnState::Connected(h) => Some(h),
                ConnState::Disconnected => None::<u64>,
            },
    {
        match self.state {
            ConnState::Connected(handle) => Some(handle),
            ConnState::Disconnected => None,
        }
    }
}

} // verus!
