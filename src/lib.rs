//! A terminal user interface served over SSH: the verified core of the
//! connection handler, the session bookkeeping, the event-loop host and the
//! render backend.
use vstd::prelude::*;

pub mod backend;
pub mod escape;
pub mod event;
pub mod handler;
pub mod plugin;
pub mod server;
pub mod session_manager;
pub mod theme;

use crate::server::{ListenAddr, Server, ServerError, AUTH_REJECTION_SECS, CONNECTION_TIMEOUT_SECS};

verus! {

/// Identifier of one SSH channel's session; handed out in strictly
/// increasing order and never twice in one process.
#[derive(Clone, Copy, Debug, PartialEq, Eq, Structural, PartialOrd, Ord, Hash)]
pub struct SessionHandle(pub u64);

impl SessionHandle {
    pub fn id(&self) -> (r: u64)
        ensures
            r == self.0,
    {
        self.0
    }
}

/// Server that handles incoming SSH connections.
pub struct AppServer {
    port: u16,
}

impl View for AppServer {
    type V = u16;

    /// The port listened on.
    closed spec fn view(&self) -> u16 {
        self.port
    }
}

impl AppServer {
    /// A server for the given port.
    pub fn new_with_port(port: u16) -> (r: Self)
        ensures
            r@ == port,
    {
        Self { port }
    }

    /// The port listened on.
    pub fn port(&self) -> (r: u16)
        ensures
            r == self@,
    {
        self.port
    }

    /// The settings the server runs with, given how many host keys it has;
    /// fails at once when there is none.
    pub fn settings(&self, host_key_count: usize) -> (r: Result<Server, ServerError>)
        ensures
            host_key_count == 0 <==> r is Err,
            r is Err ==> r == Err::<Server, ServerError>(ServerError::NoHostKeys),
            r is Ok ==> r == Ok::<Server, ServerError>(
                Server {
                    listen: ListenAddr(0, 0, 0, 0),
                    port: self@,
                    host_key_count,
                    connection_timeout_secs: CONNECTION_TIMEOUT_SECS,
                    auth_rejection_secs: AUTH_REJECTION_SECS,
                    publickey_only: true,
                },
            ),
    {
        Server::new(host_key_count, self.port)
    }
}

} // verus!
