//! The server's settings.
use vstd::prelude::*;

verus! {

/// Seconds after which an idle connection is dropped.
pub const CONNECTION_TIMEOUT_SECS: u64 = 600;

/// Seconds to wait before answering a rejected authentication.
pub const AUTH_REJECTION_SECS: u64 = 0;

/// Why the server cannot start.
#[derive(Clone, Copy, Debug, PartialEq, Eq, Structural, Hash)]
pub enum ServerError {
    /// No host key was given, so no client could complete a key exchange.
    NoHostKeys,
}

/// An IPv4 address.
#[derive(Clone, Copy, Debug, PartialEq, Eq, Structural, Hash)]
pub struct ListenAddr(pub u8, pub u8, pub u8, pub u8);

/// How the SSH server is set up.
#[derive(Clone, Copy, Debug, PartialEq, Eq, Structural, Hash)]
pub struct Server {
    /// The IPv4 address listened on.
    pub listen: ListenAddr,
    pub port: u16,
    /// How many host keys are offered.
    pub host_key_count: usize,
    pub connection_timeout_secs: u64,
    pub auth_rejection_secs: u64,
    /// Only public-key authentication is offered.
    pub publickey_only: bool,
}

impl Server {
    /// Settings for a server on `port` with `host_key_count` host keys: all
    /// IPv4 interfaces, the default timeouts, public-key authentication only.
    /// Fails when there is no host key.
    pub fn new(host_key_count: usize, port: u16) -> (r: Result<Server, ServerError>)
        ensures
            host_key_count == 0 <==> r is Err,
            r is Err ==> r == Err::<Server, ServerError>(ServerError::NoHostKeys),
            r is Ok ==> r == Ok::<Server, ServerError>(
                Server {
                    listen: ListenAddr(0, 0, 0, 0),
                    port,
                    host_key_count,
                    connection_timeout_secs: CONNECTION_TIMEOUT_SECS,
                    auth_rejection_secs: AUTH_REJECTION_SECS,
                    publickey_only: true,
                },
            ),
    {
        if host_key_count == 0 {
            Err(ServerError::NoHostKeys)
        } else {
            Ok(
                Server {
                    listen: ListenAddr(0, 0, 0, 0),
                    port,
                    host_key_count,
                    connection_timeout_secs: CONNECTION_TIMEOUT_SECS,
                    auth_rejection_secs: AUTH_REJECTION_SECS,
                    publickey_only: true,
                },
            )
        }
    }
}

} // verus!
