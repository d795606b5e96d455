//! The server-side run configuration.
//!
//! The accept loop itself — binding the listener, accepting one client at
//! a time, releasing the listener before the experiment runs so a
//! same-port TCP data session can rebind it — is socket and thread work
//! that lives outside the library and drives `handshake::ServerHandshake`,
//! one machine per accepted connection.

use vstd::prelude::*;

use crate::netexp::Host;

verus! {

/// What a server run is asked to do: where to listen for clients.
#[derive(Clone, Copy, Debug, PartialEq, Eq, Structural)]
pub struct ServerConfig {
    /// The interface to bind to.
    pub host: Host,
    /// The control port to listen on.
    pub port: u16,
}

} // verus!
