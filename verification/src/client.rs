//! The client-side run configuration and how it determines the experiment.
//!
//! The orchestration itself — opening the control connection, spawning the
//! session task, joining it — is socket and thread work that lives outside
//! the library and drives `handshake::ClientHandshake`.

use vstd::prelude::*;

use crate::netexp::{Host, NetExp, NetExpParams, Side};

verus! {

/// What a client run is asked to do: which server to contact and what
/// experiment to negotiate with it.
#[derive(Clone, Copy, Debug, PartialEq, Eq, Structural)]
pub struct ClientConfig {
    /// The server's address.
    pub host: Host,
    /// The server's control port.
    pub port: u16,
    /// Use UDP for the transfer instead of TCP.
    pub udp: bool,
    /// Number of parallel streams to request.
    pub parallel: u16,
    /// Number of fixed-size transfer iterations to run.
    pub duration: u16,
    /// Send data from server to client instead of client to server.
    pub reverse: bool,
}

impl ClientConfig {
    /// The client's own experiment: the configured endpoint and sizes, over
    /// UDP exactly when asked, transmitting unless `reverse` swaps the
    /// direction. The descriptor sent to the server is this experiment's
    /// inversion.
    pub fn experiment(&self) -> (r: NetExp)
        ensures
            r is Udp <==> self.udp,
            r.spec_params() == (NetExpParams {
                host: self.host,
                port: self.port,
                side: if self.reverse {
                    Side::Rx
                } else {
                    Side::Tx
                },
                parallel: self.parallel,
                duration: self.duration,
            }),
    {
        let params = NetExpParams {
            host: self.host,
            port: self.port,
            side: if self.reverse {
                Side::Rx
            } else {
                Side::Tx
            },
            parallel: self.parallel,
            duration: self.duration,
        };
        if self.udp {
            NetExp::Udp(params)
        } else {
            NetExp::Tcp(params)
        }
    }
}

} // verus!
