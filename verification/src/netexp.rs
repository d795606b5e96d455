pub mod tcp;
pub mod udp;

use vstd::prelude::*;

verus! {

/// The role a party plays in an experiment: `Tx` sends data, `Rx` receives it.
#[derive(Clone, Copy, Debug, PartialEq, Eq, Structural)]
pub enum Side {
    Tx,
    Rx,
}

impl Side {
    /// The opposite role: the one the peer must play.
    pub fn inverted(&self) -> (r: Side)
        ensures
            r == (match *self {
                Side::Tx => Side::Rx,
                Side::Rx => Side::Tx,
            }),
    {
        match self {
            Side::Tx => Side::Rx,
            Side::Rx => Side::Tx,
        }
    }
}

/// An endpoint address, IPv4 or IPv6, held as its numeric (big-endian) value.
///
/// The 4 (respectively 16) address octets are the big-endian bytes of the
/// carried integer, exactly as they appear in the wire encoding.
#[derive(Clone, Copy, Debug, PartialEq, Eq, Structural)]
pub enum Host {
    V4(u32),
    V6(u128),
}

/// The parameters of one experiment: where to run it, which role this
/// descriptor's holder plays, and how much data to move.
#[derive(Clone, Copy, Debug, PartialEq, Eq, Structural)]
pub struct NetExpParams {
    pub host: Host,
    pub port: u16,
    pub side: Side,
    /// Number of parallel streams requested. Carried and negotiated, but the
    /// execution engine currently runs a single stream regardless.
    pub parallel: u16,
    /// Number of fixed-size transfer iterations to run.
    pub duration: u16,
}

impl NetExpParams {
    /// The parameters the peer must execute: identical but for the inverted role.
    pub fn inverted(&self) -> (r: NetExpParams)
        ensures
            r.host == self.host,
            r.port == self.port,
            r.side == (match self.side {
                Side::Tx => Side::Rx,
                Side::Rx => Side::Tx,
            }),
            r.parallel == self.parallel,
            r.duration == self.duration,
    {
        NetExpParams {
            host: self.host,
            port: self.port,
            side: self.side.inverted(),
            parallel: self.parallel,
            duration: self.duration,
        }
    }
}

/// An experiment descriptor: the transport to use together with the
/// experiment parameters.
#[derive(Clone, Copy, Debug, PartialEq, Eq, Structural)]
pub enum NetExp {
    Tcp(NetExpParams),
    Udp(NetExpParams),
}

impl NetExp {
    /// The parameters carried by either variant.
    pub open spec fn spec_params(self) -> NetExpParams {
        match self {
            NetExp::Tcp(p) => p,
            NetExp::Udp(p) => p,
        }
    }

    /// The parameters carried by either variant.
    pub fn params(&self) -> (r: &NetExpParams)
        ensures
            *r == self.spec_params(),
    {
        match self {
            NetExp::Tcp(p) => p,
            NetExp::Udp(p) => p,
        }
    }

    /// The descriptor the peer must execute: same transport and parameters,
    /// but the inverted role.
    pub open spec fn spec_inverted(self) -> NetExp {
        let p = self.spec_params();
        let q = NetExpParams {
            side: match p.side {
                Side::Tx => Side::Rx,
                Side::Rx => Side::Tx,
            },
            ..p
        };
        match self {
            NetExp::Tcp(_) => NetExp::Tcp(q),
            NetExp::Udp(_) => NetExp::Udp(q),
        }
    }

    /// The descriptor the peer must execute: same transport and parameters,
    /// but the inverted role, so that one party sends exactly when the other
    /// receives.
    pub fn inverted(&self) -> (r: NetExp)
        ensures
            r == self.spec_inverted(),
    {
        match self {
            NetExp::Tcp(p) => NetExp::Tcp(p.inverted()),
            NetExp::Udp(p) => NetExp::Udp(p.inverted()),
        }
    }

    /// The same descriptor with its host replaced.
    pub open spec fn spec_with_host(self, host: Host) -> NetExp {
        let p = self.spec_params();
        let q = NetExpParams { host, ..p };
        match self {
            NetExp::Tcp(_) => NetExp::Tcp(q),
            NetExp::Udp(_) => NetExp::Udp(q),
        }
    }

    /// The same descriptor with its host replaced.
    ///
    /// A server never trusts the host field received over the wire: before
    /// executing a descriptor it overwrites the field with the observed peer
    /// address of the control connection.
    pub fn with_host(self, host: Host) -> (r: NetExp)
        ensures
            r == self.spec_with_host(host),
    {
        match self {
            NetExp::Tcp(p) => NetExp::Tcp(NetExpParams { host, ..p }),
            NetExp::Udp(p) => NetExp::Udp(NetExpParams { host, ..p }),
        }
    }
}

/// Descriptor inversion: the descriptor computed for the peer has the
/// opposite side and is otherwise identical — same transport, host, port,
/// parallelism and duration — and inverting twice gives the starting
/// descriptor back.
pub proof fn lemma_descriptor_inversion(e: NetExp)
    ensures
        e.spec_inverted() is Tcp <==> e is Tcp,
        e.spec_inverted().spec_params().side is Rx <==> e.spec_params().side is Tx,
        e.spec_inverted().spec_params().host == e.spec_params().host,
        e.spec_inverted().spec_params().port == e.spec_params().port,
        e.spec_inverted().spec_params().parallel == e.spec_params().parallel,
        e.spec_inverted().spec_params().duration == e.spec_params().duration,
        e.spec_inverted().spec_inverted() == e,
{
}

} // verus!
