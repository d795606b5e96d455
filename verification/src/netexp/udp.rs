//! The UDP session lifecycles.
//!
//! Both roles move `Uninit -> Ready -> Stats`, consuming each state as the
//! TCP lifecycles do. A UDP run is a best-effort single-datagram exchange:
//! no iteration loop, no duration enforcement, and no bandwidth measured
//! from it, so a successful run yields a result with nothing measured.

use vstd::prelude::*;

use crate::error::Error;
use crate::netexp::NetExpParams;
use crate::stats::Stats;

verus! {

/// Marker state: no socket resource acquired yet.
pub struct Uninit {}

/// Marker state: the socket is bound (receiver) or connected (transmitter).
pub struct Ready {}

/// The receiving half of a UDP experiment.
pub struct UdpRx<State> {
    pub params: NetExpParams,
    pub state: State,
}

impl UdpRx<Uninit> {
    /// A fresh receiver for the given experiment parameters.
    pub fn new(params: NetExpParams) -> (r: UdpRx<Uninit>)
        ensures
            r.params == params,
    {
        UdpRx { params, state: Uninit {} }
    }

    /// Consumes the unbound receiver. The caller binds a datagram socket to
    /// `params.host:params.port` and reports the outcome: on success the
    /// session is ready to run, on failure the error is surfaced unchanged
    /// and the session is abandoned.
    pub fn bind(self, outcome: Result<(), Error>) -> (r: Result<UdpRx<Ready>, Error>)
        ensures
            r is Ok <==> outcome is Ok,
            r matches Ok(next) ==> next.params == self.params,
            r matches Err(e) ==> outcome == Err::<(), Error>(e),
    {
        match outcome {
            Ok(()) => Ok(UdpRx { params: self.params, state: Ready {} }),
            Err(e) => Err(e),
        }
    }
}

impl UdpRx<Ready> {
    /// Consumes the ready receiver and yields the session's result. The
    /// caller receives a single datagram on the bound socket and reports
    /// the outcome; nothing is measured either way.
    pub fn run(self, io: Result<(), Error>) -> (r: Result<Stats, Error>)
        ensures
            r is Ok <==> io is Ok,
            r matches Ok(stats) ==> stats.bandwidth is None && stats.packet_loss is None,
            r matches Err(e) ==> io == Err::<(), Error>(e),
    {
        match io {
            Ok(()) => Ok(Stats::new()),
            Err(e) => Err(e),
        }
    }
}

/// The transmitting half of a UDP experiment.
pub struct UdpTx<State> {
    pub params: NetExpParams,
    pub state: State,
}

impl UdpTx<Uninit> {
    /// A fresh transmitter for the given experiment parameters.
    pub fn new(params: NetExpParams) -> (r: UdpTx<Uninit>)
        ensures
            r.params == params,
    {
        UdpTx { params, state: Uninit {} }
    }

    /// Consumes the unconnected transmitter. The caller binds a datagram
    /// socket to an ephemeral local port, connects it to
    /// `params.host:params.port`, and reports the outcome: on success the
    /// session is ready to run.
    pub fn init(self, outcome: Result<(), Error>) -> (r: Result<UdpTx<Ready>, Error>)
        ensures
            r is Ok <==> outcome is Ok,
            r matches Ok(next) ==> next.params == self.params,
            r matches Err(e) ==> outcome == Err::<(), Error>(e),
    {
        match outcome {
            Ok(()) => Ok(UdpTx { params: self.params, state: Ready {} }),
            Err(e) => Err(e),
        }
    }
}

impl UdpTx<Ready> {
    /// Consumes the ready transmitter and yields the session's result. The
    /// caller sends a single fixed payload on the connected socket and
    /// reports the outcome; nothing is measured either way.
    pub fn run(self, io: Result<(), Error>) -> (r: Result<Stats, Error>)
        ensures
            r is Ok <==> io is Ok,
            r matches Ok(stats) ==> stats.bandwidth is None && stats.packet_loss is None,
            r matches Err(e) ==> io == Err::<(), Error>(e),
    {
        match io {
            Ok(()) => Ok(Stats::new()),
            Err(e) => Err(e),
        }
    }
}

} // verus!
