//! The TCP session lifecycles.
//!
//! A receiver moves `Uninit -> Bound -> Ready -> Stats`, a transmitter
//! `Uninit -> Ready -> Stats`. Every transition consumes the prior state
//! and returns the next, so a stale state is structurally unusable: a
//! session cannot be run before its socket is connected, nor bound twice.
//! The socket itself is owned by the caller driving the lifecycle, which
//! performs each socket operation and reports its outcome; any reported
//! failure aborts the lifecycle at once, surfacing the error unchanged.

use vstd::prelude::*;

use crate::error::Error;
use crate::netexp::NetExpParams;
use crate::stats::{bandwidth_of, total_bytes, spec_total_bytes, Stats};

verus! {

/// Marker state: no socket resource acquired yet.
pub struct Uninit {}

/// Marker state: the listening socket is bound.
pub struct Bound {}

/// Marker state: the data connection is established.
pub struct Ready {}

/// The receiving half of a TCP experiment.
pub struct TcpRx<State> {
    pub params: NetExpParams,
    pub state: State,
}

impl TcpRx<Uninit> {
    /// A fresh receiver for the given experiment parameters.
    pub fn new(params: NetExpParams) -> (r: TcpRx<Uninit>)
        ensures
            r.params == params,
    {
        TcpRx { params, state: Uninit {} }
    }

    /// Consumes the unbound receiver. The caller binds a listening socket
    /// to `params.host:params.port` and reports the outcome: on success the
    /// session is bound, on failure the error is surfaced unchanged and the
    /// session is abandoned.
    pub fn bind(self, outcome: Result<(), Error>) -> (r: Result<TcpRx<Bound>, Error>)
        ensures
            r is Ok <==> outcome is Ok,
            r matches Ok(next) ==> next.params == self.params,
            r matches Err(e) ==> outcome == Err::<(), Error>(e),
    {
        match outcome {
            Ok(()) => Ok(TcpRx { params: self.params, state: Bound {} }),
            Err(e) => Err(e),
        }
    }
}

impl TcpRx<Bound> {
    /// Consumes the bound receiver. The caller blocks until exactly one
    /// inbound connection arrives on the listening socket and reports the
    /// outcome: on success the session is ready to run over that
    /// connection.
    pub fn accept(self, outcome: Result<(), Error>) -> (r: Result<TcpRx<Ready>, Error>)
        ensures
            r is Ok <==> outcome is Ok,
            r matches Ok(next) ==> next.params == self.params,
            r matches Err(e) ==> outcome == Err::<(), Error>(e),
    {
        match outcome {
            Ok(()) => Ok(TcpRx { params: self.params, state: Ready {} }),
            Err(e) => Err(e),
        }
    }
}

impl TcpRx<Ready> {
    /// Consumes the ready receiver and yields the session's result. The
    /// caller runs the transfer — `params.duration` sequential iterations,
    /// each reading exactly `BUF_SIZE` bytes from the connection — measures
    /// the elapsed wall-clock milliseconds around the whole loop, and
    /// reports both. On success the bandwidth is the total bytes moved
    /// divided by the elapsed milliseconds; on a reported I/O failure the
    /// session aborts with that error and nothing is measured.
    pub fn run(self, io: Result<(), Error>, elapsed_ms: u128) -> (r: Result<Stats, Error>)
        requires
            io is Ok ==> elapsed_ms > 0,
        ensures
            r is Ok <==> io is Ok,
            r matches Ok(stats) ==> {
                &&& stats.bandwidth == Some(
                    (spec_total_bytes(self.params.duration) / elapsed_ms as int) as u128,
                )
                &&& stats.packet_loss is None
            },
            r matches Err(e) ==> io == Err::<(), Error>(e),
    {
        match io {
            Ok(()) => {
                let total = total_bytes(self.params.duration);
                Ok(Stats::new().with_bandwidth(bandwidth_of(total, elapsed_ms)))
            },
            Err(e) => Err(e),
        }
    }
}

/// The transmitting half of a TCP experiment.
pub struct TcpTx<State> {
    pub params: NetExpParams,
    pub state: State,
}

impl TcpTx<Uninit> {
    /// A fresh transmitter for the given experiment parameters.
    pub fn new(params: NetExpParams) -> (r: TcpTx<Uninit>)
        ensures
            r.params == params,
    {
        TcpTx { params, state: Uninit {} }
    }

    /// Consumes the unconnected transmitter. The caller connects a socket
    /// to `params.host:params.port` and reports the outcome: on success the
    /// session is ready to run over that connection.
    pub fn init(self, outcome: Result<(), Error>) -> (r: Result<TcpTx<Ready>, Error>)
        ensures
            r is Ok <==> outcome is Ok,
            r matches Ok(next) ==> next.params == self.params,
            r matches Err(e) ==> outcome == Err::<(), Error>(e),
    {
        match outcome {
            Ok(()) => Ok(TcpTx { params: self.params, state: Ready {} }),
            Err(e) => Err(e),
        }
    }
}

impl TcpTx<Ready> {
    /// Consumes the ready transmitter and yields the session's result. The
    /// caller runs the transfer — `params.duration` sequential iterations,
    /// each writing exactly `BUF_SIZE` bytes to the connection — measures
    /// the elapsed wall-clock milliseconds around the whole loop, and
    /// reports both, exactly as for the receiver.
    pub fn run(self, io: Result<(), Error>, elapsed_ms: u128) -> (r: Result<Stats, Error>)
        requires
            io is Ok ==> elapsed_ms > 0,
        ensures
            r is Ok <==> io is Ok,
            r matches Ok(stats) ==> {
                &&& stats.bandwidth == Some(
                    (spec_total_bytes(self.params.duration) / elapsed_ms as int) as u128,
                )
                &&& stats.packet_loss is None
            },
            r matches Err(e) ==> io == Err::<(), Error>(e),
    {
        match io {
            Ok(()) => {
                let total = total_bytes(self.params.duration);
                Ok(Stats::new().with_bandwidth(bandwidth_of(total, elapsed_ms)))
            },
            Err(e) => Err(e),
        }
    }
}

} // verus!
