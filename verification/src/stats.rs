//! Session results and the bandwidth arithmetic behind them.

use vstd::prelude::*;

verus! {

/// One megabyte.
pub const MB: usize = 1024 * 1024;

/// Bytes moved per TCP transfer iteration: each iteration reads or writes
/// exactly this many bytes, and a session runs `duration` iterations.
pub const BUF_SIZE: usize = 10 * MB;

/// The result of one session.
///
/// Both fields are independently optional: a session type that does not
/// measure a quantity leaves it absent, which means "not measured", not
/// zero.
#[derive(Clone, Copy, Debug, PartialEq, Eq)]
pub struct Stats {
    /// Bytes moved per elapsed millisecond.
    pub bandwidth: Option<u128>,
    /// Reserved: no session type measures packet loss yet.
    pub packet_loss: Option<u8>,
}

impl Stats {
    /// A result with nothing measured.
    pub fn new() -> (r: Stats)
        ensures
            r.bandwidth is None,
            r.packet_loss is None,
    {
        Stats { bandwidth: None, packet_loss: None }
    }

    /// The same result with the bandwidth measurement filled in.
    pub fn with_bandwidth(self, bandwidth: u128) -> (r: Stats)
        ensures
            r.bandwidth == Some(bandwidth),
            r.packet_loss == self.packet_loss,
    {
        Stats { bandwidth: Some(bandwidth), ..self }
    }
}

/// The bytes a whole TCP transfer moves: `duration` iterations of the
/// fixed-size buffer.
pub open spec fn spec_total_bytes(duration: u16) -> int {
    duration * BUF_SIZE
}

/// The bytes a whole TCP transfer moves.
pub fn total_bytes(duration: u16) -> (r: u64)
    ensures
        r == spec_total_bytes(duration),
{
    proof {
        assert(duration * BUF_SIZE <= 0xffff * 0xa00000) by (nonlinear_arith)
            requires
                duration <= 0xffff,
                BUF_SIZE == 0xa00000,
        ;
    }
    (duration as u64) * (BUF_SIZE as u64)
}

/// Bandwidth as bytes per millisecond: the bytes moved divided by the
/// elapsed wall-clock time, rounded down.
pub fn bandwidth_of(total_bytes: u64, elapsed_ms: u128) -> (r: u128)
    requires
        elapsed_ms > 0,
    ensures
        r == total_bytes as int / elapsed_ms as int,
{
    (total_bytes as u128) / elapsed_ms
}

/// A display unit for a bandwidth figure.
#[derive(Clone, Copy, Debug, PartialEq, Eq, Structural)]
pub enum Unit {
    Kbps,
    Mbps,
    Gbps,
}

/// Bits moved per second from bytes moved per millisecond: 8 bits per
/// byte, 1000 milliseconds per second. `None` when the figure does not fit.
pub fn bits_per_second(bytes_per_ms: u128) -> (r: Option<u128>)
    ensures
        bytes_per_ms * 8000 <= u128::MAX ==> r == Some((bytes_per_ms * 8000) as u128),
        bytes_per_ms * 8000 > u128::MAX ==> r is None,
{
    if bytes_per_ms <= u128::MAX / 8000 {
        proof {
            assert(bytes_per_ms <= u128::MAX / 8000 ==> bytes_per_ms * 8000 <= u128::MAX)
                by (nonlinear_arith);
            assert(bytes_per_ms > u128::MAX / 8000 ==> bytes_per_ms * 8000 > u128::MAX)
                by (nonlinear_arith);
        }
        Some(bytes_per_ms * 8000)
    } else {
        proof {
            assert(bytes_per_ms > u128::MAX / 8000 ==> bytes_per_ms * 8000 > u128::MAX)
                by (nonlinear_arith);
        }
        None
    }
}

/// The display unit for a bits-per-second figure: kilobits below 1,000,
/// megabits below 1,000,000, gigabits from there on.
pub fn unit_for(bits_per_second: u128) -> (r: Unit)
    ensures
        bits_per_second < 1000 ==> r == Unit::Kbps,
        1000 <= bits_per_second < 1000000 ==> r == Unit::Mbps,
        bits_per_second >= 1000000 ==> r == Unit::Gbps,
{
    if bits_per_second < 1000 {
        Unit::Kbps
    } else if bits_per_second < 1000000 {
        Unit::Mbps
    } else {
        Unit::Gbps
    }
}

} // verus!
