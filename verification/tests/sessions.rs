use perfy::error::Error;
use perfy::netexp::tcp::{TcpRx, TcpTx};
use perfy::netexp::udp::{UdpRx, UdpTx};
use perfy::netexp::{Host, NetExpParams, Side};
use perfy::stats::{bandwidth_of, bits_per_second, total_bytes, unit_for, Stats, Unit, BUF_SIZE, MB};

fn params(side: Side, duration: u16) -> NetExpParams {
    NetExpParams {
        host: Host::V4(0x7f000001),
        port: 5201,
        side,
        parallel: 1,
        duration,
    }
}

#[test]
fn test_tcp_rx_lifecycle_and_bandwidth() {
    // duration = 2 moves exactly 2 * BUF_SIZE bytes
    let rx = TcpRx::new(params(Side::Rx, 2));
    let rx = rx.bind(Ok(())).unwrap();
    let rx = rx.accept(Ok(())).unwrap();
    let stats = rx.run(Ok(()), 1000).unwrap();
    let expected = (2 * BUF_SIZE as u128) / 1000;
    assert_eq!(stats.bandwidth, Some(expected));
    assert!(stats.bandwidth.unwrap() > 0);
    assert_eq!(stats.packet_loss, None);
}

#[test]
fn test_tcp_tx_lifecycle_and_bandwidth() {
    let tx = TcpTx::new(params(Side::Tx, 2));
    let tx = tx.init(Ok(())).unwrap();
    let stats = tx.run(Ok(()), 500).unwrap();
    assert_eq!(stats.bandwidth, Some((2 * BUF_SIZE as u128) / 500));
    assert_eq!(stats.packet_loss, None);
}

#[test]
fn test_tcp_rx_bind_failure_aborts() {
    let rx = TcpRx::new(params(Side::Rx, 2));
    let err = rx.bind(Err(Error::new("address in use"))).err().unwrap();
    assert_eq!(err.message, "address in use");
}

#[test]
fn test_tcp_tx_run_failure_aborts() {
    let tx = TcpTx::new(params(Side::Tx, 2));
    let tx = tx.init(Ok(())).unwrap();
    let err = tx.run(Err(Error::new("connection reset")), 1).err().unwrap();
    assert_eq!(err.message, "connection reset");
}

#[test]
fn test_udp_lifecycles_measure_nothing() {
    let rx = UdpRx::new(params(Side::Rx, 2));
    let rx = rx.bind(Ok(())).unwrap();
    let stats = rx.run(Ok(())).unwrap();
    assert_eq!(stats, Stats::new());

    let tx = UdpTx::new(params(Side::Tx, 2));
    let tx = tx.init(Ok(())).unwrap();
    let stats = tx.run(Ok(())).unwrap();
    assert_eq!(stats.bandwidth, None);
    assert_eq!(stats.packet_loss, None);
}

#[test]
fn test_udp_bind_failure_aborts() {
    let rx = UdpRx::new(params(Side::Rx, 2));
    let err = rx.bind(Err(Error::new("permission denied"))).err().unwrap();
    assert_eq!(err.message, "permission denied");
}

#[test]
fn test_total_bytes_and_bandwidth_arithmetic() {
    assert_eq!(BUF_SIZE, 10 * MB);
    assert_eq!(total_bytes(0), 0);
    assert_eq!(total_bytes(1), BUF_SIZE as u64);
    assert_eq!(total_bytes(65535), 65535 * BUF_SIZE as u64);
    // 20 MiB in 2000 ms is 10485 bytes per millisecond, rounded down
    assert_eq!(bandwidth_of(total_bytes(2), 2000), 10485);
    assert_eq!(bandwidth_of(0, 5), 0);
}

#[test]
fn test_stats_builders() {
    let s = Stats::new();
    assert_eq!(s.bandwidth, None);
    assert_eq!(s.packet_loss, None);
    let s = s.with_bandwidth(42);
    assert_eq!(s.bandwidth, Some(42));
    assert_eq!(s.packet_loss, None);
}

#[test]
fn test_display_unit_thresholds() {
    assert_eq!(bits_per_second(1), Some(8000));
    assert_eq!(bits_per_second(0), Some(0));
    assert_eq!(bits_per_second(u128::MAX), None);
    assert_eq!(unit_for(0), Unit::Kbps);
    assert_eq!(unit_for(999), Unit::Kbps);
    assert_eq!(unit_for(1000), Unit::Mbps);
    assert_eq!(unit_for(999999), Unit::Mbps);
    assert_eq!(unit_for(1000000), Unit::Gbps);
}
