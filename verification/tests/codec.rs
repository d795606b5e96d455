use bytes::Bytes;

use perfy::codec::DecodeError;
use perfy::netexp::{Host, NetExp, NetExpParams, Side};

fn sample_bytes() -> Vec<u8> {
    vec![
        0, // TCP
        0, // IPv4
        0, 0, 0, 0, 0, 0, 0, 0, 0, 0, 0, 0, 127, 0, 0, 1, // host + padding
        0, 80, // port
        0, // Rx
        0, 4, // parallel
        0, 30, // duration
    ]
}

#[test]
fn test_serialize_and_deserialize_tcp_ipv4_rx() {
    let in_bytes: Bytes = sample_bytes().into();
    let expected = NetExp::Tcp(NetExpParams {
        host: Host::V4(0x7f000001), // 127.0.0.1
        port: 80,
        side: Side::Rx,
        parallel: 4,
        duration: 30,
    });
    let net_exp = NetExp::deserialize(&in_bytes).expect("Failed to deserialize NetExp");
    assert_eq!(net_exp, expected);
    let out_bytes = net_exp.serialize();
    assert_eq!(out_bytes, in_bytes);
}

#[test]
fn test_serialize_and_deserialize_udp_ipv6_tx() {
    let in_bytes: Bytes = vec![
        1, // UDP
        1, // IPv6
        0, 1, 0, 2, 0, 3, 0, 4, 1, 0, 2, 0, 3, 0, 4, 0, // host
        1, 2, // port 258
        1, // Tx
        1, 4, // parallel
        0, 30, // duration
    ]
    .into();
    let expected = NetExp::Udp(NetExpParams {
        host: Host::V6(0x00010002000300040100020003000400), // 1:2:3:4:100:200:300:400
        port: 0x0102,
        side: Side::Tx,
        parallel: 0x0104,
        duration: 30,
    });
    let net_exp = NetExp::deserialize(&in_bytes).expect("Failed to deserialize NetExp");
    assert_eq!(net_exp, expected);
    let out_bytes = net_exp.serialize();
    assert_eq!(out_bytes, in_bytes);
}

#[test]
#[should_panic]
fn test_bad_deserialize_variant() {
    let mut raw = sample_bytes();
    raw[0] = 200; // BAD!!!
    let in_bytes: Bytes = raw.into();
    NetExp::deserialize(&in_bytes).expect("Failed to deserialize NetExp");
}

#[test]
#[should_panic]
fn test_bad_deserialize_proto() {
    let mut raw = sample_bytes();
    raw[1] = 10; // BAD!!!
    let in_bytes: Bytes = raw.into();
    NetExp::deserialize(&in_bytes).expect("Failed to deserialize NetExp");
}

#[test]
#[should_panic]
fn test_bad_deserialize_host() {
    let mut raw = sample_bytes();
    raw.truncate(17); // NOT ENOUGH BYTES
    let in_bytes: Bytes = raw.into();
    NetExp::deserialize(&in_bytes).expect("Failed to deserialize NetExp");
}

#[test]
#[should_panic]
fn test_bad_deserialize_side() {
    let mut raw = sample_bytes();
    raw[20] = 10; // BAD!!!
    let in_bytes: Bytes = raw.into();
    NetExp::deserialize(&in_bytes).expect("Failed to deserialize NetExp");
}

#[test]
fn test_decode_errors_are_exact() {
    let mut raw = sample_bytes();
    raw[0] = 200;
    assert_eq!(
        NetExp::deserialize(&raw),
        Err(DecodeError::InvalidTransportTag)
    );

    let mut raw = sample_bytes();
    raw[1] = 10;
    assert_eq!(
        NetExp::deserialize(&raw),
        Err(DecodeError::InvalidAddressFamilyTag)
    );

    let mut raw = sample_bytes();
    raw[20] = 10;
    assert_eq!(NetExp::deserialize(&raw), Err(DecodeError::InvalidSideTag));

    let mut raw = sample_bytes();
    raw.truncate(24);
    assert_eq!(NetExp::deserialize(&raw), Err(DecodeError::TruncatedInput));

    assert_eq!(
        NetExp::deserialize(&[]),
        Err(DecodeError::TruncatedInput)
    );
}

#[test]
fn test_end_to_end_example() {
    let raw: Vec<u8> = vec![
        0, 0, 0, 0, 0, 0, 0, 0, 0, 0, 0, 0, 0, 0, 127, 0, 0, 1, 0, 80, 0, 0, 4, 0, 30,
    ];
    let decoded = NetExp::deserialize(&raw).expect("literal example must decode");
    assert_eq!(
        decoded,
        NetExp::Tcp(NetExpParams {
            host: Host::V4(0x7f000001),
            port: 80,
            side: Side::Rx,
            parallel: 4,
            duration: 30,
        })
    );
    assert_eq!(decoded.encode(), raw);
}

#[test]
fn test_roundtrip_all_combinations() {
    let hosts = [Host::V4(0xc0a80101), Host::V6(0xfe800000000000000000000000000042)];
    let sides = [Side::Tx, Side::Rx];
    for udp in [false, true] {
        for host in hosts {
            for side in sides {
                let params = NetExpParams {
                    host,
                    port: 5201,
                    side,
                    parallel: 7,
                    duration: 65535,
                };
                let exp = if udp {
                    NetExp::Udp(params)
                } else {
                    NetExp::Tcp(params)
                };
                let wire = exp.encode();
                assert_eq!(wire.len(), 25);
                assert_eq!(NetExp::deserialize(&wire), Ok(exp));
            }
        }
    }
}

#[test]
fn test_decode_ignores_trailing_bytes() {
    let mut raw = sample_bytes();
    raw.resize(1024, 0xaa);
    let decoded = NetExp::deserialize(&raw).expect("long buffer must decode");
    assert_eq!(decoded.encode(), &sample_bytes()[..]);
}

#[test]
fn test_descriptor_inversion() {
    let tx = NetExp::Tcp(NetExpParams {
        host: Host::V4(0x7f000001),
        port: 5201,
        side: Side::Tx,
        parallel: 2,
        duration: 10,
    });
    let for_server = tx.inverted();
    assert_eq!(
        for_server,
        NetExp::Tcp(NetExpParams {
            host: Host::V4(0x7f000001),
            port: 5201,
            side: Side::Rx,
            parallel: 2,
            duration: 10,
        })
    );
    assert_eq!(for_server.inverted(), tx);

    let rx = NetExp::Udp(NetExpParams {
        host: Host::V6(1),
        port: 1,
        side: Side::Rx,
        parallel: 1,
        duration: 1,
    });
    assert_eq!(rx.inverted().params().side, Side::Tx);
    assert_eq!(rx.inverted().params().port, rx.params().port);
}
