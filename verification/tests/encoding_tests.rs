use im_online::heartbeat::Heartbeat;
use im_online::offchain::worker_status_bytes;
use parity_scale_codec::{Compact, Encode};

#[test]
fn heartbeat_encoding_is_canonical() {
    let heartbeat = Heartbeat {
        block_number: 1,
        network_state: vec![9, 9],
        session_index: 2,
        authority_index: 3,
    };
    let expected: Vec<u8> = vec![
        1, 0, 0, 0, // block number, little-endian
        8, // compact length of the snapshot (2 << 2)
        9, 9, // the snapshot bytes
        2, 0, 0, 0, // session index
        3, 0, 0, 0, // authority index
    ];
    assert_eq!(heartbeat.encode(), expected);
}

#[test]
fn heartbeat_encoding_matches_scale_field_order() {
    // The canonical encoding must agree with SCALE encoding the fields in
    // declaration order.
    let network_state: Vec<u8> = (0u8..100).collect();
    let heartbeat = Heartbeat {
        block_number: 0xaabbccdd,
        network_state: network_state.clone(),
        session_index: 41,
        authority_index: 7,
    };
    let reference = (0xaabbccddu32, network_state, 41u32, 7u32).encode();
    assert_eq!(heartbeat.encode(), reference);
}

#[test]
fn heartbeat_encoding_empty_snapshot() {
    let heartbeat = Heartbeat {
        block_number: 0,
        network_state: Vec::new(),
        session_index: 0,
        authority_index: 0,
    };
    assert_eq!(
        heartbeat.encode(),
        vec![0, 0, 0, 0, 0, 0, 0, 0, 0, 0, 0, 0, 0]
    );
}

#[test]
fn compact_length_two_byte_form() {
    // A 64-byte snapshot needs the two-byte compact form for its length.
    let network_state: Vec<u8> = vec![5; 64];
    let heartbeat = Heartbeat {
        block_number: 1,
        network_state: network_state.clone(),
        session_index: 1,
        authority_index: 1,
    };
    let mut expected = 1u32.encode();
    expected.extend(Compact(64u32).encode());
    expected.extend(&network_state);
    expected.extend(1u32.encode());
    expected.extend(1u32.encode());
    assert_eq!(heartbeat.encode(), expected);
}

#[test]
fn worker_status_encoding_is_scale() {
    assert_eq!(worker_status_bytes(true, 5), vec![1, 5, 0, 0, 0]);
    assert_eq!(worker_status_bytes(false, 0x01020304), vec![0, 4, 3, 2, 1]);
    // And it agrees with SCALE encoding the fields in order.
    assert_eq!(worker_status_bytes(true, 99), (true, 99u32).encode());
}
