use gistit::codec::{decode, encode};
use gistit::error::Error;
use gistit::message::{Gistit, Instruction, ServerResponse};

fn sample_payload() -> Gistit {
    Gistit { hash: "h".to_string(), content: vec![1, 2, 3] }
}

fn sample_status() -> Instruction {
    Instruction::Response(ServerResponse::Status {
        peer_id: "peer".to_string(),
        peer_count: 3,
        pending_connections: 7,
        listeners: vec!["/ip4/127.0.0.1".to_string(), "\u{e9}".to_string()],
        hosting: 9,
    })
}

fn every_variant() -> Vec<Instruction> {
    vec![
        Instruction::Provide { hash: "p".to_string(), data: sample_payload() },
        Instruction::Fetch { hash: "f".to_string() },
        Instruction::Status,
        Instruction::Shutdown,
        Instruction::Response(ServerResponse::Provide(None)),
        Instruction::Response(ServerResponse::Provide(Some("id".to_string()))),
        Instruction::Response(ServerResponse::Fetch(sample_payload())),
        sample_status(),
    ]
}

#[test]
fn fetch_layout_is_tag_length_text() {
    let bytes = encode(&Instruction::Fetch { hash: "abc123".to_string() });
    assert_eq!(
        bytes,
        vec![1, 0, 0, 0, 6, 0, 0, 0, 0, 0, 0, 0, b'a', b'b', b'c', b'1', b'2', b'3']
    );
}

#[test]
fn unit_variants_are_their_index() {
    assert_eq!(encode(&Instruction::Status), vec![2, 0, 0, 0]);
    assert_eq!(encode(&Instruction::Shutdown), vec![3, 0, 0, 0]);
}

#[test]
fn provide_layout_is_hash_then_payload() {
    let bytes = encode(&Instruction::Provide {
        hash: "p".to_string(),
        data: Gistit { hash: "h".to_string(), content: vec![9, 8] },
    });
    let mut expected = vec![0u8, 0, 0, 0];
    expected.extend_from_slice(&[1, 0, 0, 0, 0, 0, 0, 0, b'p']);
    expected.extend_from_slice(&[1, 0, 0, 0, 0, 0, 0, 0, b'h']);
    expected.extend_from_slice(&[2, 0, 0, 0, 0, 0, 0, 0, 9, 8]);
    assert_eq!(bytes, expected);
}

#[test]
fn response_provide_layout_has_option_byte() {
    assert_eq!(
        encode(&Instruction::Response(ServerResponse::Provide(None))),
        vec![4, 0, 0, 0, 0, 0, 0, 0, 0]
    );
    assert_eq!(
        encode(&Instruction::Response(ServerResponse::Provide(Some("x".to_string())))),
        vec![4, 0, 0, 0, 0, 0, 0, 0, 1, 1, 0, 0, 0, 0, 0, 0, 0, b'x']
    );
}

#[test]
fn status_layout_is_fields_in_order() {
    let bytes = encode(&Instruction::Response(ServerResponse::Status {
        peer_id: "id".to_string(),
        peer_count: 0x0102,
        pending_connections: 5,
        listeners: vec!["a".to_string()],
        hosting: 1,
    }));
    let mut expected = vec![4u8, 0, 0, 0, 2, 0, 0, 0];
    expected.extend_from_slice(&[2, 0, 0, 0, 0, 0, 0, 0, b'i', b'd']);
    expected.extend_from_slice(&[2, 1, 0, 0, 0, 0, 0, 0]);
    expected.extend_from_slice(&[5, 0, 0, 0]);
    expected.extend_from_slice(&[1, 0, 0, 0, 0, 0, 0, 0]);
    expected.extend_from_slice(&[1, 0, 0, 0, 0, 0, 0, 0, b'a']);
    expected.extend_from_slice(&[1, 0, 0, 0, 0, 0, 0, 0]);
    assert_eq!(bytes, expected);
}

#[test]
fn layout_matches_bincode_on_every_variant() {
    let payload = sample_payload();
    let expected: Vec<Vec<u8>> = vec![
        bincode::serialize(&(0u32, "p", &payload.hash, &payload.content)).unwrap(),
        bincode::serialize(&(1u32, "f")).unwrap(),
        bincode::serialize(&2u32).unwrap(),
        bincode::serialize(&3u32).unwrap(),
        bincode::serialize(&(4u32, 0u32, None::<String>)).unwrap(),
        bincode::serialize(&(4u32, 0u32, Some("id"))).unwrap(),
        bincode::serialize(&(4u32, 1u32, &payload.hash, &payload.content)).unwrap(),
        bincode::serialize(&(
            4u32,
            2u32,
            "peer",
            3usize,
            7u32,
            vec!["/ip4/127.0.0.1", "\u{e9}"],
            9usize,
        ))
        .unwrap(),
    ];
    let all = every_variant();
    assert_eq!(all.len(), expected.len());
    for (instruction, bytes) in all.iter().zip(expected.iter()) {
        assert_eq!(&encode(instruction), bytes);
    }
}

#[test]
fn decode_reads_back_every_variant() {
    for instruction in every_variant() {
        let bytes = encode(&instruction);
        assert_eq!(decode(&bytes).unwrap(), instruction);
    }
}

#[test]
fn decode_refuses_bytes_behind_the_message() {
    let whole = encode(&Instruction::Fetch { hash: "abc".to_string() });
    for extra in [&[0u8][..], &[0xff, 0xfe, 0xfd], &[0; 64]] {
        let mut bytes = whole.clone();
        bytes.extend_from_slice(extra);
        assert!(matches!(decode(&bytes), Err(Error::Decode)));
    }
    assert!(matches!(decode(&[2, 0, 0, 0, 0]), Err(Error::Decode)));
    assert!(matches!(decode(&[3, 0, 0, 0, 2, 0, 0, 0]), Err(Error::Decode)));
    assert_eq!(decode(&whole).unwrap(), Instruction::Fetch { hash: "abc".to_string() });
}

#[test]
fn decode_refuses_every_cut_of_a_message() {
    let bytes = encode(&sample_status());
    for cut in 0..bytes.len() {
        assert!(matches!(decode(&bytes[..cut]), Err(Error::Decode)), "cut at {}", cut);
    }
}

#[test]
fn decode_refuses_empty_input() {
    assert!(matches!(decode(&[]), Err(Error::Decode)));
}

#[test]
fn decode_refuses_unknown_variant() {
    assert!(matches!(decode(&[5, 0, 0, 0]), Err(Error::Decode)));
    assert!(matches!(decode(&[0, 1, 0, 0]), Err(Error::Decode)));
    assert!(matches!(decode(&[4, 0, 0, 0, 3, 0, 0, 0]), Err(Error::Decode)));
}

#[test]
fn decode_refuses_text_that_is_not_utf8() {
    let bytes = vec![1, 0, 0, 0, 2, 0, 0, 0, 0, 0, 0, 0, 0xc3, 0x28];
    assert!(matches!(decode(&bytes), Err(Error::Decode)));
}

#[test]
fn decode_refuses_length_past_the_end() {
    let bytes = vec![1, 0, 0, 0, 4, 0, 0, 0, 0, 0, 0, 0, b'a', b'b', b'c'];
    assert!(matches!(decode(&bytes), Err(Error::Decode)));
    let huge = vec![1, 0, 0, 0, 0xff, 0xff, 0xff, 0xff, 0xff, 0xff, 0xff, 0xff, b'a'];
    assert!(matches!(decode(&huge), Err(Error::Decode)));
}

#[test]
fn decode_refuses_option_byte_other_than_zero_and_one() {
    assert!(matches!(decode(&[4, 0, 0, 0, 0, 0, 0, 0, 2]), Err(Error::Decode)));
}

#[test]
fn long_list_reads_back() {
    let listeners: Vec<String> = (0..8000).map(|i| format!("/ip4/10.0.0.{}", i)).collect();
    let instruction = Instruction::Response(ServerResponse::Status {
        peer_id: "peer".to_string(),
        peer_count: 1,
        pending_connections: 0,
        listeners,
        hosting: 0,
    });
    let datagram = encode(&instruction);
    assert!(datagram.len() > 60_000);
    assert_eq!(decode(&datagram).unwrap(), instruction);
    assert!(matches!(decode(&datagram[..60_000]), Err(Error::Decode)));
}
