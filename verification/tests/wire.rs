use workflow_rpc::error::Error;
use workflow_rpc::message::{
    to_ws_msg, Message, ReqHeader, ReqMessage, RespHeader, RespMessage, REQ_HEADER_SIZE,
    RESP_HEADER_SIZE,
};

#[test]
fn header_sizes_are_twelve_bytes() {
    assert_eq!(REQ_HEADER_SIZE, 12);
    assert_eq!(RESP_HEADER_SIZE, 12);
}

#[test]
fn request_frame_layout_is_little_endian() {
    let frame = to_ws_msg((
        ReqHeader { id: 0x0102030405060708, op: 0x0a0b0c0d },
        Message::Request(&[0xaa, 0xbb]),
    ));
    assert_eq!(
        frame,
        vec![0x08, 0x07, 0x06, 0x05, 0x04, 0x03, 0x02, 0x01, 0x0d, 0x0c, 0x0b, 0x0a, 0xaa, 0xbb]
    );
}

#[test]
fn response_frame_layout_is_little_endian() {
    let frame = RespMessage::new(1, 0x01000000, &[9, 8, 7]).try_to_vec().unwrap();
    assert_eq!(frame, vec![1, 0, 0, 0, 0, 0, 0, 0, 0, 0, 0, 1, 9, 8, 7]);
}

#[test]
fn post_and_request_are_framed_alike() {
    let header = ReqHeader { id: 77, op: 3 };
    let as_request = to_ws_msg((header, Message::Request(b"payload")));
    let as_post = to_ws_msg((header, Message::Post(b"payload")));
    assert_eq!(as_request, as_post);
    assert_eq!(Message::Post(b"xy").data(), b"xy");
    assert_eq!(Message::Request(b"").data(), b"");
}

#[test]
fn frame_length_is_header_plus_payload() {
    for len in [0usize, 1, 11, 12, 13, 255, 4096] {
        let payload = vec![0x5a; len];
        let frame = to_ws_msg((ReqHeader { id: 1, op: 2 }, Message::Request(&payload)));
        assert_eq!(frame.len(), 12 + len);
        let frame = RespMessage::new(1, 2, &payload).try_to_vec().unwrap();
        assert_eq!(frame.len(), 12 + len);
    }
}

#[test]
fn short_frame_is_too_small() {
    for len in 0..12usize {
        let frame = vec![0xffu8; len];
        assert_eq!(ReqMessage::try_from(&frame).unwrap_err(), Error::FrameTooSmall);
        assert_eq!(RespMessage::try_from(&frame).unwrap_err(), Error::FrameTooSmall);
    }
}

#[test]
fn header_alone_decodes_to_empty_payload() {
    let frame = [0x10, 0, 0, 0, 0, 0, 0, 0x20, 0x30, 0, 0, 0x40];
    let req = ReqMessage::try_from(&frame).unwrap();
    assert_eq!(req.id, 0x2000000000000010);
    assert_eq!(req.op, 0x40000030);
    assert!(req.data.is_empty());
    let resp = RespMessage::try_from(&frame).unwrap();
    assert_eq!(resp.id, 0x2000000000000010);
    assert_eq!(resp.status, 0x40000030);
    assert!(resp.data.is_empty());
}

#[test]
fn request_round_trip() {
    let cases: [(u64, u32, &[u8]); 5] = [
        (0, 0, b""),
        (1, 1, b"a"),
        (u64::MAX, u32::MAX, b"\x00\xff\x00\xff"),
        (0x8000000000000000, 0x80000000, b"hello world"),
        (0x00ff00ff00ff00ff, 0xff00ff00, &[0u8; 64]),
    ];
    for (id, op, payload) in cases {
        let frame = to_ws_msg((ReqHeader { id, op }, Message::Request(payload)));
        let back = ReqMessage::try_from(&frame).unwrap();
        assert_eq!(back.id, id);
        assert_eq!(back.op, op);
        assert_eq!(back.data, payload);
    }
}

#[test]
fn response_round_trip() {
    let cases: [(u64, u32, &[u8]); 4] = [
        (0, 0, b""),
        (42, 1, b"error bytes"),
        (u64::MAX, u32::MAX, b"\x01"),
        (0x0123456789abcdef, 0xfedcba98, &[7u8; 300]),
    ];
    for (id, status, payload) in cases {
        let frame = RespMessage::new(id, status, payload).try_to_vec().unwrap();
        let back = RespMessage::try_from(&frame).unwrap();
        assert_eq!(back.id, id);
        assert_eq!(back.status, status);
        assert_eq!(back.data, payload);
    }
}

#[test]
fn decoding_then_encoding_gives_the_frame_back() {
    let frame: Vec<u8> = (0u8..40).collect();
    let resp = RespMessage::try_from(&frame).unwrap();
    assert_eq!(RespMessage::new(resp.id, resp.status, resp.data).try_to_vec().unwrap(), frame);
    let req = ReqMessage::try_from(&frame).unwrap();
    let again = to_ws_msg((ReqHeader { id: req.id, op: req.op }, Message::Request(req.data)));
    assert_eq!(again, frame);
}

#[test]
fn request_and_response_share_one_layout() {
    let request = to_ws_msg((ReqHeader { id: 5, op: 1 }, Message::Request(b"abc")));
    let response = RespMessage::new(5, 1, b"abc").try_to_vec().unwrap();
    assert_eq!(request, response);
}

#[test]
fn headers_compare_by_their_fields() {
    assert_eq!(ReqHeader { id: 1, op: 2 }, ReqHeader { id: 1, op: 2 });
    assert_ne!(ReqHeader { id: 1, op: 2 }, ReqHeader { id: 1, op: 3 });
    assert_eq!(RespHeader { id: 9, status: 0 }, RespHeader { id: 9, status: 0 });
    assert_ne!(RespHeader { id: 9, status: 0 }, RespHeader { id: 8, status: 0 });
}
