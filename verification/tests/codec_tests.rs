use zenoh_ffi::attachment::{encode_attachments, ZenohAttachmentItem};
use zenoh_ffi::encoding::{encoding_to_id, id_to_encoding, ZenohEncodingId};
use zenoh_ffi::hex::hex_of_bytes;

#[test]
fn known_encoding_texts_round_trip() {
    let ids = [
        ZenohEncodingId::Empty,
        ZenohEncodingId::AppOctetStream,
        ZenohEncodingId::TextPlain,
        ZenohEncodingId::AppJson,
        ZenohEncodingId::TextJson,
        ZenohEncodingId::AppCbor,
        ZenohEncodingId::AppYaml,
        ZenohEncodingId::TextYaml,
        ZenohEncodingId::TextXml,
        ZenohEncodingId::AppXml,
        ZenohEncodingId::TextCsv,
        ZenohEncodingId::AppProtobuf,
        ZenohEncodingId::TextHtml,
    ];
    for id in ids {
        assert_eq!(encoding_to_id(id_to_encoding(id)), id);
    }
}

#[test]
fn unrecognized_encoding_falls_back_to_octet_stream() {
    assert_eq!(
        encoding_to_id("application/x-madeup"),
        ZenohEncodingId::AppOctetStream
    );
    assert_eq!(encoding_to_id("video/h264"), ZenohEncodingId::AppOctetStream);
    // the fallback is stable: its own text maps back to itself
    let fallback_text = id_to_encoding(ZenohEncodingId::AppOctetStream);
    assert_eq!(encoding_to_id(fallback_text), ZenohEncodingId::AppOctetStream);
}

#[test]
fn empty_encoding_text_is_the_empty_identifier() {
    assert_eq!(encoding_to_id(""), ZenohEncodingId::Empty);
    assert_eq!(id_to_encoding(ZenohEncodingId::Empty), "");
}

#[test]
fn encoding_codes_are_stable() {
    assert_eq!(ZenohEncodingId::Empty.code(), 0);
    assert_eq!(ZenohEncodingId::AppOctetStream.code(), 1);
    assert_eq!(ZenohEncodingId::TextPlain.code(), 2);
    assert_eq!(ZenohEncodingId::AppJson.code(), 3);
    assert_eq!(ZenohEncodingId::TextJson.code(), 4);
    assert_eq!(ZenohEncodingId::AppCbor.code(), 5);
    assert_eq!(ZenohEncodingId::AppYaml.code(), 6);
    assert_eq!(ZenohEncodingId::TextYaml.code(), 7);
    assert_eq!(ZenohEncodingId::TextXml.code(), 8);
    assert_eq!(ZenohEncodingId::AppXml.code(), 9);
    assert_eq!(ZenohEncodingId::TextCsv.code(), 10);
    assert_eq!(ZenohEncodingId::AppProtobuf.code(), 11);
    assert_eq!(ZenohEncodingId::TextHtml.code(), 12);
}

#[test]
fn encoding_from_code_inverts_code() {
    for c in 0u32..=12 {
        let id = ZenohEncodingId::from_code(c).unwrap();
        assert_eq!(id.code(), c);
    }
    assert!(ZenohEncodingId::from_code(13).is_none());
    assert!(ZenohEncodingId::from_code(255).is_none());
}

#[test]
fn hex_of_empty_is_empty() {
    assert_eq!(hex_of_bytes(&[]), Vec::<u8>::new());
}

#[test]
fn hex_renders_two_lowercase_digits_per_byte() {
    assert_eq!(hex_of_bytes(&[0x00, 0xff, 0x10]), b"00ff10".to_vec());
    assert_eq!(hex_of_bytes(&[0xab, 0xcd, 0xef]), b"abcdef".to_vec());
}

#[test]
fn hex_renders_a_full_session_identifier() {
    let zid: [u8; 16] = [
        0x01, 0x23, 0x45, 0x67, 0x89, 0xab, 0xcd, 0xef, 0x00, 0x11, 0x22, 0x33, 0x44, 0x55, 0x66,
        0x77,
    ];
    assert_eq!(
        hex_of_bytes(&zid),
        b"0123456789abcdef0011223344556677".to_vec()
    );
}

#[test]
fn attachment_frame_is_length_prefixed_key_then_value() {
    let items = vec![ZenohAttachmentItem {
        key: Some(b"k1".to_vec()),
        value: vec![1, 2, 3],
    }];
    let framed = encode_attachments(&items).unwrap();
    assert_eq!(
        framed,
        vec![2, 0, 0, 0, b'k', b'1', 3, 0, 0, 0, 1, 2, 3]
    );
}

#[test]
fn attachment_frames_concatenate_in_order() {
    let items = vec![
        ZenohAttachmentItem {
            key: Some(b"a".to_vec()),
            value: b"x".to_vec(),
        },
        ZenohAttachmentItem {
            key: Some(b"b".to_vec()),
            value: Vec::new(),
        },
    ];
    let framed = encode_attachments(&items).unwrap();
    assert_eq!(
        framed,
        vec![1, 0, 0, 0, b'a', 1, 0, 0, 0, b'x', 1, 0, 0, 0, b'b', 0, 0, 0, 0]
    );
}

#[test]
fn malformed_attachment_entries_are_skipped_not_fatal() {
    let items = vec![
        ZenohAttachmentItem {
            key: None,
            value: vec![9, 9],
        },
        ZenohAttachmentItem {
            key: Some(vec![0xff, 0xfe]),
            value: vec![1],
        },
        ZenohAttachmentItem {
            key: Some(b"ok".to_vec()),
            value: vec![7],
        },
    ];
    let framed = encode_attachments(&items).unwrap();
    assert_eq!(framed, vec![2, 0, 0, 0, b'o', b'k', 1, 0, 0, 0, 7]);
}

#[test]
fn attachment_with_no_surviving_entries_is_none() {
    assert!(encode_attachments(&Vec::new()).is_none());
    let items = vec![
        ZenohAttachmentItem {
            key: None,
            value: vec![1],
        },
        ZenohAttachmentItem {
            key: Some(vec![0x80]),
            value: vec![2],
        },
    ];
    assert!(encode_attachments(&items).is_none());
}
