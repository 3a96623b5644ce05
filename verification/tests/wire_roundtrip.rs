//! The wire layer: varints, fields, messages and the outer frame each
//! decode back to what was encoded, and refuse trailing or missing bytes.

use acfun_danmaku::codec::{encode_frame, split_frame};
use acfun_danmaku::crypto::{decrypt_body, encrypt_body};
use acfun_danmaku::errors::Error;
use acfun_danmaku::messages::{
    dec_b, dec_bb, dec_v, dec_vb, dec_vv, enc_b, enc_bb, enc_v, enc_vb, enc_vv, EncryptionMode,
    PacketHeader, TokenInfo, DownstreamPayload, UpstreamPayload, ZtLiveCsCmd,
};
use acfun_danmaku::shapes::{write_field_bytes, write_field_varint};
use acfun_danmaku::wire::{read_varint, write_varint};

#[test]
fn varint_roundtrip() {
    for x in [0u64, 1, 127, 128, 300, 0xffff, 0xffff_ffff, u64::MAX] {
        let mut buf = Vec::new();
        write_varint(&mut buf, x);
        let (v, p) = read_varint(&buf, 0).unwrap();
        assert_eq!(v, x);
        assert_eq!(p, buf.len());
    }
}

#[test]
fn varint_of_zero_is_one_byte() {
    let mut buf = Vec::new();
    write_varint(&mut buf, 0);
    assert_eq!(buf, vec![0u8]);
}

#[test]
fn shape_roundtrips() {
    assert_eq!(dec_v(&enc_v(42)).unwrap(), 42);
    assert_eq!(dec_vv(&enc_vv(1, 2)).unwrap(), (1, 2));
    assert_eq!(dec_b(&enc_b(b"abc")).unwrap(), b"abc");
    let (x, y) = dec_bb(&enc_bb(b"ab", b"cd")).unwrap();
    assert_eq!((x.as_slice(), y.as_slice()), (b"ab".as_slice(), b"cd".as_slice()));
    let (v, b) = dec_vb(&enc_vb(7, b"zz")).unwrap();
    assert_eq!((v, b.as_slice()), (7, b"zz".as_slice()));
}

#[test]
fn shape_decode_rejects_malformed_fields() {
    // a trailing zero byte is a tag with field number zero: malformed
    let mut e = enc_v(42);
    e.push(0);
    assert!(dec_v(&e).is_none());
    // a truncated field is malformed too
    assert!(dec_v(&[0x08]).is_none());
}

#[test]
fn omitted_fields_read_as_defaults() {
    // an empty message leaves every field at its default
    assert_eq!(dec_v(&[]), Some(0));
    let (v, b) = dec_vb(&[]).unwrap();
    assert_eq!(v, 0);
    assert_eq!(b, Vec::<u8>::new());
    // a message holding only its second field defaults the first
    let mut only_second = Vec::new();
    write_field_bytes(&mut only_second, 2, b"tail");
    let (v, b) = dec_vb(&only_second).unwrap();
    assert_eq!(v, 0);
    assert_eq!(b, b"tail");
}

#[test]
fn unknown_fields_are_skipped() {
    let mut e = Vec::new();
    write_field_varint(&mut e, 9, 77);
    write_field_bytes(&mut e, 10, b"future");
    write_field_varint(&mut e, 1, 42);
    // an unknown fixed-width field is skipped by its wire type
    e.push(9 * 8 + 1);
    e.extend_from_slice(&[0u8; 8]);
    e.push(9 * 8 + 5);
    e.extend_from_slice(&[0u8; 4]);
    assert_eq!(dec_v(&e), Some(42));
}

#[test]
fn fields_decode_in_any_order_and_last_wins() {
    let mut e = Vec::new();
    write_field_bytes(&mut e, 2, b"first");
    write_field_varint(&mut e, 1, 5);
    write_field_bytes(&mut e, 2, b"second");
    let (v, b) = dec_vb(&e).unwrap();
    assert_eq!(v, 5);
    assert_eq!(b, b"second");
}

#[test]
fn wrong_wire_type_on_known_field_is_refused() {
    // field 1 of the single-varint layout arriving as bytes
    let mut e = Vec::new();
    write_field_bytes(&mut e, 1, b"not a varint");
    assert!(dec_v(&e).is_none());
}

#[test]
fn packet_header_roundtrip() {
    let header = PacketHeader {
        app_id: 9,
        uid: 42,
        instance_id: 1234,
        encryption_mode: EncryptionMode::ServiceToken,
        seq_id: 5,
        kpn: b"ACFUN_APP".to_vec(),
        decoded_payload_len: 77,
        token_info: Some(TokenInfo { token_type: 1, token: b"ST".to_vec() }),
    };
    let decoded = PacketHeader::decode(&header.encode()).unwrap();
    assert_eq!(decoded, header);

    let bare = PacketHeader { token_info: None, encryption_mode: EncryptionMode::SessionKey, ..header };
    assert_eq!(PacketHeader::decode(&bare.encode()).unwrap(), bare);
}

#[test]
fn payload_roundtrips() {
    let up = UpstreamPayload {
        command: b"Basic.Register".to_vec(),
        seq_id: 1,
        retry_count: 1,
        sub_biz: b"mainApp".to_vec(),
        payload_data: vec![1, 2, 3],
    };
    assert_eq!(UpstreamPayload::decode(&up.encode()).unwrap(), up);

    let down = DownstreamPayload {
        command: b"Basic.Register".to_vec(),
        seq_id: 1,
        payload_data: vec![9, 9],
        error_code: 0,
        error_msg: Vec::new(),
    };
    assert_eq!(DownstreamPayload::decode(&down.encode()).unwrap(), down);

    let cmd = ZtLiveCsCmd {
        cmd_type: b"ZtLiveCsEnterRoom".to_vec(),
        ticket: b"T0".to_vec(),
        live_id: b"L1".to_vec(),
        payload: vec![4, 5],
    };
    assert_eq!(ZtLiveCsCmd::decode(&cmd.encode()).unwrap(), cmd);
}

#[test]
fn frame_roundtrip_all_modes() {
    // frame round trip for every header mode and a spread of body lengths
    let key = b"16-byte-key-xxxx";
    for mode in [EncryptionMode::NoEncryption, EncryptionMode::ServiceToken, EncryptionMode::SessionKey] {
        for n in [0usize, 1, 15, 16, 1024, 65536] {
            let plaintext = vec![0x5au8; n];
            let body = match mode {
                EncryptionMode::NoEncryption => plaintext.clone(),
                _ => encrypt_body(key, &plaintext).unwrap(),
            };
            let header = PacketHeader {
                app_id: 1,
                uid: 42,
                instance_id: 7,
                encryption_mode: mode,
                seq_id: 3,
                kpn: b"ACFUN_APP".to_vec(),
                decoded_payload_len: n as u32,
                token_info: None,
            };
            let frame = encode_frame(&header.encode(), &body).unwrap();
            let (hb, fb) = split_frame(&frame).unwrap();
            let decoded = PacketHeader::decode(&hb).unwrap();
            assert_eq!(decoded, header);
            assert_eq!(decoded.decoded_payload_len as usize, n);
            let recovered = match mode {
                EncryptionMode::NoEncryption => fb,
                _ => decrypt_body(key, &fb).unwrap(),
            };
            assert_eq!(recovered, plaintext);
        }
    }
}

#[test]
fn frame_magic_and_lengths() {
    let frame = encode_frame(b"HH", b"BBB").unwrap();
    assert_eq!(&frame[..4], &[0xab, 0xcd, 0x00, 0x01]);
    assert_eq!(&frame[4..8], &[0, 0, 0, 2]);
    assert_eq!(&frame[8..12], &[0, 0, 0, 3]);
    assert_eq!(&frame[12..14], b"HH");
    assert_eq!(&frame[14..], b"BBB");
}

#[test]
fn split_frame_rejects_bad_lengths() {
    assert_eq!(split_frame(&[0u8; 11]).unwrap_err(), Error::FrameTooShort);
    let mut frame = encode_frame(b"HH", b"BBB").unwrap();
    frame.push(0);
    assert_eq!(split_frame(&frame).unwrap_err(), Error::FrameTooShort);
    frame.pop();
    frame.pop();
    assert_eq!(split_frame(&frame).unwrap_err(), Error::FrameTooShort);
}
