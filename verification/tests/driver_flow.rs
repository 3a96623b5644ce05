//! End-to-end scenarios against a scripted server: the happy path, ticket
//! rotation, live-closed and error-code termination, the invalid token, the
//! gzip push, sequence stepping, the push-ack echo, orderly close, and the
//! heartbeat cadence.

use acfun_danmaku::client::{ClientState, DanmakuClient, DanmakuToken};
use acfun_danmaku::codec::{encode_frame, split_frame, ReceiveMessage, SendMessage};
use acfun_danmaku::crypto::{decrypt_body, encrypt_body};
use acfun_danmaku::errors::Error;
use acfun_danmaku::messages::{
    enc_vb, DownstreamPayload, EncryptionMode, PacketHeader, RegisterResponse, UpstreamPayload,
    ZtLiveCsCmd, ZtLiveCsCmdAck, ZtLiveCsEnterRoomAck, ZtLiveScMessage, ZtLiveScStatusChanged,
};
use acfun_danmaku::shapes::{write_field_bytes, write_field_varint, write_rep_bytes};
use acfun_danmaku::signals::{ActionSignal, Danmaku, StateSignal};
use std::io::Write;

const KEY: &[u8] = b"16-byte-key-xxxx";
const SESS: &[u8] = b"session-key-xxx!";

fn token() -> DanmakuToken {
    DanmakuToken {
        user_id: 42,
        liver_uid: 23,
        security_key: base64::encode(KEY),
        service_token: "ST".to_string(),
        live_id: "L1".to_string(),
        enter_room_attach: "ER".to_string(),
        tickets: vec!["T0".to_string(), "T1".to_string()],
    }
}

fn server_frame(key: &[u8], mode: EncryptionMode, seq: i64, payload: &DownstreamPayload) -> Vec<u8> {
    let pt = payload.encode();
    let body = match mode {
        EncryptionMode::NoEncryption => pt.clone(),
        _ => encrypt_body(key, &pt).unwrap(),
    };
    let header = PacketHeader {
        app_id: 9,
        uid: 42,
        instance_id: 1234,
        encryption_mode: mode,
        seq_id: seq,
        kpn: b"ACFUN_APP".to_vec(),
        decoded_payload_len: pt.len() as u32,
        token_info: None,
    };
    encode_frame(&header.encode(), &body).unwrap()
}

fn downstream(command: &[u8], seq: i64, payload_data: Vec<u8>) -> DownstreamPayload {
    DownstreamPayload {
        command: command.to_vec(),
        seq_id: seq,
        payload_data,
        error_code: 0,
        error_msg: Vec::new(),
    }
}

fn push_frame(seq: i64, message_type: &[u8], compression: i32, inner: Vec<u8>) -> Vec<u8> {
    let sc = ZtLiveScMessage {
        message_type: message_type.to_vec(),
        compression_type: compression,
        payload: inner,
    };
    let payload = downstream(b"Push.ZtLiveInteractive.Message", seq, sc.encode());
    server_frame(SESS, EncryptionMode::SessionKey, seq, &payload)
}

fn parse_outbound(key: &[u8], frame: &[u8]) -> (PacketHeader, UpstreamPayload) {
    let (hb, body) = split_frame(frame).unwrap();
    let header = PacketHeader::decode(&hb).unwrap();
    let pt = decrypt_body(key, &body).unwrap();
    assert_eq!(pt.len(), header.decoded_payload_len as usize);
    (header, UpstreamPayload::decode(&pt).unwrap())
}

fn registered_client() -> DanmakuClient {
    let mut c = DanmakuClient::new(&token(), 0).unwrap();
    assert_eq!(c.start(), SendMessage::RegisterRequest);
    let _register = c.proto.encode_message(SendMessage::RegisterRequest, 0).unwrap();
    let resp = RegisterResponse { instance_id: 1234, sess_key: SESS.to_vec() };
    let payload = downstream(b"Basic.Register", 1, resp.encode());
    let frame = server_frame(KEY, EncryptionMode::ServiceToken, 1, &payload);
    let msg = c.proto.decode_frame(&frame).unwrap().unwrap();
    assert_eq!(msg, ReceiveMessage::RegisterResponse);
    c.on_register_reply(&msg).unwrap();
    assert_eq!(c.pop_outbound(), Some(SendMessage::KeepAliveRequest));
    assert_eq!(c.pop_outbound(), Some(SendMessage::ZtLiveCsEnterRoom));
    assert_eq!(c.pop_outbound(), None);
    c
}

fn comment_envelope(time_ms: u64, content: &[u8]) -> Vec<u8> {
    let mut item = Vec::new();
    write_field_bytes(&mut item, 1, b"CommonActionSignalComment");
    write_rep_bytes(&mut item, 2, &vec![enc_vb(time_ms, content)]);
    let mut env = Vec::new();
    write_field_bytes(&mut env, 1, &item);
    env
}

#[test]
fn visitor_happy_path() {
    let mut c = DanmakuClient::new(&token(), 0).unwrap();
    assert_eq!(c.user_id(), 42);
    assert_eq!(c.liver_uid(), 23);
    assert_eq!(c.live_id(), b"L1");
    assert_eq!(c.start(), SendMessage::RegisterRequest);

    let register = c.proto.encode_message(SendMessage::RegisterRequest, 0).unwrap();
    let (h, up) = parse_outbound(KEY, &register);
    assert_eq!(h.encryption_mode, EncryptionMode::ServiceToken);
    assert_eq!(h.seq_id, 1);
    assert_eq!(h.token_info.unwrap().token, b"ST");
    assert_eq!(up.command, b"Basic.Register");

    let resp = RegisterResponse { instance_id: 1234, sess_key: SESS.to_vec() };
    let frame = server_frame(KEY, EncryptionMode::ServiceToken, 1, &downstream(b"Basic.Register", 1, resp.encode()));
    let msg = c.proto.decode_frame(&frame).unwrap().unwrap();
    assert_eq!(msg, ReceiveMessage::RegisterResponse);
    assert_eq!(c.proto.app_id, 9);
    assert_eq!(c.proto.instance_id, 1234);
    assert_eq!(c.proto.session_key.as_deref(), Some(SESS));
    c.on_register_reply(&msg).unwrap();
    assert_eq!(c.state, ClientState::Registered);
    assert_eq!(c.pop_outbound(), Some(SendMessage::KeepAliveRequest));
    assert_eq!(c.pop_outbound(), Some(SendMessage::ZtLiveCsEnterRoom));

    let ack = ZtLiveCsCmdAck {
        cmd_ack_type: b"ZtLiveCsEnterRoomAck".to_vec(),
        payload: ZtLiveCsEnterRoomAck { heartbeat_interval_ms: 2000 }.encode(),
    };
    let frame = server_frame(SESS, EncryptionMode::SessionKey, 2, &downstream(b"Global.ZtLiveInteractive.CsCmd", 2, ack.encode()));
    let msg = c.proto.decode_frame(&frame).unwrap().unwrap();
    assert_eq!(msg, ReceiveMessage::Interval(2000));
    assert_eq!(c.on_message(msg), None);

    let frame = push_frame(5, b"ZtLiveScActionSignal", 1, comment_envelope(100, b"hi"));
    let msg = c.proto.decode_frame(&frame).unwrap().unwrap();
    let batch = c.on_message(msg).unwrap();
    match batch {
        Danmaku::ActionSignal(v) => {
            assert_eq!(v.len(), 1);
            match &v[0] {
                ActionSignal::Comment(cm) => {
                    assert_eq!(cm.send_time_ms, 100);
                    assert_eq!(cm.content, b"hi");
                },
                other => panic!("expected a comment, got {:?}", other),
            }
        },
        other => panic!("expected an action batch, got {:?}", other),
    }

    // within two seconds a heartbeat frame is written
    c.heartbeat_tick(2000);
    assert_eq!(c.pop_outbound(), Some(SendMessage::ZtLiveCsHeartbeat));
}

#[test]
fn ticket_rotation_reenters_with_next_ticket() {
    let mut c = registered_client();
    let frame = push_frame(6, b"ZtLiveScTicketInvalid", 1, Vec::new());
    let msg = c.proto.decode_frame(&frame).unwrap().unwrap();
    assert_eq!(msg, ReceiveMessage::EnterRoom);
    assert_eq!(c.proto.ticket_index, 1);
    assert_eq!(c.on_message(msg), None);
    // the acknowledgement goes out first, then the enter-room
    assert_eq!(c.pop_outbound(), Some(SendMessage::ZtLiveScMessage));
    assert_eq!(c.pop_outbound(), Some(SendMessage::ZtLiveCsEnterRoom));
    let frame = c.proto.encode_message(SendMessage::ZtLiveCsEnterRoom, 0).unwrap();
    let (_, up) = parse_outbound(SESS, &frame);
    let cmd = ZtLiveCsCmd::decode(&up.payload_data).unwrap();
    assert_eq!(cmd.ticket, b"T1");
    assert_eq!(cmd.live_id, b"L1");
}

#[test]
fn rotation_wraps_modulo_ticket_count() {
    let mut c = registered_client();
    for n in 1..=5u64 {
        let frame = push_frame(6 + n as i64, b"ZtLiveScTicketInvalid", 1, Vec::new());
        c.proto.decode_frame(&frame).unwrap().unwrap();
        assert_eq!(c.proto.ticket_index as u64, n % 2);
    }
}

#[test]
fn live_closed_terminates() {
    let mut c = registered_client();
    let frame = push_frame(7, b"ZtLiveScStatusChanged", 1, ZtLiveScStatusChanged { status_type: 1 }.encode());
    let msg = c.proto.decode_frame(&frame).unwrap().unwrap();
    assert_eq!(msg, ReceiveMessage::PushAndStop);
    assert_eq!(c.on_message(msg), None);
    assert_eq!(c.state, ClientState::Closing);
    // the next three outbound frames, exactly
    assert_eq!(c.pop_outbound(), Some(SendMessage::ZtLiveScMessage));
    assert_eq!(c.pop_outbound(), Some(SendMessage::ZtLiveCsUserExit));
    assert_eq!(c.pop_outbound(), Some(SendMessage::UnregisterRequest));
    assert_eq!(c.pop_outbound(), None);
    c.mark_closed();
    assert!(c.is_terminated());
}

#[test]
fn error_code_10018_stops() {
    let mut c = registered_client();
    let payload = DownstreamPayload {
        command: b"whatever".to_vec(),
        seq_id: 8,
        payload_data: Vec::new(),
        error_code: 10018,
        error_msg: Vec::new(),
    };
    let frame = server_frame(SESS, EncryptionMode::SessionKey, 8, &payload);
    let msg = c.proto.decode_frame(&frame).unwrap().unwrap();
    assert_eq!(msg, ReceiveMessage::Stop);
    assert_eq!(c.on_message(msg), None);
    assert_eq!(c.state, ClientState::Closing);
    assert_eq!(c.pop_outbound(), Some(SendMessage::ZtLiveCsUserExit));
    assert_eq!(c.pop_outbound(), Some(SendMessage::UnregisterRequest));
    assert_eq!(c.pop_outbound(), None);
}

#[test]
fn other_error_codes_are_ignored() {
    let mut c = registered_client();
    let payload = DownstreamPayload {
        command: b"whatever".to_vec(),
        seq_id: 8,
        payload_data: Vec::new(),
        error_code: 500,
        error_msg: b"oops".to_vec(),
    };
    let frame = server_frame(SESS, EncryptionMode::SessionKey, 8, &payload);
    assert_eq!(c.proto.decode_frame(&frame).unwrap(), None);
}

#[test]
fn invalid_token_is_refused() {
    let mut t = token();
    t.tickets = Vec::new();
    assert_eq!(DanmakuClient::new(&t, 0).unwrap_err(), Error::InvalidToken);
}

#[test]
fn token_without_liver_uid_is_refused() {
    let mut t = token();
    t.liver_uid = 0;
    assert_eq!(DanmakuClient::new(&t, 0).unwrap_err(), Error::InvalidToken);
}

#[test]
fn gzip_push_decodes() {
    let mut c = registered_client();
    let record = acfun_danmaku::messages::enc_bb(b"777", b"88");
    let item = acfun_danmaku::messages::enc_bb(b"CommonStateSignalDisplayInfo", &record);
    let mut env = Vec::new();
    write_field_bytes(&mut env, 1, &item);
    let mut enc = flate2::write::GzEncoder::new(Vec::new(), flate2::Compression::default());
    enc.write_all(&env).unwrap();
    let gz = enc.finish().unwrap();
    let frame = push_frame(9, b"ZtLiveScStateSignal", 2, gz);
    let msg = c.proto.decode_frame(&frame).unwrap().unwrap();
    match msg {
        ReceiveMessage::Danmaku(Danmaku::StateSignal(v)) => {
            assert_eq!(v.len(), 1);
            match &v[0] {
                StateSignal::DisplayInfo(d) => {
                    assert_eq!(d.watching_count, b"777");
                    assert_eq!(d.like_count, b"88");
                },
                other => panic!("expected display info, got {:?}", other),
            }
        },
        other => panic!("expected a state batch, got {:?}", other),
    }
}

#[test]
fn sequence_steps_by_one() {
    let mut c = registered_client();
    let mut seqs = Vec::new();
    for kind in [
        SendMessage::ZtLiveCsEnterRoom,
        SendMessage::KeepAliveRequest,
        SendMessage::ZtLiveCsHeartbeat,
        SendMessage::ZtLiveCsUserExit,
    ] {
        let frame = c.proto.encode_message(kind, 123).unwrap();
        let (h, up) = parse_outbound(SESS, &frame);
        assert_eq!(h.seq_id, up.seq_id);
        seqs.push(h.seq_id);
    }
    // the register frame used sequence 1; these continue from 2
    assert_eq!(seqs, vec![2, 3, 4, 5]);
}

#[test]
fn push_ack_echoes_inbound_sequence() {
    let mut c = registered_client();
    let frame = push_frame(4242, b"ZtLiveScActionSignal", 1, comment_envelope(1, b"x"));
    c.proto.decode_frame(&frame).unwrap().unwrap();
    assert_eq!(c.proto.header_seq_id, 4242);
    let before = c.proto.seq_id;
    let ack = c.proto.encode_message(SendMessage::ZtLiveScMessage, 0).unwrap();
    let (h, _) = parse_outbound(SESS, &ack);
    assert_eq!(h.seq_id, 4242);
    // a push acknowledgement does not consume a sequence number
    assert_eq!(c.proto.seq_id, before);
}

#[test]
fn orderly_close() {
    let mut c = registered_client();
    c.close();
    assert_eq!(c.state, ClientState::Closing);
    assert_eq!(c.pop_outbound(), Some(SendMessage::ZtLiveCsUserExit));
    assert_eq!(c.pop_outbound(), Some(SendMessage::UnregisterRequest));
    assert_eq!(c.pop_outbound(), None);
    // closing again queues nothing more
    c.close();
    assert_eq!(c.pop_outbound(), None);
    c.mark_closed();
    c.close();
    assert!(c.is_terminated());
    assert_eq!(c.pop_outbound(), None);
}

#[test]
fn heartbeat_cadence_over_a_horizon() {
    let mut c = registered_client();
    let msg = ReceiveMessage::Interval(7);
    assert_eq!(c.on_message(msg), None);
    let mut heartbeats = 0u64;
    let mut keepalives = 0u64;
    let horizon = 73i64;
    for now in 1..=horizon {
        c.heartbeat_tick(now);
        while let Some(m) = c.pop_outbound() {
            match m {
                SendMessage::ZtLiveCsHeartbeat => heartbeats += 1,
                SendMessage::KeepAliveRequest => {
                    // a keep-alive accompanies every fifth heartbeat
                    assert_eq!(c.heartbeat_seq_id % 5, 4);
                    keepalives += 1;
                },
                other => panic!("unexpected outbound {:?}", other),
            }
        }
    }
    assert_eq!(heartbeats, 73 / 7);
    assert_eq!(keepalives, 2);
}

#[test]
fn declared_length_must_match() {
    let mut c = registered_client();
    let payload = downstream(b"Basic.KeepAlive", 3, Vec::new());
    let pt = payload.encode();
    let body = encrypt_body(SESS, &pt).unwrap();
    let header = PacketHeader {
        app_id: 9,
        uid: 42,
        instance_id: 1234,
        encryption_mode: EncryptionMode::SessionKey,
        seq_id: 3,
        kpn: b"ACFUN_APP".to_vec(),
        decoded_payload_len: pt.len() as u32 + 1,
        token_info: None,
    };
    let frame = encode_frame(&header.encode(), &body).unwrap();
    assert_eq!(
        c.proto.decode_frame(&frame).unwrap_err(),
        Error::ProtoDataLengthError(pt.len() + 1, pt.len())
    );
}

#[test]
fn session_frames_need_the_session_key() {
    let mut c = DanmakuClient::new(&token(), 0).unwrap();
    c.start();
    let payload = downstream(b"Basic.KeepAlive", 3, Vec::new());
    let frame = server_frame(SESS, EncryptionMode::SessionKey, 3, &payload);
    // no register response arrived: the session key is still missing
    assert_eq!(c.proto.decode_frame(&frame).unwrap_err(), Error::NoSessionKey);
}

#[test]
fn server_may_omit_defaulted_fields() {
    let mut c = registered_client();
    // a reply written the way a standard serializer would: the zero error
    // code, the empty message and the empty body are simply absent
    let mut pt = Vec::new();
    write_field_bytes(&mut pt, 1, b"Basic.KeepAlive");
    write_field_varint(&mut pt, 2, 3);
    let body = encrypt_body(SESS, &pt).unwrap();
    let header = PacketHeader {
        app_id: 9,
        uid: 42,
        instance_id: 1234,
        encryption_mode: EncryptionMode::SessionKey,
        seq_id: 3,
        kpn: b"ACFUN_APP".to_vec(),
        decoded_payload_len: pt.len() as u32,
        token_info: None,
    };
    let frame = encode_frame(&header.encode(), &body).unwrap();
    assert_eq!(c.proto.decode_frame(&frame).unwrap(), None);
}

#[test]
fn register_reply_with_extra_fields_still_registers() {
    let mut c = DanmakuClient::new(&token(), 0).unwrap();
    c.start();
    let _register = c.proto.encode_message(SendMessage::RegisterRequest, 0).unwrap();
    let mut resp = RegisterResponse { instance_id: 1234, sess_key: SESS.to_vec() }.encode();
    // a field this client does not know yet is skipped
    write_field_varint(&mut resp, 7, 99);
    let payload = downstream(b"Basic.Register", 1, resp);
    let frame = server_frame(KEY, EncryptionMode::ServiceToken, 1, &payload);
    let msg = c.proto.decode_frame(&frame).unwrap().unwrap();
    assert_eq!(msg, ReceiveMessage::RegisterResponse);
    assert_eq!(c.proto.instance_id, 1234);
    assert_eq!(c.proto.session_key.as_deref(), Some(SESS));
}

#[test]
fn register_failure_is_terminal() {
    let mut c = DanmakuClient::new(&token(), 0).unwrap();
    c.start();
    let err = c.on_register_reply(&ReceiveMessage::PushMessage).unwrap_err();
    assert_eq!(err, Error::RegisterError);
    assert!(c.is_terminated());
}

#[test]
fn session_key_is_required_after_register() {
    let mut c = DanmakuClient::new(&token(), 0).unwrap();
    c.start();
    let _register = c.proto.encode_message(SendMessage::RegisterRequest, 0).unwrap();
    // no register reply arrived: sealing a session-key frame must fail
    assert_eq!(
        c.proto.encode_message(SendMessage::KeepAliveRequest, 0).unwrap_err(),
        Error::NoSessionKey
    );
}
