//! The envelope codec and the protocol machine's message builders: the
//! length-prefixed wire frame, the session state, the seven outbound frame
//! kinds, and the classification of inbound payloads.

use vstd::prelude::*;

verus! {

use crate::crypto::{
    aes_cbc_cipher, aes_cbc_plain, decrypt_body, encrypt_body, spec_padded_len,
};
use crate::errors::Error;
use crate::globals::{
    client_live_sdk_version, cmd_enter_room, cmd_global_cs_cmd, cmd_heartbeat, cmd_keep_alive,
    cmd_push_message, cmd_register, cmd_unregister, cmd_user_exit, device_model, kpf, kpn,
    link_version, spec_client_live_sdk_version, spec_cmd_enter_room, spec_cmd_global_cs_cmd,
    spec_cmd_heartbeat, spec_cmd_keep_alive, spec_cmd_push_message, spec_cmd_register,
    spec_cmd_unregister, spec_cmd_user_exit, spec_device_model, spec_kpf, spec_kpn,
    spec_link_version, spec_sub_biz, sub_biz, RETRY_COUNT,
};
use crate::messages::{
    spec_enc_bb, spec_enc_cmd, spec_enc_header, spec_enc_upstream, spec_enc_vv, AppInfo,
    DeviceInfo, EncryptionMode, HeaderModel, PacketHeader, RegisterRequest, TokenInfo,
    UpstreamPayload, ZtCommonInfo, ZtLiveCsCmd, ZtLiveCsEnterRoom,
};
use crate::shapes::seq_views;
use crate::wire::{read_u32_be, spec_u32_be, spec_u32_from_be, write_bytes, write_u32_be};

// ---------- the wire frame ----------

/// The frame's leading magic bytes.
pub open spec fn spec_magic() -> Seq<u8> {
    seq![0xabu8, 0xcdu8, 0x00u8, 0x01u8]
}

/// One wire frame: magic, big-endian header and body lengths, header bytes,
/// body bytes.
pub open spec fn spec_frame(header: Seq<u8>, body: Seq<u8>) -> Seq<u8>
    recommends
        header.len() <= u32::MAX,
        body.len() <= u32::MAX,
{
    spec_magic() + spec_u32_be(header.len() as u32) + spec_u32_be(body.len() as u32) + header
        + body
}

/// Splits one whole message into header and body bytes. The declared
/// lengths must account for the whole message; the magic is not inspected.
pub open spec fn spec_split_frame(s: Seq<u8>) -> Option<(Seq<u8>, Seq<u8>)> {
    if s.len() < 12 {
        None
    } else {
        let hl = spec_u32_from_be(s.subrange(4, 8)) as int;
        let bl = spec_u32_from_be(s.subrange(8, 12)) as int;
        if s.len() == 12 + hl + bl {
            Some((s.subrange(12, 12 + hl), s.subrange(12 + hl, 12 + hl + bl)))
        } else {
            None
        }
    }
}

/// Framing then splitting returns the header and body unchanged.
pub proof fn lemma_frame_roundtrip(header: Seq<u8>, body: Seq<u8>)
    requires
        header.len() <= u32::MAX,
        body.len() <= u32::MAX,
    ensures
        spec_split_frame(spec_frame(header, body)) == Some((header, body)),
{
    let f = spec_frame(header, body);
    crate::wire::lemma_u32_be_roundtrip(header.len() as u32);
    crate::wire::lemma_u32_be_roundtrip(body.len() as u32);
    assert(f.subrange(4, 8) =~= spec_u32_be(header.len() as u32));
    assert(f.subrange(8, 12) =~= spec_u32_be(body.len() as u32));
    assert(f.subrange(12, 12 + header.len() as int) =~= header);
    assert(f.subrange(12 + header.len() as int, 12 + header.len() as int + body.len() as int)
        =~= body);
}

/// Builds one wire frame from header and body bytes.
pub fn encode_frame(header: &[u8], body: &[u8]) -> (r: Result<Vec<u8>, Error>)
    ensures
        match r {
            Result::Ok(f) => {
                &&& header@.len() <= u32::MAX
                &&& body@.len() <= u32::MAX
                &&& f@ == spec_frame(header@, body@)
            },
            Result::Err(e) => {
                &&& e == Error::LengthOverflow
                &&& (header@.len() > u32::MAX || body@.len() > u32::MAX)
            },
        },
{
    if (header.len() as u64) > (u32::MAX as u64) || (body.len() as u64) > (u32::MAX as u64) {
        return Err(Error::LengthOverflow);
    }
    let mut out: Vec<u8> = Vec::new();
    out.push(0xab);
    out.push(0xcd);
    out.push(0x00);
    out.push(0x01);
    proof {
        assert(out@ =~= spec_magic());
    }
    write_u32_be(&mut out, header.len() as u32);
    write_u32_be(&mut out, body.len() as u32);
    write_bytes(&mut out, header);
    write_bytes(&mut out, body);
    proof {
        assert(out@ =~= spec_frame(header@, body@));
    }
    Ok(out)
}

/// Splits one whole inbound message into its header and body bytes. A
/// message whose length does not match its declared lengths is refused:
/// the transport delivers whole frames.
pub fn split_frame(buf: &[u8]) -> (r: Result<(Vec<u8>, Vec<u8>), Error>)
    ensures
        match spec_split_frame(buf@) {
            Option::None => r == Err::<(Vec<u8>, Vec<u8>), Error>(Error::FrameTooShort),
            Option::Some(t) => {
                match r {
                    Result::Ok(p) => p.0@ == t.0 && p.1@ == t.1,
                    Result::Err(_) => false,
                }
            },
        },
{
    if buf.len() < 12 {
        return Err(Error::FrameTooShort);
    }
    let hl = read_u32_be(buf, 4);
    let bl = read_u32_be(buf, 8);
    if (buf.len() as u64) != 12 + (hl as u64) + (bl as u64) {
        return Err(Error::FrameTooShort);
    }
    let header_end: usize = 12 + (hl as usize);
    let header = vstd::slice::slice_to_vec(vstd::slice::slice_subrange(buf, 12, header_end));
    let body = vstd::slice::slice_to_vec(vstd::slice::slice_subrange(buf, header_end, buf.len()));
    Ok((header, body))
}

// ---------- the outbound and inbound message kinds ----------

/// The seven outbound frame kinds.
#[derive(Clone, Copy, Debug, PartialEq, Eq, Structural)]
pub enum SendMessage {
    RegisterRequest,
    UnregisterRequest,
    ZtLiveCsEnterRoom,
    KeepAliveRequest,
    ZtLiveScMessage,
    ZtLiveCsHeartbeat,
    ZtLiveCsUserExit,
}

/// What an inbound payload means to the driver.
#[derive(Clone, Debug, PartialEq, Eq)]
pub enum ReceiveMessage {
    Danmaku(crate::signals::Danmaku),
    RegisterResponse,
    Interval(u64),
    PushMessage,
    EnterRoom,
    PushAndStop,
    Stop,
    Close,
}

// ---------- the session state ----------

/// The amount a frame kind advances the sequence counter by: every kind
/// steps it by one except the unregister request and the push
/// acknowledgement, which reuse a sequence number.
pub open spec fn spec_seq_step(item: SendMessage) -> int {
    match item {
        SendMessage::UnregisterRequest => 0,
        SendMessage::ZtLiveScMessage => 0,
        _ => 1,
    }
}

/// The presence code sent in register and keep-alive frames.
pub const PRESENCE_ONLINE: i32 = 1;

/// The activity code sent in register and keep-alive frames.
pub const APP_IN_FOREGROUND: i32 = 1;

/// The platform code sent in the register frame.
pub const PLATFORM_H5_WINDOWS: i32 = 6;

/// The token type code of a service token.
pub const TOKEN_SERVICE: i32 = 1;

/// The session state of one push-channel connection: the token's fields in
/// wire form, the server-assigned identifiers, and the frame counters.
#[derive(Clone, Debug)]
pub struct DanmakuProto {
    pub user_id: i64,
    pub liver_uid: i64,
    pub security_key: Vec<u8>,
    pub service_token: Vec<u8>,
    pub live_id: Vec<u8>,
    pub enter_room_attach: Vec<u8>,
    pub tickets: Vec<Vec<u8>>,
    pub app_id: i32,
    pub instance_id: i64,
    pub session_key: Option<Vec<u8>>,
    pub seq_id: i64,
    pub header_seq_id: i64,
    pub heartbeat_seq_id: i64,
    pub ticket_index: usize,
}

impl DanmakuProto {
    /// There is at least one ticket and the index points at one.
    pub open spec fn wf(self) -> bool {
        &&& self.tickets@.len() > 0
        &&& self.ticket_index < self.tickets@.len()
    }

    /// The view of the session key, when present.
    pub open spec fn spec_session_key(self) -> Option<Seq<u8>> {
        match self.session_key {
            Option::Some(k) => Some(k@),
            Option::None => None,
        }
    }

    /// All fields but the server-assigned ones and the counters are equal.
    pub open spec fn same_identity(self, other: Self) -> bool {
        &&& self.user_id == other.user_id
        &&& self.liver_uid == other.liver_uid
        &&& self.security_key@ == other.security_key@
        &&& self.service_token@ == other.service_token@
        &&& self.live_id@ == other.live_id@
        &&& self.enter_room_attach@ == other.enter_room_attach@
        &&& self.tickets@.len() == other.tickets@.len()
        &&& seq_views(self.tickets@) == seq_views(other.tickets@)
    }

    /// The base header of an outbound frame: session-key mode and the
    /// current sequence number; builders adjust both where a kind differs.
    pub fn header(&self) -> (r: PacketHeader)
        ensures
            r.app_id == self.app_id,
            r.uid == self.user_id,
            r.instance_id == self.instance_id,
            r.encryption_mode == EncryptionMode::SessionKey,
            r.seq_id == self.seq_id,
            r.kpn@ == spec_kpn(),
            r.decoded_payload_len == 0,
            r.token_info is None,
    {
        PacketHeader {
            app_id: self.app_id,
            uid: self.user_id,
            instance_id: self.instance_id,
            encryption_mode: EncryptionMode::SessionKey,
            seq_id: self.seq_id,
            kpn: vstd::slice::slice_to_vec(kpn()),
            decoded_payload_len: 0,
            token_info: None,
        }
    }

    /// The outbound payload envelope for a command and its body.
    pub fn payload(&self, command: &[u8], payload_data: Option<Vec<u8>>) -> (r: UpstreamPayload)
        ensures
            r.command@ == command@,
            r.seq_id == self.seq_id,
            r.retry_count == RETRY_COUNT,
            r.sub_biz@ == spec_sub_biz(),
            r.payload_data@ == (match payload_data {
                Option::Some(d) => d@,
                Option::None => Seq::<u8>::empty(),
            }),
    {
        let data = match payload_data {
            Some(d) => d,
            None => Vec::new(),
        };
        UpstreamPayload {
            command: vstd::slice::slice_to_vec(command),
            seq_id: self.seq_id,
            retry_count: RETRY_COUNT,
            sub_biz: vstd::slice::slice_to_vec(sub_biz()),
            payload_data: data,
        }
    }

    /// The current room ticket.
    pub open spec fn spec_ticket(self) -> Seq<u8> {
        seq_views(self.tickets@)[self.ticket_index as int]
    }

    /// The serialized interactive command wrapper carrying the current
    /// ticket and the live id.
    pub fn command(&self, cmd_type: &[u8], payload: Option<Vec<u8>>) -> (r: Vec<u8>)
        requires
            self.wf(),
        ensures
            r@ == spec_enc_cmd(
                cmd_type@,
                self.spec_ticket(),
                self.live_id@,
                match payload {
                    Option::Some(d) => d@,
                    Option::None => Seq::<u8>::empty(),
                },
            ),
    {
        let data = match payload {
            Some(d) => d,
            None => Vec::new(),
        };
        let cmd = ZtLiveCsCmd {
            cmd_type: vstd::slice::slice_to_vec(cmd_type),
            ticket: vstd::slice::slice_to_vec(self.tickets[self.ticket_index].as_slice()),
            live_id: vstd::slice::slice_to_vec(self.live_id.as_slice()),
            payload: data,
        };
        proof {
            assert(seq_views(self.tickets@)[self.ticket_index as int] == self.tickets@[self.ticket_index as int]@);
        }
        cmd.encode()
    }

    /// Reads a register response out of an inbound payload's body and
    /// stores the assigned instance and the session key.
    pub fn register_response(&mut self, payload: &crate::messages::DownstreamPayload) -> (r:
        Result<(), Error>)
        ensures
            final(self).same_identity(*old(self)),
            final(self).app_id == old(self).app_id,
            final(self).seq_id == old(self).seq_id,
            final(self).header_seq_id == old(self).header_seq_id,
            final(self).heartbeat_seq_id == old(self).heartbeat_seq_id,
            final(self).ticket_index == old(self).ticket_index,
            match crate::messages::spec_dec_vb(payload.payload_data@) {
                Option::None => {
                    &&& r == Err::<(), Error>(Error::DecodeProtoError)
                    &&& final(self).instance_id == old(self).instance_id
                    &&& final(self).spec_session_key() == old(self).spec_session_key()
                },
                Option::Some(t) => {
                    &&& r is Ok
                    &&& final(self).instance_id == t.0 as i64
                    &&& final(self).spec_session_key() == Some(t.1)
                },
            },
    {
        match crate::messages::RegisterResponse::decode(payload.payload_data.as_slice()) {
            Some(resp) => {
                self.instance_id = resp.instance_id;
                self.session_key = Some(resp.sess_key);
                Ok(())
            },
            None => Err(Error::DecodeProtoError),
        }
    }
}

// ---------- building outbound frames ----------

/// The command name an outbound frame kind travels under.
pub open spec fn spec_built_command(item: SendMessage) -> Seq<u8> {
    match item {
        SendMessage::RegisterRequest => spec_cmd_register(),
        SendMessage::UnregisterRequest => spec_cmd_unregister(),
        SendMessage::ZtLiveCsEnterRoom => spec_cmd_global_cs_cmd(),
        SendMessage::KeepAliveRequest => spec_cmd_keep_alive(),
        SendMessage::ZtLiveScMessage => spec_cmd_push_message(),
        SendMessage::ZtLiveCsHeartbeat => spec_cmd_global_cs_cmd(),
        SendMessage::ZtLiveCsUserExit => spec_cmd_global_cs_cmd(),
    }
}

/// The serialized register request of a session state.
pub open spec fn spec_register_request_enc(s: DanmakuProto) -> Seq<u8> {
    crate::shapes::spec_field_bytes(
        1,
        spec_enc_bb(spec_client_live_sdk_version(), spec_link_version()),
    ) + crate::shapes::spec_field_bytes(
        2,
        crate::messages::spec_enc_vb(PLATFORM_H5_WINDOWS as u64, spec_device_model()),
    ) + crate::shapes::spec_field_varint(3, PRESENCE_ONLINE as u64)
        + crate::shapes::spec_field_varint(4, APP_IN_FOREGROUND as u64)
        + crate::shapes::spec_field_varint(5, s.instance_id as u64)
        + crate::shapes::spec_field_bytes(
        6,
        crate::shapes::spec_field_bytes(1, spec_kpn()) + crate::shapes::spec_field_bytes(
            2,
            spec_kpf(),
        ) + crate::shapes::spec_field_varint(3, s.user_id as u64),
    )
}

/// The body carried by each outbound frame kind.
pub open spec fn spec_built_payload_data(s: DanmakuProto, item: SendMessage, now_ms: i64) -> Seq<
    u8,
> {
    match item {
        SendMessage::RegisterRequest => spec_register_request_enc(s),
        SendMessage::UnregisterRequest => Seq::empty(),
        SendMessage::ZtLiveCsEnterRoom => spec_enc_cmd(
            spec_cmd_enter_room(),
            s.spec_ticket(),
            s.live_id@,
            spec_enc_bb(s.enter_room_attach@, spec_client_live_sdk_version()),
        ),
        SendMessage::KeepAliveRequest => spec_enc_vv(
            PRESENCE_ONLINE as u64,
            APP_IN_FOREGROUND as u64,
        ),
        SendMessage::ZtLiveScMessage => Seq::empty(),
        SendMessage::ZtLiveCsHeartbeat => spec_enc_cmd(
            spec_cmd_heartbeat(),
            s.spec_ticket(),
            s.live_id@,
            spec_enc_vv(now_ms as u64, s.heartbeat_seq_id as u64),
        ),
        SendMessage::ZtLiveCsUserExit => spec_enc_cmd(
            spec_cmd_user_exit(),
            s.spec_ticket(),
            s.live_id@,
            Seq::empty(),
        ),
    }
}

/// The serialized payload envelope of an outbound frame kind.
pub open spec fn spec_built_payload_enc(s: DanmakuProto, item: SendMessage, now_ms: i64) -> Seq<
    u8,
> {
    spec_enc_upstream(
        spec_built_command(item),
        s.seq_id as u64,
        RETRY_COUNT as u64,
        spec_sub_biz(),
        spec_built_payload_data(s, item, now_ms),
    )
}

/// The header of an outbound frame kind: the register frame travels under
/// the service token and carries it; the push acknowledgement echoes the
/// last inbound header sequence; everything else uses the session key and
/// the current sequence.
pub open spec fn spec_built_header(s: DanmakuProto, item: SendMessage, now_ms: i64) -> HeaderModel {
    HeaderModel {
        app_id: s.app_id,
        uid: s.user_id,
        instance_id: s.instance_id,
        encryption_mode: if item == SendMessage::RegisterRequest {
            EncryptionMode::ServiceToken
        } else {
            EncryptionMode::SessionKey
        },
        seq_id: if item == SendMessage::ZtLiveScMessage {
            s.header_seq_id
        } else {
            s.seq_id
        },
        kpn: spec_kpn(),
        decoded_payload_len: spec_built_payload_enc(s, item, now_ms).len() as u32,
        token: if item == SendMessage::RegisterRequest {
            Some((TOKEN_SERVICE, s.service_token@))
        } else {
            None
        },
    }
}

/// `f` is a sealed frame: its header is `hm` and its body is a fresh IV
/// followed by the payload's ciphertext under `key`.
pub open spec fn spec_sealed(key: Seq<u8>, hm: HeaderModel, pt: Seq<u8>, f: Seq<u8>) -> bool {
    exists|iv: Seq<u8>|
        #![auto]
        {
            &&& iv.len() == 16
            &&& aes_cbc_plain(key, iv, aes_cbc_cipher(key, iv, pt)) == Some(pt)
            &&& f == spec_frame(spec_enc_header(hm), iv + aes_cbc_cipher(key, iv, pt))
        }
}

impl DanmakuProto {
    /// The key an outbound frame kind is sealed under.
    pub open spec fn spec_built_key(self, item: SendMessage) -> Option<Seq<u8>> {
        if item == SendMessage::RegisterRequest {
            Some(self.security_key@)
        } else {
            self.spec_session_key()
        }
    }

    /// Builds the header and payload of one outbound frame kind and steps
    /// the counters: the sequence by one for every kind but the unregister
    /// request and the push acknowledgement, the heartbeat counter by one
    /// for a heartbeat.
    pub fn build(&mut self, item: SendMessage, now_ms: i64) -> (r: (PacketHeader, UpstreamPayload))
        requires
            old(self).wf(),
            old(self).seq_id < i64::MAX,
            old(self).heartbeat_seq_id < i64::MAX,
        ensures
            final(self).wf(),
            final(self).same_identity(*old(self)),
            final(self).app_id == old(self).app_id,
            final(self).instance_id == old(self).instance_id,
            final(self).spec_session_key() == old(self).spec_session_key(),
            final(self).header_seq_id == old(self).header_seq_id,
            final(self).ticket_index == old(self).ticket_index,
            final(self).seq_id == old(self).seq_id + spec_seq_step(item),
            final(self).heartbeat_seq_id == old(self).heartbeat_seq_id + (
            if item == SendMessage::ZtLiveCsHeartbeat {
                1int
            } else {
                0int
            }),
            r.0.model() == (HeaderModel {
                decoded_payload_len: 0,
                ..spec_built_header(*old(self), item, now_ms)
            }),
            r.1.spec_enc() == spec_built_payload_enc(*old(self), item, now_ms),
    {
        match item {
            SendMessage::RegisterRequest => {
                let reg = RegisterRequest {
                    app_info: AppInfo {
                        sdk_version: vstd::slice::slice_to_vec(client_live_sdk_version()),
                        link_version: vstd::slice::slice_to_vec(link_version()),
                    },
                    device_info: DeviceInfo {
                        platform_type: PLATFORM_H5_WINDOWS,
                        device_model: vstd::slice::slice_to_vec(device_model()),
                    },
                    presence_status: PRESENCE_ONLINE,
                    app_active_status: APP_IN_FOREGROUND,
                    instance_id: self.instance_id,
                    zt_common_info: ZtCommonInfo {
                        kpn: vstd::slice::slice_to_vec(kpn()),
                        kpf: vstd::slice::slice_to_vec(kpf()),
                        uid: self.user_id,
                    },
                };
                let body = reg.encode();
                proof {
                    assert(body@ == spec_register_request_enc(*self));
                }
                let payload = self.payload(cmd_register(), Some(body));
                let mut header = self.header();
                header.encryption_mode = EncryptionMode::ServiceToken;
                header.token_info = Some(
                    TokenInfo {
                        token_type: TOKEN_SERVICE,
                        token: vstd::slice::slice_to_vec(self.service_token.as_slice()),
                    },
                );
                self.seq_id = self.seq_id + 1;
                (header, payload)
            },
            SendMessage::UnregisterRequest => {
                let payload = self.payload(cmd_unregister(), None);
                let header = self.header();
                (header, payload)
            },
            SendMessage::ZtLiveCsEnterRoom => {
                let enter = crate::messages::ZtLiveCsEnterRoom {
                    enter_room_attach: vstd::slice::slice_to_vec(self.enter_room_attach.as_slice()),
                    client_live_sdk_version: vstd::slice::slice_to_vec(client_live_sdk_version()),
                };
                let cmd = self.command(cmd_enter_room(), Some(enter.encode()));
                let payload = self.payload(cmd_global_cs_cmd(), Some(cmd));
                let header = self.header();
                self.seq_id = self.seq_id + 1;
                (header, payload)
            },
            SendMessage::KeepAliveRequest => {
                let keep = crate::messages::KeepAliveRequest {
                    presence_status: PRESENCE_ONLINE,
                    app_active_status: APP_IN_FOREGROUND,
                };
                let payload = self.payload(cmd_keep_alive(), Some(keep.encode()));
                let header = self.header();
                self.seq_id = self.seq_id + 1;
                (header, payload)
            },
            SendMessage::ZtLiveScMessage => {
                let payload = self.payload(cmd_push_message(), None);
                let mut header = self.header();
                header.seq_id = self.header_seq_id;
                (header, payload)
            },
            SendMessage::ZtLiveCsHeartbeat => {
                let beat = crate::messages::ZtLiveCsHeartbeat {
                    client_timestamp_ms: now_ms,
                    sequence: self.heartbeat_seq_id,
                };
                let cmd = self.command(cmd_heartbeat(), Some(beat.encode()));
                let payload = self.payload(cmd_global_cs_cmd(), Some(cmd));
                let header = self.header();
                self.heartbeat_seq_id = self.heartbeat_seq_id + 1;
                self.seq_id = self.seq_id + 1;
                (header, payload)
            },
            SendMessage::ZtLiveCsUserExit => {
                let cmd = self.command(cmd_user_exit(), None);
                let payload = self.payload(cmd_global_cs_cmd(), Some(cmd));
                let header = self.header();
                self.seq_id = self.seq_id + 1;
                (header, payload)
            },
        }
    }

    /// Builds, seals and frames one outbound message. The counters step
    /// exactly as in `build`, also when sealing fails.
    pub fn encode_message(&mut self, item: SendMessage, now_ms: i64) -> (r: Result<Vec<u8>, Error>)
        requires
            old(self).wf(),
            old(self).seq_id < i64::MAX,
            old(self).heartbeat_seq_id < i64::MAX,
        ensures
            final(self).wf(),
            final(self).same_identity(*old(self)),
            final(self).app_id == old(self).app_id,
            final(self).instance_id == old(self).instance_id,
            final(self).spec_session_key() == old(self).spec_session_key(),
            final(self).header_seq_id == old(self).header_seq_id,
            final(self).ticket_index == old(self).ticket_index,
            final(self).seq_id == old(self).seq_id + spec_seq_step(item),
            final(self).heartbeat_seq_id == old(self).heartbeat_seq_id + (
            if item == SendMessage::ZtLiveCsHeartbeat {
                1int
            } else {
                0int
            }),
            ({
                let pt = spec_built_payload_enc(*old(self), item, now_ms);
                let hm = spec_built_header(*old(self), item, now_ms);
                match r {
                    Result::Ok(f) => {
                        &&& pt.len() <= u32::MAX
                        &&& old(self).spec_built_key(item) matches Some(key) && key.len() == 16
                            && spec_sealed(key, hm, pt, f@)
                    },
                    Result::Err(e) => {
                        if pt.len() > u32::MAX {
                            e == Error::LengthOverflow
                        } else if item != SendMessage::RegisterRequest && old(
                            self,
                        ).session_key is None {
                            e == Error::NoSessionKey
                        } else if old(self).spec_built_key(item).unwrap().len() != 16 {
                            e == Error::InvalidKeyIvLength
                        } else {
                            e == Error::LengthOverflow && (spec_enc_header(hm).len() > u32::MAX
                                || 16 + spec_padded_len(pt.len()) > u32::MAX)
                        }
                    },
                }
            }),
    {
        let (mut header, payload) = self.build(item, now_ms);
        let pt = payload.encode();
        if (pt.len() as u64) > (u32::MAX as u64) {
            return Err(Error::LengthOverflow);
        }
        let body_result = if item == SendMessage::RegisterRequest {
            encrypt_body(self.security_key.as_slice(), pt.as_slice())
        } else {
            match &self.session_key {
                Some(k) => encrypt_body(k.as_slice(), pt.as_slice()),
                None => {
                    return Err(Error::NoSessionKey);
                },
            }
        };
        let body = match body_result {
            Ok(b) => b,
            Err(e) => {
                return Err(e);
            },
        };
        header.decoded_payload_len = pt.len() as u32;
        let hb = header.encode();
        let ghost hm = spec_built_header(*old(self), item, now_ms);
        proof {
            assert(header.model() == hm);
            assert(body@ =~= body@.take(16) + body@.skip(16));
        }
        match encode_frame(hb.as_slice(), body.as_slice()) {
            Ok(f) => {
                proof {
                    let key = old(self).spec_built_key(item).unwrap();
                    let iv = body@.take(16);
                    assert(spec_sealed(key, hm, pt@, f@));
                }
                Ok(f)
            },
            Err(e) => Err(e),
        }
    }
}

// ---------- classifying inbound payloads ----------

use crate::crypto::{gunzip, gunzip_of};
use crate::globals::{
    cmd_enter_room_ack, cmd_ping, msg_action_signal,
    msg_notify_signal, msg_state_signal, msg_status_changed, msg_ticket_invalid,
    spec_cmd_enter_room_ack, spec_cmd_ping, spec_msg_action_signal, spec_msg_notify_signal,
    spec_msg_state_signal, spec_msg_status_changed, spec_msg_ticket_invalid,
};
use crate::messages::{
    spec_dec_bb, spec_dec_downstream, spec_dec_header, spec_dec_sc_message, spec_dec_v,
    spec_dec_vb, DownstreamPayload, ZtLiveCsCmdAck, ZtLiveScMessage, ZtLiveScStatusChanged,
    COMPRESSION_GZIP, STATUS_LIVE_BANNED, STATUS_LIVE_CLOSED,
};
use crate::signals::{
    action_models, action_signal, notify_models, notify_signal, spec_action_signal,
    spec_notify_signal, spec_state_signal, state_models, state_signal, ActionModel, Danmaku,
    NotifyModel, StateModel,
};
use crate::wire::bytes_eq;

/// The mathematical content of one inbound payload.
pub ghost struct StreamModel {
    pub command: Seq<u8>,
    pub seq_id: i64,
    pub payload_data: Seq<u8>,
    pub error_code: i32,
    pub error_msg: Seq<u8>,
}

/// The model of a decoded downstream payload.
pub open spec fn stream_model(p: DownstreamPayload) -> StreamModel {
    StreamModel {
        command: p.command@,
        seq_id: p.seq_id,
        payload_data: p.payload_data@,
        error_code: p.error_code,
        error_msg: p.error_msg@,
    }
}

/// The mathematical content of one decoded batch.
pub ghost enum DanmakuModel {
    Action(Seq<ActionModel>),
    State(Seq<StateModel>),
    Notify(Seq<NotifyModel>),
}

/// The mathematical content of what the classifier returns.
pub ghost enum ReceiveModel {
    Danmaku(DanmakuModel),
    RegisterResponse,
    Interval(u64),
    PushMessage,
    EnterRoom,
    PushAndStop,
    Stop,
    Close,
}

/// The batch carries exactly the records of its model.
pub open spec fn danmaku_matches(d: Danmaku, m: DanmakuModel) -> bool {
    match d {
        Danmaku::ActionSignal(v) => m matches DanmakuModel::Action(s) && action_models(v@) == s,
        Danmaku::StateSignal(v) => m matches DanmakuModel::State(s) && state_models(v@) == s,
        Danmaku::NotifySignal(v) => m matches DanmakuModel::Notify(s) && notify_models(v@) == s,
    }
}

/// The classifier's answer carries exactly its model.
pub open spec fn receive_matches(o: Option<ReceiveMessage>, m: Option<ReceiveModel>) -> bool {
    match o {
        Option::None => m is None,
        Option::Some(msg) => match msg {
            ReceiveMessage::Danmaku(d) => m matches Some(ReceiveModel::Danmaku(dm))
                && danmaku_matches(d, dm),
            ReceiveMessage::RegisterResponse => m == Some(ReceiveModel::RegisterResponse),
            ReceiveMessage::Interval(v) => m == Some(ReceiveModel::Interval(v)),
            ReceiveMessage::PushMessage => m == Some(ReceiveModel::PushMessage),
            ReceiveMessage::EnterRoom => m == Some(ReceiveModel::EnterRoom),
            ReceiveMessage::PushAndStop => m == Some(ReceiveModel::PushAndStop),
            ReceiveMessage::Stop => m == Some(ReceiveModel::Stop),
            ReceiveMessage::Close => m == Some(ReceiveModel::Close),
        },
    }
}

/// The body of a push message after the optional gunzip.
pub open spec fn spec_push_inner(msg: (Seq<u8>, u64, Seq<u8>)) -> Option<Seq<u8>> {
    if msg.1 as i32 == COMPRESSION_GZIP {
        gunzip_of(msg.2)
    } else {
        Some(msg.2)
    }
}

/// Everything classifying one inbound payload decides: the driver-facing
/// answer (or the error), whether the ticket index advances, and the
/// register data to store.
pub ghost struct ClassifyOutcome {
    pub result: Result<Option<ReceiveModel>, Error>,
    pub rotates: bool,
    pub register: Option<(u64, Seq<u8>)>,
}

/// An outcome that neither rotates the ticket nor registers.
pub open spec fn plain_outcome(result: Result<Option<ReceiveModel>, Error>) -> ClassifyOutcome {
    ClassifyOutcome { result, rotates: false, register: None }
}

/// What the classifier answers for one inbound payload, with which error it
/// refuses it, and the side effects it applies.
pub open spec fn spec_classify(d: StreamModel) -> ClassifyOutcome {
    if d.command == spec_cmd_register() {
        match spec_dec_vb(d.payload_data) {
            Option::None => plain_outcome(Err(Error::DecodeProtoError)),
            Option::Some(t) => ClassifyOutcome {
                result: Ok(Some(ReceiveModel::RegisterResponse)),
                rotates: false,
                register: Some(t),
            },
        }
    } else if d.command == spec_cmd_global_cs_cmd() {
        match spec_dec_bb(d.payload_data) {
            Option::None => plain_outcome(Err(Error::DecodeProtoError)),
            Option::Some(ack) => {
                if ack.0 == spec_cmd_enter_room_ack() {
                    match spec_dec_v(ack.1) {
                        Option::None => plain_outcome(Err(Error::DecodeProtoError)),
                        Option::Some(v) => plain_outcome(
                            Ok(
                                Some(
                                    ReceiveModel::Interval(
                                        if (v as i64) > 0 {
                                            v
                                        } else {
                                            10000
                                        },
                                    ),
                                ),
                            ),
                        ),
                    }
                } else {
                    plain_outcome(Ok(None))
                }
            },
        }
    } else if d.command == spec_cmd_keep_alive() {
        plain_outcome(Ok(None))
    } else if d.command == spec_cmd_ping() {
        plain_outcome(Ok(None))
    } else if d.command == spec_cmd_unregister() {
        plain_outcome(Ok(Some(ReceiveModel::Close)))
    } else if d.command == spec_cmd_push_message() {
        match spec_dec_sc_message(d.payload_data) {
            Option::None => plain_outcome(Err(Error::DecodeProtoError)),
            Option::Some(msg) => {
                match spec_push_inner(msg) {
                    Option::None => plain_outcome(Err(Error::GzipError)),
                    Option::Some(inner) => {
                        if msg.0 == spec_msg_action_signal() {
                            match spec_action_signal(inner) {
                                Option::None => plain_outcome(Err(Error::DecodeProtoError)),
                                Option::Some(ms) => plain_outcome(
                                    Ok(Some(ReceiveModel::Danmaku(DanmakuModel::Action(ms)))),
                                ),
                            }
                        } else if msg.0 == spec_msg_state_signal() {
                            match spec_state_signal(inner) {
                                Option::None => plain_outcome(Err(Error::DecodeProtoError)),
                                Option::Some(ms) => plain_outcome(
                                    Ok(Some(ReceiveModel::Danmaku(DanmakuModel::State(ms)))),
                                ),
                            }
                        } else if msg.0 == spec_msg_notify_signal() {
                            match spec_notify_signal(inner) {
                                Option::None => plain_outcome(Err(Error::DecodeProtoError)),
                                Option::Some(ms) => plain_outcome(
                                    Ok(Some(ReceiveModel::Danmaku(DanmakuModel::Notify(ms)))),
                                ),
                            }
                        } else if msg.0 == spec_msg_status_changed() {
                            match spec_dec_v(inner) {
                                Option::None => plain_outcome(Err(Error::DecodeProtoError)),
                                Option::Some(v) => plain_outcome(
                                    Ok(
                                        Some(
                                            if v as i32 == STATUS_LIVE_CLOSED || v as i32
                                                == STATUS_LIVE_BANNED {
                                                ReceiveModel::PushAndStop
                                            } else {
                                                ReceiveModel::PushMessage
                                            },
                                        ),
                                    ),
                                ),
                            }
                        } else if msg.0 == spec_msg_ticket_invalid() {
                            ClassifyOutcome {
                                result: Ok(Some(ReceiveModel::EnterRoom)),
                                rotates: true,
                                register: None,
                            }
                        } else {
                            plain_outcome(Ok(Some(ReceiveModel::PushMessage)))
                        }
                    },
                }
            },
        }
    } else {
        if d.error_code == 10018 {
            plain_outcome(Ok(Some(ReceiveModel::Stop)))
        } else {
            plain_outcome(Ok(None))
        }
    }
}

impl DanmakuProto {
    /// Classifies one inbound payload and applies its side effects: a
    /// register reply stores the instance and session key, a ticket-invalid
    /// push advances the ticket index. Everything else leaves the state as
    /// it was.
    #[verifier::rlimit(100)]
    #[verifier::spinoff_prover]
    pub fn danmaku(&mut self, stream: &DownstreamPayload) -> (r: Result<
        Option<ReceiveMessage>,
        Error,
    >)
        requires
            old(self).wf(),
        ensures
            final(self).wf(),
            final(self).same_identity(*old(self)),
            final(self).app_id == old(self).app_id,
            final(self).seq_id == old(self).seq_id,
            final(self).header_seq_id == old(self).header_seq_id,
            final(self).heartbeat_seq_id == old(self).heartbeat_seq_id,
            ({
                let outcome = spec_classify(stream_model(*stream));
                &&& final(self).ticket_index as int == (
                if outcome.rotates {
                    (old(self).ticket_index + 1) as int % (old(self).tickets@.len() as int)
                } else {
                    old(self).ticket_index as int
                })
                &&& (match outcome.register {
                    Option::Some(t) => final(self).instance_id == t.0 as i64 && final(self).spec_session_key() == Some(t.1),
                    Option::None => final(self).instance_id == old(self).instance_id && final(self).spec_session_key() == old(self).spec_session_key(),
                })
                &&& (match outcome.result {
                    Result::Err(e) => r == Err::<Option<ReceiveMessage>, Error>(e),
                    Result::Ok(om) => {
                        match r {
                            Result::Ok(o) => receive_matches(o, om),
                            Result::Err(_) => false,
                        }
                    },
                })
            }),
    {
        if bytes_eq(stream.command.as_slice(), cmd_register()) {
            match self.register_response(stream) {
                Ok(()) => Ok(Some(ReceiveMessage::RegisterResponse)),
                Err(e) => Err(e),
            }
        } else if bytes_eq(stream.command.as_slice(), cmd_global_cs_cmd()) {
            let ack = match ZtLiveCsCmdAck::decode(stream.payload_data.as_slice()) {
                Some(a) => a,
                None => {
                    return Err(Error::DecodeProtoError);
                },
            };
            if bytes_eq(ack.cmd_ack_type.as_slice(), cmd_enter_room_ack()) {
                match crate::messages::ZtLiveCsEnterRoomAck::decode(ack.payload.as_slice()) {
                    Some(er) => {
                        let ms = er.heartbeat_interval_ms;
                        let interval: u64 = if ms > 0 {
                            proof {
                                let v = spec_dec_v(ack.payload@).unwrap();
                                crate::messages::lemma_cast_u64_i64(v);
                            }
                            ms as u64
                        } else {
                            10000
                        };
                        Ok(Some(ReceiveMessage::Interval(interval)))
                    },
                    None => Err(Error::DecodeProtoError),
                }
            } else {
                Ok(None)
            }
        } else if bytes_eq(stream.command.as_slice(), cmd_keep_alive()) {
            Ok(None)
        } else if bytes_eq(stream.command.as_slice(), cmd_ping()) {
            Ok(None)
        } else if bytes_eq(stream.command.as_slice(), cmd_unregister()) {
            Ok(Some(ReceiveMessage::Close))
        } else if bytes_eq(stream.command.as_slice(), cmd_push_message()) {
            let msg = match ZtLiveScMessage::decode(stream.payload_data.as_slice()) {
                Some(m) => m,
                None => {
                    return Err(Error::DecodeProtoError);
                },
            };
            let inner: Vec<u8> = if msg.compression_type == COMPRESSION_GZIP {
                match gunzip(msg.payload.as_slice()) {
                    Ok(p) => p,
                    Err(e) => {
                        return Err(e);
                    },
                }
            } else {
                msg.payload
            };
            if bytes_eq(msg.message_type.as_slice(), msg_action_signal()) {
                match action_signal(inner.as_slice()) {
                    Ok(v) => Ok(Some(ReceiveMessage::Danmaku(Danmaku::ActionSignal(v)))),
                    Err(e) => Err(e),
                }
            } else if bytes_eq(msg.message_type.as_slice(), msg_state_signal()) {
                match state_signal(inner.as_slice()) {
                    Ok(v) => Ok(Some(ReceiveMessage::Danmaku(Danmaku::StateSignal(v)))),
                    Err(e) => Err(e),
                }
            } else if bytes_eq(msg.message_type.as_slice(), msg_notify_signal()) {
                match notify_signal(inner.as_slice()) {
                    Ok(v) => Ok(Some(ReceiveMessage::Danmaku(Danmaku::NotifySignal(v)))),
                    Err(e) => Err(e),
                }
            } else if bytes_eq(msg.message_type.as_slice(), msg_status_changed()) {
                match ZtLiveScStatusChanged::decode(inner.as_slice()) {
                    Some(status) => {
                        if status.status_type == STATUS_LIVE_CLOSED || status.status_type
                            == STATUS_LIVE_BANNED {
                            Ok(Some(ReceiveMessage::PushAndStop))
                        } else {
                            Ok(Some(ReceiveMessage::PushMessage))
                        }
                    },
                    None => Err(Error::DecodeProtoError),
                }
            } else if bytes_eq(msg.message_type.as_slice(), msg_ticket_invalid()) {
                let n = self.tickets.len();
                proof {
                    assert(self.ticket_index < n);
                }
                self.ticket_index = (self.ticket_index + 1) % n;
                Ok(Some(ReceiveMessage::EnterRoom))
            } else {
                Ok(Some(ReceiveMessage::PushMessage))
            }
        } else {
            if stream.error_code == 10018 {
                Ok(Some(ReceiveMessage::Stop))
            } else {
                Ok(None)
            }
        }
    }
}

// ---------- decoding a whole inbound frame ----------

/// Splitting and decrypting a frame's body under `key`.
pub open spec fn spec_decrypt(key: Seq<u8>, body: Seq<u8>) -> Result<Seq<u8>, Error> {
    if body.len() <= 16 {
        Err(Error::CipherTextTooShort(body.len() as usize))
    } else if key.len() != 16 {
        Err(Error::InvalidKeyIvLength)
    } else {
        match aes_cbc_plain(key, body.take(16), body.skip(16)) {
            Option::Some(p) => Ok(p),
            Option::None => Err(Error::DecryptAesError),
        }
    }
}

/// The header of a whole inbound message, when it parses that far.
pub open spec fn spec_frame_header(s: Seq<u8>) -> Option<HeaderModel> {
    match spec_split_frame(s) {
        Option::None => None,
        Option::Some(t) => spec_dec_header(t.0),
    }
}

/// What decoding one whole inbound message yields before classification:
/// the header and the downstream payload, or the first error on the way.
pub open spec fn spec_decode_frame(sec: Seq<u8>, sess: Option<Seq<u8>>, s: Seq<u8>) -> Result<
    (HeaderModel, StreamModel),
    Error,
> {
    match spec_split_frame(s) {
        Option::None => Err(Error::FrameTooShort),
        Option::Some(t) => {
            match spec_dec_header(t.0) {
                Option::None => Err(Error::DecodeProtoError),
                Option::Some(h) => {
                    let plain_r = match h.encryption_mode {
                        EncryptionMode::NoEncryption => Ok(t.1),
                        EncryptionMode::ServiceToken => spec_decrypt(sec, t.1),
                        EncryptionMode::SessionKey => match sess {
                            Option::None => Err(Error::NoSessionKey),
                            Option::Some(k) => spec_decrypt(k, t.1),
                        },
                    };
                    match plain_r {
                        Result::Err(e) => Err(e),
                        Result::Ok(p) => {
                            if p.len() != h.decoded_payload_len {
                                Err(
                                    Error::ProtoDataLengthError(
                                        h.decoded_payload_len as usize,
                                        p.len() as usize,
                                    ),
                                )
                            } else {
                                match spec_dec_downstream(p) {
                                    Option::None => Err(Error::DecodeProtoError),
                                    Option::Some(d) => Ok(
                                        (
                                            h,
                                            StreamModel {
                                                command: d.0,
                                                seq_id: d.1 as i64,
                                                payload_data: d.2,
                                                error_code: d.3 as i32,
                                                error_msg: d.4,
                                            },
                                        ),
                                    ),
                                }
                            }
                        },
                    }
                },
            }
        },
    }
}

/// An encrypted body is one IV block plus the PKCS#7-padded plaintext:
/// sixteen more than sixteen times the padded block count, which for a
/// plaintext of `n` bytes is the rounded-up count of `n + 1`.
pub proof fn lemma_ciphertext_size(n: nat)
    ensures
        16 + spec_padded_len(n) == 16 + 16 * ((n + 16) / 16),
{
    vstd::arithmetic::div_mod::lemma_fundamental_div_mod(n as int, 16);
    vstd::arithmetic::div_mod::lemma_fundamental_div_mod_converse(
        n as int + 16,
        16,
        n as int / 16 + 1,
        n as int % 16,
    );
}

/// The frame round-trip: for every encrypted header mode and every
/// plaintext, a sealed frame splits back into its header bytes and body,
/// the header bytes decode to the header that was sealed (so the declared
/// plaintext length is the plaintext's), and the body decrypts back to the
/// plaintext. The premise on `aes_cbc_plain` is exactly what the sealing
/// wrapper's contract gives for the IV and key it used.
pub proof fn lemma_envelope_roundtrip(key: Seq<u8>, iv: Seq<u8>, hm: HeaderModel, pt: Seq<u8>)
    requires
        hm.kpn.len() <= u64::MAX,
        match hm.token {
            Option::Some(t) => t.1.len() + 64 <= u64::MAX,
            Option::None => true,
        },
        spec_enc_header(hm).len() <= u32::MAX,
        hm.decoded_payload_len == pt.len(),
        key.len() == 16,
        iv.len() == 16,
        aes_cbc_plain(key, iv, aes_cbc_cipher(key, iv, pt)) == Some(pt),
        aes_cbc_cipher(key, iv, pt).len() == spec_padded_len(pt.len()),
        16 + spec_padded_len(pt.len()) <= u32::MAX,
    ensures
        ({
            let body = iv + aes_cbc_cipher(key, iv, pt);
            let frame = spec_frame(spec_enc_header(hm), body);
            &&& spec_split_frame(frame) == Some((spec_enc_header(hm), body))
            &&& spec_dec_header(spec_enc_header(hm)) == Some(hm)
            &&& spec_decrypt(key, body) == Ok::<Seq<u8>, Error>(pt)
        }),
{
    let body = iv + aes_cbc_cipher(key, iv, pt);
    lemma_frame_roundtrip(spec_enc_header(hm), body);
    crate::messages::lemma_header_roundtrip(hm);
    assert(body.take(16) =~= iv);
    assert(body.skip(16) =~= aes_cbc_cipher(key, iv, pt));
}

/// The frame round-trip for an unencrypted body: the plaintext itself is
/// the body, and splitting recovers it together with the header.
pub proof fn lemma_envelope_roundtrip_plain(hm: HeaderModel, pt: Seq<u8>)
    requires
        hm.kpn.len() <= u64::MAX,
        match hm.token {
            Option::Some(t) => t.1.len() + 64 <= u64::MAX,
            Option::None => true,
        },
        spec_enc_header(hm).len() <= u32::MAX,
        pt.len() <= u32::MAX,
        hm.decoded_payload_len == pt.len(),
    ensures
        spec_split_frame(spec_frame(spec_enc_header(hm), pt)) == Some((spec_enc_header(hm), pt)),
        spec_dec_header(spec_enc_header(hm)) == Some(hm),
{
    lemma_frame_roundtrip(spec_enc_header(hm), pt);
    crate::messages::lemma_header_roundtrip(hm);
}

impl DanmakuProto {
    /// Decodes one whole inbound message: splits the frame, parses the
    /// header and stores its `app_id` and `seq_id`, decrypts the body under
    /// the header's mode, checks the declared plaintext length, parses the
    /// payload and classifies it.
    #[verifier::rlimit(100)]
    #[verifier::spinoff_prover]
    pub fn decode_frame(&mut self, src: &[u8]) -> (r: Result<Option<ReceiveMessage>, Error>)
        requires
            old(self).wf(),
        ensures
            final(self).wf(),
            final(self).same_identity(*old(self)),
            final(self).seq_id == old(self).seq_id,
            final(self).heartbeat_seq_id == old(self).heartbeat_seq_id,
            (match spec_frame_header(src@) {
                Option::None => final(self).app_id == old(self).app_id && final(self).header_seq_id
                    == old(self).header_seq_id,
                Option::Some(h) => final(self).app_id == h.app_id && final(self).header_seq_id
                    == h.seq_id,
            }),
            ({
                match spec_decode_frame(
                    old(self).security_key@,
                    old(self).spec_session_key(),
                    src@,
                ) {
                    Result::Err(e) => {
                        &&& r == Err::<Option<ReceiveMessage>, Error>(e)
                        &&& final(self).ticket_index == old(self).ticket_index
                        &&& final(self).instance_id == old(self).instance_id
                        &&& final(self).spec_session_key() == old(self).spec_session_key()
                    },
                    Result::Ok(hd) => {
                        let outcome = spec_classify(hd.1);
                        &&& final(self).ticket_index as int == (
                        if outcome.rotates {
                            (old(self).ticket_index + 1) as int % (old(self).tickets@.len() as int)
                        } else {
                            old(self).ticket_index as int
                        })
                        &&& (match outcome.register {
                            Option::Some(t) => final(self).instance_id == t.0 as i64 && final(self).spec_session_key() == Some(t.1),
                            Option::None => final(self).instance_id == old(self).instance_id
                                && final(self).spec_session_key() == old(self).spec_session_key(),
                        })
                        &&& (match outcome.result {
                            Result::Err(e) => r == Err::<Option<ReceiveMessage>, Error>(e),
                            Result::Ok(om) => {
                                match r {
                                    Result::Ok(o) => receive_matches(o, om),
                                    Result::Err(_) => false,
                                }
                            },
                        })
                    },
                }
            }),
    {
        let (hb, body) = match split_frame(src) {
            Ok(t) => t,
            Err(e) => {
                return Err(e);
            },
        };
        let header = match PacketHeader::decode(hb.as_slice()) {
            Some(h) => h,
            None => {
                return Err(Error::DecodeProtoError);
            },
        };
        self.app_id = header.app_id;
        self.header_seq_id = header.seq_id;
        let plain: Vec<u8> = match header.encryption_mode {
            EncryptionMode::NoEncryption => body,
            EncryptionMode::ServiceToken => {
                match decrypt_body(self.security_key.as_slice(), body.as_slice()) {
                    Ok(p) => p,
                    Err(e) => {
                        return Err(e);
                    },
                }
            },
            EncryptionMode::SessionKey => {
                match &self.session_key {
                    Some(k) => {
                        match decrypt_body(k.as_slice(), body.as_slice()) {
                            Ok(p) => p,
                            Err(e) => {
                                return Err(e);
                            },
                        }
                    },
                    None => {
                        return Err(Error::NoSessionKey);
                    },
                }
            },
        };
        if (plain.len() as u64) != (header.decoded_payload_len as u64) {
            return Err(
                Error::ProtoDataLengthError(header.decoded_payload_len as usize, plain.len()),
            );
        }
        let stream = match DownstreamPayload::decode(plain.as_slice()) {
            Some(d) => d,
            None => {
                return Err(Error::DecodeProtoError);
            },
        };
        proof {
            let t = spec_dec_downstream(plain@).unwrap();
            crate::messages::lemma_cast_u64_i64(t.1);
        }
        self.danmaku(&stream)
    }
}

} // verus!
