//! The protocol's messages and their codecs. An encoder writes one
//! canonical shape: every field, in ascending order. A decoder reads the
//! general field grammar (see `shapes`): fields in any order with the last
//! occurrence winning, omitted fields at their defaults, unknown fields
//! skipped, and a known field under the wrong wire type refused. Small
//! messages share a handful of field layouts; the packet header and the
//! register request have layouts of their own.

use vstd::prelude::*;

verus! {

use crate::shapes::{
    field_wrong_bytes, field_wrong_varint, lemma_fields_prepend_bytes,
    lemma_fields_prepend_varint, lemma_has_bytes_iff, lemma_last_bytes_absent,
    lemma_last_bytes_at, lemma_last_varint_absent, lemma_last_varint_at, lemma_wrong_bytes_iff,
    lemma_wrong_varint_iff, spec_all_bytes, spec_fields, spec_field_bytes, spec_field_varint,
    spec_has_bytes, spec_last_bytes, spec_last_varint, write_field_bytes, write_field_varint,
    FieldVal,
};

/// Casting a 64-bit value through `i64` and back is the identity.
pub proof fn lemma_cast_u64_i64(v: u64)
    ensures
        ((v as i64) as u64) == v,
{
    assert(((v as i64) as u64) == v) by (bit_vector);
}

/// Casting an `i64` onto the wire and back is the identity.
pub proof fn lemma_cast_i64_u64(x: i64)
    ensures
        ((x as u64) as i64) == x,
{
    assert(((x as u64) as i64) == x) by (bit_vector);
}

/// Casting an `i32` onto the wire (sign-extended) and back is the identity.
pub proof fn lemma_cast_i32_u64(x: i32)
    ensures
        ((x as u64) as i32) == x,
{
    assert(((x as u64) as i32) == x) by (bit_vector);
}

/// Casting a `u32` onto the wire and back is the identity.
pub proof fn lemma_cast_u32_u64(x: u32)
    ensures
        ((x as u64) as u32) == x,
{
    assert(((x as u64) as u32) == x) by (bit_vector);
}

// ---------- layout: one varint field ----------

pub open spec fn spec_enc_v(v: u64) -> Seq<u8> {
    spec_field_varint(1, v)
}

pub open spec fn spec_dec_v(s: Seq<u8>) -> Option<u64> {
    match spec_fields(s) {
        Option::None => None,
        Option::Some(fs) => {
            if field_wrong_varint(fs, 1) {
                None
            } else {
                Some(spec_last_varint(fs, 1))
            }
        },
    }
}

pub proof fn lemma_v_roundtrip(v: u64)
    ensures
        spec_dec_v(spec_enc_v(v)) == Some(v),
{
    assert(spec_field_varint(1, v) + Seq::<u8>::empty() =~= spec_enc_v(v));
    lemma_fields_prepend_varint(1, v, Seq::empty());
    let fs = seq![(1u64, FieldVal::Varint(v))];
    assert(seq![(1u64, FieldVal::Varint(v))] + Seq::<(u64, FieldVal)>::empty() =~= fs);
    lemma_wrong_varint_iff(fs, 1);
    lemma_last_varint_at(fs, 1, 0, v);
}

pub fn enc_v(v: u64) -> (r: Vec<u8>)
    ensures
        r@ == spec_enc_v(v),
{
    let mut out: Vec<u8> = Vec::new();
    write_field_varint(&mut out, 1, v);
    proof {
        assert(out@ =~= spec_enc_v(v));
    }
    out
}

pub fn dec_v(buf: &[u8]) -> (r: Option<u64>)
    ensures
        r == spec_dec_v(buf@),
{
    let v = match crate::shapes::read_fields(buf) {
        Some(v) => v,
        None => {
            return None;
        },
    };
    let ghost fs = spec_fields(buf@).unwrap();
    if crate::shapes::vec_wrong_varint(&v, 1, Ghost(fs)) {
        return None;
    }
    Some(crate::shapes::vec_last_varint(&v, 1, Ghost(fs)))
}

// ---------- layout: two varint fields ----------

pub open spec fn spec_enc_vv(v1: u64, v2: u64) -> Seq<u8> {
    spec_field_varint(1, v1) + spec_field_varint(2, v2)
}

pub open spec fn spec_dec_vv(s: Seq<u8>) -> Option<(u64, u64)> {
    match spec_fields(s) {
        Option::None => None,
        Option::Some(fs) => {
            if field_wrong_varint(fs, 1) || field_wrong_varint(fs, 2) {
                None
            } else {
                Some((spec_last_varint(fs, 1), spec_last_varint(fs, 2)))
            }
        },
    }
}

pub proof fn lemma_vv_roundtrip(v1: u64, v2: u64)
    ensures
        spec_dec_vv(spec_enc_vv(v1, v2)) == Some((v1, v2)),
{
    let e2 = spec_field_varint(2, v2);
    assert(e2 + Seq::<u8>::empty() =~= e2);
    lemma_fields_prepend_varint(2, v2, Seq::empty());
    assert(spec_enc_vv(v1, v2) =~= spec_field_varint(1, v1) + e2);
    lemma_fields_prepend_varint(1, v1, e2);
    let fs = seq![(1u64, FieldVal::Varint(v1)), (2u64, FieldVal::Varint(v2))];
    assert(spec_fields(spec_enc_vv(v1, v2)) == Some(fs)) by {
        assert(seq![(2u64, FieldVal::Varint(v2))] + Seq::<(u64, FieldVal)>::empty() =~= seq![
            (2u64, FieldVal::Varint(v2)),
        ]);
        assert(seq![(1u64, FieldVal::Varint(v1))] + seq![(2u64, FieldVal::Varint(v2))] =~= fs);
    }
    lemma_wrong_varint_iff(fs, 1);
    lemma_wrong_varint_iff(fs, 2);
    lemma_last_varint_at(fs, 1, 0, v1);
    lemma_last_varint_at(fs, 2, 1, v2);
}

pub fn enc_vv(v1: u64, v2: u64) -> (r: Vec<u8>)
    ensures
        r@ == spec_enc_vv(v1, v2),
{
    let mut out: Vec<u8> = Vec::new();
    write_field_varint(&mut out, 1, v1);
    write_field_varint(&mut out, 2, v2);
    proof {
        assert(out@ =~= spec_enc_vv(v1, v2));
    }
    out
}

pub fn dec_vv(buf: &[u8]) -> (r: Option<(u64, u64)>)
    ensures
        r == spec_dec_vv(buf@),
{
    let v = match crate::shapes::read_fields(buf) {
        Some(v) => v,
        None => {
            return None;
        },
    };
    let ghost fs = spec_fields(buf@).unwrap();
    if crate::shapes::vec_wrong_varint(&v, 1, Ghost(fs)) || crate::shapes::vec_wrong_varint(
        &v,
        2,
        Ghost(fs),
    ) {
        return None;
    }
    Some(
        (
            crate::shapes::vec_last_varint(&v, 1, Ghost(fs)),
            crate::shapes::vec_last_varint(&v, 2, Ghost(fs)),
        ),
    )
}

// ---------- layout: one byte field ----------

pub open spec fn spec_enc_b(b: Seq<u8>) -> Seq<u8> {
    spec_field_bytes(1, b)
}

pub open spec fn spec_dec_b(s: Seq<u8>) -> Option<Seq<u8>> {
    match spec_fields(s) {
        Option::None => None,
        Option::Some(fs) => {
            if field_wrong_bytes(fs, 1) {
                None
            } else {
                Some(spec_last_bytes(fs, 1))
            }
        },
    }
}

pub proof fn lemma_b_roundtrip(b: Seq<u8>)
    requires
        b.len() <= u64::MAX,
    ensures
        spec_dec_b(spec_enc_b(b)) == Some(b),
{
    assert(spec_field_bytes(1, b) + Seq::<u8>::empty() =~= spec_enc_b(b));
    lemma_fields_prepend_bytes(1, b, Seq::empty());
    let fs = seq![(1u64, FieldVal::Bytes(b))];
    assert(seq![(1u64, FieldVal::Bytes(b))] + Seq::<(u64, FieldVal)>::empty() =~= fs);
    lemma_wrong_bytes_iff(fs, 1);
    lemma_last_bytes_at(fs, 1, 0, b);
}

pub fn enc_b(b: &[u8]) -> (r: Vec<u8>)
    ensures
        r@ == spec_enc_b(b@),
{
    let mut out: Vec<u8> = Vec::new();
    write_field_bytes(&mut out, 1, b);
    proof {
        assert(out@ =~= spec_enc_b(b@));
    }
    out
}

pub fn dec_b(buf: &[u8]) -> (r: Option<Vec<u8>>)
    ensures
        match spec_dec_b(buf@) {
            Option::None => r is None,
            Option::Some(t) => {
                match r {
                    Option::Some(v) => v@ == t,
                    Option::None => false,
                }
            },
        },
{
    let v = match crate::shapes::read_fields(buf) {
        Some(v) => v,
        None => {
            return None;
        },
    };
    let ghost fs = spec_fields(buf@).unwrap();
    if crate::shapes::vec_wrong_bytes(&v, 1, Ghost(fs)) {
        return None;
    }
    Some(crate::shapes::vec_last_bytes(&v, 1, Ghost(fs)))
}

// ---------- layout: two byte fields ----------

pub open spec fn spec_enc_bb(b1: Seq<u8>, b2: Seq<u8>) -> Seq<u8> {
    spec_field_bytes(1, b1) + spec_field_bytes(2, b2)
}

pub open spec fn spec_dec_bb(s: Seq<u8>) -> Option<(Seq<u8>, Seq<u8>)> {
    match spec_fields(s) {
        Option::None => None,
        Option::Some(fs) => {
            if field_wrong_bytes(fs, 1) || field_wrong_bytes(fs, 2) {
                None
            } else {
                Some((spec_last_bytes(fs, 1), spec_last_bytes(fs, 2)))
            }
        },
    }
}

pub proof fn lemma_bb_roundtrip(b1: Seq<u8>, b2: Seq<u8>)
    requires
        b1.len() <= u64::MAX,
        b2.len() <= u64::MAX,
    ensures
        spec_dec_bb(spec_enc_bb(b1, b2)) == Some((b1, b2)),
{
    let e2 = spec_field_bytes(2, b2);
    assert(e2 + Seq::<u8>::empty() =~= e2);
    lemma_fields_prepend_bytes(2, b2, Seq::empty());
    assert(spec_enc_bb(b1, b2) =~= spec_field_bytes(1, b1) + e2);
    lemma_fields_prepend_bytes(1, b1, e2);
    let fs = seq![(1u64, FieldVal::Bytes(b1)), (2u64, FieldVal::Bytes(b2))];
    assert(spec_fields(spec_enc_bb(b1, b2)) == Some(fs)) by {
        assert(seq![(2u64, FieldVal::Bytes(b2))] + Seq::<(u64, FieldVal)>::empty() =~= seq![
            (2u64, FieldVal::Bytes(b2)),
        ]);
        assert(seq![(1u64, FieldVal::Bytes(b1))] + seq![(2u64, FieldVal::Bytes(b2))] =~= fs);
    }
    lemma_wrong_bytes_iff(fs, 1);
    lemma_wrong_bytes_iff(fs, 2);
    lemma_last_bytes_at(fs, 1, 0, b1);
    lemma_last_bytes_at(fs, 2, 1, b2);
}

pub fn enc_bb(b1: &[u8], b2: &[u8]) -> (r: Vec<u8>)
    ensures
        r@ == spec_enc_bb(b1@, b2@),
{
    let mut out: Vec<u8> = Vec::new();
    write_field_bytes(&mut out, 1, b1);
    write_field_bytes(&mut out, 2, b2);
    proof {
        assert(out@ =~= spec_enc_bb(b1@, b2@));
    }
    out
}

pub fn dec_bb(buf: &[u8]) -> (r: Option<(Vec<u8>, Vec<u8>)>)
    ensures
        match spec_dec_bb(buf@) {
            Option::None => r is None,
            Option::Some(t) => {
                match r {
                    Option::Some(p) => p.0@ == t.0 && p.1@ == t.1,
                    Option::None => false,
                }
            },
        },
{
    let v = match crate::shapes::read_fields(buf) {
        Some(v) => v,
        None => {
            return None;
        },
    };
    let ghost fs = spec_fields(buf@).unwrap();
    if crate::shapes::vec_wrong_bytes(&v, 1, Ghost(fs)) || crate::shapes::vec_wrong_bytes(
        &v,
        2,
        Ghost(fs),
    ) {
        return None;
    }
    Some(
        (
            crate::shapes::vec_last_bytes(&v, 1, Ghost(fs)),
            crate::shapes::vec_last_bytes(&v, 2, Ghost(fs)),
        ),
    )
}

// ---------- layout: a varint field, then a byte field ----------

pub open spec fn spec_enc_vb(v: u64, b: Seq<u8>) -> Seq<u8> {
    spec_field_varint(1, v) + spec_field_bytes(2, b)
}

pub open spec fn spec_dec_vb(s: Seq<u8>) -> Option<(u64, Seq<u8>)> {
    match spec_fields(s) {
        Option::None => None,
        Option::Some(fs) => {
            if field_wrong_varint(fs, 1) || field_wrong_bytes(fs, 2) {
                None
            } else {
                Some((spec_last_varint(fs, 1), spec_last_bytes(fs, 2)))
            }
        },
    }
}

pub proof fn lemma_vb_roundtrip(v: u64, b: Seq<u8>)
    requires
        b.len() <= u64::MAX,
    ensures
        spec_dec_vb(spec_enc_vb(v, b)) == Some((v, b)),
{
    let e2 = spec_field_bytes(2, b);
    assert(e2 + Seq::<u8>::empty() =~= e2);
    lemma_fields_prepend_bytes(2, b, Seq::empty());
    assert(spec_enc_vb(v, b) =~= spec_field_varint(1, v) + e2);
    lemma_fields_prepend_varint(1, v, e2);
    let fs = seq![(1u64, FieldVal::Varint(v)), (2u64, FieldVal::Bytes(b))];
    assert(spec_fields(spec_enc_vb(v, b)) == Some(fs)) by {
        assert(seq![(2u64, FieldVal::Bytes(b))] + Seq::<(u64, FieldVal)>::empty() =~= seq![
            (2u64, FieldVal::Bytes(b)),
        ]);
        assert(seq![(1u64, FieldVal::Varint(v))] + seq![(2u64, FieldVal::Bytes(b))] =~= fs);
    }
    lemma_wrong_varint_iff(fs, 1);
    lemma_wrong_bytes_iff(fs, 2);
    lemma_last_varint_at(fs, 1, 0, v);
    lemma_last_bytes_at(fs, 2, 1, b);
}

pub fn enc_vb(v: u64, b: &[u8]) -> (r: Vec<u8>)
    ensures
        r@ == spec_enc_vb(v, b@),
{
    let mut out: Vec<u8> = Vec::new();
    write_field_varint(&mut out, 1, v);
    write_field_bytes(&mut out, 2, b);
    proof {
        assert(out@ =~= spec_enc_vb(v, b@));
    }
    out
}

pub fn dec_vb(buf: &[u8]) -> (r: Option<(u64, Vec<u8>)>)
    ensures
        match spec_dec_vb(buf@) {
            Option::None => r is None,
            Option::Some(t) => {
                match r {
                    Option::Some(p) => p.0 == t.0 && p.1@ == t.1,
                    Option::None => false,
                }
            },
        },
{
    let v = match crate::shapes::read_fields(buf) {
        Some(v) => v,
        None => {
            return None;
        },
    };
    let ghost fs = spec_fields(buf@).unwrap();
    if crate::shapes::vec_wrong_varint(&v, 1, Ghost(fs)) || crate::shapes::vec_wrong_bytes(
        &v,
        2,
        Ghost(fs),
    ) {
        return None;
    }
    Some(
        (
            crate::shapes::vec_last_varint(&v, 1, Ghost(fs)),
            crate::shapes::vec_last_bytes(&v, 2, Ghost(fs)),
        ),
    )
}

// ---------- protocol messages on the shared layouts ----------

/// The credential attached to the register frame's header.
#[derive(Clone, Debug, PartialEq, Eq)]
pub struct TokenInfo {
    pub token_type: i32,
    pub token: Vec<u8>,
}

impl TokenInfo {
    pub open spec fn spec_enc(self) -> Seq<u8> {
        spec_enc_vb(self.token_type as u64, self.token@)
    }

    pub fn encode(&self) -> (r: Vec<u8>)
        ensures
            r@ == self.spec_enc(),
    {
        enc_vb(self.token_type as u64, self.token.as_slice())
    }
}

/// The server's reply to a register frame: the instance and the session key.
#[derive(Clone, Debug, PartialEq, Eq)]
pub struct RegisterResponse {
    pub instance_id: i64,
    pub sess_key: Vec<u8>,
}

impl RegisterResponse {
    pub open spec fn spec_enc(self) -> Seq<u8> {
        spec_enc_vb(self.instance_id as u64, self.sess_key@)
    }

    pub fn encode(&self) -> (r: Vec<u8>)
        ensures
            r@ == self.spec_enc(),
    {
        enc_vb(self.instance_id as u64, self.sess_key.as_slice())
    }

    pub fn decode(buf: &[u8]) -> (r: Option<Self>)
        ensures
            match spec_dec_vb(buf@) {
                Option::None => r is None,
                Option::Some(t) => {
                    match r {
                        Option::Some(m) => m.instance_id == t.0 as i64 && m.sess_key@ == t.1,
                        Option::None => false,
                    }
                },
            },
    {
        match dec_vb(buf) {
            None => None,
            Some((v, b)) => Some(RegisterResponse { instance_id: v as i64, sess_key: b }),
        }
    }
}

/// The device description sent inside the register request.
#[derive(Clone, Debug, PartialEq, Eq)]
pub struct DeviceInfo {
    pub platform_type: i32,
    pub device_model: Vec<u8>,
}

impl DeviceInfo {
    pub open spec fn spec_enc(self) -> Seq<u8> {
        spec_enc_vb(self.platform_type as u64, self.device_model@)
    }

    pub fn encode(&self) -> (r: Vec<u8>)
        ensures
            r@ == self.spec_enc(),
    {
        enc_vb(self.platform_type as u64, self.device_model.as_slice())
    }
}

/// The client software description sent inside the register request.
#[derive(Clone, Debug, PartialEq, Eq)]
pub struct AppInfo {
    pub sdk_version: Vec<u8>,
    pub link_version: Vec<u8>,
}

impl AppInfo {
    pub open spec fn spec_enc(self) -> Seq<u8> {
        spec_enc_bb(self.sdk_version@, self.link_version@)
    }

    pub fn encode(&self) -> (r: Vec<u8>)
        ensures
            r@ == self.spec_enc(),
    {
        enc_bb(self.sdk_version.as_slice(), self.link_version.as_slice())
    }
}

/// The acknowledgement of an interactive command.
#[derive(Clone, Debug, PartialEq, Eq)]
pub struct ZtLiveCsCmdAck {
    pub cmd_ack_type: Vec<u8>,
    pub payload: Vec<u8>,
}

impl ZtLiveCsCmdAck {
    pub open spec fn spec_enc(self) -> Seq<u8> {
        spec_enc_bb(self.cmd_ack_type@, self.payload@)
    }

    pub fn encode(&self) -> (r: Vec<u8>)
        ensures
            r@ == self.spec_enc(),
    {
        enc_bb(self.cmd_ack_type.as_slice(), self.payload.as_slice())
    }

    pub fn decode(buf: &[u8]) -> (r: Option<Self>)
        ensures
            match spec_dec_bb(buf@) {
                Option::None => r is None,
                Option::Some(t) => {
                    match r {
                        Option::Some(m) => m.cmd_ack_type@ == t.0 && m.payload@ == t.1,
                        Option::None => false,
                    }
                },
            },
    {
        match dec_bb(buf) {
            None => None,
            Some((a, p)) => Some(ZtLiveCsCmdAck { cmd_ack_type: a, payload: p }),
        }
    }
}

/// The enter-room command's body.
#[derive(Clone, Debug, PartialEq, Eq)]
pub struct ZtLiveCsEnterRoom {
    pub enter_room_attach: Vec<u8>,
    pub client_live_sdk_version: Vec<u8>,
}

impl ZtLiveCsEnterRoom {
    pub open spec fn spec_enc(self) -> Seq<u8> {
        spec_enc_bb(self.enter_room_attach@, self.client_live_sdk_version@)
    }

    pub fn encode(&self) -> (r: Vec<u8>)
        ensures
            r@ == self.spec_enc(),
    {
        enc_bb(self.enter_room_attach.as_slice(), self.client_live_sdk_version.as_slice())
    }

    pub fn decode(buf: &[u8]) -> (r: Option<Self>)
        ensures
            match spec_dec_bb(buf@) {
                Option::None => r is None,
                Option::Some(t) => {
                    match r {
                        Option::Some(m) => m.enter_room_attach@ == t.0
                            && m.client_live_sdk_version@ == t.1,
                        Option::None => false,
                    }
                },
            },
    {
        match dec_bb(buf) {
            None => None,
            Some((a, s)) => Some(ZtLiveCsEnterRoom { enter_room_attach: a, client_live_sdk_version: s }),
        }
    }
}

/// The keep-alive request: presence and activity status.
#[derive(Clone, Debug, PartialEq, Eq)]
pub struct KeepAliveRequest {
    pub presence_status: i32,
    pub app_active_status: i32,
}

impl KeepAliveRequest {
    pub open spec fn spec_enc(self) -> Seq<u8> {
        spec_enc_vv(self.presence_status as u64, self.app_active_status as u64)
    }

    pub fn encode(&self) -> (r: Vec<u8>)
        ensures
            r@ == self.spec_enc(),
    {
        enc_vv(self.presence_status as u64, self.app_active_status as u64)
    }
}

/// The heartbeat command's body: a timestamp and a running count.
#[derive(Clone, Debug, PartialEq, Eq)]
pub struct ZtLiveCsHeartbeat {
    pub client_timestamp_ms: i64,
    pub sequence: i64,
}

impl ZtLiveCsHeartbeat {
    pub open spec fn spec_enc(self) -> Seq<u8> {
        spec_enc_vv(self.client_timestamp_ms as u64, self.sequence as u64)
    }

    pub fn encode(&self) -> (r: Vec<u8>)
        ensures
            r@ == self.spec_enc(),
    {
        enc_vv(self.client_timestamp_ms as u64, self.sequence as u64)
    }

    pub fn decode(buf: &[u8]) -> (r: Option<Self>)
        ensures
            match spec_dec_vv(buf@) {
                Option::None => r is None,
                Option::Some(t) => {
                    match r {
                        Option::Some(m) => m.client_timestamp_ms == t.0 as i64 && m.sequence
                            == t.1 as i64,
                        Option::None => false,
                    }
                },
            },
    {
        match dec_vv(buf) {
            None => None,
            Some((ts, sq)) => Some(ZtLiveCsHeartbeat { client_timestamp_ms: ts as i64, sequence: sq as i64 }),
        }
    }
}

/// The enter-room acknowledgement: the server's heartbeat interval.
#[derive(Clone, Debug, PartialEq, Eq)]
pub struct ZtLiveCsEnterRoomAck {
    pub heartbeat_interval_ms: i64,
}

impl ZtLiveCsEnterRoomAck {
    pub open spec fn spec_enc(self) -> Seq<u8> {
        spec_enc_v(self.heartbeat_interval_ms as u64)
    }

    pub fn encode(&self) -> (r: Vec<u8>)
        ensures
            r@ == self.spec_enc(),
    {
        enc_v(self.heartbeat_interval_ms as u64)
    }

    pub fn decode(buf: &[u8]) -> (r: Option<Self>)
        ensures
            match spec_dec_v(buf@) {
                Option::None => r is None,
                Option::Some(t) => {
                    match r {
                        Option::Some(m) => m.heartbeat_interval_ms == t as i64,
                        Option::None => false,
                    }
                },
            },
    {
        match dec_v(buf) {
            None => None,
            Some(v) => Some(ZtLiveCsEnterRoomAck { heartbeat_interval_ms: v as i64 }),
        }
    }
}

/// A live-state change pushed by the server.
pub const STATUS_LIVE_CLOSED: i32 = 1;

pub const STATUS_LIVE_BANNED: i32 = 2;

#[derive(Clone, Debug, PartialEq, Eq)]
pub struct ZtLiveScStatusChanged {
    pub status_type: i32,
}

impl ZtLiveScStatusChanged {
    pub open spec fn spec_enc(self) -> Seq<u8> {
        spec_enc_v(self.status_type as u64)
    }

    pub fn encode(&self) -> (r: Vec<u8>)
        ensures
            r@ == self.spec_enc(),
    {
        enc_v(self.status_type as u64)
    }

    pub fn decode(buf: &[u8]) -> (r: Option<Self>)
        ensures
            match spec_dec_v(buf@) {
                Option::None => r is None,
                Option::Some(t) => {
                    match r {
                        Option::Some(m) => m.status_type == t as i32,
                        Option::None => false,
                    }
                },
            },
    {
        match dec_v(buf) {
            None => None,
            Some(v) => Some(ZtLiveScStatusChanged { status_type: v as i32 }),
        }
    }
}

// ---------- the common platform block inside the register request ----------

#[derive(Clone, Debug, PartialEq, Eq)]
pub struct ZtCommonInfo {
    pub kpn: Vec<u8>,
    pub kpf: Vec<u8>,
    pub uid: i64,
}

impl ZtCommonInfo {
    pub open spec fn spec_enc(self) -> Seq<u8> {
        spec_field_bytes(1, self.kpn@) + spec_field_bytes(2, self.kpf@) + spec_field_varint(
            3,
            self.uid as u64,
        )
    }

    pub fn encode(&self) -> (r: Vec<u8>)
        ensures
            r@ == self.spec_enc(),
    {
        let mut out: Vec<u8> = Vec::new();
        write_field_bytes(&mut out, 1, self.kpn.as_slice());
        write_field_bytes(&mut out, 2, self.kpf.as_slice());
        write_field_varint(&mut out, 3, self.uid as u64);
        proof {
            assert(out@ =~= self.spec_enc());
        }
        out
    }
}

// ---------- the interactive command envelope ----------

pub open spec fn spec_enc_cmd(cmd_type: Seq<u8>, ticket: Seq<u8>, live_id: Seq<u8>, payload: Seq<
    u8,
>) -> Seq<u8> {
    spec_field_bytes(1, cmd_type) + spec_field_bytes(2, ticket) + spec_field_bytes(3, live_id)
        + spec_field_bytes(4, payload)
}

pub open spec fn spec_dec_cmd(s: Seq<u8>) -> Option<(Seq<u8>, Seq<u8>, Seq<u8>, Seq<u8>)> {
    match spec_fields(s) {
        Option::None => None,
        Option::Some(fs) => {
            if field_wrong_bytes(fs, 1) || field_wrong_bytes(fs, 2) || field_wrong_bytes(fs, 3) || field_wrong_bytes(fs, 4) {
                None
            } else {
                Some((spec_last_bytes(fs, 1), spec_last_bytes(fs, 2), spec_last_bytes(fs, 3), spec_last_bytes(fs, 4)))
            }
        },
    }
}

pub proof fn lemma_cmd_roundtrip(cmd_type: Seq<u8>, ticket: Seq<u8>, live_id: Seq<u8>, payload: Seq<
    u8,
>)
    requires
        cmd_type.len() <= u64::MAX,
        ticket.len() <= u64::MAX,
        live_id.len() <= u64::MAX,
        payload.len() <= u64::MAX,
    ensures
        spec_dec_cmd(spec_enc_cmd(cmd_type, ticket, live_id, payload)) == Some((cmd_type, ticket, live_id, payload)),
{
    let s3 = spec_field_bytes(4, payload);
    assert(spec_field_bytes(4, payload) + Seq::<u8>::empty() =~= s3);
    lemma_fields_prepend_bytes(4, payload, Seq::empty());
    let s2 = spec_field_bytes(3, live_id) + s3;
    lemma_fields_prepend_bytes(3, live_id, s3);
    let s1 = spec_field_bytes(2, ticket) + s2;
    lemma_fields_prepend_bytes(2, ticket, s2);
    let s0 = spec_field_bytes(1, cmd_type) + s1;
    lemma_fields_prepend_bytes(1, cmd_type, s1);
    assert(spec_enc_cmd(cmd_type, ticket, live_id, payload) =~= s0);
    let fs = seq![(1u64, FieldVal::Bytes(cmd_type)), (2u64, FieldVal::Bytes(ticket)), (3u64, FieldVal::Bytes(live_id)), (4u64, FieldVal::Bytes(payload))];
    assert(spec_fields(s0) == Some(fs)) by {
        assert(seq![(4u64, FieldVal::Bytes(payload))] + Seq::<(u64, FieldVal)>::empty() =~= seq![(4u64, FieldVal::Bytes(payload))]);
        assert(seq![(3u64, FieldVal::Bytes(live_id))] + seq![(4u64, FieldVal::Bytes(payload))] =~= seq![(3u64, FieldVal::Bytes(live_id)), (4u64, FieldVal::Bytes(payload))]);
        assert(seq![(2u64, FieldVal::Bytes(ticket))] + seq![(3u64, FieldVal::Bytes(live_id)), (4u64, FieldVal::Bytes(payload))] =~= seq![(2u64, FieldVal::Bytes(ticket)), (3u64, FieldVal::Bytes(live_id)), (4u64, FieldVal::Bytes(payload))]);
        assert(seq![(1u64, FieldVal::Bytes(cmd_type))] + seq![(2u64, FieldVal::Bytes(ticket)), (3u64, FieldVal::Bytes(live_id)), (4u64, FieldVal::Bytes(payload))] =~= seq![(1u64, FieldVal::Bytes(cmd_type)), (2u64, FieldVal::Bytes(ticket)), (3u64, FieldVal::Bytes(live_id)), (4u64, FieldVal::Bytes(payload))]);
    }
    lemma_wrong_bytes_iff(fs, 1);
    lemma_wrong_bytes_iff(fs, 2);
    lemma_wrong_bytes_iff(fs, 3);
    lemma_wrong_bytes_iff(fs, 4);
    lemma_last_bytes_at(fs, 1, 0, cmd_type);
    lemma_last_bytes_at(fs, 2, 1, ticket);
    lemma_last_bytes_at(fs, 3, 2, live_id);
    lemma_last_bytes_at(fs, 4, 3, payload);
}

pub fn dec_cmd(buf: &[u8]) -> (r: Option<(Vec<u8>, Vec<u8>, Vec<u8>, Vec<u8>)>)
    ensures
        match spec_dec_cmd(buf@) {
            Option::None => r is None,
            Option::Some(t) => {
                match r {
                    Option::Some(p) => p.0@ == t.0 && p.1@ == t.1 && p.2@ == t.2 && p.3@ == t.3,
                    Option::None => false,
                }
            },
        },
{
    let v = match crate::shapes::read_fields(buf) {
        Some(v) => v,
        None => {
            return None;
        },
    };
    let ghost fs = spec_fields(buf@).unwrap();
    if crate::shapes::vec_wrong_bytes(&v, 1, Ghost(fs)) || crate::shapes::vec_wrong_bytes(
        &v,
        2,
        Ghost(fs),
    ) || crate::shapes::vec_wrong_bytes(&v, 3, Ghost(fs)) || crate::shapes::vec_wrong_bytes(
        &v,
        4,
        Ghost(fs),
    ) {
        return None;
    }
    Some(
        (
            crate::shapes::vec_last_bytes(&v, 1, Ghost(fs)),
            crate::shapes::vec_last_bytes(&v, 2, Ghost(fs)),
            crate::shapes::vec_last_bytes(&v, 3, Ghost(fs)),
            crate::shapes::vec_last_bytes(&v, 4, Ghost(fs)),
        ),
    )
}

/// The interactive command wrapper: a command name, the room ticket, the
/// live id and the command's own body.
#[derive(Clone, Debug, PartialEq, Eq)]
pub struct ZtLiveCsCmd {
    pub cmd_type: Vec<u8>,
    pub ticket: Vec<u8>,
    pub live_id: Vec<u8>,
    pub payload: Vec<u8>,
}

impl ZtLiveCsCmd {
    pub open spec fn spec_enc(self) -> Seq<u8> {
        spec_enc_cmd(self.cmd_type@, self.ticket@, self.live_id@, self.payload@)
    }

    pub fn encode(&self) -> (r: Vec<u8>)
        ensures
            r@ == self.spec_enc(),
    {
        let mut out: Vec<u8> = Vec::new();
        write_field_bytes(&mut out, 1, self.cmd_type.as_slice());
        write_field_bytes(&mut out, 2, self.ticket.as_slice());
        write_field_bytes(&mut out, 3, self.live_id.as_slice());
        write_field_bytes(&mut out, 4, self.payload.as_slice());
        proof {
            assert(out@ =~= self.spec_enc());
        }
        out
    }

    pub fn decode(buf: &[u8]) -> (r: Option<Self>)
        ensures
            match spec_dec_cmd(buf@) {
                Option::None => r is None,
                Option::Some(t) => {
                    match r {
                        Option::Some(m) => m.cmd_type@ == t.0 && m.ticket@ == t.1 && m.live_id@
                            == t.2 && m.payload@ == t.3,
                        Option::None => false,
                    }
                },
            },
    {
        match dec_cmd(buf) {
            None => None,
            Some((cmd_type, ticket, live_id, payload)) => Some(
                ZtLiveCsCmd { cmd_type, ticket, live_id, payload },
            ),
        }
    }
}

// ---------- the push envelope ----------

pub const COMPRESSION_NONE: i32 = 1;

pub const COMPRESSION_GZIP: i32 = 2;

pub open spec fn spec_enc_sc_message(message_type: Seq<u8>, compression_type: u64, payload: Seq<
    u8,
>) -> Seq<u8> {
    spec_field_bytes(1, message_type) + spec_field_varint(2, compression_type) + spec_field_bytes(
        3,
        payload,
    )
}

pub open spec fn spec_dec_sc_message(s: Seq<u8>) -> Option<(Seq<u8>, u64, Seq<u8>)> {
    match spec_fields(s) {
        Option::None => None,
        Option::Some(fs) => {
            if field_wrong_bytes(fs, 1) || field_wrong_varint(fs, 2) || field_wrong_bytes(fs, 3) {
                None
            } else {
                Some((spec_last_bytes(fs, 1), spec_last_varint(fs, 2), spec_last_bytes(fs, 3)))
            }
        },
    }
}

pub proof fn lemma_sc_message_roundtrip(message_type: Seq<u8>, compression_type: u64, payload: Seq<
    u8,
>)
    requires
        message_type.len() <= u64::MAX,
        payload.len() <= u64::MAX,
    ensures
        spec_dec_sc_message(spec_enc_sc_message(message_type, compression_type, payload)) == Some((message_type, compression_type, payload)),
{
    let s2 = spec_field_bytes(3, payload);
    assert(spec_field_bytes(3, payload) + Seq::<u8>::empty() =~= s2);
    lemma_fields_prepend_bytes(3, payload, Seq::empty());
    let s1 = spec_field_varint(2, compression_type) + s2;
    lemma_fields_prepend_varint(2, compression_type, s2);
    let s0 = spec_field_bytes(1, message_type) + s1;
    lemma_fields_prepend_bytes(1, message_type, s1);
    assert(spec_enc_sc_message(message_type, compression_type, payload) =~= s0);
    let fs = seq![(1u64, FieldVal::Bytes(message_type)), (2u64, FieldVal::Varint(compression_type)), (3u64, FieldVal::Bytes(payload))];
    assert(spec_fields(s0) == Some(fs)) by {
        assert(seq![(3u64, FieldVal::Bytes(payload))] + Seq::<(u64, FieldVal)>::empty() =~= seq![(3u64, FieldVal::Bytes(payload))]);
        assert(seq![(2u64, FieldVal::Varint(compression_type))] + seq![(3u64, FieldVal::Bytes(payload))] =~= seq![(2u64, FieldVal::Varint(compression_type)), (3u64, FieldVal::Bytes(payload))]);
        assert(seq![(1u64, FieldVal::Bytes(message_type))] + seq![(2u64, FieldVal::Varint(compression_type)), (3u64, FieldVal::Bytes(payload))] =~= seq![(1u64, FieldVal::Bytes(message_type)), (2u64, FieldVal::Varint(compression_type)), (3u64, FieldVal::Bytes(payload))]);
    }
    lemma_wrong_bytes_iff(fs, 1);
    lemma_wrong_varint_iff(fs, 2);
    lemma_wrong_bytes_iff(fs, 3);
    lemma_last_bytes_at(fs, 1, 0, message_type);
    lemma_last_varint_at(fs, 2, 1, compression_type);
    lemma_last_bytes_at(fs, 3, 2, payload);
}

/// One pushed message: a type name, a compression flag, and the body.
#[derive(Clone, Debug, PartialEq, Eq)]
pub struct ZtLiveScMessage {
    pub message_type: Vec<u8>,
    pub compression_type: i32,
    pub payload: Vec<u8>,
}

impl ZtLiveScMessage {
    pub open spec fn spec_enc(self) -> Seq<u8> {
        spec_enc_sc_message(self.message_type@, self.compression_type as u64, self.payload@)
    }

    pub fn encode(&self) -> (r: Vec<u8>)
        ensures
            r@ == self.spec_enc(),
    {
        let mut out: Vec<u8> = Vec::new();
        write_field_bytes(&mut out, 1, self.message_type.as_slice());
        write_field_varint(&mut out, 2, self.compression_type as u64);
        write_field_bytes(&mut out, 3, self.payload.as_slice());
        proof {
            assert(out@ =~= self.spec_enc());
        }
        out
    }

    pub fn decode(buf: &[u8]) -> (r: Option<Self>)
        ensures
            match spec_dec_sc_message(buf@) {
                Option::None => r is None,
                Option::Some(t) => {
                    match r {
                        Option::Some(m) => m.message_type@ == t.0 && m.compression_type == t.1
                            as i32 && m.payload@ == t.2,
                        Option::None => false,
                    }
                },
            },
    {
        let v = match crate::shapes::read_fields(buf) {
            Some(v) => v,
            None => {
                return None;
            },
        };
        let ghost fs = spec_fields(buf@).unwrap();
        if crate::shapes::vec_wrong_bytes(&v, 1, Ghost(fs)) || crate::shapes::vec_wrong_varint(
            &v,
            2,
            Ghost(fs),
        ) || crate::shapes::vec_wrong_bytes(&v, 3, Ghost(fs)) {
            return None;
        }
        Some(
            ZtLiveScMessage {
                message_type: crate::shapes::vec_last_bytes(&v, 1, Ghost(fs)),
                compression_type: crate::shapes::vec_last_varint(&v, 2, Ghost(fs)) as i32,
                payload: crate::shapes::vec_last_bytes(&v, 3, Ghost(fs)),
            },
        )
    }
}

// ---------- the upstream and downstream payloads ----------

pub open spec fn spec_enc_upstream(
    command: Seq<u8>,
    seq_id: u64,
    retry_count: u64,
    sub_biz: Seq<u8>,
    payload_data: Seq<u8>,
) -> Seq<u8> {
    spec_field_bytes(1, command) + spec_field_varint(2, seq_id) + spec_field_varint(3, retry_count)
        + spec_field_bytes(4, sub_biz) + spec_field_bytes(5, payload_data)
}

pub open spec fn spec_dec_upstream(s: Seq<u8>) -> Option<(Seq<u8>, u64, u64, Seq<u8>, Seq<u8>)> {
    match spec_fields(s) {
        Option::None => None,
        Option::Some(fs) => {
            if field_wrong_bytes(fs, 1) || field_wrong_varint(fs, 2) || field_wrong_varint(fs, 3) || field_wrong_bytes(fs, 4) || field_wrong_bytes(fs, 5) {
                None
            } else {
                Some((spec_last_bytes(fs, 1), spec_last_varint(fs, 2), spec_last_varint(fs, 3), spec_last_bytes(fs, 4), spec_last_bytes(fs, 5)))
            }
        },
    }
}

pub proof fn lemma_upstream_roundtrip(command: Seq<u8>, seq_id: u64, retry_count: u64, sub_biz: Seq<u8>, payload_data: Seq<u8>)
    requires
        command.len() <= u64::MAX,
        sub_biz.len() <= u64::MAX,
        payload_data.len() <= u64::MAX,
    ensures
        spec_dec_upstream(spec_enc_upstream(command, seq_id, retry_count, sub_biz, payload_data)) == Some((command, seq_id, retry_count, sub_biz, payload_data)),
{
    let s4 = spec_field_bytes(5, payload_data);
    assert(spec_field_bytes(5, payload_data) + Seq::<u8>::empty() =~= s4);
    lemma_fields_prepend_bytes(5, payload_data, Seq::empty());
    let s3 = spec_field_bytes(4, sub_biz) + s4;
    lemma_fields_prepend_bytes(4, sub_biz, s4);
    let s2 = spec_field_varint(3, retry_count) + s3;
    lemma_fields_prepend_varint(3, retry_count, s3);
    let s1 = spec_field_varint(2, seq_id) + s2;
    lemma_fields_prepend_varint(2, seq_id, s2);
    let s0 = spec_field_bytes(1, command) + s1;
    lemma_fields_prepend_bytes(1, command, s1);
    assert(spec_enc_upstream(command, seq_id, retry_count, sub_biz, payload_data) =~= s0);
    let fs = seq![(1u64, FieldVal::Bytes(command)), (2u64, FieldVal::Varint(seq_id)), (3u64, FieldVal::Varint(retry_count)), (4u64, FieldVal::Bytes(sub_biz)), (5u64, FieldVal::Bytes(payload_data))];
    assert(spec_fields(s0) == Some(fs)) by {
        assert(seq![(5u64, FieldVal::Bytes(payload_data))] + Seq::<(u64, FieldVal)>::empty() =~= seq![(5u64, FieldVal::Bytes(payload_data))]);
        assert(seq![(4u64, FieldVal::Bytes(sub_biz))] + seq![(5u64, FieldVal::Bytes(payload_data))] =~= seq![(4u64, FieldVal::Bytes(sub_biz)), (5u64, FieldVal::Bytes(payload_data))]);
        assert(seq![(3u64, FieldVal::Varint(retry_count))] + seq![(4u64, FieldVal::Bytes(sub_biz)), (5u64, FieldVal::Bytes(payload_data))] =~= seq![(3u64, FieldVal::Varint(retry_count)), (4u64, FieldVal::Bytes(sub_biz)), (5u64, FieldVal::Bytes(payload_data))]);
        assert(seq![(2u64, FieldVal::Varint(seq_id))] + seq![(3u64, FieldVal::Varint(retry_count)), (4u64, FieldVal::Bytes(sub_biz)), (5u64, FieldVal::Bytes(payload_data))] =~= seq![(2u64, FieldVal::Varint(seq_id)), (3u64, FieldVal::Varint(retry_count)), (4u64, FieldVal::Bytes(sub_biz)), (5u64, FieldVal::Bytes(payload_data))]);
        assert(seq![(1u64, FieldVal::Bytes(command))] + seq![(2u64, FieldVal::Varint(seq_id)), (3u64, FieldVal::Varint(retry_count)), (4u64, FieldVal::Bytes(sub_biz)), (5u64, FieldVal::Bytes(payload_data))] =~= seq![(1u64, FieldVal::Bytes(command)), (2u64, FieldVal::Varint(seq_id)), (3u64, FieldVal::Varint(retry_count)), (4u64, FieldVal::Bytes(sub_biz)), (5u64, FieldVal::Bytes(payload_data))]);
    }
    lemma_wrong_bytes_iff(fs, 1);
    lemma_wrong_varint_iff(fs, 2);
    lemma_wrong_varint_iff(fs, 3);
    lemma_wrong_bytes_iff(fs, 4);
    lemma_wrong_bytes_iff(fs, 5);
    lemma_last_bytes_at(fs, 1, 0, command);
    lemma_last_varint_at(fs, 2, 1, seq_id);
    lemma_last_varint_at(fs, 3, 2, retry_count);
    lemma_last_bytes_at(fs, 4, 3, sub_biz);
    lemma_last_bytes_at(fs, 5, 4, payload_data);
}

/// One outbound payload: the command name, the sequence number, a retry
/// count, the sub-business tag, and the command's serialized body.
#[derive(Clone, Debug, PartialEq, Eq)]
pub struct UpstreamPayload {
    pub command: Vec<u8>,
    pub seq_id: i64,
    pub retry_count: u32,
    pub sub_biz: Vec<u8>,
    pub payload_data: Vec<u8>,
}

impl UpstreamPayload {
    pub open spec fn spec_enc(self) -> Seq<u8> {
        spec_enc_upstream(
            self.command@,
            self.seq_id as u64,
            self.retry_count as u64,
            self.sub_biz@,
            self.payload_data@,
        )
    }

    pub fn encode(&self) -> (r: Vec<u8>)
        ensures
            r@ == self.spec_enc(),
    {
        let mut out: Vec<u8> = Vec::new();
        write_field_bytes(&mut out, 1, self.command.as_slice());
        write_field_varint(&mut out, 2, self.seq_id as u64);
        write_field_varint(&mut out, 3, self.retry_count as u64);
        write_field_bytes(&mut out, 4, self.sub_biz.as_slice());
        write_field_bytes(&mut out, 5, self.payload_data.as_slice());
        proof {
            assert(out@ =~= self.spec_enc());
        }
        out
    }

    pub fn decode(buf: &[u8]) -> (r: Option<Self>)
        ensures
            match spec_dec_upstream(buf@) {
                Option::None => r is None,
                Option::Some(t) => {
                    match r {
                        Option::Some(m) => m.command@ == t.0 && m.seq_id == t.1 as i64
                            && m.retry_count == t.2 as u32 && m.sub_biz@ == t.3 && m.payload_data@
                            == t.4,
                        Option::None => false,
                    }
                },
            },
    {
        let v = match crate::shapes::read_fields(buf) {
            Some(v) => v,
            None => {
                return None;
            },
        };
        let ghost fs = spec_fields(buf@).unwrap();
        if crate::shapes::vec_wrong_bytes(&v, 1, Ghost(fs)) || crate::shapes::vec_wrong_varint(
            &v,
            2,
            Ghost(fs),
        ) || crate::shapes::vec_wrong_varint(&v, 3, Ghost(fs))
            || crate::shapes::vec_wrong_bytes(&v, 4, Ghost(fs))
            || crate::shapes::vec_wrong_bytes(&v, 5, Ghost(fs)) {
            return None;
        }
        Some(
            UpstreamPayload {
                command: crate::shapes::vec_last_bytes(&v, 1, Ghost(fs)),
                seq_id: crate::shapes::vec_last_varint(&v, 2, Ghost(fs)) as i64,
                retry_count: crate::shapes::vec_last_varint(&v, 3, Ghost(fs)) as u32,
                sub_biz: crate::shapes::vec_last_bytes(&v, 4, Ghost(fs)),
                payload_data: crate::shapes::vec_last_bytes(&v, 5, Ghost(fs)),
            },
        )
    }
}

pub open spec fn spec_enc_downstream(
    command: Seq<u8>,
    seq_id: u64,
    payload_data: Seq<u8>,
    error_code: u64,
    error_msg: Seq<u8>,
) -> Seq<u8> {
    spec_field_bytes(1, command) + spec_field_varint(2, seq_id) + spec_field_bytes(3, payload_data)
        + spec_field_varint(4, error_code) + spec_field_bytes(5, error_msg)
}

pub open spec fn spec_dec_downstream(s: Seq<u8>) -> Option<(Seq<u8>, u64, Seq<u8>, u64, Seq<u8>)> {
    match spec_fields(s) {
        Option::None => None,
        Option::Some(fs) => {
            if field_wrong_bytes(fs, 1) || field_wrong_varint(fs, 2) || field_wrong_bytes(fs, 3) || field_wrong_varint(fs, 4) || field_wrong_bytes(fs, 5) {
                None
            } else {
                Some((spec_last_bytes(fs, 1), spec_last_varint(fs, 2), spec_last_bytes(fs, 3), spec_last_varint(fs, 4), spec_last_bytes(fs, 5)))
            }
        },
    }
}

pub proof fn lemma_downstream_roundtrip(command: Seq<u8>, seq_id: u64, payload_data: Seq<u8>, error_code: u64, error_msg: Seq<u8>)
    requires
        command.len() <= u64::MAX,
        payload_data.len() <= u64::MAX,
        error_msg.len() <= u64::MAX,
    ensures
        spec_dec_downstream(spec_enc_downstream(command, seq_id, payload_data, error_code, error_msg)) == Some((command, seq_id, payload_data, error_code, error_msg)),
{
    let s4 = spec_field_bytes(5, error_msg);
    assert(spec_field_bytes(5, error_msg) + Seq::<u8>::empty() =~= s4);
    lemma_fields_prepend_bytes(5, error_msg, Seq::empty());
    let s3 = spec_field_varint(4, error_code) + s4;
    lemma_fields_prepend_varint(4, error_code, s4);
    let s2 = spec_field_bytes(3, payload_data) + s3;
    lemma_fields_prepend_bytes(3, payload_data, s3);
    let s1 = spec_field_varint(2, seq_id) + s2;
    lemma_fields_prepend_varint(2, seq_id, s2);
    let s0 = spec_field_bytes(1, command) + s1;
    lemma_fields_prepend_bytes(1, command, s1);
    assert(spec_enc_downstream(command, seq_id, payload_data, error_code, error_msg) =~= s0);
    let fs = seq![(1u64, FieldVal::Bytes(command)), (2u64, FieldVal::Varint(seq_id)), (3u64, FieldVal::Bytes(payload_data)), (4u64, FieldVal::Varint(error_code)), (5u64, FieldVal::Bytes(error_msg))];
    assert(spec_fields(s0) == Some(fs)) by {
        assert(seq![(5u64, FieldVal::Bytes(error_msg))] + Seq::<(u64, FieldVal)>::empty() =~= seq![(5u64, FieldVal::Bytes(error_msg))]);
        assert(seq![(4u64, FieldVal::Varint(error_code))] + seq![(5u64, FieldVal::Bytes(error_msg))] =~= seq![(4u64, FieldVal::Varint(error_code)), (5u64, FieldVal::Bytes(error_msg))]);
        assert(seq![(3u64, FieldVal::Bytes(payload_data))] + seq![(4u64, FieldVal::Varint(error_code)), (5u64, FieldVal::Bytes(error_msg))] =~= seq![(3u64, FieldVal::Bytes(payload_data)), (4u64, FieldVal::Varint(error_code)), (5u64, FieldVal::Bytes(error_msg))]);
        assert(seq![(2u64, FieldVal::Varint(seq_id))] + seq![(3u64, FieldVal::Bytes(payload_data)), (4u64, FieldVal::Varint(error_code)), (5u64, FieldVal::Bytes(error_msg))] =~= seq![(2u64, FieldVal::Varint(seq_id)), (3u64, FieldVal::Bytes(payload_data)), (4u64, FieldVal::Varint(error_code)), (5u64, FieldVal::Bytes(error_msg))]);
        assert(seq![(1u64, FieldVal::Bytes(command))] + seq![(2u64, FieldVal::Varint(seq_id)), (3u64, FieldVal::Bytes(payload_data)), (4u64, FieldVal::Varint(error_code)), (5u64, FieldVal::Bytes(error_msg))] =~= seq![(1u64, FieldVal::Bytes(command)), (2u64, FieldVal::Varint(seq_id)), (3u64, FieldVal::Bytes(payload_data)), (4u64, FieldVal::Varint(error_code)), (5u64, FieldVal::Bytes(error_msg))]);
    }
    lemma_wrong_bytes_iff(fs, 1);
    lemma_wrong_varint_iff(fs, 2);
    lemma_wrong_bytes_iff(fs, 3);
    lemma_wrong_varint_iff(fs, 4);
    lemma_wrong_bytes_iff(fs, 5);
    lemma_last_bytes_at(fs, 1, 0, command);
    lemma_last_varint_at(fs, 2, 1, seq_id);
    lemma_last_bytes_at(fs, 3, 2, payload_data);
    lemma_last_varint_at(fs, 4, 3, error_code);
    lemma_last_bytes_at(fs, 5, 4, error_msg);
}

/// One inbound payload: the command name, the server's header sequence, the
/// reply body, and an error code with its message.
#[derive(Clone, Debug, PartialEq, Eq)]
pub struct DownstreamPayload {
    pub command: Vec<u8>,
    pub seq_id: i64,
    pub payload_data: Vec<u8>,
    pub error_code: i32,
    pub error_msg: Vec<u8>,
}

impl DownstreamPayload {
    pub open spec fn spec_enc(self) -> Seq<u8> {
        spec_enc_downstream(
            self.command@,
            self.seq_id as u64,
            self.payload_data@,
            self.error_code as u64,
            self.error_msg@,
        )
    }

    pub fn encode(&self) -> (r: Vec<u8>)
        ensures
            r@ == self.spec_enc(),
    {
        let mut out: Vec<u8> = Vec::new();
        write_field_bytes(&mut out, 1, self.command.as_slice());
        write_field_varint(&mut out, 2, self.seq_id as u64);
        write_field_bytes(&mut out, 3, self.payload_data.as_slice());
        write_field_varint(&mut out, 4, self.error_code as u64);
        write_field_bytes(&mut out, 5, self.error_msg.as_slice());
        proof {
            assert(out@ =~= self.spec_enc());
        }
        out
    }

    pub fn decode(buf: &[u8]) -> (r: Option<Self>)
        ensures
            match spec_dec_downstream(buf@) {
                Option::None => r is None,
                Option::Some(t) => {
                    match r {
                        Option::Some(m) => m.command@ == t.0 && m.seq_id == t.1 as i64
                            && m.payload_data@ == t.2 && m.error_code == t.3 as i32 && m.error_msg@
                            == t.4,
                        Option::None => false,
                    }
                },
            },
    {
        let v = match crate::shapes::read_fields(buf) {
            Some(v) => v,
            None => {
                return None;
            },
        };
        let ghost fs = spec_fields(buf@).unwrap();
        if crate::shapes::vec_wrong_bytes(&v, 1, Ghost(fs)) || crate::shapes::vec_wrong_varint(
            &v,
            2,
            Ghost(fs),
        ) || crate::shapes::vec_wrong_bytes(&v, 3, Ghost(fs))
            || crate::shapes::vec_wrong_varint(&v, 4, Ghost(fs))
            || crate::shapes::vec_wrong_bytes(&v, 5, Ghost(fs)) {
            return None;
        }
        Some(
            DownstreamPayload {
                command: crate::shapes::vec_last_bytes(&v, 1, Ghost(fs)),
                seq_id: crate::shapes::vec_last_varint(&v, 2, Ghost(fs)) as i64,
                payload_data: crate::shapes::vec_last_bytes(&v, 3, Ghost(fs)),
                error_code: crate::shapes::vec_last_varint(&v, 4, Ghost(fs)) as i32,
                error_msg: crate::shapes::vec_last_bytes(&v, 5, Ghost(fs)),
            },
        )
    }
}

// ---------- the packet header ----------

/// How a frame's body is protected.
#[derive(Clone, Copy, Debug, PartialEq, Eq, Structural)]
pub enum EncryptionMode {
    NoEncryption,
    ServiceToken,
    SessionKey,
}

pub open spec fn spec_mode_code(m: EncryptionMode) -> u64 {
    match m {
        EncryptionMode::NoEncryption => 0,
        EncryptionMode::ServiceToken => 1,
        EncryptionMode::SessionKey => 2,
    }
}

pub fn mode_code(m: EncryptionMode) -> (r: u64)
    ensures
        r == spec_mode_code(m),
{
    match m {
        EncryptionMode::NoEncryption => 0,
        EncryptionMode::ServiceToken => 1,
        EncryptionMode::SessionKey => 2,
    }
}

/// The mode a wire code names; an unrecognized code reads as the
/// unencrypted mode, the enumeration's default.
pub open spec fn spec_mode_of_code(v: u64) -> EncryptionMode {
    if v == 1 {
        EncryptionMode::ServiceToken
    } else if v == 2 {
        EncryptionMode::SessionKey
    } else {
        EncryptionMode::NoEncryption
    }
}

pub fn mode_of_code(v: u64) -> (r: EncryptionMode)
    ensures
        r == spec_mode_of_code(v),
{
    if v == 1 {
        EncryptionMode::ServiceToken
    } else if v == 2 {
        EncryptionMode::SessionKey
    } else {
        EncryptionMode::NoEncryption
    }
}

/// The mathematical content of a packet header; the token carries its type
/// code and its bytes.
pub ghost struct HeaderModel {
    pub app_id: i32,
    pub uid: i64,
    pub instance_id: i64,
    pub encryption_mode: EncryptionMode,
    pub seq_id: i64,
    pub kpn: Seq<u8>,
    pub decoded_payload_len: u32,
    pub token: Option<(i32, Seq<u8>)>,
}

pub open spec fn spec_enc_header(m: HeaderModel) -> Seq<u8> {
    spec_field_varint(1, m.app_id as u64) + spec_field_varint(2, m.uid as u64) + spec_field_varint(
        3,
        m.instance_id as u64,
    ) + spec_field_varint(4, spec_mode_code(m.encryption_mode)) + spec_field_varint(
        5,
        m.seq_id as u64,
    ) + spec_field_bytes(6, m.kpn) + spec_field_varint(7, m.decoded_payload_len as u64) + (
    match m.token {
        Option::Some(t) => spec_field_bytes(8, spec_enc_vb(t.0 as u64, t.1)),
        Option::None => Seq::empty(),
    })
}

pub open spec fn spec_dec_header(s: Seq<u8>) -> Option<HeaderModel> {
    match spec_fields(s) {
        Option::None => None,
        Option::Some(fs) => {
            if field_wrong_varint(fs, 1) || field_wrong_varint(fs, 2) || field_wrong_varint(
                fs,
                3,
            ) || field_wrong_varint(fs, 4) || field_wrong_varint(fs, 5) || field_wrong_bytes(
                fs,
                6,
            ) || field_wrong_varint(fs, 7) || field_wrong_bytes(fs, 8) {
                None
            } else {
                let base = HeaderModel {
                    app_id: spec_last_varint(fs, 1) as i32,
                    uid: spec_last_varint(fs, 2) as i64,
                    instance_id: spec_last_varint(fs, 3) as i64,
                    encryption_mode: spec_mode_of_code(spec_last_varint(fs, 4)),
                    seq_id: spec_last_varint(fs, 5) as i64,
                    kpn: spec_last_bytes(fs, 6),
                    decoded_payload_len: spec_last_varint(fs, 7) as u32,
                    token: None,
                };
                if spec_has_bytes(fs, 8) {
                    match spec_dec_vb(spec_last_bytes(fs, 8)) {
                        Option::None => None,
                        Option::Some(tok) => Some(
                            HeaderModel { token: Some(((tok.0 as i32), tok.1)), ..base },
                        ),
                    }
                } else {
                    Some(base)
                }
            }
        },
    }
}

/// The canonical field list of an encoded header.
pub open spec fn spec_header_fields(m: HeaderModel) -> Seq<(u64, FieldVal)> {
    seq![
        (1u64, FieldVal::Varint(m.app_id as u64)),
        (2u64, FieldVal::Varint(m.uid as u64)),
        (3u64, FieldVal::Varint(m.instance_id as u64)),
        (4u64, FieldVal::Varint(spec_mode_code(m.encryption_mode))),
        (5u64, FieldVal::Varint(m.seq_id as u64)),
        (6u64, FieldVal::Bytes(m.kpn)),
        (7u64, FieldVal::Varint(m.decoded_payload_len as u64)),
    ] + (match m.token {
        Option::Some(t) => seq![(8u64, FieldVal::Bytes(spec_enc_vb(t.0 as u64, t.1)))],
        Option::None => Seq::<(u64, FieldVal)>::empty(),
    })
}

/// The encoded tail of a header: the sequence field onward.
pub open spec fn spec_header_enc_tail(m: HeaderModel) -> Seq<u8> {
    spec_field_varint(5, m.seq_id as u64) + (spec_field_bytes(6, m.kpn) + (spec_field_varint(
        7,
        m.decoded_payload_len as u64,
    ) + (match m.token {
        Option::Some(t) => spec_field_bytes(8, spec_enc_vb(t.0 as u64, t.1)),
        Option::None => Seq::<u8>::empty(),
    })))
}

/// The field list of the encoded tail.
pub open spec fn spec_header_fields_tail(m: HeaderModel) -> Seq<(u64, FieldVal)> {
    seq![
        (5u64, FieldVal::Varint(m.seq_id as u64)),
        (6u64, FieldVal::Bytes(m.kpn)),
        (7u64, FieldVal::Varint(m.decoded_payload_len as u64)),
    ] + (match m.token {
        Option::Some(t) => seq![(8u64, FieldVal::Bytes(spec_enc_vb(t.0 as u64, t.1)))],
        Option::None => Seq::<(u64, FieldVal)>::empty(),
    })
}

#[verifier::rlimit(100)]
#[verifier::spinoff_prover]
proof fn lemma_header_fields_tail(m: HeaderModel)
    requires
        m.kpn.len() <= u64::MAX,
        match m.token {
            Option::Some(t) => t.1.len() + 64 <= u64::MAX,
            Option::None => true,
        },
    ensures
        spec_fields(spec_header_enc_tail(m)) == Some(spec_header_fields_tail(m)),
{
    let f5 = (5u64, FieldVal::Varint(m.seq_id as u64));
    let f6 = (6u64, FieldVal::Bytes(m.kpn));
    let f7 = (7u64, FieldVal::Varint(m.decoded_payload_len as u64));
    let e8 = match m.token {
        Option::Some(t) => spec_field_bytes(8, spec_enc_vb(t.0 as u64, t.1)),
        Option::None => Seq::<u8>::empty(),
    };
    let fs8 = match m.token {
        Option::Some(t) => seq![(8u64, FieldVal::Bytes(spec_enc_vb(t.0 as u64, t.1)))],
        Option::None => Seq::<(u64, FieldVal)>::empty(),
    };
    match m.token {
        Option::Some(t) => {
            crate::shapes::lemma_field_varint_len_upper(1, t.0 as u64);
            crate::shapes::lemma_field_bytes_len_upper(2, t.1);
            assert(spec_enc_vb(t.0 as u64, t.1).len() <= 44 + t.1.len());
            assert(e8 + Seq::<u8>::empty() =~= e8);
            lemma_fields_prepend_bytes(8, spec_enc_vb(t.0 as u64, t.1), Seq::empty());
            assert(seq![(8u64, FieldVal::Bytes(spec_enc_vb(t.0 as u64, t.1)))] + Seq::<
                (u64, FieldVal),
            >::empty() =~= fs8);
        },
        Option::None => {},
    }
    let s7 = spec_field_varint(7, m.decoded_payload_len as u64) + e8;
    lemma_fields_prepend_varint(7, m.decoded_payload_len as u64, e8);
    let s6 = spec_field_bytes(6, m.kpn) + s7;
    lemma_fields_prepend_bytes(6, m.kpn, s7);
    lemma_fields_prepend_varint(5, m.seq_id as u64, s6);
    assert(seq![f6] + (seq![f7] + fs8) =~= seq![f6, f7] + fs8);
    assert(seq![f5] + (seq![f6, f7] + fs8) =~= spec_header_fields_tail(m));
}

/// The encoded header re-associated around its tail.
#[verifier::rlimit(100)]
#[verifier::spinoff_prover]
proof fn lemma_header_assoc(m: HeaderModel)
    ensures
        spec_enc_header(m) == spec_field_varint(1, m.app_id as u64) + (spec_field_varint(
            2,
            m.uid as u64,
        ) + (spec_field_varint(3, m.instance_id as u64) + (spec_field_varint(
            4,
            spec_mode_code(m.encryption_mode),
        ) + spec_header_enc_tail(m)))),
{
    assert(spec_enc_header(m) =~= spec_field_varint(1, m.app_id as u64) + (spec_field_varint(
        2,
        m.uid as u64,
    ) + (spec_field_varint(3, m.instance_id as u64) + (spec_field_varint(
        4,
        spec_mode_code(m.encryption_mode),
    ) + spec_header_enc_tail(m)))));
}

#[verifier::rlimit(100)]
#[verifier::spinoff_prover]
proof fn lemma_header_fields(m: HeaderModel)
    requires
        m.kpn.len() <= u64::MAX,
        match m.token {
            Option::Some(t) => t.1.len() + 64 <= u64::MAX,
            Option::None => true,
        },
    ensures
        spec_fields(spec_enc_header(m)) == Some(spec_header_fields(m)),
{
    lemma_header_fields_tail(m);
    lemma_header_assoc(m);
    let f1 = (1u64, FieldVal::Varint(m.app_id as u64));
    let f2 = (2u64, FieldVal::Varint(m.uid as u64));
    let f3 = (3u64, FieldVal::Varint(m.instance_id as u64));
    let f4 = (4u64, FieldVal::Varint(spec_mode_code(m.encryption_mode)));
    let tail = spec_header_enc_tail(m);
    let tailfs = spec_header_fields_tail(m);
    let s4 = spec_field_varint(4, spec_mode_code(m.encryption_mode)) + tail;
    lemma_fields_prepend_varint(4, spec_mode_code(m.encryption_mode), tail);
    let s3 = spec_field_varint(3, m.instance_id as u64) + s4;
    lemma_fields_prepend_varint(3, m.instance_id as u64, s4);
    let s2 = spec_field_varint(2, m.uid as u64) + s3;
    lemma_fields_prepend_varint(2, m.uid as u64, s3);
    let s1 = spec_field_varint(1, m.app_id as u64) + s2;
    lemma_fields_prepend_varint(1, m.app_id as u64, s2);
    assert(seq![f4] + tailfs =~= seq![f4] + tailfs);
    assert(seq![f3] + (seq![f4] + tailfs) =~= seq![f3, f4] + tailfs);
    assert(seq![f2] + (seq![f3, f4] + tailfs) =~= seq![f2, f3, f4] + tailfs);
    assert(seq![f1] + (seq![f2, f3, f4] + tailfs) =~= spec_header_fields(m));
}

#[verifier::rlimit(100)]
#[verifier::spinoff_prover]
pub proof fn lemma_header_roundtrip(m: HeaderModel)
    requires
        m.kpn.len() <= u64::MAX,
        match m.token {
            Option::Some(t) => t.1.len() + 64 <= u64::MAX,
            Option::None => true,
        },
    ensures
        spec_dec_header(spec_enc_header(m)) == Some(m),
{
    lemma_header_fields(m);
    let fs = spec_header_fields(m);
    lemma_wrong_varint_iff(fs, 1);
    lemma_wrong_varint_iff(fs, 2);
    lemma_wrong_varint_iff(fs, 3);
    lemma_wrong_varint_iff(fs, 4);
    lemma_wrong_varint_iff(fs, 5);
    lemma_wrong_bytes_iff(fs, 6);
    lemma_wrong_varint_iff(fs, 7);
    lemma_wrong_bytes_iff(fs, 8);
    lemma_has_bytes_iff(fs, 8);
    lemma_last_varint_at(fs, 1, 0, m.app_id as u64);
    lemma_last_varint_at(fs, 2, 1, m.uid as u64);
    lemma_last_varint_at(fs, 3, 2, m.instance_id as u64);
    lemma_last_varint_at(fs, 4, 3, spec_mode_code(m.encryption_mode));
    lemma_last_varint_at(fs, 5, 4, m.seq_id as u64);
    lemma_last_bytes_at(fs, 6, 5, m.kpn);
    lemma_last_varint_at(fs, 7, 6, m.decoded_payload_len as u64);
    lemma_cast_i32_u64(m.app_id);
    lemma_cast_i64_u64(m.uid);
    lemma_cast_i64_u64(m.instance_id);
    lemma_cast_i64_u64(m.seq_id);
    lemma_cast_u32_u64(m.decoded_payload_len);
    match m.token {
        Option::Some(t) => {
            assert(fs[7] == (8u64, FieldVal::Bytes(spec_enc_vb(t.0 as u64, t.1))));
            assert(spec_has_bytes(fs, 8));
            lemma_last_bytes_at(fs, 8, 7, spec_enc_vb(t.0 as u64, t.1));
            lemma_vb_roundtrip(t.0 as u64, t.1);
            lemma_cast_i32_u64(t.0);
        },
        Option::None => {
            assert(!spec_has_bytes(fs, 8));
        },
    }
}

/// The header of every wire frame.
#[derive(Clone, Debug, PartialEq, Eq)]
pub struct PacketHeader {
    pub app_id: i32,
    pub uid: i64,
    pub instance_id: i64,
    pub encryption_mode: EncryptionMode,
    pub seq_id: i64,
    pub kpn: Vec<u8>,
    pub decoded_payload_len: u32,
    pub token_info: Option<TokenInfo>,
}

impl PacketHeader {
    pub open spec fn model(self) -> HeaderModel {
        HeaderModel {
            app_id: self.app_id,
            uid: self.uid,
            instance_id: self.instance_id,
            encryption_mode: self.encryption_mode,
            seq_id: self.seq_id,
            kpn: self.kpn@,
            decoded_payload_len: self.decoded_payload_len,
            token: match self.token_info {
                Option::Some(t) => Some((t.token_type, t.token@)),
                Option::None => None,
            },
        }
    }

    pub fn encode(&self) -> (r: Vec<u8>)
        ensures
            r@ == spec_enc_header(self.model()),
    {
        let mut out: Vec<u8> = Vec::new();
        write_field_varint(&mut out, 1, self.app_id as u64);
        write_field_varint(&mut out, 2, self.uid as u64);
        write_field_varint(&mut out, 3, self.instance_id as u64);
        write_field_varint(&mut out, 4, mode_code(self.encryption_mode));
        write_field_varint(&mut out, 5, self.seq_id as u64);
        write_field_bytes(&mut out, 6, self.kpn.as_slice());
        write_field_varint(&mut out, 7, self.decoded_payload_len as u64);
        match &self.token_info {
            Some(t) => {
                let tok = t.encode();
                write_field_bytes(&mut out, 8, tok.as_slice());
            },
            None => {},
        }
        proof {
            assert(out@ =~= spec_enc_header(self.model()));
        }
        out
    }

    pub fn decode(buf: &[u8]) -> (r: Option<Self>)
        ensures
            match spec_dec_header(buf@) {
                Option::None => r is None,
                Option::Some(m) => {
                    match r {
                        Option::Some(h) => h.model() == m,
                        Option::None => false,
                    }
                },
            },
    {
        let v = match crate::shapes::read_fields(buf) {
            Some(v) => v,
            None => {
                return None;
            },
        };
        let ghost fs = spec_fields(buf@).unwrap();
        if crate::shapes::vec_wrong_varint(&v, 1, Ghost(fs)) || crate::shapes::vec_wrong_varint(
            &v,
            2,
            Ghost(fs),
        ) || crate::shapes::vec_wrong_varint(&v, 3, Ghost(fs))
            || crate::shapes::vec_wrong_varint(&v, 4, Ghost(fs))
            || crate::shapes::vec_wrong_varint(&v, 5, Ghost(fs))
            || crate::shapes::vec_wrong_bytes(&v, 6, Ghost(fs))
            || crate::shapes::vec_wrong_varint(&v, 7, Ghost(fs))
            || crate::shapes::vec_wrong_bytes(&v, 8, Ghost(fs)) {
            return None;
        }
        let head = PacketHeader {
            app_id: crate::shapes::vec_last_varint(&v, 1, Ghost(fs)) as i32,
            uid: crate::shapes::vec_last_varint(&v, 2, Ghost(fs)) as i64,
            instance_id: crate::shapes::vec_last_varint(&v, 3, Ghost(fs)) as i64,
            encryption_mode: mode_of_code(crate::shapes::vec_last_varint(&v, 4, Ghost(fs))),
            seq_id: crate::shapes::vec_last_varint(&v, 5, Ghost(fs)) as i64,
            kpn: crate::shapes::vec_last_bytes(&v, 6, Ghost(fs)),
            decoded_payload_len: crate::shapes::vec_last_varint(&v, 7, Ghost(fs)) as u32,
            token_info: None,
        };
        if crate::shapes::vec_has_bytes(&v, 8, Ghost(fs)) {
            let tok_bytes = crate::shapes::vec_last_bytes(&v, 8, Ghost(fs));
            match dec_vb(tok_bytes.as_slice()) {
                None => None,
                Some((tv, tb)) => {
                    Some(
                        PacketHeader {
                            token_info: Some(TokenInfo { token_type: tv as i32, token: tb }),
                            ..head
                        },
                    )
                },
            }
        } else {
            Some(head)
        }
    }
}

// ---------- the register request ----------

/// The first outbound command: who is connecting, from what software, on
/// what platform.
#[derive(Clone, Debug, PartialEq, Eq)]
pub struct RegisterRequest {
    pub app_info: AppInfo,
    pub device_info: DeviceInfo,
    pub presence_status: i32,
    pub app_active_status: i32,
    pub instance_id: i64,
    pub zt_common_info: ZtCommonInfo,
}

impl RegisterRequest {
    pub open spec fn spec_enc(self) -> Seq<u8> {
        spec_field_bytes(1, self.app_info.spec_enc()) + spec_field_bytes(
            2,
            self.device_info.spec_enc(),
        ) + spec_field_varint(3, self.presence_status as u64) + spec_field_varint(
            4,
            self.app_active_status as u64,
        ) + spec_field_varint(5, self.instance_id as u64) + spec_field_bytes(
            6,
            self.zt_common_info.spec_enc(),
        )
    }

    pub fn encode(&self) -> (r: Vec<u8>)
        ensures
            r@ == self.spec_enc(),
    {
        let mut out: Vec<u8> = Vec::new();
        let app = self.app_info.encode();
        write_field_bytes(&mut out, 1, app.as_slice());
        let dev = self.device_info.encode();
        write_field_bytes(&mut out, 2, dev.as_slice());
        write_field_varint(&mut out, 3, self.presence_status as u64);
        write_field_varint(&mut out, 4, self.app_active_status as u64);
        write_field_varint(&mut out, 5, self.instance_id as u64);
        let zt = self.zt_common_info.encode();
        write_field_bytes(&mut out, 6, zt.as_slice());
        proof {
            assert(out@ =~= self.spec_enc());
        }
        out
    }
}

} // verus!
