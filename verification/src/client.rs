//! The client driver's core: the token handed over by the REST collaborator
//! and the state machine that turns classified inbound messages into queued
//! outbound frames. The surrounding transport loop performs the reads and
//! writes and feeds this core.

use vstd::prelude::*;

verus! {

use crate::codec::{DanmakuProto, ReceiveMessage, SendMessage};
use crate::crypto::{base64_decode, base64_of};
use crate::errors::Error;
use crate::signals::Danmaku;
use vstd::string::StrSliceExecFns;

/// The seed produced by the REST collaborator: who is entering which room,
/// under which credentials.
#[derive(Clone, Debug, Default, Eq, Hash, PartialEq)]
pub struct DanmakuToken {
    pub user_id: i64,
    pub liver_uid: i64,
    pub security_key: String,
    pub service_token: String,
    pub live_id: String,
    pub enter_room_attach: String,
    pub tickets: Vec<String>,
}

impl DanmakuToken {
    /// Every required field is present and there is at least one ticket.
    pub open spec fn spec_valid(self) -> bool {
        !(self.user_id == 0 || self.liver_uid == 0 || self.security_key@.len() == 0
            || self.service_token@.len() == 0 || self.live_id@.len() == 0
            || self.enter_room_attach@.len() == 0 || self.tickets@.len() == 0)
    }

    pub fn is_valid(&self) -> (r: bool)
        ensures
            r == self.spec_valid(),
    {
        !(self.user_id == 0 || self.liver_uid == 0 || self.security_key.as_str().is_empty()
            || self.service_token.as_str().is_empty() || self.live_id.as_str().is_empty()
            || self.enter_room_attach.as_str().is_empty() || self.tickets.is_empty())
    }
}

/// The UTF-8 bytes of a string's characters.
pub open spec fn str_bytes(s: Seq<char>) -> Seq<u8> {
    vstd::utf8::encode_utf8(s)
}

/// The UTF-8 bytes of each ticket.
pub open spec fn spec_ticket_bytes(tickets: Seq<String>) -> Seq<Seq<u8>> {
    tickets.map_values(|t: String| str_bytes(t@))
}

impl DanmakuProto {
    /// Turns a token into fresh session state: the security key is decoded
    /// from base64, the strings move to their wire bytes, the sequence
    /// counters start at one and the ticket index at zero.
    pub fn from_token(token: &DanmakuToken) -> (r: Result<DanmakuProto, Error>)
        ensures
            match r {
                Result::Ok(p) => {
                    &&& p.user_id == token.user_id
                    &&& p.liver_uid == token.liver_uid
                    &&& base64_of(token.security_key@) == Some(p.security_key@)
                    &&& p.service_token@ == str_bytes(token.service_token@)
                    &&& p.live_id@ == str_bytes(token.live_id@)
                    &&& p.enter_room_attach@ == str_bytes(token.enter_room_attach@)
                    &&& crate::shapes::seq_views(p.tickets@) == spec_ticket_bytes(token.tickets@)
                    &&& p.tickets@.len() == token.tickets@.len()
                    &&& p.app_id == 0
                    &&& p.instance_id == 0
                    &&& p.session_key is None
                    &&& p.seq_id == 1
                    &&& p.header_seq_id == 1
                    &&& p.heartbeat_seq_id == 0
                    &&& p.ticket_index == 0
                },
                Result::Err(e) => {
                    &&& e == Error::DecodeBase64Error
                    &&& base64_of(token.security_key@) is None
                },
            },
    {
        let key = match base64_decode(token.security_key.as_str()) {
            Ok(k) => k,
            Err(e) => {
                return Err(e);
            },
        };
        let mut tickets: Vec<Vec<u8>> = Vec::new();
        let mut i: usize = 0;
        while i < token.tickets.len()
            invariant
                i <= token.tickets@.len(),
                tickets@.len() == i,
                forall|j: int|
                    0 <= j < i ==> (#[trigger] tickets@[j])@ == str_bytes(token.tickets@[j]@),
            decreases token.tickets@.len() - i,
        {
            tickets.push(token.tickets[i].as_str().as_bytes_vec());
            i = i + 1;
        }
        proof {
            assert(crate::shapes::seq_views(tickets@) =~= spec_ticket_bytes(token.tickets@));
        }
        Ok(
            DanmakuProto {
                user_id: token.user_id,
                liver_uid: token.liver_uid,
                security_key: key,
                service_token: token.service_token.as_str().as_bytes_vec(),
                live_id: token.live_id.as_str().as_bytes_vec(),
                enter_room_attach: token.enter_room_attach.as_str().as_bytes_vec(),
                tickets,
                app_id: 0,
                instance_id: 0,
                session_key: None,
                seq_id: 1,
                header_seq_id: 1,
                heartbeat_seq_id: 0,
                ticket_index: 0,
            },
        )
    }
}

/// Where the driver stands in a session's life.
#[derive(Clone, Copy, Debug, PartialEq, Eq, Structural)]
pub enum ClientState {
    BeforeRegister,
    Registering,
    Registered,
    Closing,
    Closed,
}

/// The driver's core: the session state, where the driver stands, the
/// outbound queue, and the heartbeat schedule.
#[derive(Clone, Debug)]
pub struct DanmakuClient {
    pub proto: DanmakuProto,
    pub state: ClientState,
    pub queue: Vec<SendMessage>,
    pub interval: Option<u64>,
    pub last_heartbeat_ms: i64,
    pub heartbeat_seq_id: i64,
}

impl DanmakuClient {
    pub open spec fn wf(self) -> bool {
        &&& self.proto.wf()
        &&& self.last_heartbeat_ms >= 0
    }

    /// Everything but the driver's own bookkeeping is equal.
    pub open spec fn same_proto(self, other: Self) -> bool {
        self.proto == other.proto
    }

    /// Validates the token and prepares a fresh core. The transport is
    /// connected only after this succeeds: an invalid token never reaches
    /// the network.
    pub fn new(token: &DanmakuToken, now_ms: i64) -> (r: Result<DanmakuClient, Error>)
        requires
            now_ms >= 0,
        ensures
            match r {
                Result::Ok(c) => {
                    &&& token.spec_valid()
                    &&& c.wf()
                    &&& base64_of(token.security_key@) == Some(c.proto.security_key@)
                    &&& c.proto.user_id == token.user_id
                    &&& c.proto.liver_uid == token.liver_uid
                    &&& c.proto.live_id@ == str_bytes(token.live_id@)
                    &&& crate::shapes::seq_views(c.proto.tickets@) == spec_ticket_bytes(
                        token.tickets@,
                    )
                    &&& c.proto.seq_id == 1
                    &&& c.proto.header_seq_id == 1
                    &&& c.proto.heartbeat_seq_id == 0
                    &&& c.proto.ticket_index == 0
                    &&& c.proto.session_key is None
                    &&& c.state == ClientState::BeforeRegister
                    &&& c.queue@ == Seq::<SendMessage>::empty()
                    &&& c.interval is None
                    &&& c.last_heartbeat_ms == now_ms
                    &&& c.heartbeat_seq_id == 0
                },
                Result::Err(e) => {
                    if !token.spec_valid() {
                        e == Error::InvalidToken
                    } else {
                        e == Error::DecodeBase64Error && base64_of(token.security_key@) is None
                    }
                },
            },
    {
        if !token.is_valid() {
            return Err(Error::InvalidToken);
        }
        let proto = match DanmakuProto::from_token(token) {
            Ok(p) => p,
            Err(e) => {
                return Err(e);
            },
        };
        Ok(
            DanmakuClient {
                proto,
                state: ClientState::BeforeRegister,
                queue: Vec::new(),
                interval: None,
                last_heartbeat_ms: now_ms,
                heartbeat_seq_id: 0,
            },
        )
    }

    pub fn user_id(&self) -> (r: i64)
        ensures
            r == self.proto.user_id,
    {
        self.proto.user_id
    }

    pub fn liver_uid(&self) -> (r: i64)
        ensures
            r == self.proto.liver_uid,
    {
        self.proto.liver_uid
    }

    /// The live id, in its wire bytes.
    pub fn live_id(&self) -> (r: &Vec<u8>)
        ensures
            r@ == self.proto.live_id@,
    {
        &self.proto.live_id
    }

    /// Whether the signal stream has ended for good.
    pub fn is_terminated(&self) -> (r: bool)
        ensures
            r == (self.state == ClientState::Closed),
    {
        match self.state {
            ClientState::Closed => true,
            _ => false,
        }
    }

    /// The first step of a session: the register request goes out and the
    /// driver waits for the reply.
    pub fn start(&mut self) -> (r: SendMessage)
        requires
            old(self).state == ClientState::BeforeRegister,
        ensures
            r == SendMessage::RegisterRequest,
            final(self).state == ClientState::Registering,
            final(self).same_proto(*old(self)),
            final(self).queue@ == old(self).queue@,
            final(self).interval == old(self).interval,
            final(self).last_heartbeat_ms == old(self).last_heartbeat_ms,
            final(self).heartbeat_seq_id == old(self).heartbeat_seq_id,
    {
        self.state = ClientState::Registering;
        SendMessage::RegisterRequest
    }

    /// Handles the first decoded reply: a register response queues the
    /// keep-alive and the enter-room command; anything else is a terminal
    /// register failure.
    pub fn on_register_reply(&mut self, msg: &ReceiveMessage) -> (r: Result<(), Error>)
        requires
            old(self).state == ClientState::Registering,
        ensures
            final(self).same_proto(*old(self)),
            final(self).interval == old(self).interval,
            final(self).last_heartbeat_ms == old(self).last_heartbeat_ms,
            final(self).heartbeat_seq_id == old(self).heartbeat_seq_id,
            match msg {
                ReceiveMessage::RegisterResponse => {
                    &&& r is Ok
                    &&& final(self).state == ClientState::Registered
                    &&& final(self).queue@ == old(self).queue@ + seq![
                        SendMessage::KeepAliveRequest,
                        SendMessage::ZtLiveCsEnterRoom,
                    ]
                },
                _ => {
                    &&& r == Err::<(), Error>(Error::RegisterError)
                    &&& final(self).state == ClientState::Closed
                    &&& final(self).queue@ == old(self).queue@
                },
            },
    {
        match msg {
            ReceiveMessage::RegisterResponse => {
                self.queue.push(SendMessage::KeepAliveRequest);
                self.queue.push(SendMessage::ZtLiveCsEnterRoom);
                self.state = ClientState::Registered;
                Ok(())
            },
            _ => {
                self.state = ClientState::Closed;
                Err(Error::RegisterError)
            },
        }
    }

    /// Whether a heartbeat is due at `now_ms`: an interval is known and at
    /// least that much time has passed since the last heartbeat. A clock
    /// that went backward fires nothing.
    pub open spec fn spec_heartbeat_due(self, now_ms: i64) -> bool {
        match self.interval {
            Option::Some(i) => now_ms >= self.last_heartbeat_ms && (now_ms
                - self.last_heartbeat_ms) as u64 >= i,
            Option::None => false,
        }
    }

    /// Runs the heartbeat schedule once: when a heartbeat is due, one is
    /// queued, the counter steps, every fifth heartbeat also queues a
    /// keep-alive, and the schedule restarts at `now_ms`.
    pub fn heartbeat_tick(&mut self, now_ms: i64)
        requires
            now_ms >= 0,
            0 <= old(self).heartbeat_seq_id < i64::MAX,
            old(self).last_heartbeat_ms >= 0,
        ensures
            final(self).same_proto(*old(self)),
            final(self).state == old(self).state,
            final(self).interval == old(self).interval,
            final(self).last_heartbeat_ms >= 0,
            if old(self).spec_heartbeat_due(now_ms) {
                &&& final(self).queue@ == old(self).queue@ + seq![SendMessage::ZtLiveCsHeartbeat]
                    + (if (old(self).heartbeat_seq_id + 1) % 5 == 4 {
                    seq![SendMessage::KeepAliveRequest]
                } else {
                    Seq::<SendMessage>::empty()
                })
                &&& final(self).heartbeat_seq_id == old(self).heartbeat_seq_id + 1
                &&& final(self).last_heartbeat_ms == now_ms
            } else {
                &&& final(self).queue@ == old(self).queue@
                &&& final(self).heartbeat_seq_id == old(self).heartbeat_seq_id
                &&& final(self).last_heartbeat_ms == old(self).last_heartbeat_ms
            },
    {
        let due = match self.interval {
            Some(i) => {
                if now_ms >= self.last_heartbeat_ms {
                    ((now_ms - self.last_heartbeat_ms) as u64) >= i
                } else {
                    false
                }
            },
            None => false,
        };
        if due {
            self.queue.push(SendMessage::ZtLiveCsHeartbeat);
            self.heartbeat_seq_id = self.heartbeat_seq_id + 1;
            if self.heartbeat_seq_id % 5 == 4 {
                self.queue.push(SendMessage::KeepAliveRequest);
                proof {
                    assert(self.queue@ =~= old(self).queue@ + seq![
                        SendMessage::ZtLiveCsHeartbeat,
                    ] + seq![SendMessage::KeepAliveRequest]);
                }
            } else {
                proof {
                    assert(self.queue@ =~= old(self).queue@ + seq![SendMessage::ZtLiveCsHeartbeat]
                        + Seq::<SendMessage>::empty());
                }
            }
            self.last_heartbeat_ms = now_ms;
        }
    }

    /// Hands the next queued outbound frame kind to the transport loop.
    pub fn pop_outbound(&mut self) -> (r: Option<SendMessage>)
        ensures
            final(self).same_proto(*old(self)),
            final(self).state == old(self).state,
            final(self).interval == old(self).interval,
            final(self).last_heartbeat_ms == old(self).last_heartbeat_ms,
            final(self).heartbeat_seq_id == old(self).heartbeat_seq_id,
            if old(self).queue@.len() == 0 {
                r is None && final(self).queue@ == old(self).queue@
            } else {
                r == Some(old(self).queue@[0]) && final(self).queue@ == old(self).queue@.skip(1)
            },
    {
        if self.queue.len() == 0 {
            None
        } else {
            let m = self.queue.remove(0);
            proof {
                assert(self.queue@ =~= old(self).queue@.skip(1));
            }
            Some(m)
        }
    }

    /// Reacts to one classified inbound message in the steady state: a
    /// decoded batch is surfaced, an interval is stored, pushes queue their
    /// acknowledgements, closing messages queue the orderly goodbye.
    pub fn on_message(&mut self, msg: ReceiveMessage) -> (r: Option<Danmaku>)
        requires
            old(self).state == ClientState::Registered,
        ensures
            final(self).same_proto(*old(self)),
            final(self).last_heartbeat_ms == old(self).last_heartbeat_ms,
            final(self).heartbeat_seq_id == old(self).heartbeat_seq_id,
            match msg {
                ReceiveMessage::Danmaku(d) => {
                    &&& r == Some(d)
                    &&& final(self).state == ClientState::Registered
                    &&& final(self).queue@ == old(self).queue@
                    &&& final(self).interval == old(self).interval
                },
                ReceiveMessage::RegisterResponse => {
                    &&& r is None
                    &&& final(self).state == ClientState::Registered
                    &&& final(self).queue@ == old(self).queue@
                    &&& final(self).interval == old(self).interval
                },
                ReceiveMessage::Interval(ms) => {
                    &&& r is None
                    &&& final(self).state == ClientState::Registered
                    &&& final(self).queue@ == old(self).queue@
                    &&& final(self).interval == Some(ms)
                },
                ReceiveMessage::PushMessage => {
                    &&& r is None
                    &&& final(self).state == ClientState::Registered
                    &&& final(self).queue@ == old(self).queue@ + seq![SendMessage::ZtLiveScMessage]
                    &&& final(self).interval == old(self).interval
                },
                ReceiveMessage::EnterRoom => {
                    &&& r is None
                    &&& final(self).state == ClientState::Registered
                    &&& final(self).queue@ == old(self).queue@ + seq![
                        SendMessage::ZtLiveScMessage,
                        SendMessage::ZtLiveCsEnterRoom,
                    ]
                    &&& final(self).interval == old(self).interval
                },
                ReceiveMessage::PushAndStop => {
                    &&& r is None
                    &&& final(self).state == ClientState::Closing
                    &&& final(self).queue@ == old(self).queue@ + seq![
                        SendMessage::ZtLiveScMessage,
                        SendMessage::ZtLiveCsUserExit,
                        SendMessage::UnregisterRequest,
                    ]
                    &&& final(self).interval == old(self).interval
                },
                ReceiveMessage::Stop => {
                    &&& r is None
                    &&& final(self).state == ClientState::Closing
                    &&& final(self).queue@ == old(self).queue@ + seq![
                        SendMessage::ZtLiveCsUserExit,
                        SendMessage::UnregisterRequest,
                    ]
                    &&& final(self).interval == old(self).interval
                },
                ReceiveMessage::Close => {
                    &&& r is None
                    &&& final(self).state == ClientState::Closing
                    &&& final(self).queue@ == old(self).queue@
                    &&& final(self).interval == old(self).interval
                },
            },
    {
        match msg {
            ReceiveMessage::Danmaku(d) => Some(d),
            ReceiveMessage::RegisterResponse => None,
            ReceiveMessage::Interval(ms) => {
                self.interval = Some(ms);
                None
            },
            ReceiveMessage::PushMessage => {
                self.queue.push(SendMessage::ZtLiveScMessage);
                None
            },
            ReceiveMessage::EnterRoom => {
                self.queue.push(SendMessage::ZtLiveScMessage);
                self.queue.push(SendMessage::ZtLiveCsEnterRoom);
                None
            },
            ReceiveMessage::PushAndStop => {
                self.queue.push(SendMessage::ZtLiveScMessage);
                self.queue.push(SendMessage::ZtLiveCsUserExit);
                self.queue.push(SendMessage::UnregisterRequest);
                self.state = ClientState::Closing;
                None
            },
            ReceiveMessage::Stop => {
                self.queue.push(SendMessage::ZtLiveCsUserExit);
                self.queue.push(SendMessage::UnregisterRequest);
                self.state = ClientState::Closing;
                None
            },
            ReceiveMessage::Close => {
                self.state = ClientState::Closing;
                None
            },
        }
    }

    /// Begins an orderly shutdown. From the steady state exactly one user
    /// exit and one unregister request go out, in that order; from an
    /// earlier state the driver merely stops; closing twice queues nothing
    /// more.
    pub fn close(&mut self)
        ensures
            final(self).same_proto(*old(self)),
            final(self).interval == old(self).interval,
            final(self).last_heartbeat_ms == old(self).last_heartbeat_ms,
            final(self).heartbeat_seq_id == old(self).heartbeat_seq_id,
            match old(self).state {
                ClientState::Registered => {
                    &&& final(self).state == ClientState::Closing
                    &&& final(self).queue@ == old(self).queue@ + seq![
                        SendMessage::ZtLiveCsUserExit,
                        SendMessage::UnregisterRequest,
                    ]
                },
                ClientState::BeforeRegister | ClientState::Registering => {
                    &&& final(self).state == ClientState::Closing
                    &&& final(self).queue@ == old(self).queue@
                },
                ClientState::Closing | ClientState::Closed => {
                    &&& final(self).state == old(self).state
                    &&& final(self).queue@ == old(self).queue@
                },
            },
    {
        match self.state {
            ClientState::Registered => {
                self.queue.push(SendMessage::ZtLiveCsUserExit);
                self.queue.push(SendMessage::UnregisterRequest);
                self.state = ClientState::Closing;
            },
            ClientState::BeforeRegister | ClientState::Registering => {
                self.state = ClientState::Closing;
            },
            ClientState::Closing | ClientState::Closed => {},
        }
    }

    /// Marks the session over: the transport closed, a terminal error
    /// arrived, or the orderly shutdown finished. Observations after this
    /// yield nothing.
    pub fn mark_closed(&mut self)
        ensures
            final(self).same_proto(*old(self)),
            final(self).queue@ == old(self).queue@,
            final(self).interval == old(self).interval,
            final(self).last_heartbeat_ms == old(self).last_heartbeat_ms,
            final(self).heartbeat_seq_id == old(self).heartbeat_seq_id,
            final(self).state == ClientState::Closed,
    {
        self.state = ClientState::Closed;
    }
}

// ---------- the rotation and cadence laws ----------

/// The ticket index after `n` single rotations from `start`, each one step
/// forward modulo `len`, as the classifier performs on a ticket-invalid
/// push.
pub open spec fn spec_rotate_n(start: int, n: nat, len: int) -> int
    decreases n,
{
    if n == 0 {
        start
    } else {
        spec_rotate_n((start + 1) % len, (n - 1) as nat, len)
    }
}

/// Ticket rotation: after `n` consecutive ticket-invalid notifications the
/// index stands at `(start + n) mod len`; in particular, starting from
/// zero it stands at `n mod len`.
pub proof fn lemma_ticket_rotation(start: int, n: nat, len: int)
    requires
        len > 0,
        0 <= start < len,
    ensures
        spec_rotate_n(start, n, len) == (start + n) % len,
    decreases n,
{
    if n == 0 {
        vstd::arithmetic::div_mod::lemma_small_mod(start as nat, len as nat);
    } else {
        let next = (start + 1) % len;
        vstd::arithmetic::div_mod::lemma_mod_bound(start + 1, len);
        lemma_ticket_rotation(next, (n - 1) as nat, len);
        vstd::arithmetic::div_mod::lemma_fundamental_div_mod(start + 1, len);
        let q0 = (start + 1) / len;
        assert(start + 1 == len * q0 + next);
        vstd::arithmetic::div_mod::lemma_mod_multiples_vanish(q0, next + (n - 1), len);
        assert((len * q0 + (next + (n - 1))) % len == (next + (n - 1)) % len);
        assert(start + n == len * q0 + (next + (n - 1)));
    }
}

/// Where the heartbeat schedule stands after being run at every instant of
/// `0 < time <= t` with interval `i`: the moment of the last heartbeat.
pub open spec fn spec_cadence_last(i: int, t: nat) -> int
    decreases t,
{
    if t == 0 {
        0
    } else {
        let prev = spec_cadence_last(i, (t - 1) as nat);
        if t - prev >= i {
            t as int
        } else {
            prev
        }
    }
}

/// How many heartbeats the schedule emits when run at every instant of
/// `0 < time <= t` with interval `i`.
pub open spec fn spec_cadence_count(i: int, t: nat) -> int
    decreases t,
{
    if t == 0 {
        0
    } else {
        let prev = spec_cadence_last(i, (t - 1) as nat);
        spec_cadence_count(i, (t - 1) as nat) + if t - prev >= i {
            1int
        } else {
            0int
        }
    }
}

/// Heartbeat cadence: a schedule that fires whenever at least the interval
/// `i` has passed since the last heartbeat — as `heartbeat_tick` does —
/// and is consulted at every instant of a horizon `t` fires exactly
/// `t / i` times, the last time at `i * (t / i)`.
pub proof fn lemma_heartbeat_cadence(i: int, t: nat)
    requires
        i >= 1,
    ensures
        spec_cadence_last(i, t) == i * ((t as int) / i),
        spec_cadence_count(i, t) == (t as int) / i,
    decreases t,
{
    if t == 0 {
        vstd::arithmetic::div_mod::lemma_basic_div(0, i);
        assert(i * 0 == 0) by (nonlinear_arith);
    } else {
        lemma_heartbeat_cadence(i, (t - 1) as nat);
        let q = (t - 1) as int / i;
        let prev = spec_cadence_last(i, (t - 1) as nat);
        vstd::arithmetic::div_mod::lemma_fundamental_div_mod((t - 1) as int, i);
        assert(t - 1 == i * q + ((t - 1) as int % i));
        vstd::arithmetic::div_mod::lemma_mod_bound((t - 1) as int, i);
        if t - prev >= i {
            assert(t as int >= i * q + i);
            assert(t as int <= i * (q + 1)) by (nonlinear_arith)
                requires
                    t - 1 == i * q + ((t - 1) as int % i),
                    (t - 1) as int % i < i,
            {}
            assert(i * (q + 1) == i * q + i) by (nonlinear_arith);
            assert(t as int == i * (q + 1));
            vstd::arithmetic::div_mod::lemma_fundamental_div_mod_converse(
                t as int,
                i,
                q + 1,
                0,
            );
        } else {
            assert(t as int - i * q < i);
            assert(t as int - i * q >= 1);
            vstd::arithmetic::div_mod::lemma_fundamental_div_mod_converse(
                t as int,
                i,
                q,
                t as int - i * q,
            );
            assert(t as int == q * i + (t as int - i * q)) by (nonlinear_arith);
        }
    }
}

} // verus!
