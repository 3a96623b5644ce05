//! The decoded signal records and their tagged unions. An inbound push
//! payload decodes to an ordered batch of action, state or notify signals;
//! unknown inner types are preserved as raw bytes so a caller can still
//! inspect them.

use vstd::prelude::*;

verus! {

// ---------- the action records ----------

#[derive(Clone, Debug, PartialEq, Eq)]
pub struct CommonActionSignalComment {
    pub send_time_ms: i64,
    pub content: Vec<u8>,
}

#[derive(Clone, Copy, Debug, PartialEq, Eq, Structural)]
pub struct CommonActionSignalLike {
    pub send_time_ms: i64,
}

#[derive(Clone, Copy, Debug, PartialEq, Eq, Structural)]
pub struct CommonActionSignalUserEnterRoom {
    pub send_time_ms: i64,
}

#[derive(Clone, Copy, Debug, PartialEq, Eq, Structural)]
pub struct CommonActionSignalUserFollowAuthor {
    pub send_time_ms: i64,
}

#[derive(Clone, Copy, Debug, PartialEq, Eq, Structural)]
pub struct AcfunActionSignalThrowBanana {
    pub send_time_ms: i64,
}

#[derive(Clone, Copy, Debug, PartialEq, Eq, Structural)]
pub struct CommonActionSignalGift {
    pub send_time_ms: i64,
}

#[derive(Clone, Copy, Debug, PartialEq, Eq, Structural)]
pub struct CommonActionSignalRichText {
    pub send_time_ms: i64,
}

#[derive(Clone, Copy, Debug, PartialEq, Eq, Structural)]
pub struct AcfunActionSignalJoinClub {
    pub join_time_ms: i64,
}

// ---------- the state records ----------

#[derive(Clone, Debug, PartialEq, Eq)]
pub struct AcfunStateSignalDisplayInfo {
    pub banana_count: Vec<u8>,
}

#[derive(Clone, Debug, PartialEq, Eq)]
pub struct CommonStateSignalDisplayInfo {
    pub watching_count: Vec<u8>,
    pub like_count: Vec<u8>,
}

#[derive(Clone, Debug, PartialEq, Eq)]
pub struct CommonStateSignalTopUsers {
    pub users: Vec<Vec<u8>>,
}

#[derive(Clone, Debug, PartialEq, Eq)]
pub struct CommonStateSignalRecentComment {
    pub comments: Vec<Vec<u8>>,
}

#[derive(Clone, Debug, PartialEq, Eq)]
pub struct CommonStateSignalCurrentRedpackList {
    pub redpacks: Vec<Vec<u8>>,
}

#[derive(Clone, Debug, PartialEq, Eq)]
pub struct CommonStateSignalChatCall {
    pub chat_id: Vec<u8>,
}

#[derive(Clone, Debug, PartialEq, Eq)]
pub struct CommonStateSignalChatAccept {
    pub chat_id: Vec<u8>,
}

#[derive(Clone, Debug, PartialEq, Eq)]
pub struct CommonStateSignalChatReady {
    pub chat_id: Vec<u8>,
}

#[derive(Clone, Debug, PartialEq, Eq)]
pub struct CommonStateSignalChatEnd {
    pub chat_id: Vec<u8>,
}

#[derive(Clone, Debug, PartialEq, Eq)]
pub struct CommonStateSignalAuthorChatCall {
    pub chat_id: Vec<u8>,
}

#[derive(Clone, Debug, PartialEq, Eq)]
pub struct CommonStateSignalAuthorChatAccept {
    pub chat_id: Vec<u8>,
}

#[derive(Clone, Debug, PartialEq, Eq)]
pub struct CommonStateSignalAuthorChatReady {
    pub chat_id: Vec<u8>,
}

#[derive(Clone, Debug, PartialEq, Eq)]
pub struct CommonStateSignalAuthorChatEnd {
    pub chat_id: Vec<u8>,
}

#[derive(Clone, Copy, Debug, PartialEq, Eq, Structural)]
pub struct CommonStateSignalAuthorChatChangeSoundConfig {
    pub sound_config: i32,
}

#[derive(Clone, Copy, Debug, PartialEq, Eq, Structural)]
pub struct CommonStateSignalLiveState {
    pub state: i32,
}

// ---------- the notify records ----------

#[derive(Clone, Debug, PartialEq, Eq)]
pub struct CommonNotifySignalKickedOut {
    pub reason: Vec<u8>,
}

#[derive(Clone, Debug, PartialEq, Eq)]
pub struct CommonNotifySignalViolationAlert {
    pub violation_content: Vec<u8>,
}

#[derive(Clone, Copy, Debug, PartialEq, Eq, Structural)]
pub struct CommonNotifySignalLiveManagerState {
    pub state: i32,
}

// ---------- the tagged unions and their mathematical models ----------

/// The mathematical content of one action signal.
pub ghost enum ActionModel {
    Comment { send_time_ms: i64, content: Seq<u8> },
    Like { send_time_ms: i64 },
    EnterRoom { send_time_ms: i64 },
    FollowAuthor { send_time_ms: i64 },
    ThrowBanana { send_time_ms: i64 },
    Gift { send_time_ms: i64 },
    RichText { send_time_ms: i64 },
    JoinClub { join_time_ms: i64 },
    Unknown { raw: Seq<u8> },
}

/// The timestamp a batch is ordered by; an unknown record sorts to zero.
pub open spec fn spec_action_time(m: ActionModel) -> i64 {
    match m {
        ActionModel::Comment { send_time_ms, .. } => send_time_ms,
        ActionModel::Like { send_time_ms } => send_time_ms,
        ActionModel::EnterRoom { send_time_ms } => send_time_ms,
        ActionModel::FollowAuthor { send_time_ms } => send_time_ms,
        ActionModel::ThrowBanana { send_time_ms } => send_time_ms,
        ActionModel::Gift { send_time_ms } => send_time_ms,
        ActionModel::RichText { send_time_ms } => send_time_ms,
        ActionModel::JoinClub { join_time_ms } => join_time_ms,
        ActionModel::Unknown { .. } => 0,
    }
}

/// One reaction event in a live room.
#[derive(Clone, Debug, PartialEq, Eq)]
pub enum ActionSignal {
    Comment(CommonActionSignalComment),
    Like(CommonActionSignalLike),
    EnterRoom(CommonActionSignalUserEnterRoom),
    FollowAuthor(CommonActionSignalUserFollowAuthor),
    ThrowBanana(AcfunActionSignalThrowBanana),
    Gift(CommonActionSignalGift),
    RichText(CommonActionSignalRichText),
    JoinClub(AcfunActionSignalJoinClub),
    Unknown(Vec<u8>),
}

impl ActionSignal {
    pub open spec fn model(self) -> ActionModel {
        match self {
            ActionSignal::Comment(s) => ActionModel::Comment {
                send_time_ms: s.send_time_ms,
                content: s.content@,
            },
            ActionSignal::Like(s) => ActionModel::Like { send_time_ms: s.send_time_ms },
            ActionSignal::EnterRoom(s) => ActionModel::EnterRoom { send_time_ms: s.send_time_ms },
            ActionSignal::FollowAuthor(s) => ActionModel::FollowAuthor {
                send_time_ms: s.send_time_ms,
            },
            ActionSignal::ThrowBanana(s) => ActionModel::ThrowBanana {
                send_time_ms: s.send_time_ms,
            },
            ActionSignal::Gift(s) => ActionModel::Gift { send_time_ms: s.send_time_ms },
            ActionSignal::RichText(s) => ActionModel::RichText { send_time_ms: s.send_time_ms },
            ActionSignal::JoinClub(s) => ActionModel::JoinClub { join_time_ms: s.join_time_ms },
            ActionSignal::Unknown(b) => ActionModel::Unknown { raw: b@ },
        }
    }

    /// The timestamp used for ordering a batch.
    pub fn time(&self) -> (r: i64)
        ensures
            r == spec_action_time(self.model()),
    {
        match self {
            ActionSignal::Comment(s) => s.send_time_ms,
            ActionSignal::Like(s) => s.send_time_ms,
            ActionSignal::EnterRoom(s) => s.send_time_ms,
            ActionSignal::FollowAuthor(s) => s.send_time_ms,
            ActionSignal::ThrowBanana(s) => s.send_time_ms,
            ActionSignal::Gift(s) => s.send_time_ms,
            ActionSignal::RichText(s) => s.send_time_ms,
            ActionSignal::JoinClub(s) => s.join_time_ms,
            ActionSignal::Unknown(_) => 0,
        }
    }
}

/// The mathematical content of one state signal.
pub ghost enum StateModel {
    AcFunDisplayInfo { banana_count: Seq<u8> },
    DisplayInfo { watching_count: Seq<u8>, like_count: Seq<u8> },
    TopUsers { users: Seq<Seq<u8>> },
    RecentComment { comments: Seq<Seq<u8>> },
    RedpackList { redpacks: Seq<Seq<u8>> },
    ChatCall { chat_id: Seq<u8> },
    ChatAccept { chat_id: Seq<u8> },
    ChatReady { chat_id: Seq<u8> },
    ChatEnd { chat_id: Seq<u8> },
    AuthorChatCall { chat_id: Seq<u8> },
    AuthorChatAccept { chat_id: Seq<u8> },
    AuthorChatReady { chat_id: Seq<u8> },
    AuthorChatEnd { chat_id: Seq<u8> },
    AuthorChatChangeSoundConfig { sound_config: i32 },
    LiveState { state: i32 },
    Unknown { raw: Seq<u8> },
}

/// One room-state update.
#[derive(Clone, Debug, PartialEq, Eq)]
pub enum StateSignal {
    AcFunDisplayInfo(AcfunStateSignalDisplayInfo),
    DisplayInfo(CommonStateSignalDisplayInfo),
    TopUsers(CommonStateSignalTopUsers),
    RecentComment(CommonStateSignalRecentComment),
    RedpackList(CommonStateSignalCurrentRedpackList),
    ChatCall(CommonStateSignalChatCall),
    ChatAccept(CommonStateSignalChatAccept),
    ChatReady(CommonStateSignalChatReady),
    ChatEnd(CommonStateSignalChatEnd),
    AuthorChatCall(CommonStateSignalAuthorChatCall),
    AuthorChatAccept(CommonStateSignalAuthorChatAccept),
    AuthorChatReady(CommonStateSignalAuthorChatReady),
    AuthorChatEnd(CommonStateSignalAuthorChatEnd),
    AuthorChatChangeSoundConfig(CommonStateSignalAuthorChatChangeSoundConfig),
    LiveState(CommonStateSignalLiveState),
    Unknown(Vec<u8>),
}

impl StateSignal {
    pub open spec fn model(self) -> StateModel {
        match self {
            StateSignal::AcFunDisplayInfo(s) => StateModel::AcFunDisplayInfo {
                banana_count: s.banana_count@,
            },
            StateSignal::DisplayInfo(s) => StateModel::DisplayInfo {
                watching_count: s.watching_count@,
                like_count: s.like_count@,
            },
            StateSignal::TopUsers(s) => StateModel::TopUsers {
                users: crate::shapes::seq_views(s.users@),
            },
            StateSignal::RecentComment(s) => StateModel::RecentComment {
                comments: crate::shapes::seq_views(s.comments@),
            },
            StateSignal::RedpackList(s) => StateModel::RedpackList {
                redpacks: crate::shapes::seq_views(s.redpacks@),
            },
            StateSignal::ChatCall(s) => StateModel::ChatCall { chat_id: s.chat_id@ },
            StateSignal::ChatAccept(s) => StateModel::ChatAccept { chat_id: s.chat_id@ },
            StateSignal::ChatReady(s) => StateModel::ChatReady { chat_id: s.chat_id@ },
            StateSignal::ChatEnd(s) => StateModel::ChatEnd { chat_id: s.chat_id@ },
            StateSignal::AuthorChatCall(s) => StateModel::AuthorChatCall { chat_id: s.chat_id@ },
            StateSignal::AuthorChatAccept(s) => StateModel::AuthorChatAccept {
                chat_id: s.chat_id@,
            },
            StateSignal::AuthorChatReady(s) => StateModel::AuthorChatReady { chat_id: s.chat_id@ },
            StateSignal::AuthorChatEnd(s) => StateModel::AuthorChatEnd { chat_id: s.chat_id@ },
            StateSignal::AuthorChatChangeSoundConfig(s) => StateModel::AuthorChatChangeSoundConfig {
                sound_config: s.sound_config,
            },
            StateSignal::LiveState(s) => StateModel::LiveState { state: s.state },
            StateSignal::Unknown(b) => StateModel::Unknown { raw: b@ },
        }
    }
}

/// The mathematical content of one notify signal.
pub ghost enum NotifyModel {
    KickedOut { reason: Seq<u8> },
    ViolationAlert { violation_content: Seq<u8> },
    ManagerState { state: i32 },
    Unknown { raw: Seq<u8> },
}

/// One moderation event addressed to this client.
#[derive(Clone, Debug, PartialEq, Eq)]
pub enum NotifySignal {
    KickedOut(CommonNotifySignalKickedOut),
    ViolationAlert(CommonNotifySignalViolationAlert),
    ManagerState(CommonNotifySignalLiveManagerState),
    Unknown(Vec<u8>),
}

impl NotifySignal {
    pub open spec fn model(self) -> NotifyModel {
        match self {
            NotifySignal::KickedOut(s) => NotifyModel::KickedOut { reason: s.reason@ },
            NotifySignal::ViolationAlert(s) => NotifyModel::ViolationAlert {
                violation_content: s.violation_content@,
            },
            NotifySignal::ManagerState(s) => NotifyModel::ManagerState { state: s.state },
            NotifySignal::Unknown(b) => NotifyModel::Unknown { raw: b@ },
        }
    }
}

/// One decoded batch surfaced to the caller.
#[derive(Clone, Debug, PartialEq, Eq)]
pub enum Danmaku {
    ActionSignal(Vec<ActionSignal>),
    StateSignal(Vec<StateSignal>),
    NotifySignal(Vec<NotifySignal>),
}

/// The models of a sequence of action signals.
pub open spec fn action_models(s: Seq<ActionSignal>) -> Seq<ActionModel> {
    s.map_values(|x: ActionSignal| x.model())
}

/// The models of a sequence of state signals.
pub open spec fn state_models(s: Seq<StateSignal>) -> Seq<StateModel> {
    s.map_values(|x: StateSignal| x.model())
}

/// The models of a sequence of notify signals.
pub open spec fn notify_models(s: Seq<NotifySignal>) -> Seq<NotifyModel> {
    s.map_values(|x: NotifySignal| x.model())
}

// ---------- decoding a state-signal batch ----------

use crate::errors::Error;
use crate::globals::{
    sig_acfun_display_info, sig_author_chat_accept, sig_author_chat_call, sig_author_chat_end,
    sig_author_chat_ready, sig_chat_accept, sig_chat_call, sig_chat_end, sig_chat_ready,
    sig_display_info, sig_kicked_out, sig_live_state, sig_manager_state, sig_redpack_list,
    sig_recent_comment, sig_sound_config, sig_top_users, sig_violation_alert,
    spec_sig_acfun_display_info,
    spec_sig_author_chat_accept, spec_sig_author_chat_call, spec_sig_author_chat_end,
    spec_sig_author_chat_ready, spec_sig_chat_accept, spec_sig_chat_call, spec_sig_chat_end,
    spec_sig_chat_ready, spec_sig_display_info, spec_sig_kicked_out, spec_sig_live_state,
    spec_sig_manager_state, spec_sig_recent_comment, spec_sig_redpack_list,
    spec_sig_sound_config, spec_sig_top_users, spec_sig_violation_alert,
};
use crate::messages::{dec_b, dec_bb, dec_v, spec_dec_b, spec_dec_bb, spec_dec_v};
use crate::shapes::{read_rep_bytes, seq_views, spec_dec_rep_bytes};
use crate::wire::bytes_eq;

/// What one state record with type name `st` and body `pl` decodes to;
/// `None` when the body does not parse for a known type name.
pub open spec fn spec_state_one(st: Seq<u8>, pl: Seq<u8>) -> Option<StateModel> {
    if st == spec_sig_acfun_display_info() {
        match spec_dec_b(pl) {
            Option::Some(b) => Some(StateModel::AcFunDisplayInfo { banana_count: b }),
            Option::None => None,
        }
    } else if st == spec_sig_display_info() {
        match spec_dec_bb(pl) {
            Option::Some(t) => Some(
                StateModel::DisplayInfo { watching_count: t.0, like_count: t.1 },
            ),
            Option::None => None,
        }
    } else if st == spec_sig_top_users() {
        match spec_dec_rep_bytes(1, pl) {
            Option::Some(u) => Some(StateModel::TopUsers { users: u }),
            Option::None => None,
        }
    } else if st == spec_sig_recent_comment() {
        match spec_dec_rep_bytes(1, pl) {
            Option::Some(u) => Some(StateModel::RecentComment { comments: u }),
            Option::None => None,
        }
    } else if st == spec_sig_redpack_list() {
        match spec_dec_rep_bytes(1, pl) {
            Option::Some(u) => Some(StateModel::RedpackList { redpacks: u }),
            Option::None => None,
        }
    } else if st == spec_sig_chat_call() {
        match spec_dec_b(pl) {
            Option::Some(b) => Some(StateModel::ChatCall { chat_id: b }),
            Option::None => None,
        }
    } else if st == spec_sig_chat_accept() {
        match spec_dec_b(pl) {
            Option::Some(b) => Some(StateModel::ChatAccept { chat_id: b }),
            Option::None => None,
        }
    } else if st == spec_sig_chat_ready() {
        match spec_dec_b(pl) {
            Option::Some(b) => Some(StateModel::ChatReady { chat_id: b }),
            Option::None => None,
        }
    } else if st == spec_sig_chat_end() {
        match spec_dec_b(pl) {
            Option::Some(b) => Some(StateModel::ChatEnd { chat_id: b }),
            Option::None => None,
        }
    } else if st == spec_sig_author_chat_call() {
        match spec_dec_b(pl) {
            Option::Some(b) => Some(StateModel::AuthorChatCall { chat_id: b }),
            Option::None => None,
        }
    } else if st == spec_sig_author_chat_accept() {
        match spec_dec_b(pl) {
            Option::Some(b) => Some(StateModel::AuthorChatAccept { chat_id: b }),
            Option::None => None,
        }
    } else if st == spec_sig_author_chat_ready() {
        match spec_dec_b(pl) {
            Option::Some(b) => Some(StateModel::AuthorChatReady { chat_id: b }),
            Option::None => None,
        }
    } else if st == spec_sig_author_chat_end() {
        match spec_dec_b(pl) {
            Option::Some(b) => Some(StateModel::AuthorChatEnd { chat_id: b }),
            Option::None => None,
        }
    } else if st == spec_sig_sound_config() {
        match spec_dec_v(pl) {
            Option::Some(v) => Some(
                StateModel::AuthorChatChangeSoundConfig { sound_config: v as i32 },
            ),
            Option::None => None,
        }
    } else if st == spec_sig_live_state() {
        match spec_dec_v(pl) {
            Option::Some(v) => Some(StateModel::LiveState { state: v as i32 }),
            Option::None => None,
        }
    } else {
        Some(StateModel::Unknown { raw: pl })
    }
}

/// The type-name/body pairs of a state-signal batch.
pub open spec fn spec_state_pairs(s: Seq<u8>) -> Option<Seq<(Seq<u8>, Seq<u8>)>> {
    match spec_dec_rep_bytes(1, s) {
        Option::None => None,
        Option::Some(chunks) => {
            if forall|j: int|
                0 <= j < chunks.len() ==> (#[trigger] spec_dec_bb(chunks[j])) is Some {
                Some(Seq::new(chunks.len(), |j: int| spec_dec_bb(chunks[j]).unwrap()))
            } else {
                None
            }
        },
    }
}

/// What a whole state-signal batch decodes to, in wire order.
pub open spec fn spec_state_signal(s: Seq<u8>) -> Option<Seq<StateModel>> {
    match spec_state_pairs(s) {
        Option::None => None,
        Option::Some(pairs) => {
            if forall|j: int|
                0 <= j < pairs.len() ==> (#[trigger] spec_state_one(pairs[j].0, pairs[j].1))
                     is Some {
                Some(Seq::new(pairs.len(), |j: int| spec_state_one(pairs[j].0, pairs[j].1).unwrap()))
            } else {
                None
            }
        },
    }
}

/// Decodes one state record; the type-name dispatch mirrors
/// `spec_state_one` case for case.
#[verifier::rlimit(80)]
#[verifier::spinoff_prover]
fn state_one(st: &Vec<u8>, pl: Vec<u8>) -> (r: Result<StateSignal, Error>)
    ensures
        match spec_state_one(st@, pl@) {
            Option::None => r == Err::<StateSignal, Error>(Error::DecodeProtoError),
            Option::Some(m) => {
                match r {
                    Result::Ok(s) => s.model() == m,
                    Result::Err(_) => false,
                }
            },
        },
{
    if bytes_eq(st.as_slice(), sig_acfun_display_info()) {
        match dec_b(pl.as_slice()) {
            Some(b) => Ok(StateSignal::AcFunDisplayInfo(AcfunStateSignalDisplayInfo { banana_count: b })),
            None => Err(Error::DecodeProtoError),
        }
    } else if bytes_eq(st.as_slice(), sig_display_info()) {
        match dec_bb(pl.as_slice()) {
            Some((w, l)) => Ok(StateSignal::DisplayInfo(CommonStateSignalDisplayInfo { watching_count: w, like_count: l })),
            None => Err(Error::DecodeProtoError),
        }
    } else if bytes_eq(st.as_slice(), sig_top_users()) {
        match read_rep_bytes(pl.as_slice(), 1) {
            Some(u) => Ok(StateSignal::TopUsers(CommonStateSignalTopUsers { users: u })),
            None => Err(Error::DecodeProtoError),
        }
    } else if bytes_eq(st.as_slice(), sig_recent_comment()) {
        match read_rep_bytes(pl.as_slice(), 1) {
            Some(u) => Ok(StateSignal::RecentComment(CommonStateSignalRecentComment { comments: u })),
            None => Err(Error::DecodeProtoError),
        }
    } else if bytes_eq(st.as_slice(), sig_redpack_list()) {
        match read_rep_bytes(pl.as_slice(), 1) {
            Some(u) => Ok(StateSignal::RedpackList(CommonStateSignalCurrentRedpackList { redpacks: u })),
            None => Err(Error::DecodeProtoError),
        }
    } else if bytes_eq(st.as_slice(), sig_chat_call()) {
        match dec_b(pl.as_slice()) {
            Some(b) => Ok(StateSignal::ChatCall(CommonStateSignalChatCall { chat_id: b })),
            None => Err(Error::DecodeProtoError),
        }
    } else if bytes_eq(st.as_slice(), sig_chat_accept()) {
        match dec_b(pl.as_slice()) {
            Some(b) => Ok(StateSignal::ChatAccept(CommonStateSignalChatAccept { chat_id: b })),
            None => Err(Error::DecodeProtoError),
        }
    } else if bytes_eq(st.as_slice(), sig_chat_ready()) {
        match dec_b(pl.as_slice()) {
            Some(b) => Ok(StateSignal::ChatReady(CommonStateSignalChatReady { chat_id: b })),
            None => Err(Error::DecodeProtoError),
        }
    } else if bytes_eq(st.as_slice(), sig_chat_end()) {
        match dec_b(pl.as_slice()) {
            Some(b) => Ok(StateSignal::ChatEnd(CommonStateSignalChatEnd { chat_id: b })),
            None => Err(Error::DecodeProtoError),
        }
    } else if bytes_eq(st.as_slice(), sig_author_chat_call()) {
        match dec_b(pl.as_slice()) {
            Some(b) => Ok(StateSignal::AuthorChatCall(CommonStateSignalAuthorChatCall { chat_id: b })),
            None => Err(Error::DecodeProtoError),
        }
    } else if bytes_eq(st.as_slice(), sig_author_chat_accept()) {
        match dec_b(pl.as_slice()) {
            Some(b) => Ok(StateSignal::AuthorChatAccept(CommonStateSignalAuthorChatAccept { chat_id: b })),
            None => Err(Error::DecodeProtoError),
        }
    } else if bytes_eq(st.as_slice(), sig_author_chat_ready()) {
        match dec_b(pl.as_slice()) {
            Some(b) => Ok(StateSignal::AuthorChatReady(CommonStateSignalAuthorChatReady { chat_id: b })),
            None => Err(Error::DecodeProtoError),
        }
    } else if bytes_eq(st.as_slice(), sig_author_chat_end()) {
        match dec_b(pl.as_slice()) {
            Some(b) => Ok(StateSignal::AuthorChatEnd(CommonStateSignalAuthorChatEnd { chat_id: b })),
            None => Err(Error::DecodeProtoError),
        }
    } else if bytes_eq(st.as_slice(), sig_sound_config()) {
        match dec_v(pl.as_slice()) {
            Some(v) => Ok(StateSignal::AuthorChatChangeSoundConfig(CommonStateSignalAuthorChatChangeSoundConfig { sound_config: v as i32 })),
            None => Err(Error::DecodeProtoError),
        }
    } else if bytes_eq(st.as_slice(), sig_live_state()) {
        match dec_v(pl.as_slice()) {
            Some(v) => Ok(StateSignal::LiveState(CommonStateSignalLiveState { state: v as i32 })),
            None => Err(Error::DecodeProtoError),
        }
    } else {
        Ok(StateSignal::Unknown(pl))
    }
}

/// Decodes a state-signal batch: each record in wire order, unknown type
/// names preserved as raw bytes.
#[verifier::rlimit(80)]
#[verifier::spinoff_prover]
pub fn state_signal(payload: &[u8]) -> (r: Result<Vec<StateSignal>, Error>)
    ensures
        match spec_state_signal(payload@) {
            Option::None => r == Err::<Vec<StateSignal>, Error>(Error::DecodeProtoError),
            Option::Some(models) => {
                match r {
                    Result::Ok(v) => state_models(v@) == models,
                    Result::Err(_) => false,
                }
            },
        },
{
    let chunks = match read_rep_bytes(payload, 1) {
        Some(c) => c,
        None => {
            return Err(Error::DecodeProtoError);
        },
    };
    let ghost chs = seq_views(chunks@);
    let mut out: Vec<StateSignal> = Vec::new();
    let mut i: usize = 0;
    while i < chunks.len()
        invariant
            i <= chunks@.len(),
            out@.len() == i,
            chs == seq_views(chunks@),
            spec_dec_rep_bytes(1, payload@) == Some(chs),
            forall|j: int| 0 <= j < i ==> (#[trigger] spec_dec_bb(chs[j])) is Some,
            forall|j: int|
                0 <= j < i ==> spec_state_one(
                    #[trigger] spec_dec_bb(chs[j]).unwrap().0,
                    spec_dec_bb(chs[j]).unwrap().1,
                ) == Some(out@[j].model()),
        decreases chunks@.len() - i,
    {
        let pair = match dec_bb(chunks[i].as_slice()) {
            Some(p) => p,
            None => {
                proof {
                    assert(spec_dec_bb(chs[i as int]) is None);
                    assert(spec_state_pairs(payload@) is None);
                }
                return Err(Error::DecodeProtoError);
            },
        };
        let sig = match state_one(&pair.0, pair.1) {
            Ok(s) => s,
            Err(e) => {
                proof {
                    if spec_state_pairs(payload@) is Some {
                        let pairs = spec_state_pairs(payload@).unwrap();
                        assert(pairs[i as int] == spec_dec_bb(chs[i as int]).unwrap());
                        assert(spec_state_one(pairs[i as int].0, pairs[i as int].1) is None);
                    }
                }
                return Err(Error::DecodeProtoError);
            },
        };
        out.push(sig);
        i = i + 1;
    }
    proof {
        let pairs = Seq::new(chs.len(), |j: int| spec_dec_bb(chs[j]).unwrap());
        assert(spec_state_pairs(payload@) == Some(pairs));
        let models = Seq::new(pairs.len(), |j: int| spec_state_one(pairs[j].0, pairs[j].1).unwrap());
        assert(models =~= state_models(out@));
    }
    Ok(out)
}

// ---------- decoding a notify-signal batch ----------

/// What one notify record decodes to.
pub open spec fn spec_notify_one(st: Seq<u8>, pl: Seq<u8>) -> Option<NotifyModel> {
    if st == spec_sig_kicked_out() {
        match spec_dec_b(pl) {
            Option::Some(b) => Some(NotifyModel::KickedOut { reason: b }),
            Option::None => None,
        }
    } else if st == spec_sig_violation_alert() {
        match spec_dec_b(pl) {
            Option::Some(b) => Some(NotifyModel::ViolationAlert { violation_content: b }),
            Option::None => None,
        }
    } else if st == spec_sig_manager_state() {
        match spec_dec_v(pl) {
            Option::Some(v) => Some(NotifyModel::ManagerState { state: v as i32 }),
            Option::None => None,
        }
    } else {
        Some(NotifyModel::Unknown { raw: pl })
    }
}

/// What a whole notify-signal batch decodes to, in wire order.
pub open spec fn spec_notify_signal(s: Seq<u8>) -> Option<Seq<NotifyModel>> {
    match spec_state_pairs(s) {
        Option::None => None,
        Option::Some(pairs) => {
            if forall|j: int|
                0 <= j < pairs.len() ==> (#[trigger] spec_notify_one(pairs[j].0, pairs[j].1))
                     is Some {
                Some(
                    Seq::new(pairs.len(), |j: int| spec_notify_one(pairs[j].0, pairs[j].1).unwrap()),
                )
            } else {
                None
            }
        },
    }
}

/// Decodes one notify record; the dispatch mirrors `spec_notify_one`.
fn notify_one(st: &Vec<u8>, pl: Vec<u8>) -> (r: Result<NotifySignal, Error>)
    ensures
        match spec_notify_one(st@, pl@) {
            Option::None => r == Err::<NotifySignal, Error>(Error::DecodeProtoError),
            Option::Some(m) => {
                match r {
                    Result::Ok(s) => s.model() == m,
                    Result::Err(_) => false,
                }
            },
        },
{
    if bytes_eq(st.as_slice(), sig_kicked_out()) {
        match dec_b(pl.as_slice()) {
            Some(b) => Ok(NotifySignal::KickedOut(CommonNotifySignalKickedOut { reason: b })),
            None => Err(Error::DecodeProtoError),
        }
    } else if bytes_eq(st.as_slice(), sig_violation_alert()) {
        match dec_b(pl.as_slice()) {
            Some(b) => Ok(NotifySignal::ViolationAlert(CommonNotifySignalViolationAlert { violation_content: b })),
            None => Err(Error::DecodeProtoError),
        }
    } else if bytes_eq(st.as_slice(), sig_manager_state()) {
        match dec_v(pl.as_slice()) {
            Some(v) => Ok(NotifySignal::ManagerState(CommonNotifySignalLiveManagerState { state: v as i32 })),
            None => Err(Error::DecodeProtoError),
        }
    } else {
        Ok(NotifySignal::Unknown(pl))
    }
}

/// Decodes a notify-signal batch: each record in wire order, unknown type
/// names preserved as raw bytes.
#[verifier::rlimit(80)]
#[verifier::spinoff_prover]
pub fn notify_signal(payload: &[u8]) -> (r: Result<Vec<NotifySignal>, Error>)
    ensures
        match spec_notify_signal(payload@) {
            Option::None => r == Err::<Vec<NotifySignal>, Error>(Error::DecodeProtoError),
            Option::Some(models) => {
                match r {
                    Result::Ok(v) => notify_models(v@) == models,
                    Result::Err(_) => false,
                }
            },
        },
{
    let chunks = match read_rep_bytes(payload, 1) {
        Some(c) => c,
        None => {
            return Err(Error::DecodeProtoError);
        },
    };
    let ghost chs = seq_views(chunks@);
    let mut out: Vec<NotifySignal> = Vec::new();
    let mut i: usize = 0;
    while i < chunks.len()
        invariant
            i <= chunks@.len(),
            out@.len() == i,
            chs == seq_views(chunks@),
            spec_dec_rep_bytes(1, payload@) == Some(chs),
            forall|j: int| 0 <= j < i ==> (#[trigger] spec_dec_bb(chs[j])) is Some,
            forall|j: int|
                0 <= j < i ==> spec_notify_one(
                    #[trigger] spec_dec_bb(chs[j]).unwrap().0,
                    spec_dec_bb(chs[j]).unwrap().1,
                ) == Some(out@[j].model()),
        decreases chunks@.len() - i,
    {
        let pair = match dec_bb(chunks[i].as_slice()) {
            Some(p) => p,
            None => {
                proof {
                    assert(spec_dec_bb(chs[i as int]) is None);
                    assert(spec_state_pairs(payload@) is None);
                }
                return Err(Error::DecodeProtoError);
            },
        };
        let sig = match notify_one(&pair.0, pair.1) {
            Ok(s) => s,
            Err(e) => {
                proof {
                    if spec_state_pairs(payload@) is Some {
                        let pairs = spec_state_pairs(payload@).unwrap();
                        assert(pairs[i as int] == spec_dec_bb(chs[i as int]).unwrap());
                        assert(spec_notify_one(pairs[i as int].0, pairs[i as int].1) is None);
                    }
                }
                return Err(Error::DecodeProtoError);
            },
        };
        out.push(sig);
        i = i + 1;
    }
    proof {
        let pairs = Seq::new(chs.len(), |j: int| spec_dec_bb(chs[j]).unwrap());
        assert(spec_state_pairs(payload@) == Some(pairs));
        let models = Seq::new(
            pairs.len(),
            |j: int| spec_notify_one(pairs[j].0, pairs[j].1).unwrap(),
        );
        assert(models =~= notify_models(out@));
    }
    Ok(out)
}

// ---------- decoding an action-signal batch ----------

use crate::globals::{
    sig_comment, sig_follow_author, sig_gift, sig_join_club, sig_like, sig_rich_text,
    sig_throw_banana, sig_user_enter_room, spec_sig_comment, spec_sig_follow_author, spec_sig_gift,
    spec_sig_join_club, spec_sig_like, spec_sig_rich_text, spec_sig_throw_banana,
    spec_sig_user_enter_room,
};
use crate::messages::{dec_vb, spec_dec_vb};
use crate::shapes::{
    field_wrong_bytes, spec_all_bytes, spec_fields, spec_last_bytes, vec_all_bytes,
    vec_last_bytes, vec_wrong_bytes,
};

/// One action item on the wire: a type name, then that type's payloads
/// (all occurrences of its repeated field, in order).
pub open spec fn spec_dec_action_item(s: Seq<u8>) -> Option<(Seq<u8>, Seq<Seq<u8>>)> {
    match spec_fields(s) {
        Option::None => None,
        Option::Some(fs) => {
            if field_wrong_bytes(fs, 1) || field_wrong_bytes(fs, 2) {
                None
            } else {
                Some((spec_last_bytes(fs, 1), spec_all_bytes(fs, 2)))
            }
        },
    }
}

fn dec_action_item(buf: &[u8]) -> (r: Option<(Vec<u8>, Vec<Vec<u8>>)>)
    ensures
        match spec_dec_action_item(buf@) {
            Option::None => r is None,
            Option::Some(t) => {
                match r {
                    Option::Some(p) => p.0@ == t.0 && seq_views(p.1@) == t.1,
                    Option::None => false,
                }
            },
        },
{
    let v = match crate::shapes::read_fields(buf) {
        Some(v) => v,
        None => {
            return None;
        },
    };
    let ghost fs = spec_fields(buf@).unwrap();
    if vec_wrong_bytes(&v, 1, Ghost(fs)) || vec_wrong_bytes(&v, 2, Ghost(fs)) {
        return None;
    }
    Some((vec_last_bytes(&v, 1, Ghost(fs)), vec_all_bytes(&v, 2, Ghost(fs))))
}

/// What one action record with type name `st` and body `pl` decodes to.
pub open spec fn spec_action_one(st: Seq<u8>, pl: Seq<u8>) -> Option<ActionModel> {
    if st == spec_sig_comment() {
        match spec_dec_vb(pl) {
            Option::Some(t) => Some(
                ActionModel::Comment { send_time_ms: t.0 as i64, content: t.1 },
            ),
            Option::None => None,
        }
    } else if st == spec_sig_like() {
        match spec_dec_v(pl) {
            Option::Some(v) => Some(ActionModel::Like { send_time_ms: v as i64 }),
            Option::None => None,
        }
    } else if st == spec_sig_user_enter_room() {
        match spec_dec_v(pl) {
            Option::Some(v) => Some(ActionModel::EnterRoom { send_time_ms: v as i64 }),
            Option::None => None,
        }
    } else if st == spec_sig_follow_author() {
        match spec_dec_v(pl) {
            Option::Some(v) => Some(ActionModel::FollowAuthor { send_time_ms: v as i64 }),
            Option::None => None,
        }
    } else if st == spec_sig_throw_banana() {
        match spec_dec_v(pl) {
            Option::Some(v) => Some(ActionModel::ThrowBanana { send_time_ms: v as i64 }),
            Option::None => None,
        }
    } else if st == spec_sig_gift() {
        match spec_dec_v(pl) {
            Option::Some(v) => Some(ActionModel::Gift { send_time_ms: v as i64 }),
            Option::None => None,
        }
    } else if st == spec_sig_rich_text() {
        match spec_dec_v(pl) {
            Option::Some(v) => Some(ActionModel::RichText { send_time_ms: v as i64 }),
            Option::None => None,
        }
    } else if st == spec_sig_join_club() {
        match spec_dec_v(pl) {
            Option::Some(v) => Some(ActionModel::JoinClub { join_time_ms: v as i64 }),
            Option::None => None,
        }
    } else {
        Some(ActionModel::Unknown { raw: pl })
    }
}

/// Decodes one action record; the dispatch mirrors `spec_action_one`.
#[verifier::rlimit(80)]
#[verifier::spinoff_prover]
fn action_one(st: &Vec<u8>, pl: Vec<u8>) -> (r: Result<ActionSignal, Error>)
    ensures
        match spec_action_one(st@, pl@) {
            Option::None => r == Err::<ActionSignal, Error>(Error::DecodeProtoError),
            Option::Some(m) => {
                match r {
                    Result::Ok(s) => s.model() == m,
                    Result::Err(_) => false,
                }
            },
        },
{
    if bytes_eq(st.as_slice(), sig_comment()) {
        match dec_vb(pl.as_slice()) {
            Some((v, b)) => Ok(ActionSignal::Comment(CommonActionSignalComment { send_time_ms: v as i64, content: b })),
            None => Err(Error::DecodeProtoError),
        }
    } else if bytes_eq(st.as_slice(), sig_like()) {
        match dec_v(pl.as_slice()) {
            Some(v) => Ok(ActionSignal::Like(CommonActionSignalLike { send_time_ms: v as i64 })),
            None => Err(Error::DecodeProtoError),
        }
    } else if bytes_eq(st.as_slice(), sig_user_enter_room()) {
        match dec_v(pl.as_slice()) {
            Some(v) => Ok(ActionSignal::EnterRoom(CommonActionSignalUserEnterRoom { send_time_ms: v as i64 })),
            None => Err(Error::DecodeProtoError),
        }
    } else if bytes_eq(st.as_slice(), sig_follow_author()) {
        match dec_v(pl.as_slice()) {
            Some(v) => Ok(ActionSignal::FollowAuthor(CommonActionSignalUserFollowAuthor { send_time_ms: v as i64 })),
            None => Err(Error::DecodeProtoError),
        }
    } else if bytes_eq(st.as_slice(), sig_throw_banana()) {
        match dec_v(pl.as_slice()) {
            Some(v) => Ok(ActionSignal::ThrowBanana(AcfunActionSignalThrowBanana { send_time_ms: v as i64 })),
            None => Err(Error::DecodeProtoError),
        }
    } else if bytes_eq(st.as_slice(), sig_gift()) {
        match dec_v(pl.as_slice()) {
            Some(v) => Ok(ActionSignal::Gift(CommonActionSignalGift { send_time_ms: v as i64 })),
            None => Err(Error::DecodeProtoError),
        }
    } else if bytes_eq(st.as_slice(), sig_rich_text()) {
        match dec_v(pl.as_slice()) {
            Some(v) => Ok(ActionSignal::RichText(CommonActionSignalRichText { send_time_ms: v as i64 })),
            None => Err(Error::DecodeProtoError),
        }
    } else if bytes_eq(st.as_slice(), sig_join_club()) {
        match dec_v(pl.as_slice()) {
            Some(v) => Ok(ActionSignal::JoinClub(AcfunActionSignalJoinClub { join_time_ms: v as i64 })),
            None => Err(Error::DecodeProtoError),
        }
    } else {
        Ok(ActionSignal::Unknown(pl))
    }
}

/// The items of an action-signal batch.
pub open spec fn spec_action_items(s: Seq<u8>) -> Option<Seq<(Seq<u8>, Seq<Seq<u8>>)>> {
    match spec_dec_rep_bytes(1, s) {
        Option::None => None,
        Option::Some(chunks) => {
            if forall|j: int|
                0 <= j < chunks.len() ==> (#[trigger] spec_dec_action_item(chunks[j])) is Some {
                Some(Seq::new(chunks.len(), |j: int| spec_dec_action_item(chunks[j]).unwrap()))
            } else {
                None
            }
        },
    }
}

/// The records contributed by one item: one per payload, in order.
pub open spec fn spec_action_item_models(st: Seq<u8>, pls: Seq<Seq<u8>>) -> Option<
    Seq<ActionModel>,
> {
    if forall|k: int| 0 <= k < pls.len() ==> (#[trigger] spec_action_one(st, pls[k])) is Some {
        Some(Seq::new(pls.len(), |k: int| spec_action_one(st, pls[k]).unwrap()))
    } else {
        None
    }
}

/// The batch before sorting: the items' records concatenated in wire order.
pub open spec fn spec_action_raw(items: Seq<(Seq<u8>, Seq<Seq<u8>>)>) -> Option<Seq<ActionModel>>
    decreases items.len(),
{
    if items.len() == 0 {
        Some(Seq::empty())
    } else {
        match spec_action_raw(items.drop_last()) {
            Option::None => None,
            Option::Some(front) => {
                match spec_action_item_models(items.last().0, items.last().1) {
                    Option::None => None,
                    Option::Some(ms) => Some(front + ms),
                }
            },
        }
    }
}

/// One undecodable item poisons the whole batch.
proof fn lemma_action_raw_none(items: Seq<(Seq<u8>, Seq<Seq<u8>>)>, k: int)
    requires
        0 <= k < items.len(),
        spec_action_item_models(items[k].0, items[k].1) is None,
    ensures
        spec_action_raw(items) is None,
    decreases items.len(),
{
    if k == items.len() - 1 {
    } else {
        assert(items.drop_last()[k] == items[k]);
        lemma_action_raw_none(items.drop_last(), k);
    }
}

// ---------- the stable ascending order of a batch ----------

/// Inserts `x` after every record whose time is not greater: the insertion
/// step of a stable sort.
pub open spec fn spec_insert_by_time(sorted: Seq<ActionModel>, x: ActionModel) -> Seq<ActionModel>
    decreases sorted.len(),
{
    if sorted.len() == 0 {
        seq![x]
    } else if spec_action_time(sorted.last()) <= spec_action_time(x) {
        sorted.push(x)
    } else {
        spec_insert_by_time(sorted.drop_last(), x).push(sorted.last())
    }
}

/// The stable sort of a batch, ascending by each record's time: records are
/// inserted in wire order, each after all records of the same time.
pub open spec fn spec_sort_by_time(s: Seq<ActionModel>) -> Seq<ActionModel>
    decreases s.len(),
{
    if s.len() == 0 {
        Seq::empty()
    } else {
        spec_insert_by_time(spec_sort_by_time(s.drop_last()), s.last())
    }
}

/// Ascending by time.
pub open spec fn time_sorted(s: Seq<ActionModel>) -> bool {
    forall|i: int, j: int|
        0 <= i <= j < s.len() ==> spec_action_time(s[i]) <= spec_action_time(s[j])
}

proof fn lemma_insert_at(sorted: Seq<ActionModel>, x: ActionModel, pos: int)
    requires
        time_sorted(sorted),
        0 <= pos <= sorted.len(),
        forall|k: int|
            pos <= k < sorted.len() ==> spec_action_time(#[trigger] sorted[k]) > spec_action_time(
                x,
            ),
        pos > 0 ==> spec_action_time(sorted[pos - 1]) <= spec_action_time(x),
    ensures
        spec_insert_by_time(sorted, x) == sorted.take(pos) + seq![x] + sorted.skip(pos),
    decreases sorted.len(),
{
    if sorted.len() == 0 {
        assert(spec_insert_by_time(sorted, x) =~= sorted.take(pos) + seq![x] + sorted.skip(pos));
    } else if spec_action_time(sorted.last()) <= spec_action_time(x) {
        assert(pos == sorted.len());
        assert(sorted.push(x) =~= sorted.take(pos) + seq![x] + sorted.skip(pos));
    } else {
        assert(pos < sorted.len());
        let dl = sorted.drop_last();
        assert(forall|k: int|
            pos <= k < dl.len() ==> spec_action_time(#[trigger] dl[k]) > spec_action_time(x));
        assert(pos > 0 ==> spec_action_time(dl[pos - 1]) <= spec_action_time(x));
        lemma_insert_at(dl, x, pos);
        assert(spec_insert_by_time(dl, x).push(sorted.last()) =~= sorted.take(pos) + seq![x]
            + sorted.skip(pos));
    }
}

/// Inserts one record into an already sorted batch, keeping it sorted and
/// matching the specification's insertion step.
#[verifier::rlimit(80)]
#[verifier::spinoff_prover]
fn insert_action(out: &mut Vec<ActionSignal>, x: ActionSignal)
    requires
        time_sorted(action_models(old(out)@)),
    ensures
        action_models(final(out)@) == spec_insert_by_time(action_models(old(out)@), x.model()),
        time_sorted(action_models(final(out)@)),
{
    let t = x.time();
    let mut pos: usize = out.len();
    while pos > 0 && out[pos - 1].time() > t
        invariant
            pos <= out@.len(),
            out@ == old(out)@,
            t == spec_action_time(x.model()),
            time_sorted(action_models(out@)),
            forall|k: int|
                pos <= k < out@.len() ==> spec_action_time(
                    #[trigger] action_models(out@)[k],
                ) > t,
        decreases pos,
    {
        proof {
            assert(action_models(out@)[pos - 1] == out@[pos - 1].model());
        }
        pos = pos - 1;
    }
    let ghost pre = action_models(out@);
    proof {
        if pos > 0 {
            assert(action_models(out@)[pos - 1] == out@[pos - 1].model());
        }
        lemma_insert_at(pre, x.model(), pos as int);
    }
    out.insert(pos, x);
    proof {
        assert(action_models(out@) =~= pre.take(pos as int) + seq![x.model()] + pre.skip(
            pos as int,
        ));
        let s2 = action_models(out@);
        assert forall|i: int, j: int|
            0 <= i <= j < s2.len() implies spec_action_time(s2[i]) <= spec_action_time(
            s2[j],
        ) by {
            if i < pos && j < pos {
            } else if i < pos && j == pos {
                assert(spec_action_time(s2[i]) <= spec_action_time(pre[pos - 1]));
            } else if i == pos && j == pos {
            } else if i == pos && j > pos {
                assert(s2[j] == pre[j - 1]);
            } else if i < pos && j > pos {
                assert(s2[j] == pre[j - 1]);
            } else {
                assert(s2[i] == pre[i - 1] && s2[j] == pre[j - 1]);
            }
        }
    }
}

/// What a whole action-signal batch decodes to: every record of every item,
/// stably sorted ascending by time.
pub open spec fn spec_action_signal(s: Seq<u8>) -> Option<Seq<ActionModel>> {
    match spec_action_items(s) {
        Option::None => None,
        Option::Some(items) => {
            match spec_action_raw(items) {
                Option::None => None,
                Option::Some(raw) => Some(spec_sort_by_time(raw)),
            }
        },
    }
}

/// Decodes an action-signal batch and orders it stably ascending by each
/// record's time; unknown type names are preserved as raw bytes.
#[verifier::rlimit(100)]
#[verifier::spinoff_prover]
pub fn action_signal(payload: &[u8]) -> (r: Result<Vec<ActionSignal>, Error>)
    ensures
        match spec_action_signal(payload@) {
            Option::None => r == Err::<Vec<ActionSignal>, Error>(Error::DecodeProtoError),
            Option::Some(models) => {
                match r {
                    Result::Ok(v) => action_models(v@) == models,
                    Result::Err(_) => false,
                }
            },
        },
{
    let chunks = match read_rep_bytes(payload, 1) {
        Some(c) => c,
        None => {
            return Err(Error::DecodeProtoError);
        },
    };
    let ghost chs = seq_views(chunks@);
    let mut raw: Vec<ActionSignal> = Vec::new();
    let mut i: usize = 0;
    proof {
        let pre0 = Seq::new(0, |j: int| spec_dec_action_item(chs[j]).unwrap());
        assert(pre0 =~= Seq::<(Seq<u8>, Seq<Seq<u8>>)>::empty());
        assert(action_models(raw@) =~= Seq::<ActionModel>::empty());
    }
    while i < chunks.len()
        invariant
            i <= chunks@.len(),
            chs == seq_views(chunks@),
            spec_dec_rep_bytes(1, payload@) == Some(chs),
            forall|j: int| 0 <= j < i ==> (#[trigger] spec_dec_action_item(chs[j])) is Some,
            spec_action_raw(Seq::new(i as nat, |j: int| spec_dec_action_item(chs[j]).unwrap()))
                == Some(action_models(raw@)),
        decreases chunks@.len() - i,
    {
        let item = match dec_action_item(chunks[i].as_slice()) {
            Some(p) => p,
            None => {
                proof {
                    assert(spec_dec_action_item(chs[i as int]) is None);
                    assert(spec_action_items(payload@) is None);
                }
                return Err(Error::DecodeProtoError);
            },
        };
        let (st, mut pls) = item;
        let ghost front = action_models(raw@);
        let ghost plvs = seq_views(pls@);
        proof {
            let b0 = Seq::new(0, |l: int| spec_action_one(st@, plvs[l]).unwrap());
            assert(b0 =~= Seq::<ActionModel>::empty());
            assert(action_models(raw@) =~= front + b0);
            assert(plvs.skip(0) =~= plvs);
        }
        while pls.len() > 0
            invariant
                pls@.len() <= plvs.len(),
                seq_views(pls@) == plvs.skip(plvs.len() - pls@.len()),
                forall|l: int|
                    0 <= l < plvs.len() - pls@.len() ==> (#[trigger] spec_action_one(
                        st@,
                        plvs[l],
                    )) is Some,
                action_models(raw@) == front + Seq::new(
                    (plvs.len() - pls@.len()) as nat,
                    |l: int| spec_action_one(st@, plvs[l]).unwrap(),
                ),
                spec_action_items(payload@) is Some ==> {
                    &&& i < spec_action_items(payload@).unwrap().len()
                    &&& spec_action_items(payload@).unwrap()[i as int] == (st@, plvs)
                },
                spec_action_raw(
                    Seq::new(i as nat, |j: int| spec_dec_action_item(chs[j]).unwrap()),
                ) == Some(front),
                i < chunks@.len(),
                chs == seq_views(chunks@),
                spec_dec_rep_bytes(1, payload@) == Some(chs),
                forall|j: int| 0 <= j < i ==> (#[trigger] spec_dec_action_item(chs[j])) is Some,
                spec_dec_action_item(chs[i as int]) == Some((st@, plvs)),
            decreases pls@.len(),
        {
            let ghost k = plvs.len() - pls@.len();
            let ghost oldpls = pls@;
            let pl = pls.remove(0);
            proof {
                assert(seq_views(oldpls)[0] == oldpls[0]@);
                assert(pl@ == plvs[k as int]);
                assert forall|j: int| 0 <= j < pls@.len() implies seq_views(pls@)[j] == plvs.skip(
                    k as int + 1,
                )[j] by {
                    assert(pls@[j] == oldpls[j + 1]);
                    assert(seq_views(oldpls)[j + 1] == oldpls[j + 1]@);
                    assert(seq_views(pls@)[j] == pls@[j]@);
                }
                assert(seq_views(pls@) =~= plvs.skip(k as int + 1));
            }
            let sig = match action_one(&st, pl) {
                Ok(s) => s,
                Err(_) => {
                    proof {
                        assert(spec_action_one(st@, plvs[k as int]) is None);
                        assert(spec_action_item_models(st@, plvs) is None);
                        if spec_action_items(payload@) is Some {
                            let items = spec_action_items(payload@).unwrap();
                            lemma_action_raw_none(items, i as int);
                        }
                    }
                    return Err(Error::DecodeProtoError);
                },
            };
            let ghost oldraw = raw@;
            raw.push(sig);
            proof {
                let bk = Seq::new(k as nat, |l: int| spec_action_one(st@, plvs[l]).unwrap());
                let bnext = Seq::new(
                    (k + 1) as nat,
                    |l: int| spec_action_one(st@, plvs[l]).unwrap(),
                );
                assert(action_models(oldraw) == front + bk);
                assert(action_models(oldraw).len() == oldraw.len());
                assert(oldraw.len() == front.len() + k);
                assert(raw@ == oldraw.push(sig));
                assert forall|j: int| 0 <= j < raw@.len() implies action_models(raw@)[j] == (front
                    + bnext)[j] by {
                    assert(action_models(raw@)[j] == raw@[j].model());
                    if j < front.len() {
                        assert(raw@[j] == oldraw[j]);
                        assert(action_models(oldraw)[j] == oldraw[j].model());
                        assert((front + bk)[j] == front[j]);
                        assert((front + bnext)[j] == front[j]);
                    } else if j < oldraw.len() {
                        assert(raw@[j] == oldraw[j]);
                        assert(action_models(oldraw)[j] == oldraw[j].model());
                        assert((front + bk)[j] == bk[j - front.len()]);
                        assert((front + bnext)[j] == bnext[j - front.len()]);
                        assert(bk[j - front.len()] == bnext[j - front.len()]);
                    } else {
                        assert(raw@[j] == sig);
                        assert(j == front.len() + k);
                        assert((front + bnext)[j] == bnext[k as int]);
                        assert(bnext[k as int] == spec_action_one(st@, plvs[k as int]).unwrap());
                    }
                }
                assert(action_models(raw@) =~= front + bnext);
            }
        }
        proof {
            let batch = Seq::new(plvs.len(), |l: int| spec_action_one(st@, plvs[l]).unwrap());
            assert(spec_action_item_models(st@, plvs) == Some(batch));
            assert(action_models(raw@) == front + batch);
            let pre = Seq::new(i as nat, |j: int| spec_dec_action_item(chs[j]).unwrap());
            let next = Seq::new((i + 1) as nat, |j: int| spec_dec_action_item(chs[j]).unwrap());
            assert(next.drop_last() =~= pre);
            assert(next.last() == (st@, plvs));
            assert(spec_action_raw(next) == Some(front + batch));
        }
        i = i + 1;
    }
    proof {
        let items = Seq::new(chs.len(), |j: int| spec_dec_action_item(chs[j]).unwrap());
        assert(spec_action_items(payload@) == Some(items));
        assert(spec_action_raw(items) == Some(action_models(raw@)));
    }
    let ghost all = action_models(raw@);
    let mut sorted: Vec<ActionSignal> = Vec::new();
    proof {
        assert(action_models(sorted@) =~= Seq::<ActionModel>::empty());
        assert(all.take(0) =~= Seq::<ActionModel>::empty());
        assert(action_models(raw@) =~= all.skip(0));
    }
    while raw.len() > 0
        invariant
            action_models(raw@) == all.skip(all.len() - raw@.len()),
            raw@.len() <= all.len(),
            time_sorted(action_models(sorted@)),
            action_models(sorted@) == spec_sort_by_time(all.take(all.len() - raw@.len())),
        decreases raw@.len(),
    {
        let ghost done = all.len() - raw@.len();
        let ghost oldr = raw@;
        let x = raw.remove(0);
        proof {
            assert(action_models(oldr)[0] == oldr[0].model());
            assert(x.model() == all.skip(done as int)[0]);
            assert(x.model() == all[done as int]);
            assert forall|j: int| 0 <= j < raw@.len() implies action_models(raw@)[j] == all.skip(
                done as int + 1,
            )[j] by {
                assert(raw@[j] == oldr[j + 1]);
                assert(action_models(oldr)[j + 1] == oldr[j + 1].model());
                assert(action_models(raw@)[j] == raw@[j].model());
            }
            assert(action_models(raw@) =~= all.skip(done as int + 1));
        }
        insert_action(&mut sorted, x);
        proof {
            let t2 = all.take(done + 1);
            assert(t2.drop_last() =~= all.take(done as int));
            assert(t2.last() == all[done as int]);
        }
    }
    proof {
        assert(all.take(all.len() as int) =~= all);
    }
    Ok(sorted)
}

} // verus!
