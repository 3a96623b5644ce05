//! The protocol's fixed string tokens: command names, push message types,
//! signal type names and the platform identification constants. Each token
//! has a specification twin giving its bytes.

use vstd::prelude::*;

verus! {

use vstd::string::StringSliceAdditionalSpecFns;

pub const RETRY_COUNT: u32 = 1;

/// The push-channel endpoint the transport connects to.
pub fn danmaku_server() -> (r: &'static str)
    ensures
        r@ == "wss://link.xiatou.com/"@,
{
    "wss://link.xiatou.com/"
}

pub open spec fn spec_sub_biz() -> Seq<u8> {
    "mainApp".spec_bytes()
}

pub fn sub_biz() -> (r: &'static [u8])
    ensures
        r@ == spec_sub_biz(),
{
    "mainApp".as_bytes()
}

pub open spec fn spec_kpn() -> Seq<u8> {
    "ACFUN_APP".spec_bytes()
}

pub fn kpn() -> (r: &'static [u8])
    ensures
        r@ == spec_kpn(),
{
    "ACFUN_APP".as_bytes()
}

pub open spec fn spec_kpf() -> Seq<u8> {
    "PC_WEB".spec_bytes()
}

pub fn kpf() -> (r: &'static [u8])
    ensures
        r@ == spec_kpf(),
{
    "PC_WEB".as_bytes()
}

pub open spec fn spec_client_live_sdk_version() -> Seq<u8> {
    "kwai-acfun-live-link".spec_bytes()
}

pub fn client_live_sdk_version() -> (r: &'static [u8])
    ensures
        r@ == spec_client_live_sdk_version(),
{
    "kwai-acfun-live-link".as_bytes()
}

pub open spec fn spec_link_version() -> Seq<u8> {
    "2.13.8".spec_bytes()
}

pub fn link_version() -> (r: &'static [u8])
    ensures
        r@ == spec_link_version(),
{
    "2.13.8".as_bytes()
}

pub open spec fn spec_device_model() -> Seq<u8> {
    "h5".spec_bytes()
}

pub fn device_model() -> (r: &'static [u8])
    ensures
        r@ == spec_device_model(),
{
    "h5".as_bytes()
}

pub open spec fn spec_cmd_register() -> Seq<u8> {
    "Basic.Register".spec_bytes()
}

pub fn cmd_register() -> (r: &'static [u8])
    ensures
        r@ == spec_cmd_register(),
{
    "Basic.Register".as_bytes()
}

pub open spec fn spec_cmd_unregister() -> Seq<u8> {
    "Basic.Unregister".spec_bytes()
}

pub fn cmd_unregister() -> (r: &'static [u8])
    ensures
        r@ == spec_cmd_unregister(),
{
    "Basic.Unregister".as_bytes()
}

pub open spec fn spec_cmd_keep_alive() -> Seq<u8> {
    "Basic.KeepAlive".spec_bytes()
}

pub fn cmd_keep_alive() -> (r: &'static [u8])
    ensures
        r@ == spec_cmd_keep_alive(),
{
    "Basic.KeepAlive".as_bytes()
}

pub open spec fn spec_cmd_ping() -> Seq<u8> {
    "Basic.Ping".spec_bytes()
}

pub fn cmd_ping() -> (r: &'static [u8])
    ensures
        r@ == spec_cmd_ping(),
{
    "Basic.Ping".as_bytes()
}

pub open spec fn spec_cmd_enter_room() -> Seq<u8> {
    "ZtLiveCsEnterRoom".spec_bytes()
}

pub fn cmd_enter_room() -> (r: &'static [u8])
    ensures
        r@ == spec_cmd_enter_room(),
{
    "ZtLiveCsEnterRoom".as_bytes()
}

pub open spec fn spec_cmd_enter_room_ack() -> Seq<u8> {
    "ZtLiveCsEnterRoomAck".spec_bytes()
}

pub fn cmd_enter_room_ack() -> (r: &'static [u8])
    ensures
        r@ == spec_cmd_enter_room_ack(),
{
    "ZtLiveCsEnterRoomAck".as_bytes()
}

pub open spec fn spec_cmd_heartbeat() -> Seq<u8> {
    "ZtLiveCsHeartbeat".spec_bytes()
}

pub fn cmd_heartbeat() -> (r: &'static [u8])
    ensures
        r@ == spec_cmd_heartbeat(),
{
    "ZtLiveCsHeartbeat".as_bytes()
}

pub open spec fn spec_cmd_heartbeat_ack() -> Seq<u8> {
    "ZtLiveCsHeartbeatAck".spec_bytes()
}

pub fn cmd_heartbeat_ack() -> (r: &'static [u8])
    ensures
        r@ == spec_cmd_heartbeat_ack(),
{
    "ZtLiveCsHeartbeatAck".as_bytes()
}

pub open spec fn spec_cmd_user_exit() -> Seq<u8> {
    "ZtLiveCsUserExit".spec_bytes()
}

pub fn cmd_user_exit() -> (r: &'static [u8])
    ensures
        r@ == spec_cmd_user_exit(),
{
    "ZtLiveCsUserExit".as_bytes()
}

pub open spec fn spec_cmd_user_exit_ack() -> Seq<u8> {
    "ZtLiveCsUserExitAck".spec_bytes()
}

pub fn cmd_user_exit_ack() -> (r: &'static [u8])
    ensures
        r@ == spec_cmd_user_exit_ack(),
{
    "ZtLiveCsUserExitAck".as_bytes()
}

pub open spec fn spec_cmd_global_cs_cmd() -> Seq<u8> {
    "Global.ZtLiveInteractive.CsCmd".spec_bytes()
}

pub fn cmd_global_cs_cmd() -> (r: &'static [u8])
    ensures
        r@ == spec_cmd_global_cs_cmd(),
{
    "Global.ZtLiveInteractive.CsCmd".as_bytes()
}

pub open spec fn spec_cmd_push_message() -> Seq<u8> {
    "Push.ZtLiveInteractive.Message".spec_bytes()
}

pub fn cmd_push_message() -> (r: &'static [u8])
    ensures
        r@ == spec_cmd_push_message(),
{
    "Push.ZtLiveInteractive.Message".as_bytes()
}

pub open spec fn spec_msg_action_signal() -> Seq<u8> {
    "ZtLiveScActionSignal".spec_bytes()
}

pub fn msg_action_signal() -> (r: &'static [u8])
    ensures
        r@ == spec_msg_action_signal(),
{
    "ZtLiveScActionSignal".as_bytes()
}

pub open spec fn spec_msg_state_signal() -> Seq<u8> {
    "ZtLiveScStateSignal".spec_bytes()
}

pub fn msg_state_signal() -> (r: &'static [u8])
    ensures
        r@ == spec_msg_state_signal(),
{
    "ZtLiveScStateSignal".as_bytes()
}

pub open spec fn spec_msg_notify_signal() -> Seq<u8> {
    "ZtLiveScNotifySignal".spec_bytes()
}

pub fn msg_notify_signal() -> (r: &'static [u8])
    ensures
        r@ == spec_msg_notify_signal(),
{
    "ZtLiveScNotifySignal".as_bytes()
}

pub open spec fn spec_msg_status_changed() -> Seq<u8> {
    "ZtLiveScStatusChanged".spec_bytes()
}

pub fn msg_status_changed() -> (r: &'static [u8])
    ensures
        r@ == spec_msg_status_changed(),
{
    "ZtLiveScStatusChanged".as_bytes()
}

pub open spec fn spec_msg_ticket_invalid() -> Seq<u8> {
    "ZtLiveScTicketInvalid".spec_bytes()
}

pub fn msg_ticket_invalid() -> (r: &'static [u8])
    ensures
        r@ == spec_msg_ticket_invalid(),
{
    "ZtLiveScTicketInvalid".as_bytes()
}

pub open spec fn spec_sig_comment() -> Seq<u8> {
    "CommonActionSignalComment".spec_bytes()
}

pub fn sig_comment() -> (r: &'static [u8])
    ensures
        r@ == spec_sig_comment(),
{
    "CommonActionSignalComment".as_bytes()
}

pub open spec fn spec_sig_like() -> Seq<u8> {
    "CommonActionSignalLike".spec_bytes()
}

pub fn sig_like() -> (r: &'static [u8])
    ensures
        r@ == spec_sig_like(),
{
    "CommonActionSignalLike".as_bytes()
}

pub open spec fn spec_sig_user_enter_room() -> Seq<u8> {
    "CommonActionSignalUserEnterRoom".spec_bytes()
}

pub fn sig_user_enter_room() -> (r: &'static [u8])
    ensures
        r@ == spec_sig_user_enter_room(),
{
    "CommonActionSignalUserEnterRoom".as_bytes()
}

pub open spec fn spec_sig_follow_author() -> Seq<u8> {
    "CommonActionSignalUserFollowAuthor".spec_bytes()
}

pub fn sig_follow_author() -> (r: &'static [u8])
    ensures
        r@ == spec_sig_follow_author(),
{
    "CommonActionSignalUserFollowAuthor".as_bytes()
}

pub open spec fn spec_sig_throw_banana() -> Seq<u8> {
    "AcfunActionSignalThrowBanana".spec_bytes()
}

pub fn sig_throw_banana() -> (r: &'static [u8])
    ensures
        r@ == spec_sig_throw_banana(),
{
    "AcfunActionSignalThrowBanana".as_bytes()
}

pub open spec fn spec_sig_gift() -> Seq<u8> {
    "CommonActionSignalGift".spec_bytes()
}

pub fn sig_gift() -> (r: &'static [u8])
    ensures
        r@ == spec_sig_gift(),
{
    "CommonActionSignalGift".as_bytes()
}

pub open spec fn spec_sig_rich_text() -> Seq<u8> {
    "CommonActionSignalRichText".spec_bytes()
}

pub fn sig_rich_text() -> (r: &'static [u8])
    ensures
        r@ == spec_sig_rich_text(),
{
    "CommonActionSignalRichText".as_bytes()
}

pub open spec fn spec_sig_join_club() -> Seq<u8> {
    "AcfunActionSignalJoinClub".spec_bytes()
}

pub fn sig_join_club() -> (r: &'static [u8])
    ensures
        r@ == spec_sig_join_club(),
{
    "AcfunActionSignalJoinClub".as_bytes()
}

pub open spec fn spec_sig_acfun_display_info() -> Seq<u8> {
    "AcfunStateSignalDisplayInfo".spec_bytes()
}

pub fn sig_acfun_display_info() -> (r: &'static [u8])
    ensures
        r@ == spec_sig_acfun_display_info(),
{
    "AcfunStateSignalDisplayInfo".as_bytes()
}

pub open spec fn spec_sig_display_info() -> Seq<u8> {
    "CommonStateSignalDisplayInfo".spec_bytes()
}

pub fn sig_display_info() -> (r: &'static [u8])
    ensures
        r@ == spec_sig_display_info(),
{
    "CommonStateSignalDisplayInfo".as_bytes()
}

pub open spec fn spec_sig_top_users() -> Seq<u8> {
    "CommonStateSignalTopUsers".spec_bytes()
}

pub fn sig_top_users() -> (r: &'static [u8])
    ensures
        r@ == spec_sig_top_users(),
{
    "CommonStateSignalTopUsers".as_bytes()
}

pub open spec fn spec_sig_recent_comment() -> Seq<u8> {
    "CommonStateSignalRecentComment".spec_bytes()
}

pub fn sig_recent_comment() -> (r: &'static [u8])
    ensures
        r@ == spec_sig_recent_comment(),
{
    "CommonStateSignalRecentComment".as_bytes()
}

pub open spec fn spec_sig_redpack_list() -> Seq<u8> {
    "CommonStateSignalCurrentRedpackList".spec_bytes()
}

pub fn sig_redpack_list() -> (r: &'static [u8])
    ensures
        r@ == spec_sig_redpack_list(),
{
    "CommonStateSignalCurrentRedpackList".as_bytes()
}

pub open spec fn spec_sig_chat_call() -> Seq<u8> {
    "CommonStateSignalChatCall".spec_bytes()
}

pub fn sig_chat_call() -> (r: &'static [u8])
    ensures
        r@ == spec_sig_chat_call(),
{
    "CommonStateSignalChatCall".as_bytes()
}

pub open spec fn spec_sig_chat_accept() -> Seq<u8> {
    "CommonStateSignalChatAccept".spec_bytes()
}

pub fn sig_chat_accept() -> (r: &'static [u8])
    ensures
        r@ == spec_sig_chat_accept(),
{
    "CommonStateSignalChatAccept".as_bytes()
}

pub open spec fn spec_sig_chat_ready() -> Seq<u8> {
    "CommonStateSignalChatReady".spec_bytes()
}

pub fn sig_chat_ready() -> (r: &'static [u8])
    ensures
        r@ == spec_sig_chat_ready(),
{
    "CommonStateSignalChatReady".as_bytes()
}

pub open spec fn spec_sig_chat_end() -> Seq<u8> {
    "CommonStateSignalChatEnd".spec_bytes()
}

pub fn sig_chat_end() -> (r: &'static [u8])
    ensures
        r@ == spec_sig_chat_end(),
{
    "CommonStateSignalChatEnd".as_bytes()
}

pub open spec fn spec_sig_author_chat_call() -> Seq<u8> {
    "CommonStateSignalAuthorChatCall".spec_bytes()
}

pub fn sig_author_chat_call() -> (r: &'static [u8])
    ensures
        r@ == spec_sig_author_chat_call(),
{
    "CommonStateSignalAuthorChatCall".as_bytes()
}

pub open spec fn spec_sig_author_chat_accept() -> Seq<u8> {
    "CommonStateSignalAuthorChatAccept".spec_bytes()
}

pub fn sig_author_chat_accept() -> (r: &'static [u8])
    ensures
        r@ == spec_sig_author_chat_accept(),
{
    "CommonStateSignalAuthorChatAccept".as_bytes()
}

pub open spec fn spec_sig_author_chat_ready() -> Seq<u8> {
    "CommonStateSignalAuthorChatReady".spec_bytes()
}

pub fn sig_author_chat_ready() -> (r: &'static [u8])
    ensures
        r@ == spec_sig_author_chat_ready(),
{
    "CommonStateSignalAuthorChatReady".as_bytes()
}

pub open spec fn spec_sig_author_chat_end() -> Seq<u8> {
    "CommonStateSignalAuthorChatEnd".spec_bytes()
}

pub fn sig_author_chat_end() -> (r: &'static [u8])
    ensures
        r@ == spec_sig_author_chat_end(),
{
    "CommonStateSignalAuthorChatEnd".as_bytes()
}

pub open spec fn spec_sig_sound_config() -> Seq<u8> {
    "CommonStateSignalAuthorChatChangeSoundConfig".spec_bytes()
}

pub fn sig_sound_config() -> (r: &'static [u8])
    ensures
        r@ == spec_sig_sound_config(),
{
    "CommonStateSignalAuthorChatChangeSoundConfig".as_bytes()
}

pub open spec fn spec_sig_live_state() -> Seq<u8> {
    "CommonStateSignalLiveState".spec_bytes()
}

pub fn sig_live_state() -> (r: &'static [u8])
    ensures
        r@ == spec_sig_live_state(),
{
    "CommonStateSignalLiveState".as_bytes()
}

pub open spec fn spec_sig_kicked_out() -> Seq<u8> {
    "CommonNotifySignalKickedOut".spec_bytes()
}

pub fn sig_kicked_out() -> (r: &'static [u8])
    ensures
        r@ == spec_sig_kicked_out(),
{
    "CommonNotifySignalKickedOut".as_bytes()
}

pub open spec fn spec_sig_violation_alert() -> Seq<u8> {
    "CommonNotifySignalViolationAlert".spec_bytes()
}

pub fn sig_violation_alert() -> (r: &'static [u8])
    ensures
        r@ == spec_sig_violation_alert(),
{
    "CommonNotifySignalViolationAlert".as_bytes()
}

pub open spec fn spec_sig_manager_state() -> Seq<u8> {
    "CommonNotifySignalLiveManagerState".spec_bytes()
}

pub fn sig_manager_state() -> (r: &'static [u8])
    ensures
        r@ == spec_sig_manager_state(),
{
    "CommonNotifySignalLiveManagerState".as_bytes()
}

} // verus!
