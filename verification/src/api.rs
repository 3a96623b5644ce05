//! The data types of the REST collaborator: the credential and metadata
//! records its endpoints return, the form and query payloads they take, and
//! the projection into a `DanmakuToken`. The network calls themselves live
//! outside the library; these are the plain values they exchange.

use vstd::prelude::*;

verus! {

use crate::client::DanmakuToken;

/// The cookie jar of a logged-in user, as one header string.
pub type Cookies = String;

#[derive(Clone, Debug, Default, Eq, Hash, PartialEq)]
pub struct Login {
    pub result: i32,
    pub img: String,
    pub user_id: i64,
    pub username: String,
}

#[derive(Clone, Debug, Default, Eq, Hash, PartialEq)]
pub struct VisitorToken {
    pub result: i32,
    pub ac_security: String,
    pub user_id: i64,
    pub acfun_api_visitor_st: String,
}

#[derive(Clone, Debug, Default, Eq, Hash, PartialEq)]
pub struct UserToken {
    pub result: i32,
    pub ssecurity: String,
    pub user_id: i64,
    pub acfun_midground_api_st: String,
    pub acfun_midground_api_at: String,
}

#[derive(Clone, Debug, Default, Eq, Hash, PartialEq)]
pub struct LiveInfo {
    pub result: i32,
    pub data: LiveInfoData,
    pub host: String,
}

#[derive(Clone, Debug, Default, Eq, Hash, PartialEq)]
pub struct LiveInfoData {
    pub live_id: String,
    pub available_tickets: Vec<String>,
    pub enter_room_attach: String,
    pub video_play_res: StreamInfo,
    pub caption: String,
    pub ticket_retry_count: i32,
    pub ticket_retry_interval_ms: i32,
    pub notices: Vec<Notice>,
    pub config: LiveInfoConfig,
    pub live_start_time: i64,
    pub panoramic: bool,
}

#[derive(Clone, Debug, Default, Eq, Hash, PartialEq)]
pub struct Notice {
    pub user_id: i64,
    pub user_name: String,
    pub user_gender: String,
    pub notice: String,
}

#[derive(Clone, Debug, Default, Eq, Hash, PartialEq)]
pub struct LiveInfoConfig {
    pub gift_slot_size: i32,
}

#[derive(Clone, Debug, Default, Eq, Hash, PartialEq)]
pub struct StreamInfo {
    pub live_adaptive_manifest: Vec<LiveAdaptiveManifest>,
    pub live_adaptive_config: LiveAdaptiveConfig,
    pub stream_name: String,
}

#[derive(Clone, Debug, Default, Eq, Hash, PartialEq)]
pub struct LiveAdaptiveManifest {
    pub free_traffic_cdn: bool,
    pub version: String,
    pub manifest_type: String,
    pub hide_auto: bool,
    pub adaptation_set: AdaptationSet,
}

#[derive(Clone, Debug, Default, Eq, Hash, PartialEq)]
pub struct AdaptationSet {
    pub gop_duration: i32,
    pub representation: Vec<Representation>,
}

#[derive(Clone, Debug, Default, Eq, Hash, PartialEq)]
pub struct Representation {
    pub id: i32,
    pub url: String,
    pub bitrate: i32,
    pub quality_type: String,
    pub media_type: String,
    pub level: i32,
    pub name: String,
    pub hidden: bool,
    pub enable_adaptive: bool,
    pub default_select: bool,
}

#[derive(Clone, Debug, Default, Eq, Hash, PartialEq)]
pub struct LiveAdaptiveConfig {
    pub buffer_init: i32,
    pub stable_buffer_switch_up_cnt: i32,
    pub stable_buffer_diff: i32,
    pub stable_buffer_cnt: i32,
    pub last_high_water_mark_in_ms: i32,
    pub speed_down_threshold: i32,
    pub min_state_cycle: i32,
    pub max_switching_time: i32,
    pub initiative_switching_time: i32,
    pub switch_pts_diff: i32,
    pub max_retry_cnt: i32,
    pub normal_config: NormalConfig,
    pub state_config: StateConfig,
    pub liveshow_config: LiveshowConfig,
}

#[derive(Clone, Debug, Default, Eq, Hash, PartialEq)]
pub struct NormalConfig {
    pub switch_down_q: i32,
    pub switch_down_bw_frag: i32,
    pub switch_up_bw_frag: i32,
    pub switch_up_q: i32,
    pub switch_time: i32,
    pub continuous_switch_time: i32,
    pub switch_up_bw_frag1: i32,
    pub switch_up_bw_frag2: i32,
    pub switch_up_bw_frag2_cnt: i32,
    pub speed_up_threshold: i32,
}

#[derive(Clone, Debug, Default, Eq, Hash, PartialEq)]
pub struct StateConfig {
    pub frag_bw_window: i32,
    pub ls_sample_cnt: i64,
    pub ls_steps: i32,
}

#[derive(Clone, Debug, Default, Eq, Hash, PartialEq)]
pub struct LiveshowConfig {
    pub buffer_init: i32,
    pub mobile_init_index: i32,
    pub speed_up_threshold: i32,
    pub switch_down_q: i32,
    pub switch_down_bw_frag: i32,
    pub switch_up_bw_frag: i32,
    pub switch_up_q: i32,
    pub switch_time: i32,
    pub continuous_switch_time: i32,
    pub switch_up_bw_frag1: i32,
    pub switch_up_bw_frag2: i32,
    pub switch_up_bw_frag2_cnt: i32,
}

#[derive(Clone, Debug, Default, Eq, Hash, PartialEq)]
pub struct GiftList {
    pub result: i32,
    pub data: GiftData,
    pub host: String,
}

#[derive(Clone, Debug, Default, Eq, Hash, PartialEq)]
pub struct GiftData {
    pub gift_list: Vec<Gift>,
    pub external_display_gift_id: i64,
    pub external_display_gift_tips_delay_time: i64,
    pub external_display_gift: ExternalDisplayGift,
}

#[derive(Clone, Debug, Default, Eq, Hash, PartialEq)]
pub struct Gift {
    pub gift_id: i64,
    pub gift_name: String,
    pub ar_live_name: String,
    pub pay_wallet_type: i32,
    pub gift_price: i32,
    pub webp_pic_list: Vec<GiftPicture>,
    pub png_pic_list: Vec<GiftPicture>,
    pub small_png_pic_list: Vec<GiftPicture>,
    pub allow_batch_send_size_list: Vec<i32>,
    pub can_combo: bool,
    pub can_draw: bool,
    pub magic_face_id: i32,
    pub vup_ar_id: i32,
    pub description: String,
    pub redpack_price: i32,
    pub corner_marker_text: String,
}

#[derive(Clone, Debug, Default, Eq, Hash, PartialEq)]
pub struct GiftPicture {
    pub cdn: String,
    pub url: String,
    pub url_pattern: String,
    pub free_traffic: bool,
}

#[derive(Clone, Debug, Default, Eq, Hash, PartialEq)]
pub struct ExternalDisplayGift {
    pub gift_list: Vec<Gift>,
    pub tips_delay_time: i64,
}

#[derive(Clone, Debug, Default, Eq, Hash, PartialEq)]
pub struct LiveList {
    pub channel_list_data: ChannelListData,
    pub total_count: i32,
    pub live_list: Vec<UserLiveInfo>,
    pub channel_filters: ChannelFilters,
}

#[derive(Clone, Debug, Default, Eq, Hash, PartialEq)]
pub struct ChannelListData {
    pub result: i32,
    pub request_id: String,
    pub live_list: Vec<UserLiveInfo>,
    pub count: i64,
    pub pcursor: String,
    pub host_name: String,
    pub total_count: i32,
}

#[derive(Clone, Debug, Default, Eq, Hash, PartialEq)]
pub struct UserLiveInfo {
    pub result: Option<i32>,
    pub host_name: Option<String>,
    pub visitor: Option<i64>,
    pub author_id: i64,
    pub user: UserInfo,
    pub request_id: String,
    pub group_id: Option<String>,
    pub live_data: Option<LiveData>,
}

#[derive(Clone, Debug, Default, Eq, Hash, PartialEq)]
pub struct LiveData {
    pub action: i32,
    pub href: String,
    pub live_id: String,
    pub stream_name: String,
    pub create_time: i64,
    pub title: Option<String>,
    pub cover_urls: Option<Vec<String>>,
    pub live_type: Option<LiveType>,
    pub portrait: bool,
    pub panoramic: bool,
    pub online_count: i32,
    pub format_online_count: String,
    pub like_count: i32,
    pub format_like_count: String,
    pub has_fans_club: bool,
    pub biz_custom_data: String,
    pub cdn_auth_biz: i32,
    pub disable_danmaku_show: bool,
    pub paid_show_user_buy_status: bool,
}

#[derive(Clone, Debug, Default, Eq, Hash, PartialEq)]
pub struct UserInfo {
    pub action: i32,
    pub href: String,
    pub id: String,
    pub name: String,
    pub name_color: i32,
    pub head_url: String,
    pub user_head_img_info: UserAvatar,
    pub head_cdn_urls: Vec<CdnUrl>,
    pub avatar_image: String,
    pub avatar_frame: i32,
    pub avatar_frame_mobile_img: String,
    pub avatar_frame_pc_img: String,
    pub is_following: bool,
    pub is_followed: bool,
    pub following_status: i32,
    pub following_count: String,
    pub following_count_value: i32,
    pub contribute_count: String,
    pub contribute_count_value: i32,
    pub fan_count: String,
    pub fan_count_value: i32,
    pub gender: i32,
    pub sex_trend: i32,
    pub verified_type: Option<i32>,
    pub verified_types: Option<Vec<i32>>,
    pub verified_text: Option<String>,
    pub signature: Option<String>,
    pub is_join_up_college: Option<bool>,
    pub come_from: Option<String>,
    pub live_id: Option<String>,
}

#[derive(Clone, Debug, Default, Eq, Hash, PartialEq)]
pub struct UserAvatar {
    pub width: i32,
    pub height: i32,
    pub size: i32,
    pub image_type: i32,
    pub thumbnail_image: ThumbnailImage,
}

#[derive(Clone, Debug, Default, Eq, Hash, PartialEq)]
pub struct ThumbnailImage {
    pub cdn_urls: Vec<CdnUrl>,
}

#[derive(Clone, Debug, Default, Eq, Hash, PartialEq)]
pub struct CdnUrl {
    pub url: String,
    pub free_traffic_cdn: bool,
}

#[derive(Clone, Debug, Default, Eq, Hash, PartialEq)]
pub struct LiveType {
    pub id: i32,
    pub name: String,
    pub category_id: i32,
    pub category_name: String,
}

#[derive(Clone, Debug, Default, Eq, Hash, PartialEq)]
pub struct ChannelFilters {
    pub live_channel_display_filters: Vec<LiveChannelDisplayFilter>,
}

#[derive(Clone, Debug, Default, Eq, Hash, PartialEq)]
pub struct LiveChannelDisplayFilter {
    pub display_filters: Vec<DisplayFilter>,
}

#[derive(Clone, Debug, Default, Eq, Hash, PartialEq)]
pub struct DisplayFilter {
    pub filter_type: i32,
    pub filter_id: i32,
    pub name: String,
    pub cover: Option<String>,
}

#[derive(Clone, Debug, Default, Eq, Hash, PartialEq)]
pub struct MedalList {
    pub result: i32,
    pub medal_list: Vec<Medal>,
    pub host_name: String,
}

#[derive(Clone, Debug, Default, Eq, Hash, PartialEq)]
pub struct Medal {
    pub uper_id: i64,
    pub uper_name: String,
    pub uper_head_url: String,
    pub club_name: String,
    pub level: i32,
    pub join_club_time: i64,
    pub wear_medal: bool,
    pub friendship_degree: i32,
    pub current_degree_limit: i32,
}

#[derive(Clone, Debug, Default, Eq, Hash, PartialEq)]
pub struct Summary {
    pub result: i32,
    pub data: SummaryData,
    pub host: String,
}

#[derive(Clone, Debug, Default, Eq, Hash, PartialEq)]
pub struct SummaryData {
    pub live_duration_ms: i64,
    pub like_count: String,
    pub watch_count: String,
    pub pay_wallet_type_to_receive_currency: Option<GiftValue>,
    pub pay_wallet_type_to_receive_count: Option<GiftCount>,
}

#[derive(Clone, Debug, Default, Eq, Hash, PartialEq)]
pub struct GiftValue {
    pub paid_gift_value: i32,
    pub banana_value: i32,
}

#[derive(Clone, Debug, Default, Eq, Hash, PartialEq)]
pub struct GiftCount {
    pub paid_gift_count: i32,
    pub banana_count: i32,
}

#[derive(Clone, Debug, Default, Eq, Hash, PartialEq)]
pub struct MedalRankList {
    pub result: i32,
    pub cur_user_rank_index: Option<String>,
    pub friendship_degree_rank: Vec<MedalRank>,
    pub has_fans_club: bool,
    pub fans_total_count: i32,
    pub club_name: String,
    pub cur_user_friendship_degree: Option<i32>,
    pub host_name: String,
    pub is_in_fans_club: Option<bool>,
}

#[derive(Clone, Debug, Default, Eq, Hash, PartialEq)]
pub struct MedalRank {
    pub friendship_degree: i32,
    pub user_id: i64,
    pub medal_level: i32,
    pub user_info: UserInfo,
}

// ---------- the credential records ----------

/// The REST credential: the user and the keys the push channel needs.
#[derive(Clone, Debug, Default, Eq, Hash, PartialEq)]
pub struct ApiToken {
    pub user_id: i64,
    pub security_key: String,
    pub service_token: String,
    pub device_id: String,
    pub cookies: Option<Cookies>,
}

impl ApiToken {
    /// Every field a logged-in identity needs is present.
    pub open spec fn spec_login(self) -> bool {
        !(self.user_id == 0 || self.security_key@.len() == 0 || self.service_token@.len() == 0
            || self.device_id@.len() == 0)
    }

    pub fn is_login(&self) -> (r: bool)
        ensures
            r == self.spec_login(),
    {
        !(self.user_id == 0 || self.security_key.as_str().is_empty()
            || self.service_token.as_str().is_empty() || self.device_id.as_str().is_empty())
    }

    /// A visitor carries no cookies.
    pub fn is_visitor(&self) -> (r: bool)
        ensures
            r == (self.cookies is None),
    {
        self.cookies.is_none()
    }

    /// A logged-in user carries cookies.
    pub fn is_user(&self) -> (r: bool)
        ensures
            r == (self.cookies is Some),
    {
        self.cookies.is_some()
    }
}

/// The token an identity exchange returns: a visitor's or a user's.
#[derive(Clone, Debug, Eq, Hash, PartialEq)]
pub enum AcFunToken {
    Visitor(VisitorToken),
    User(UserToken),
}

/// One playable stream of a live room.
#[derive(Clone, Debug, Default, Eq, Hash, PartialEq)]
pub struct Stream {
    pub url: String,
    pub bitrate: i32,
    pub quality_type: String,
    pub quality_name: String,
}

/// The live-room metadata the push channel needs, projected from the REST
/// replies.
#[derive(Clone, Debug, Default, Eq, Hash, PartialEq)]
pub struct Live {
    pub liver_uid: i64,
    pub live_id: String,
    pub tickets: Vec<String>,
    pub enter_room_attach: String,
    pub title: String,
    pub start_time: i64,
    pub panoramic: bool,
    pub stream_name: String,
    pub stream_list: Vec<Stream>,
}

/// A fans-club medal, as carried in a comment's badge field. The badge
/// travels as general JSON produced by the REST endpoints; reading it out
/// of that JSON is the REST collaborator's work and stays outside this
/// library, which holds only the decoded value.
#[derive(Clone, Debug, Default, Eq, Hash, PartialEq)]
pub struct MedalInfo {
    pub uper_id: i64,
    pub user_id: i64,
    pub club_name: String,
    pub level: i32,
}

// ---------- the request payloads ----------

/// The login form: credentials, with the captcha fields left empty.
#[derive(Clone, Debug, Eq, Hash, PartialEq)]
pub struct LoginForm {
    pub username: String,
    pub password: String,
    pub key: String,
    pub captcha: String,
}

impl LoginForm {
    pub fn new(username: &str, password: &str) -> (r: LoginForm)
        ensures
            r.username@ == username@,
            r.password@ == password@,
            r.key@.len() == 0,
            r.captcha@.len() == 0,
    {
        proof {
            reveal_strlit("");
        }
        LoginForm {
            username: username.to_owned(),
            password: password.to_owned(),
            key: "".to_owned(),
            captcha: "".to_owned(),
        }
    }
}

/// The query string of the zt endpoints: six fixed keys and their values.
#[derive(Clone, Debug, Eq, Hash, PartialEq)]
pub struct KsQuery {
    pub pairs: Vec<(String, String)>,
}

impl KsQuery {
    /// The query of a visitor identity: the service token travels under the
    /// visitor key.
    pub fn visitor(user_id: &str, device_id: &str, service_token: &str) -> (r: KsQuery)
        ensures
            r.pairs@.len() == 6,
            r.pairs@[0].0@ == "subBiz"@ && r.pairs@[0].1@ == "mainApp"@,
            r.pairs@[1].0@ == "kpn"@ && r.pairs@[1].1@ == "ACFUN_APP"@,
            r.pairs@[2].0@ == "kpf"@ && r.pairs@[2].1@ == "PC_WEB"@,
            r.pairs@[3].0@ == "userId"@ && r.pairs@[3].1@ == user_id@,
            r.pairs@[4].0@ == "did"@ && r.pairs@[4].1@ == device_id@,
            r.pairs@[5].0@ == "acfun.api.visitor_st"@ && r.pairs@[5].1@ == service_token@,
    {
        let mut pairs: Vec<(String, String)> = Vec::new();
        pairs.push(("subBiz".to_owned(), "mainApp".to_owned()));
        pairs.push(("kpn".to_owned(), "ACFUN_APP".to_owned()));
        pairs.push(("kpf".to_owned(), "PC_WEB".to_owned()));
        pairs.push(("userId".to_owned(), user_id.to_owned()));
        pairs.push(("did".to_owned(), device_id.to_owned()));
        pairs.push(("acfun.api.visitor_st".to_owned(), service_token.to_owned()));
        KsQuery { pairs }
    }

    /// The query of a logged-in identity: the service token travels under
    /// the midground key.
    pub fn user(user_id: &str, device_id: &str, service_token: &str) -> (r: KsQuery)
        ensures
            r.pairs@.len() == 6,
            r.pairs@[0].0@ == "subBiz"@ && r.pairs@[0].1@ == "mainApp"@,
            r.pairs@[1].0@ == "kpn"@ && r.pairs@[1].1@ == "ACFUN_APP"@,
            r.pairs@[2].0@ == "kpf"@ && r.pairs@[2].1@ == "PC_WEB"@,
            r.pairs@[3].0@ == "userId"@ && r.pairs@[3].1@ == user_id@,
            r.pairs@[4].0@ == "did"@ && r.pairs@[4].1@ == device_id@,
            r.pairs@[5].0@ == "acfun.midground.api_st"@ && r.pairs@[5].1@ == service_token@,
    {
        let mut pairs: Vec<(String, String)> = Vec::new();
        pairs.push(("subBiz".to_owned(), "mainApp".to_owned()));
        pairs.push(("kpn".to_owned(), "ACFUN_APP".to_owned()));
        pairs.push(("kpf".to_owned(), "PC_WEB".to_owned()));
        pairs.push(("userId".to_owned(), user_id.to_owned()));
        pairs.push(("did".to_owned(), device_id.to_owned()));
        pairs.push(("acfun.midground.api_st".to_owned(), service_token.to_owned()));
        KsQuery { pairs }
    }
}

/// The form naming a live room on the zt endpoints.
#[derive(Clone, Debug, Eq, Hash, PartialEq)]
pub struct KsForm {
    pub visitor_id: i64,
    pub live_id: String,
}

impl KsForm {
    pub fn new(user_id: i64, live_id: &str) -> (r: KsForm)
        ensures
            r.visitor_id == user_id,
            r.live_id@ == live_id@,
    {
        KsForm { visitor_id: user_id, live_id: live_id.to_owned() }
    }
}

/// The form that opens a play session for a liver.
#[derive(Clone, Debug, Eq, Hash, PartialEq)]
pub struct StartPlayForm {
    pub author_id: i64,
    pub pull_stream_type: String,
}

impl StartPlayForm {
    pub fn new(liver_uid: i64) -> (r: StartPlayForm)
        ensures
            r.author_id == liver_uid,
            r.pull_stream_type@ == "FLV"@,
    {
        StartPlayForm { author_id: liver_uid, pull_stream_type: "FLV".to_owned() }
    }
}

// ---------- reading a cookie out of a header ----------

/// The index of the first `c` in `s`; the length when `c` is absent.
pub open spec fn spec_find(s: Seq<u8>, c: u8) -> int
    decreases s.len(),
{
    if s.len() == 0 {
        0
    } else if s[0] == c {
        0
    } else {
        1 + spec_find(s.skip(1), c)
    }
}

fn find_byte(s: &[u8], from: usize, c: u8) -> (r: usize)
    requires
        from <= s@.len(),
    ensures
        from <= r <= s@.len(),
        r - from == spec_find(s@.skip(from as int), c),
    decreases s@.len() - from,
{
    if from == s.len() {
        from
    } else if s[from] == c {
        from
    } else {
        proof {
            assert(s@.skip(from as int).skip(1) =~= s@.skip(from as int + 1));
        }
        find_byte(s, from + 1, c)
    }
}

/// `s` without its leading spaces.
pub open spec fn spec_trim_front(s: Seq<u8>) -> Seq<u8>
    decreases s.len(),
{
    if s.len() > 0 && s[0] == 32 {
        spec_trim_front(s.skip(1))
    } else {
        s
    }
}

/// `s` without its trailing spaces.
pub open spec fn spec_trim_back(s: Seq<u8>) -> Seq<u8>
    decreases s.len(),
{
    if s.len() > 0 && s.last() == 32 {
        spec_trim_back(s.drop_last())
    } else {
        s
    }
}

/// `s` without its leading and trailing spaces.
pub open spec fn spec_trim(s: Seq<u8>) -> Seq<u8> {
    spec_trim_back(spec_trim_front(s))
}

fn trim_front_idx(s: &[u8], from: usize) -> (r: usize)
    requires
        from <= s@.len(),
    ensures
        from <= r <= s@.len(),
        spec_trim_front(s@.skip(from as int)) == s@.skip(r as int),
    decreases s@.len() - from,
{
    if from < s.len() && s[from] == 32 {
        proof {
            assert(s@.skip(from as int).skip(1) =~= s@.skip(from as int + 1));
        }
        trim_front_idx(s, from + 1)
    } else {
        from
    }
}

fn trim_back_idx(s: &[u8], to: usize) -> (r: usize)
    requires
        to <= s@.len(),
    ensures
        r <= to,
        spec_trim_back(s@.take(to as int)) == s@.take(r as int),
    decreases to,
{
    if to > 0 && s[to - 1] == 32 {
        proof {
            assert(s@.take(to as int).drop_last() =~= s@.take(to as int - 1));
        }
        trim_back_idx(s, to - 1)
    } else {
        to
    }
}

/// `s` with leading and trailing spaces removed.
fn trim(s: &[u8]) -> (r: Vec<u8>)
    ensures
        r@ == spec_trim(s@),
{
    let a = trim_front_idx(s, 0);
    let ghost front = s@.skip(a as int);
    let piece = vstd::slice::slice_subrange(s, a, s.len());
    proof {
        assert(piece@ =~= front);
        assert(s@.skip(0) =~= s@);
    }
    let b = trim_back_idx(piece, piece.len());
    proof {
        assert(piece@.take(piece@.len() as int) =~= piece@);
    }
    let out = vstd::slice::slice_to_vec(vstd::slice::slice_subrange(piece, 0, b));
    proof {
        assert(out@ =~= piece@.take(b as int));
    }
    out
}

/// What the first `name=value` pair of a cookie header yields for `name`:
/// the value before the first semicolon, name and value trimmed of spaces.
/// `None` when the header has no `=` or names another cookie.
pub open spec fn spec_cookie_value(h: Seq<u8>, name: Seq<u8>) -> Option<Seq<u8>> {
    let e = spec_find(h, 61);
    if e >= h.len() {
        None
    } else if spec_trim(h.take(e)) != name {
        None
    } else {
        let rest = h.skip(e + 1);
        Some(spec_trim(rest.take(spec_find(rest, 59))))
    }
}

/// Reads the named cookie's value out of one header line, as the device id
/// is read out of the live host's cookie header.
pub fn cookie_value(header: &[u8], name: &[u8]) -> (r: Option<Vec<u8>>)
    ensures
        match spec_cookie_value(header@, name@) {
            Option::None => r is None,
            Option::Some(v) => {
                match r {
                    Option::Some(out) => out@ == v,
                    Option::None => false,
                }
            },
        },
{
    proof {
        assert(header@.skip(0) =~= header@);
    }
    let e = find_byte(header, 0, 61);
    if e == header.len() {
        return None;
    }
    let name_part = trim(vstd::slice::slice_subrange(header, 0, e));
    proof {
        assert(header@.subrange(0, e as int) =~= header@.take(e as int));
    }
    if !crate::wire::bytes_eq(name_part.as_slice(), name) {
        return None;
    }
    let rest = vstd::slice::slice_subrange(header, e + 1, header.len());
    proof {
        assert(rest@ =~= header@.skip(e as int + 1));
        assert(rest@.skip(0) =~= rest@);
    }
    let sc = find_byte(rest, 0, 59);
    let value = trim(vstd::slice::slice_subrange(rest, 0, sc));
    proof {
        assert(rest@.subrange(0, sc as int) =~= rest@.take(sc as int));
    }
    Some(value)
}

// ---------- projecting the credential into a danmaku token ----------

impl DanmakuToken {
    /// Joins a credential and a live room's metadata into the seed the push
    /// channel is built from.
    pub fn from_token_live(token: &ApiToken, live: &Live) -> (r: DanmakuToken)
        ensures
            r.user_id == token.user_id,
            r.liver_uid == live.liver_uid,
            r.security_key@ == token.security_key@,
            r.service_token@ == token.service_token@,
            r.live_id@ == live.live_id@,
            r.enter_room_attach@ == live.enter_room_attach@,
            r.tickets@.len() == live.tickets@.len(),
            forall|i: int|
                0 <= i < live.tickets@.len() ==> (#[trigger] r.tickets@[i])@ == live.tickets@[i]@,
    {
        let mut tickets: Vec<String> = Vec::new();
        let mut i: usize = 0;
        while i < live.tickets.len()
            invariant
                i <= live.tickets@.len(),
                tickets@.len() == i,
                forall|j: int|
                    0 <= j < i ==> (#[trigger] tickets@[j])@ == live.tickets@[j]@,
            decreases live.tickets@.len() - i,
        {
            tickets.push(live.tickets[i].as_str().to_owned());
            i = i + 1;
        }
        DanmakuToken {
            user_id: token.user_id,
            liver_uid: live.liver_uid,
            security_key: token.security_key.as_str().to_owned(),
            service_token: token.service_token.as_str().to_owned(),
            live_id: live.live_id.as_str().to_owned(),
            enter_room_attach: live.enter_room_attach.as_str().to_owned(),
            tickets,
        }
    }
}

} // verus!