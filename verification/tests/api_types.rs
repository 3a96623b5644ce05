//! The REST collaborator's value types: the credential checks, the query
//! and form builders, and the projection into a danmaku token.

use acfun_danmaku::api::{cookie_value, ApiToken, KsForm, KsQuery, Live, LoginForm, StartPlayForm};
use acfun_danmaku::client::DanmakuToken;

fn api_token() -> ApiToken {
    ApiToken {
        user_id: 42,
        security_key: "a2V5".to_string(),
        service_token: "ST".to_string(),
        device_id: "D1".to_string(),
        cookies: None,
    }
}

#[test]
fn api_token_login_checks() {
    let t = api_token();
    assert!(t.is_login());
    assert!(t.is_visitor());
    assert!(!t.is_user());

    let mut missing = t.clone();
    missing.device_id = String::new();
    assert!(!missing.is_login());

    let mut user = t;
    user.cookies = Some("sid=1".to_string());
    assert!(user.is_user());
    assert!(!user.is_visitor());
}

#[test]
fn ks_query_carries_identity() {
    let q = KsQuery::visitor("42", "D1", "ST");
    assert_eq!(q.pairs.len(), 6);
    assert_eq!(q.pairs[0], ("subBiz".to_string(), "mainApp".to_string()));
    assert_eq!(q.pairs[3], ("userId".to_string(), "42".to_string()));
    assert_eq!(q.pairs[5], ("acfun.api.visitor_st".to_string(), "ST".to_string()));

    let q = KsQuery::user("42", "D1", "ST");
    assert_eq!(q.pairs[5], ("acfun.midground.api_st".to_string(), "ST".to_string()));
}

#[test]
fn form_builders() {
    let login = LoginForm::new("alice", "pw");
    assert_eq!(login.username, "alice");
    assert_eq!(login.password, "pw");
    assert_eq!(login.key, "");
    assert_eq!(login.captcha, "");

    let form = KsForm::new(42, "L1");
    assert_eq!(form.visitor_id, 42);
    assert_eq!(form.live_id, "L1");

    let play = StartPlayForm::new(23);
    assert_eq!(play.author_id, 23);
    assert_eq!(play.pull_stream_type, "FLV");
}

#[test]
fn token_projection() {
    let live = Live {
        liver_uid: 23,
        live_id: "L1".to_string(),
        tickets: vec!["T0".to_string(), "T1".to_string()],
        enter_room_attach: "ER".to_string(),
        title: "a room".to_string(),
        start_time: 1,
        panoramic: false,
        stream_name: "s".to_string(),
        stream_list: Vec::new(),
    };
    let token = DanmakuToken::from_token_live(&api_token(), &live);
    assert_eq!(token.user_id, 42);
    assert_eq!(token.liver_uid, 23);
    assert_eq!(token.security_key, "a2V5");
    assert_eq!(token.service_token, "ST");
    assert_eq!(token.live_id, "L1");
    assert_eq!(token.enter_room_attach, "ER");
    assert_eq!(token.tickets, vec!["T0".to_string(), "T1".to_string()]);
    assert!(token.is_valid());
}

#[test]
fn cookie_values_are_extracted() {
    let header = b"_did=H5_abc123; Domain=.example.test; Path=/; Expires=never";
    assert_eq!(cookie_value(header, b"_did"), Some(b"H5_abc123".to_vec()));
    assert_eq!(cookie_value(header, b"_sid"), None);
    assert_eq!(cookie_value(b"_did = spaced ; Path=/", b"_did"), Some(b"spaced".to_vec()));
    assert_eq!(cookie_value(b"no equals sign here", b"_did"), None);
    assert_eq!(cookie_value(b"_did=", b"_did"), Some(Vec::new()));
}
