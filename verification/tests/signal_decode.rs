//! The signal decoders: known and unknown record types, the gzip path's
//! inputs, and the stable ascending order of action batches.

use acfun_danmaku::messages::{enc_b, enc_bb, enc_v, enc_vb};
use acfun_danmaku::shapes::{write_field_bytes, write_rep_bytes};
use acfun_danmaku::signals::{
    action_signal, notify_signal, state_signal, ActionSignal, NotifySignal, StateSignal,
};

fn action_envelope(items: &[(&[u8], Vec<Vec<u8>>)]) -> Vec<u8> {
    let mut out = Vec::new();
    for (st, payloads) in items {
        let mut item = Vec::new();
        write_field_bytes(&mut item, 1, st);
        write_rep_bytes(&mut item, 2, payloads);
        write_field_bytes(&mut out, 1, &item);
    }
    out
}

fn state_envelope(items: &[(&[u8], Vec<u8>)]) -> Vec<u8> {
    let mut out = Vec::new();
    for (st, payload) in items {
        let item = enc_bb(st, payload);
        write_field_bytes(&mut out, 1, &item);
    }
    out
}

#[test]
fn action_comment_decodes() {
    let payload = action_envelope(&[(b"CommonActionSignalComment", vec![enc_vb(100, b"hi")])]);
    let batch = action_signal(&payload).unwrap();
    assert_eq!(batch.len(), 1);
    match &batch[0] {
        ActionSignal::Comment(c) => {
            assert_eq!(c.send_time_ms, 100);
            assert_eq!(c.content, b"hi");
        },
        other => panic!("expected a comment, got {:?}", other),
    }
}

#[test]
fn action_unknown_type_is_preserved() {
    // one item of an unknown type: its payload comes back verbatim
    let payload = action_envelope(&[(b"__bogus__", vec![b"raw-bytes".to_vec()])]);
    let batch = action_signal(&payload).unwrap();
    assert_eq!(batch.len(), 1);
    assert_eq!(batch[0], ActionSignal::Unknown(b"raw-bytes".to_vec()));
}

#[test]
fn action_batch_sorts_ascending_and_stably() {
    let payload = action_envelope(&[
        (b"CommonActionSignalComment", vec![enc_vb(300, b"late"), enc_vb(100, b"early")]),
        (b"CommonActionSignalLike", vec![enc_v(100)]),
        (b"AcfunActionSignalJoinClub", vec![enc_v(200)]),
    ]);
    let batch = action_signal(&payload).unwrap();
    let times: Vec<i64> = batch.iter().map(|s| s.time()).collect();
    assert_eq!(times, vec![100, 100, 200, 300]);
    // stable: the comment at 100 came before the like at 100 on the wire
    assert!(matches!(batch[0], ActionSignal::Comment(_)));
    assert!(matches!(batch[1], ActionSignal::Like(_)));
}

#[test]
fn action_unknown_items_sort_to_zero() {
    let payload = action_envelope(&[
        (b"CommonActionSignalLike", vec![enc_v(50)]),
        (b"__bogus__", vec![b"x".to_vec()]),
    ]);
    let batch = action_signal(&payload).unwrap();
    assert_eq!(batch[0], ActionSignal::Unknown(b"x".to_vec()));
    assert_eq!(batch[1].time(), 50);
}

#[test]
fn action_bad_item_fails_whole_batch() {
    // a comment whose payload is not a comment record
    let payload = action_envelope(&[(b"CommonActionSignalComment", vec![b"junk".to_vec()])]);
    assert!(action_signal(&payload).is_err());
}

#[test]
fn state_display_info_decodes() {
    let payload = state_envelope(&[(b"CommonStateSignalDisplayInfo", enc_bb(b"123", b"45"))]);
    let batch = state_signal(&payload).unwrap();
    assert_eq!(batch.len(), 1);
    match &batch[0] {
        StateSignal::DisplayInfo(d) => {
            assert_eq!(d.watching_count, b"123");
            assert_eq!(d.like_count, b"45");
        },
        other => panic!("expected display info, got {:?}", other),
    }
}

#[test]
fn state_unknown_type_is_preserved() {
    let payload = state_envelope(&[(b"__new_state__", b"opaque".to_vec())]);
    let batch = state_signal(&payload).unwrap();
    assert_eq!(batch, vec![StateSignal::Unknown(b"opaque".to_vec())]);
}

#[test]
fn state_live_state_decodes() {
    let payload = state_envelope(&[(b"CommonStateSignalLiveState", enc_v(3))]);
    let batch = state_signal(&payload).unwrap();
    assert_eq!(batch.len(), 1);
    match &batch[0] {
        StateSignal::LiveState(l) => assert_eq!(l.state, 3),
        other => panic!("expected live state, got {:?}", other),
    }
}

#[test]
fn state_batch_keeps_wire_order() {
    let payload = state_envelope(&[
        (b"CommonStateSignalChatCall", enc_b(b"c1")),
        (b"AcfunStateSignalDisplayInfo", enc_b(b"9")),
    ]);
    let batch = state_signal(&payload).unwrap();
    assert!(matches!(batch[0], StateSignal::ChatCall(_)));
    assert!(matches!(batch[1], StateSignal::AcFunDisplayInfo(_)));
}

#[test]
fn notify_signals_decode() {
    let payload = state_envelope(&[
        (b"CommonNotifySignalKickedOut", enc_b(b"reason")),
        (b"CommonNotifySignalLiveManagerState", enc_v(2)),
        (b"__new_notify__", b"keep".to_vec()),
    ]);
    let batch = notify_signal(&payload).unwrap();
    assert_eq!(batch.len(), 3);
    match &batch[0] {
        NotifySignal::KickedOut(k) => assert_eq!(k.reason, b"reason"),
        other => panic!("expected kicked-out, got {:?}", other),
    }
    match &batch[1] {
        NotifySignal::ManagerState(m) => assert_eq!(m.state, 2),
        other => panic!("expected manager state, got {:?}", other),
    }
    assert_eq!(batch[2], NotifySignal::Unknown(b"keep".to_vec()));
}

#[test]
fn empty_envelopes_are_empty_batches() {
    assert_eq!(action_signal(&[]).unwrap(), Vec::<ActionSignal>::new());
    assert_eq!(state_signal(&[]).unwrap(), Vec::<StateSignal>::new());
    assert_eq!(notify_signal(&[]).unwrap(), Vec::<NotifySignal>::new());
}
