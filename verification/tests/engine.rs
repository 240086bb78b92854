//! The engine end of the protocol: dispatching commands into protocol
//! calls and folding call outcomes back into session state and responses.

use fractal::backend::BKCommand;
use fractal::backend::BKResponse;
use fractal::backend::Backend;
use fractal::backend::CallOutcome;
use fractal::backend::DispatchOutcome;
use fractal::backend::Error;
use fractal::backend::ProtocolCall;
use fractal::backend::SyncUpdate;
use fractal::types::Member;
use fractal::types::Message;
use fractal::types::Room;
use fractal::types::RoomType;

fn sample_room(id: &str) -> Room {
    Room {
        id: id.to_string(),
        name: Some(format!("name of {id}")),
        topic: None,
        avatar: None,
        notifications: 0,
        messages: Vec::new(),
        members: Vec::new(),
    }
}

#[test]
fn login_success_populates_session() {
    // scenario: Login("alice","pw","https://example.org") issues the
    // protocol login; on success Token(uid, token) is published and the
    // session identity fields hold the submitted values
    let mut bk = Backend::new(20);
    let out = bk.dispatch(BKCommand::Login(
        "alice".to_string(),
        "pw".to_string(),
        "https://example.org".to_string(),
    ));
    match out {
        DispatchOutcome::Call(ProtocolCall::Login { user, password, server }) => {
            assert_eq!(user, "alice");
            assert_eq!(password, "pw");
            assert_eq!(server, "https://example.org");
        }
        _ => panic!("login must resolve into the protocol login call"),
    }
    assert_eq!(bk.data.server_url, "https://example.org");
    let rs = bk.complete(CallOutcome::Login(Ok((
        "@alice:example.org".to_string(),
        "secret_token".to_string(),
    ))));
    assert_eq!(
        rs,
        vec![BKResponse::Token(
            "@alice:example.org".to_string(),
            "secret_token".to_string()
        )]
    );
    assert_eq!(bk.data.user_id, "@alice:example.org");
    assert_eq!(bk.data.access_token, "secret_token");
    assert_eq!(bk.data.server_url, "https://example.org");
}

#[test]
fn login_failure_leaves_session_unchanged() {
    let mut bk = Backend::new(20);
    let rs = bk.complete(CallOutcome::Login(Err(Error::Network("down".to_string()))));
    assert_eq!(rs.len(), 1);
    assert!(matches!(rs[0], BKResponse::LoginError(_)));
    assert_eq!(bk.data.user_id, "");
    assert_eq!(bk.data.access_token, "");
}

#[test]
fn sync_success_advances_cursor() {
    let mut bk = Backend::new(20);
    let update = SyncUpdate {
        since: "s-100".to_string(),
        rooms: vec![sample_room("!a")],
        default: None,
        new_messages: Vec::new(),
        member_events: Vec::new(),
    };
    let rs = bk.complete(CallOutcome::Sync(Ok(update)));
    assert_eq!(bk.data.since, "s-100");
    assert_eq!(rs.len(), 3);
    assert!(matches!(rs[0], BKResponse::Rooms(_, _)));
    assert!(matches!(rs[1], BKResponse::RoomMessages(_)));
    assert_eq!(rs[2], BKResponse::Sync("s-100".to_string()));
}

#[test]
fn sync_failure_leaves_cursor_unchanged() {
    // scenario: a sync fails with a network error; the response is the
    // sync error variant and `since` is exactly its pre-call value
    let mut bk = Backend::new(20);
    let update = SyncUpdate {
        since: "s-1".to_string(),
        rooms: Vec::new(),
        default: None,
        new_messages: Vec::new(),
        member_events: Vec::new(),
    };
    bk.complete(CallOutcome::Sync(Ok(update)));
    assert_eq!(bk.data.since, "s-1");
    let rs = bk.complete(CallOutcome::Sync(Err(Error::Network("offline".to_string()))));
    assert_eq!(rs, vec![BKResponse::SyncError(Error::Network("offline".to_string()))]);
    assert_eq!(bk.data.since, "s-1");
}

#[test]
fn sync_call_carries_current_cursor() {
    let mut bk = Backend::new(20);
    let update = SyncUpdate {
        since: "s-7".to_string(),
        rooms: Vec::new(),
        default: None,
        new_messages: Vec::new(),
        member_events: Vec::new(),
    };
    bk.complete(CallOutcome::Sync(Ok(update)));
    match bk.dispatch(BKCommand::Sync) {
        DispatchOutcome::Call(ProtocolCall::Sync { since, .. }) => assert_eq!(since, "s-7"),
        _ => panic!("sync must resolve into the protocol sync call"),
    }
    // a forced sync is executed just the same by the engine
    match bk.dispatch(BKCommand::SyncForced) {
        DispatchOutcome::Call(ProtocolCall::Sync { since, .. }) => assert_eq!(since, "s-7"),
        _ => panic!("forced sync must resolve into the protocol sync call"),
    }
}

#[test]
fn logout_is_acknowledged_even_on_remote_failure() {
    let mut bk = Backend::new(20);
    bk.complete(CallOutcome::Login(Ok(("@u:s".to_string(), "t".to_string()))));
    let rs = bk.complete(CallOutcome::Logout(Err(Error::Network("down".to_string()))));
    assert_eq!(rs, vec![BKResponse::Logout]);
    assert_eq!(bk.data.user_id, "");
    assert_eq!(bk.data.access_token, "");
    assert_eq!(bk.data.since, "");
}

#[test]
fn send_msg_draws_fresh_transaction_ids() {
    let mut bk = Backend::new(20);
    let m = Message {
        sender: "@u:s".to_string(),
        mtype: "m.text".to_string(),
        body: "hi".to_string(),
        room: "!r".to_string(),
        date: 0,
        thumb: None,
        url: None,
        id: None,
    };
    match bk.dispatch(BKCommand::SendMsg(m.clone())) {
        DispatchOutcome::Call(ProtocolCall::SendMsg { txn_id, .. }) => assert_eq!(txn_id, 1),
        _ => panic!("send must resolve into the protocol send call"),
    }
    match bk.dispatch(BKCommand::SendMsg(m)) {
        DispatchOutcome::Call(ProtocolCall::SendMsg { txn_id, .. }) => assert_eq!(txn_id, 2),
        _ => panic!("send must resolve into the protocol send call"),
    }
}

#[test]
fn shutdown_stops_intake() {
    let mut bk = Backend::new(20);
    assert!(matches!(bk.dispatch(BKCommand::ShutDown), DispatchOutcome::Stop));
    assert!(matches!(bk.dispatch(BKCommand::Sync), DispatchOutcome::Refused));
    assert!(matches!(
        bk.dispatch(BKCommand::Login("u".to_string(), "p".to_string(), "s".to_string())),
        DispatchOutcome::Refused
    ));
}

#[test]
fn join_room_records_pending_join() {
    let mut bk = Backend::new(20);
    match bk.dispatch(BKCommand::JoinRoom("!j:s".to_string())) {
        DispatchOutcome::Call(ProtocolCall::JoinRoom { roomid, .. }) => assert_eq!(roomid, "!j:s"),
        _ => panic!("join must resolve into the protocol join call"),
    }
    assert_eq!(bk.data.join_to_room, "!j:s");
}

#[test]
fn error_outcomes_map_to_their_error_responses() {
    let mut bk = Backend::new(20);
    let e = || Err::<(), Error>(Error::MalformedResponse("bad".to_string()));
    assert!(matches!(
        bk.complete(CallOutcome::JoinRoom(e()))[0],
        BKResponse::JoinRoomError(_)
    ));
    assert!(matches!(
        bk.complete(CallOutcome::LeaveRoom(e()))[0],
        BKResponse::LeaveRoomError(_)
    ));
    assert!(matches!(
        bk.complete(CallOutcome::SetRoomName(e()))[0],
        BKResponse::SetRoomNameError(_)
    ));
    assert!(matches!(
        bk.complete(CallOutcome::SetRoomTopic(e()))[0],
        BKResponse::SetRoomTopicError(_)
    ));
    assert!(matches!(
        bk.complete(CallOutcome::SetRoomAvatar(e()))[0],
        BKResponse::SetRoomAvatarError(_)
    ));
    assert!(matches!(
        bk.complete(CallOutcome::SendMsg(e()))[0],
        BKResponse::SendMsgError(_)
    ));
    assert!(matches!(
        bk.complete(CallOutcome::Username(Err(Error::Network("x".to_string()))))[0],
        BKResponse::UserNameError(_)
    ));
    assert!(matches!(
        bk.complete(CallOutcome::Media(Err(Error::Network("x".to_string()))))[0],
        BKResponse::MediaError(_)
    ));
}

#[test]
fn search_always_ends_with_search_end() {
    let mut bk = Backend::new(20);
    let ok = bk.complete(CallOutcome::Search(Ok(Vec::new())));
    assert_eq!(ok.len(), 2);
    assert!(matches!(ok[0], BKResponse::RoomMessagesInit(_)));
    assert_eq!(ok[1], BKResponse::SearchEnd);
    let err = bk.complete(CallOutcome::Search(Err(Error::Network("x".to_string()))));
    assert_eq!(err.len(), 2);
    assert!(matches!(err[0], BKResponse::SearchError(_)));
    assert_eq!(err[1], BKResponse::SearchEnd);
}

#[test]
fn new_room_outcome_carries_the_room() {
    let mut bk = Backend::new(20);
    match bk.dispatch(BKCommand::NewRoom("den".to_string(), RoomType::Private)) {
        DispatchOutcome::Call(ProtocolCall::NewRoom { name, privacy, .. }) => {
            assert_eq!(name, "den");
            assert_eq!(privacy, RoomType::Private);
        }
        _ => panic!("new room must resolve into the protocol create call"),
    }
    let rs = bk.complete(CallOutcome::NewRoom(Ok(sample_room("!new"))));
    assert_eq!(rs.len(), 1);
    match &rs[0] {
        BKResponse::NewRoom(r) => assert_eq!(r.id, "!new"),
        _ => panic!("a created room must come back as the new-room response"),
    }
}

#[test]
fn member_avatar_lookup_without_member_replies_at_once() {
    let mut bk = Backend::new(20);
    let (tx, rx) = std::sync::mpsc::channel::<String>();
    let out = bk.dispatch(BKCommand::GetAvatarAsync(None, tx));
    assert!(matches!(out, DispatchOutcome::Done));
    assert_eq!(rx.try_recv().unwrap(), "");
    let m = Member {
        alias: Some("Bob".to_string()),
        avatar: Some("mxc://bob".to_string()),
        uid: "@bob:s".to_string(),
    };
    let (tx2, _rx2) = std::sync::mpsc::channel::<String>();
    match bk.dispatch(BKCommand::GetAvatarAsync(Some(m), tx2)) {
        DispatchOutcome::ThrottledCall(ProtocolCall::GetMemberAvatar { member, .. }) => {
            assert_eq!(member.uid, "@bob:s");
        }
        _ => panic!("a member avatar lookup must be a throttled fetch"),
    }
}
