//! The controller state machine: sync discipline, response handling, and
//! the view-level decisions.

use fractal::appop::AppEffect;
use fractal::appop::AppOp;
use fractal::appop::AppState;
use fractal::appop::AddedMessage;
use fractal::appop::InternalCommand;
use fractal::appop::LoadMore;
use fractal::appop::MemberEvent;
use fractal::appop::MsgPos;
use fractal::appop::RoomPanel;
use fractal::backend::BKCommand;
use fractal::backend::BKResponse;
use fractal::backend::Error;
use fractal::types::Event;
use fractal::types::Member;
use fractal::types::Message;
use fractal::types::Room;
use fractal::types::RoomType;

fn msg(room: &str, sender: &str, body: &str) -> Message {
    Message {
        sender: sender.to_string(),
        mtype: "m.text".to_string(),
        body: body.to_string(),
        room: room.to_string(),
        date: 1000,
        thumb: None,
        url: None,
        id: Some(format!("${body}:{room}")),
    }
}

fn room(id: &str, name: &str) -> Room {
    Room {
        id: id.to_string(),
        name: Some(name.to_string()),
        topic: None,
        avatar: None,
        notifications: 0,
        messages: Vec::new(),
        members: Vec::new(),
    }
}

fn logged_in_op() -> AppOp {
    let mut op = AppOp::new();
    op.handle_response(BKResponse::Token("@me:s".to_string(), "tok".to_string()));
    op
}

#[test]
fn plain_sync_is_suppressed_while_one_is_in_flight() {
    // a second plain sync is stopped at the caller; a forced sync issued
    // under the same condition still goes to the engine
    let mut op = AppOp::new();
    op.logged_in = true;
    let first = op.sync();
    assert!(matches!(first, Some(BKCommand::Sync)));
    assert!(op.syncing);
    let second = op.sync();
    assert!(second.is_none(), "an overlapping plain sync must be suppressed");
    let forced = op.reload_rooms();
    assert!(matches!(forced, BKCommand::SyncForced));
}

#[test]
fn sync_needs_a_login() {
    let mut op = AppOp::new();
    assert!(op.sync().is_none());
    assert!(!op.syncing);
}

#[test]
fn cursor_moves_only_on_sync_success() {
    let mut op = logged_in_op();
    assert!(op.syncing);
    op.handle_response(BKResponse::Sync("s-1".to_string()));
    assert_eq!(op.since, Some("s-1".to_string()));
    assert!(!op.syncing);
    // a failed sync clears the in-flight mark and nothing else
    op.sync();
    let before = op.since.clone();
    let fx = op.handle_response(BKResponse::SyncError(Error::Network("down".to_string())));
    assert!(fx.is_empty());
    assert!(!op.syncing);
    assert_eq!(op.since, before);
    // no other response touches the cursor
    op.handle_response(BKResponse::Name("me".to_string()));
    op.handle_response(BKResponse::JoinRoom);
    assert_eq!(op.since, before);
}

#[test]
fn token_response_logs_in_and_starts_syncing() {
    let mut op = AppOp::new();
    let fx = op.handle_response(BKResponse::Token("@me:s".to_string(), "tok".to_string()));
    assert!(op.logged_in);
    assert!(op.syncing);
    assert!(matches!(op.state, AppState::Chat));
    assert_eq!(op.uid, Some("@me:s".to_string()));
    assert_eq!(op.username, Some("@me:s".to_string()));
    assert_eq!(fx.len(), 4);
    assert!(matches!(fx[0], AppEffect::Send(BKCommand::GetUsername)));
    assert!(matches!(fx[1], AppEffect::Send(BKCommand::GetAvatar)));
    assert!(matches!(fx[2], AppEffect::Send(BKCommand::Sync)));
    assert!(matches!(fx[3], AppEffect::Send(BKCommand::DirectoryProtocols)));
}

#[test]
fn logout_response_returns_to_the_login_view() {
    let mut op = logged_in_op();
    let fx = op.handle_response(BKResponse::Logout);
    assert!(fx.is_empty());
    assert!(!op.logged_in);
    assert!(matches!(op.state, AppState::Login));
    assert_eq!(op.uid, None);
    assert_eq!(op.username, None);
}

#[test]
fn rooms_response_rebuilds_the_map_and_fetches_avatars() {
    let mut op = logged_in_op();
    let fx = op.handle_response(BKResponse::Rooms(
        vec![room("!a", "alpha"), room("!b", "beta")],
        None,
    ));
    assert!(op.rooms.contains_key(&"!a".to_string()));
    assert!(op.rooms.contains_key(&"!b".to_string()));
    assert_eq!(op.rooms.len(), 2);
    match &fx[0] {
        AppEffect::Send(BKCommand::GetRoomAvatar(id)) => assert_eq!(id, "!a"),
        _ => panic!("each synced room gets its avatar fetched"),
    }
    match &fx[1] {
        AppEffect::Send(BKCommand::GetRoomAvatar(id)) => assert_eq!(id, "!b"),
        _ => panic!("each synced room gets its avatar fetched"),
    }
    assert!(matches!(fx.last().unwrap(), AppEffect::CacheRooms));
    // no room was open and none was suggested: the empty panel shows
    assert!(fx.iter().any(|e| matches!(e, AppEffect::Panel(RoomPanel::NoRoom))));
    assert_eq!(op.active_room, None);
}

#[test]
fn rooms_response_keeps_the_open_room_open() {
    let mut op = logged_in_op();
    op.handle_response(BKResponse::Rooms(vec![room("!a", "alpha")], None));
    op.set_active_room_by_id(&"!a".to_string());
    assert_eq!(op.active_room, Some("!a".to_string()));
    let fx = op.handle_response(BKResponse::Rooms(
        vec![room("!a", "alpha"), room("!c", "gamma")],
        Some(room("!c", "gamma")),
    ));
    assert_eq!(op.active_room, Some("!a".to_string()));
    assert!(fx.iter().any(|e| matches!(e, AppEffect::Queue(_))));
}

#[test]
fn opening_a_room_queues_its_last_messages() {
    let mut op = logged_in_op();
    let mut r = room("!a", "alpha");
    for i in 0..45 {
        r.messages.push(msg("!a", "@other:s", &format!("m{i}")));
    }
    op.rooms.insert(r);
    let fx = op.set_active_room_by_id(&"!a".to_string());
    // the last forty messages, newest first, the oldest flagged last
    assert_eq!(fx.internal.len(), 41);
    match &fx.internal[0] {
        InternalCommand::AddRoomMessage(m, MsgPos::Top, None, last) => {
            assert_eq!(m.body, "m44");
            assert!(!last);
        }
        _ => panic!("opening a room re-shows its history"),
    }
    match &fx.internal[39] {
        InternalCommand::AddRoomMessage(m, MsgPos::Top, None, last) => {
            assert_eq!(m.body, "m5");
            assert!(last);
        }
        _ => panic!("opening a room re-shows its history"),
    }
    assert!(matches!(fx.internal[40], InternalCommand::SetPanel(RoomPanel::Room)));
    assert!(fx.scroll_down);
    assert!(matches!(&fx.backend[0], BKCommand::MarkAsRead(_, _)));
    assert!(matches!(&fx.backend[1], BKCommand::SetRoom(_)));
    assert_eq!(op.shown_messages, 40);
}

#[test]
fn opening_an_empty_room_fetches_its_history() {
    let mut op = logged_in_op();
    op.rooms.insert(room("!a", "alpha"));
    let fx = op.set_active_room_by_id(&"!a".to_string());
    assert!(!fx.scroll_down);
    assert!(matches!(&fx.backend[0], BKCommand::SetRoom(_)));
    match &fx.backend[1] {
        BKCommand::GetRoomMessages(id) => assert_eq!(id, "!a"),
        _ => panic!("an empty room asks the server for messages"),
    }
}

#[test]
fn incoming_message_for_another_room_counts_a_notification() {
    let mut op = logged_in_op();
    op.rooms.insert(room("!a", "alpha"));
    op.rooms.insert(room("!b", "beta"));
    op.set_active_room_by_id(&"!a".to_string());
    let out = op.add_room_message(&msg("!b", "@other:s", "psst"), MsgPos::Bottom, None, false);
    assert!(matches!(out, AddedMessage::Counted));
    assert_eq!(op.rooms.get(&"!b".to_string()).unwrap().notifications, 1);
    // marking the room read clears the count
    op.handle_response(BKResponse::MarkedAsRead("!b".to_string(), "$e".to_string()));
    assert_eq!(op.rooms.get(&"!b".to_string()).unwrap().notifications, 0);
}

#[test]
fn incoming_message_for_the_open_room_is_shown() {
    let mut op = logged_in_op();
    op.rooms.insert(room("!a", "alpha"));
    op.set_active_room_by_id(&"!a".to_string());
    let fx = op.handle_response(BKResponse::RoomMessages(vec![msg("!a", "@other:s", "hello")]));
    assert!(fx.iter().any(|e| matches!(e, AppEffect::ShowMessage { .. })));
    assert!(fx.iter().any(|e| matches!(e, AppEffect::Send(BKCommand::MarkAsRead(_, _)))));
    assert!(fx.iter().any(|e| matches!(e, AppEffect::ScrollDown)));
    assert!(fx.iter().any(|e| matches!(e, AppEffect::MoveRoomUp(r) if r == "!a")));
    assert_eq!(op.rooms.get(&"!a".to_string()).unwrap().messages.len(), 1);
}

#[test]
fn mention_by_someone_else_raises_a_notification() {
    let mut op = logged_in_op();
    op.username = Some("alice".to_string());
    op.rooms.insert(room("!a", "alpha"));
    let fx = op.handle_response(BKResponse::RoomMessages(vec![
        msg("!a", "@other:s", "hey alice, ping"),
        msg("!a", "@me:s", "alice talking to herself"),
        msg("!a", "@other:s", "no mention here"),
    ]));
    let notified: Vec<&AppEffect> =
        fx.iter().filter(|e| matches!(e, AppEffect::Notify(_))).collect();
    assert_eq!(notified.len(), 1);
    match notified[0] {
        AppEffect::Notify(m) => assert_eq!(m.body, "hey alice, ping"),
        _ => unreachable!(),
    }
}

#[test]
fn initial_messages_notify_nobody() {
    let mut op = logged_in_op();
    op.username = Some("alice".to_string());
    op.rooms.insert(room("!a", "alpha"));
    let fx = op.handle_response(BKResponse::RoomMessagesInit(vec![msg(
        "!a",
        "@other:s",
        "welcome alice",
    )]));
    assert!(!fx.iter().any(|e| matches!(e, AppEffect::Notify(_))));
    assert!(fx.iter().any(|e| matches!(e, AppEffect::Panel(RoomPanel::Room))));
}

#[test]
fn older_messages_go_in_front() {
    let mut op = logged_in_op();
    let mut r = room("!a", "alpha");
    r.messages.push(msg("!a", "@other:s", "newest"));
    op.rooms.insert(r);
    op.set_active_room_by_id(&"!a".to_string());
    let fx = op.handle_response(BKResponse::RoomMessagesTo(vec![
        msg("!a", "@other:s", "older-1"),
        msg("!a", "@other:s", "older-2"),
    ]));
    assert!(matches!(fx.last().unwrap(), AppEffect::LoadMoreDone));
    let stored = op.rooms.get(&"!a".to_string()).unwrap();
    assert_eq!(stored.messages[0].body, "older-1");
    assert_eq!(stored.messages[1].body, "older-2");
    assert_eq!(stored.messages[2].body, "newest");
}

#[test]
fn empty_older_page_only_restores_the_button() {
    let mut op = logged_in_op();
    let fx = op.handle_response(BKResponse::RoomMessagesTo(Vec::new()));
    assert_eq!(fx.len(), 1);
    assert!(matches!(fx[0], AppEffect::LoadMoreDone));
}

#[test]
fn send_message_goes_out_with_an_optimistic_copy() {
    let mut op = logged_in_op();
    op.rooms.insert(room("!a", "alpha"));
    op.set_active_room_by_id(&"!a".to_string());
    let out = op.send_message_at("hi there".to_string(), 777);
    let (m, cmd) = out.expect("a nonempty message is sent");
    assert_eq!(m.sender, "@me:s");
    assert_eq!(m.mtype, "m.text");
    assert_eq!(m.body, "hi there");
    assert_eq!(m.room, "!a");
    assert_eq!(m.date, 777);
    assert!(matches!(cmd, BKCommand::SendMsg(_)));
    assert_eq!(op.tmp_msgs.len(), 1);
    // the acknowledged copy replaces the optimistic one
    let out = op.add_room_message(&m, MsgPos::Bottom, None, false);
    assert!(matches!(out, AddedMessage::Shown { removed_tmp: true, .. }));
    assert!(op.tmp_msgs.is_empty());
}

#[test]
fn empty_message_is_not_sent() {
    let mut op = logged_in_op();
    assert!(op.send_message_at(String::new(), 0).is_none());
    assert!(op.tmp_msgs.is_empty());
}

#[test]
fn send_acknowledgement_syncs_again() {
    let mut op = logged_in_op();
    op.handle_response(BKResponse::Sync("s-1".to_string()));
    assert!(!op.syncing);
    let fx = op.handle_response(BKResponse::SendMsg);
    assert_eq!(fx.len(), 1);
    assert!(matches!(fx[0], AppEffect::Send(BKCommand::Sync)));
    assert!(op.syncing);
}

#[test]
fn register_rejects_mismatched_passwords() {
    let mut op = AppOp::new();
    let r = op.register(
        Some("alice".to_string()),
        Some("pw1".to_string()),
        Some("pw2".to_string()),
        None,
    );
    assert_eq!(r.unwrap_err(), "Passwords didn't match, try again");
    let ok = op.register(
        Some("alice".to_string()),
        Some("pw".to_string()),
        Some("pw".to_string()),
        Some("https://example.org".to_string()),
    );
    match ok.unwrap() {
        BKCommand::Register(u, p, s) => {
            assert_eq!(u, "alice");
            assert_eq!(p, "pw");
            assert_eq!(s, "https://example.org");
        }
        _ => panic!("matching passwords register"),
    }
}

#[test]
fn connect_needs_both_credentials() {
    let mut op = AppOp::new();
    assert!(op.connect(None, Some("pw".to_string()), None).is_none());
    assert_eq!(op.server_url, "https://matrix.org");
    let cmd = op.connect(
        Some("alice".to_string()),
        Some("pw".to_string()),
        Some("https://example.org".to_string()),
    );
    match cmd.unwrap() {
        BKCommand::Login(u, p, s) => {
            assert_eq!(u, "alice");
            assert_eq!(p, "pw");
            assert_eq!(s, "https://example.org");
        }
        _ => panic!("full credentials log in"),
    }
}

#[test]
fn login_forgets_the_cursor() {
    let mut op = AppOp::new();
    op.since = Some("s-9".to_string());
    op.login(Some("u".to_string()), Some("p".to_string()), None);
    assert_eq!(op.since, None);
    assert!(matches!(op.state, AppState::Loading));
}

#[test]
fn set_state_names_the_views() {
    let mut op = AppOp::new();
    assert_eq!(op.set_state(AppState::Chat), ("chat".to_string(), "normal".to_string()));
    assert_eq!(op.set_state(AppState::Directory), ("directory".to_string(), "back".to_string()));
    assert_eq!(op.set_state(AppState::Loading), ("loading".to_string(), "login".to_string()));
    assert_eq!(op.set_state(AppState::Login), ("login".to_string(), "login".to_string()));
}

#[test]
fn escape_leaves_the_open_room() {
    let mut op = logged_in_op();
    op.rooms.insert(room("!a", "alpha"));
    op.set_active_room_by_id(&"!a".to_string());
    assert!(op.escape());
    assert_eq!(op.active_room, None);
    let mut op2 = AppOp::new();
    assert!(!op2.escape());
}

#[test]
fn room_name_and_topic_changes_land_in_the_map() {
    let mut op = logged_in_op();
    op.rooms.insert(room("!a", "alpha"));
    op.set_active_room_by_id(&"!a".to_string());
    let fx = op.handle_response(BKResponse::RoomName("!a".to_string(), "renamed".to_string()));
    assert!(matches!(fx[0], AppEffect::RefreshActiveRoom));
    assert_eq!(op.rooms.get(&"!a".to_string()).unwrap().name, Some("renamed".to_string()));
    let fx = op.handle_response(BKResponse::RoomTopic("!a".to_string(), "the topic".to_string()));
    assert!(matches!(fx[0], AppEffect::RefreshActiveRoom));
    assert_eq!(op.rooms.get(&"!a".to_string()).unwrap().topic, Some("the topic".to_string()));
    let fx = op.handle_response(BKResponse::RoomName("!other".to_string(), "x".to_string()));
    assert!(fx.is_empty());
}

#[test]
fn member_events_fold_into_the_open_room() {
    let mut op = logged_in_op();
    op.rooms.insert(room("!a", "alpha"));
    op.set_active_room_by_id(&"!a".to_string());
    let join = Event {
        sender: "@bob:s".to_string(),
        room: "!a".to_string(),
        membership: Some("join".to_string()),
        displayname: Some("Bob".to_string()),
        avatar_url: Some("mxc://bob".to_string()),
    };
    match op.room_member_event(join) {
        MemberEvent::Joined { name, uid, show } => {
            assert_eq!(name, "Bob");
            assert_eq!(uid, "@bob:s");
            assert!(show);
        }
        _ => panic!("a join of the open room is folded in"),
    }
    assert_eq!(op.rooms.get(&"!a".to_string()).unwrap().members.len(), 1);
    let leave = Event {
        sender: "@bob:s".to_string(),
        room: "!a".to_string(),
        membership: Some("leave".to_string()),
        displayname: None,
        avatar_url: None,
    };
    assert!(matches!(op.room_member_event(leave), MemberEvent::Left));
    assert!(op.rooms.get(&"!a".to_string()).unwrap().members.is_empty());
    let elsewhere = Event {
        sender: "@bob:s".to_string(),
        room: "!b".to_string(),
        membership: Some("join".to_string()),
        displayname: None,
        avatar_url: None,
    };
    assert!(matches!(op.room_member_event(elsewhere), MemberEvent::Ignored));
    let banned = Event {
        sender: "@bob:s".to_string(),
        room: "!a".to_string(),
        membership: Some("ban".to_string()),
        displayname: None,
        avatar_url: None,
    };
    assert!(matches!(op.room_member_event(banned), MemberEvent::UnknownKind));
}

#[test]
fn member_filter_folds_case() {
    // this fails if the case folding handed its argument back unchanged
    let mut op = logged_in_op();
    let mut r = room("!a", "alpha");
    r.members.push(Member {
        alias: Some("Alice Cooper".to_string()),
        avatar: None,
        uid: "@alice:s".to_string(),
    });
    r.members.push(Member {
        alias: Some("Bob".to_string()),
        avatar: None,
        uid: "@bob:s".to_string(),
    });
    r.members.push(Member { alias: None, avatar: None, uid: "@carol:s".to_string() });
    op.rooms.insert(r);
    op.set_active_room_by_id(&"!a".to_string());
    let all = op.show_all_members(None).unwrap();
    assert_eq!(all.len(), 3);
    let hits = op.show_all_members(Some("aLICE".to_string())).unwrap();
    assert_eq!(hits.len(), 1);
    assert_eq!(hits[0].uid, "@alice:s");
}

#[test]
fn member_list_is_capped_by_the_limit() {
    let op = AppOp::new();
    let members: Vec<Member> = (0..60)
        .map(|i| Member { alias: None, avatar: None, uid: format!("@u{i}:s") })
        .collect();
    let (shown, remaining) = op.members_to_show(&members);
    assert_eq!(shown.len(), 50);
    assert_eq!(remaining, 10);
    let few: Vec<Member> = members.into_iter().take(3).collect();
    let (shown, remaining) = op.members_to_show(&few);
    assert_eq!(shown.len(), 3);
    assert_eq!(remaining, 0);
}

#[test]
fn notification_shows_room_name_and_bounded_body() {
    let mut op = logged_in_op();
    op.rooms.insert(room("!a", "alpha"));
    let long = "x".repeat(100);
    let (roomname, body) = op.notification_parts(&msg("!a", "@other:s", &long));
    assert_eq!(roomname, "alpha");
    assert_eq!(body, "x".repeat(80));
    let (roomname, body) = op.notification_parts(&msg("!unknown", "@other:s", "short"));
    assert_eq!(roomname, "!unknown");
    assert_eq!(body, "short");
}

#[test]
fn load_more_pages_through_local_history_first() {
    let mut op = logged_in_op();
    let mut r = room("!a", "alpha");
    for i in 0..50 {
        r.messages.push(msg("!a", "@other:s", &format!("m{i}")));
    }
    op.rooms.insert(r);
    op.set_active_room_by_id(&"!a".to_string());
    assert_eq!(op.shown_messages, 40);
    match op.load_more_messages() {
        LoadMore::Shown(cmds) => {
            assert_eq!(cmds.len(), 10);
            match &cmds[0] {
                InternalCommand::AddRoomMessage(m, MsgPos::Top, None, _) => {
                    assert_eq!(m.body, "m9");
                }
                _ => panic!("paging shows older messages at the top"),
            }
        }
        _ => panic!("hidden local history pages first"),
    }
    op.shown_messages = 50;
    match op.load_more_messages() {
        LoadMore::Fetch(BKCommand::GetMessageContext(m)) => assert_eq!(m.body, "m0"),
        _ => panic!("exhausted history asks the server for context"),
    }
}

#[test]
fn create_new_room_maps_the_preset() {
    let op = AppOp::new();
    match op.create_new_room(Some("den".to_string()), Some("public_chat".to_string())) {
        BKCommand::NewRoom(n, RoomType::Public) => assert_eq!(n, "den"),
        _ => panic!("the public preset makes a public room"),
    }
    assert!(matches!(
        op.create_new_room(Some("den".to_string()), Some("private_chat".to_string())),
        BKCommand::NewRoom(_, RoomType::Private)
    ));
    assert!(matches!(
        op.create_new_room(None, None),
        BKCommand::NewRoom(_, RoomType::Private)
    ));
}

#[test]
fn room_config_commands_only_what_changed() {
    let mut op = logged_in_op();
    let mut r = room("!a", "alpha");
    r.topic = Some("old topic".to_string());
    op.rooms.insert(r);
    op.set_active_room_by_id(&"!a".to_string());
    let cmds = op.change_room_config(
        Some("alpha".to_string()),
        Some("new topic".to_string()),
        Some("/tmp/pic.png".to_string()),
    );
    assert_eq!(cmds.len(), 2);
    match &cmds[0] {
        BKCommand::SetRoomTopic(id, t) => {
            assert_eq!(id, "!a");
            assert_eq!(t, "new topic");
        }
        _ => panic!("an unchanged name sends nothing, a changed topic does"),
    }
    assert!(matches!(&cmds[1], BKCommand::SetRoomAvatar(_, _)));
}

#[test]
fn leaving_the_open_room_drops_it() {
    let mut op = logged_in_op();
    op.rooms.insert(room("!a", "alpha"));
    op.set_active_room_by_id(&"!a".to_string());
    assert_eq!(op.leave_room_name(), Some("alpha".to_string()));
    match op.really_leave_active_room() {
        BKCommand::LeaveRoom(id) => assert_eq!(id, "!a"),
        _ => panic!("leaving tells the server"),
    }
    assert_eq!(op.active_room, None);
    assert!(!op.rooms.contains_key(&"!a".to_string()));
}

#[test]
fn new_room_response_opens_the_room() {
    let mut op = logged_in_op();
    let fx = op.handle_response(BKResponse::NewRoom(room("!new", "fresh")));
    assert!(op.rooms.contains_key(&"!new".to_string()));
    assert_eq!(op.active_room, Some("!new".to_string()));
    assert!(fx.iter().any(|e| matches!(e, AppEffect::Send(BKCommand::SetRoom(_)))));
}

#[test]
fn error_responses_show_their_messages() {
    let mut op = logged_in_op();
    let fx = op.handle_response(BKResponse::NewRoomError(Error::Network("x".to_string())));
    assert_eq!(fx.len(), 2);
    assert!(
        matches!(&fx[0], AppEffect::ShowError(m) if m == "Can't create the room, try again")
    );
    assert!(matches!(fx[1], AppEffect::Panel(RoomPanel::NoRoom)));
    let fx = op.handle_response(BKResponse::LoginError(Error::Network("x".to_string())));
    assert!(matches!(&fx[0], AppEffect::ShowError(m) if m == "Can't login, try again"));
    assert!(matches!(op.state, AppState::Login));
    let fx = op.handle_response(BKResponse::SendMsgError(Error::Network("x".to_string())));
    assert!(matches!(&fx[0], AppEffect::ShowError(m) if m == "Error sending message"));
}

#[test]
fn directory_results_and_protocols_pass_through() {
    let mut op = logged_in_op();
    let fx = op.handle_response(BKResponse::DirectorySearch(vec![
        room("!d1", "one"),
        room("!d2", "two"),
    ]));
    assert_eq!(fx.len(), 2);
    assert!(matches!(&fx[0], AppEffect::AddDirectoryRoom(r) if r.id == "!d1"));
    assert!(matches!(&fx[1], AppEffect::AddDirectoryRoom(r) if r.id == "!d2"));
    let fx = op.handle_response(BKResponse::SearchEnd);
    assert!(matches!(fx[0], AppEffect::SearchFinished));
    let fx = op.handle_response(BKResponse::DirectoryProtocols(Vec::new()));
    assert!(matches!(&fx[0], AppEffect::SetProtocols(v) if v.is_empty()));
}

#[test]
fn join_response_forces_a_reload() {
    let mut op = logged_in_op();
    let fx = op.handle_response(BKResponse::JoinRoom);
    assert_eq!(fx.len(), 1);
    assert!(matches!(fx[0], AppEffect::Send(BKCommand::SyncForced)));
    assert!(matches!(op.state, AppState::Loading));
}

#[test]
fn attached_file_is_shown_optimistically() {
    let mut op = logged_in_op();
    let fx = op.handle_response(BKResponse::AttachedFile(msg("!a", "@me:s", "file")));
    assert_eq!(op.tmp_msgs.len(), 1);
    assert!(matches!(fx[0], AppEffect::ScrollDown));
}

#[test]
fn media_response_opens_the_file() {
    let mut op = logged_in_op();
    let fx = op.handle_response(BKResponse::Media("/tmp/video.mp4".to_string()));
    assert!(matches!(&fx[0], AppEffect::OpenMedia(p) if p == "/tmp/video.mp4"));
}

#[test]
fn internal_commands_drive_the_view() {
    let mut op = logged_in_op();
    op.rooms.insert(room("!a", "alpha"));
    let fx = op.handle_internal(InternalCommand::SetPanel(RoomPanel::Loading));
    assert!(matches!(fx[0], AppEffect::Panel(RoomPanel::Loading)));
    let fx = op.handle_internal(InternalCommand::SelectRoom(room("!a", "alpha")));
    assert_eq!(op.active_room, Some("!a".to_string()));
    assert!(fx.iter().any(|e| matches!(e, AppEffect::Send(BKCommand::SetRoom(_)))));
    let fx = op.handle_internal(InternalCommand::NotifyClicked(msg("!a", "@x:s", "hey")));
    assert!(matches!(fx[0], AppEffect::PresentWindow));
}

#[test]
fn startup_restore_brings_the_snapshot_back() {
    let mut op = AppOp::new();
    let to_open = op.init_restore(
        vec![room("!a", "alpha")],
        "s-42".to_string(),
        "alice".to_string(),
        "@alice:s".to_string(),
    );
    assert_eq!(to_open, None);
    assert_eq!(op.since, Some("s-42".to_string()));
    assert_eq!(op.username, Some("alice".to_string()));
    assert_eq!(op.uid, Some("@alice:s".to_string()));
    assert!(op.rooms.contains_key(&"!a".to_string()));
}

#[test]
fn room_panel_names_the_views() {
    let op = AppOp::new();
    assert_eq!(op.room_panel(RoomPanel::Room), ("room_view".to_string(), true));
    assert_eq!(op.room_panel(RoomPanel::Loading), ("loading".to_string(), true));
    assert_eq!(op.room_panel(RoomPanel::NoRoom), ("noroom".to_string(), false));
}

#[test]
fn directory_search_command_carries_the_query() {
    let op = AppOp::new();
    match op.search_rooms(Some("rust rooms".to_string()), "proto-1".to_string(), true) {
        BKCommand::DirectorySearch(q, p, more) => {
            assert_eq!(q, "rust rooms");
            assert_eq!(p, "proto-1");
            assert!(more);
        }
        _ => panic!("a directory search resolves into its command"),
    }
}

#[test]
fn startup_with_stored_credentials_connects() {
    let mut op = AppOp::new();
    let (to_open, login) = op.init(
        Some((vec![room("!a", "alpha")], "s-1".to_string(), "alice".to_string(), "@a:s".to_string())),
        Some(("alice".to_string(), "pw".to_string(), "https://example.org".to_string())),
    );
    assert_eq!(to_open, None);
    match login.unwrap() {
        BKCommand::Login(u, p, s) => {
            assert_eq!(u, "alice");
            assert_eq!(p, "pw");
            assert_eq!(s, "https://example.org");
        }
        _ => panic!("stored credentials log in at startup"),
    }
    assert_eq!(op.since, Some("s-1".to_string()));
}

#[test]
fn startup_without_credentials_shows_the_login_view() {
    let mut op = AppOp::new();
    let (to_open, login) = op.init(None, None);
    assert_eq!(to_open, None);
    assert!(login.is_none());
    assert!(matches!(op.state, AppState::Login));
}

#[test]
fn member_display_name_falls_back_to_the_id() {
    let with_alias = Member {
        alias: Some("Amy".to_string()),
        avatar: None,
        uid: "@amy:s".to_string(),
    };
    assert_eq!(with_alias.get_alias(), "Amy");
    let without = Member { alias: None, avatar: None, uid: "@amy:s".to_string() };
    assert_eq!(without.get_alias(), "@amy:s");
}

#[test]
fn attaching_a_file_targets_the_open_room() {
    let mut op = logged_in_op();
    op.rooms.insert(room("!a", "alpha"));
    op.set_active_room_by_id(&"!a".to_string());
    match op.attach_file("/tmp/pic.png".to_string()) {
        BKCommand::AttachFile(r, p) => {
            assert_eq!(r, "!a");
            assert_eq!(p, "/tmp/pic.png");
        }
        _ => panic!("a picked file becomes the attach command"),
    }
}

#[test]
fn message_batches_land_in_every_room_in_order() {
    let mut op = logged_in_op();
    op.rooms.insert(room("!a", "alpha"));
    op.rooms.insert(room("!b", "beta"));
    op.handle_response(BKResponse::RoomMessages(vec![
        msg("!a", "@x:s", "a1"),
        msg("!b", "@x:s", "b1"),
        msg("!a", "@x:s", "a2"),
        msg("!missing", "@x:s", "dropped"),
    ]));
    let a = op.rooms.get(&"!a".to_string()).unwrap();
    assert_eq!(a.messages.len(), 2);
    assert_eq!(a.messages[0].body, "a1");
    assert_eq!(a.messages[1].body, "a2");
    let b = op.rooms.get(&"!b".to_string()).unwrap();
    assert_eq!(b.messages.len(), 1);
    assert_eq!(b.messages[0].body, "b1");
    assert!(!op.rooms.contains_key(&"!missing".to_string()));
}
