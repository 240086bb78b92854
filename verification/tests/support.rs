//! The supporting pieces: the room map, the string helpers, and the
//! credential-item logic.

use fractal::credentials::Error;
use fractal::credentials::extract_credentials;
use fractal::credentials::find_attr;
use fractal::credentials::matching_label_indices;
use fractal::roomlist::RoomList;
use fractal::roomlist::find_member;
use fractal::strutil::alias_matches;
use fractal::strutil::contains_sub;
use fractal::strutil::truncate_str;
use fractal::types::Member;
use fractal::types::Message;
use fractal::types::Room;

fn plain_room(id: &str) -> Room {
    Room {
        id: id.to_string(),
        name: None,
        topic: None,
        avatar: None,
        notifications: 0,
        messages: Vec::new(),
        members: Vec::new(),
    }
}

#[test]
fn room_map_inserts_and_replaces_by_id() {
    let mut rl = RoomList::new();
    rl.insert(plain_room("!a"));
    rl.insert(plain_room("!b"));
    assert_eq!(rl.len(), 2);
    let mut again = plain_room("!a");
    again.name = Some("renamed".to_string());
    rl.insert(again);
    assert_eq!(rl.len(), 2);
    assert_eq!(rl.get(&"!a".to_string()).unwrap().name, Some("renamed".to_string()));
    assert!(rl.get(&"!c".to_string()).is_none());
}

#[test]
fn room_map_removes_by_id() {
    let mut rl = RoomList::new();
    rl.insert(plain_room("!a"));
    rl.insert(plain_room("!b"));
    rl.remove(&"!a".to_string());
    assert!(!rl.contains_key(&"!a".to_string()));
    assert!(rl.contains_key(&"!b".to_string()));
    rl.remove(&"!missing".to_string());
    assert_eq!(rl.len(), 1);
}

#[test]
fn room_map_field_updates_hit_one_room() {
    let mut rl = RoomList::new();
    rl.insert(plain_room("!a"));
    rl.insert(plain_room("!b"));
    rl.set_name(&"!a".to_string(), Some("alpha".to_string()));
    rl.set_topic(&"!a".to_string(), Some("topic".to_string()));
    rl.set_avatar(&"!a".to_string(), Some("mxc://a".to_string()));
    let a = rl.get(&"!a".to_string()).unwrap();
    assert_eq!(a.name, Some("alpha".to_string()));
    assert_eq!(a.topic, Some("topic".to_string()));
    assert_eq!(a.avatar, Some("mxc://a".to_string()));
    let b = rl.get(&"!b".to_string()).unwrap();
    assert_eq!(b.name, None);
    assert_eq!(b.topic, None);
}

#[test]
fn notification_count_saturates_and_resets() {
    let mut rl = RoomList::new();
    let mut r = plain_room("!a");
    r.notifications = i32::MAX - 1;
    rl.insert(r);
    rl.bump_notifications(&"!a".to_string());
    assert_eq!(rl.get(&"!a".to_string()).unwrap().notifications, i32::MAX);
    rl.bump_notifications(&"!a".to_string());
    assert_eq!(rl.get(&"!a".to_string()).unwrap().notifications, i32::MAX);
    rl.reset_notifications(&"!a".to_string());
    assert_eq!(rl.get(&"!a".to_string()).unwrap().notifications, 0);
}

#[test]
fn room_map_message_edits() {
    let mut rl = RoomList::new();
    rl.insert(plain_room("!a"));
    let m1 = Message {
        sender: "@x:s".to_string(),
        mtype: "m.text".to_string(),
        body: "first".to_string(),
        room: "!a".to_string(),
        date: 1,
        thumb: None,
        url: None,
        id: None,
    };
    let mut m0 = m1.clone();
    m0.body = "zeroth".to_string();
    rl.push_message(&"!a".to_string(), m1);
    rl.insert_message_front(&"!a".to_string(), m0);
    let msgs = &rl.get(&"!a".to_string()).unwrap().messages;
    assert_eq!(msgs[0].body, "zeroth");
    assert_eq!(msgs[1].body, "first");
}

#[test]
fn member_insert_replaces_and_remove_drops() {
    let mut rl = RoomList::new();
    rl.insert(plain_room("!a"));
    let bob = Member { alias: Some("Bob".to_string()), avatar: None, uid: "@bob:s".to_string() };
    rl.insert_member(&"!a".to_string(), bob.clone());
    let renamed = Member {
        alias: Some("Bobby".to_string()),
        avatar: None,
        uid: "@bob:s".to_string(),
    };
    rl.insert_member(&"!a".to_string(), renamed);
    let members = &rl.get(&"!a".to_string()).unwrap().members;
    assert_eq!(members.len(), 1);
    assert_eq!(members[0].alias, Some("Bobby".to_string()));
    rl.remove_member(&"!a".to_string(), &"@bob:s".to_string());
    assert!(rl.get(&"!a".to_string()).unwrap().members.is_empty());
}

#[test]
fn find_member_picks_the_first_match() {
    let v = vec![
        Member { alias: None, avatar: None, uid: "@a:s".to_string() },
        Member { alias: Some("two".to_string()), avatar: None, uid: "@b:s".to_string() },
        Member { alias: Some("three".to_string()), avatar: None, uid: "@b:s".to_string() },
    ];
    assert_eq!(find_member(&v, &"@b:s".to_string()), Some(1));
    assert_eq!(find_member(&v, &"@z:s".to_string()), None);
}

#[test]
fn substring_search_over_bytes() {
    assert!(contains_sub("hello world", "lo wo"));
    assert!(contains_sub("hello", "hello"));
    assert!(contains_sub("hello", ""));
    assert!(!contains_sub("hello", "hello!"));
    assert!(!contains_sub("", "x"));
    assert!(!contains_sub("abc", "ABC"));
    assert!(contains_sub("naïve café", "ïve"));
}

#[test]
fn alias_match_is_case_insensitive() {
    assert!(alias_matches("Alice Cooper", "alice"));
    assert!(alias_matches("alice", "ALICE"));
    assert!(alias_matches("ÉLODIE", "élo"));
    assert!(!alias_matches("Alice", "bob"));
}

#[test]
fn truncation_keeps_whole_short_text() {
    assert_eq!(truncate_str("short", 80), "short");
    assert_eq!(truncate_str("", 80), "");
}

#[test]
fn truncation_cuts_at_eighty_bytes() {
    let long = "a".repeat(100);
    assert_eq!(truncate_str(&long, 80), "a".repeat(80));
}

#[test]
fn truncation_respects_character_boundaries() {
    // 79 single-byte characters, then a two-byte one spanning bytes 79-80:
    // the cut falls back to the boundary before it
    let mut s = "a".repeat(79);
    s.push('é');
    let cut = truncate_str(&s, 80);
    assert_eq!(cut, "a".repeat(79));
}

#[test]
fn credential_attributes_are_read_by_key() {
    let attrs = vec![
        ("username".to_string(), "alice".to_string()),
        ("server".to_string(), "https://example.org".to_string()),
    ];
    assert_eq!(find_attr(&attrs, &"username".to_string()), Some("alice".to_string()));
    assert_eq!(find_attr(&attrs, &"missing".to_string()), None);
    let creds = extract_credentials(&attrs, "pw".to_string()).unwrap();
    assert_eq!(creds, ("alice".to_string(), "pw".to_string(), "https://example.org".to_string()));
}

#[test]
fn incomplete_credential_item_is_rejected() {
    let attrs = vec![("username".to_string(), "alice".to_string())];
    assert_eq!(
        extract_credentials(&attrs, "pw".to_string()),
        Err(Error::SecretServiceError)
    );
    let empty: Vec<(String, String)> = Vec::new();
    assert_eq!(
        extract_credentials(&empty, "pw".to_string()),
        Err(Error::SecretServiceError)
    );
}

#[test]
fn label_chooser_picks_exactly_the_matching_items() {
    let labels = vec![
        "other".to_string(),
        "fractal".to_string(),
        "".to_string(),
        "fractal".to_string(),
    ];
    assert_eq!(matching_label_indices(&labels, &"fractal".to_string()), vec![1, 3]);
    assert_eq!(matching_label_indices(&labels, &"missing".to_string()), Vec::<usize>::new());
    let empty: Vec<String> = Vec::new();
    assert_eq!(matching_label_indices(&empty, &"fractal".to_string()), Vec::<usize>::new());
}
