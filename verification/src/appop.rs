//! The controller state machine: the state the front end keeps between
//! responses, and what each user intent or engine response does to it.
//!
//! Every method returns the commands and user-interface effects the front
//! end must carry out; the front end does only that and the input/output
//! around it.

use vstd::prelude::*;

use crate::backend::BKCommand;
use crate::backend::BKResponse;
use crate::roomlist::RoomList;
use crate::types::Event;
use crate::types::Member;
use crate::types::Message;
use crate::types::Protocol;
use crate::types::Room;
use crate::types::RoomType;

verus! {

/// How many messages of a room are shown when it is opened, and how many
/// more each load brings.
pub const INITIAL_MESSAGES: usize = 40;

/// Where a message widget goes in the message list.
#[derive(Clone, Copy, Debug, PartialEq, Eq, Structural)]
pub enum MsgPos {
    Top,
    Bottom,
}

/// Which view the room panel shows.
#[derive(Clone, Copy, Debug, PartialEq, Eq, Structural)]
pub enum RoomPanel {
    Room,
    NoRoom,
    Loading,
}

/// Which top-level view the application shows.
#[derive(Clone, Copy, Debug, PartialEq, Eq, Structural)]
pub enum AppState {
    Login,
    Chat,
    Directory,
    Loading,
}

/// One command the controller queues for itself.
#[derive(Debug, PartialEq)]
pub enum InternalCommand {
    AddRoomMessage(Message, MsgPos, Option<Message>, bool),
    SetPanel(RoomPanel),
    NotifyClicked(Message),
    SelectRoom(Room),
}

/// The controller state. The front end owns one value of this under a
/// lock and reads it to draw; all changes go through the methods here.
pub struct AppOp {
    /// A sync is in flight; a second plain sync is suppressed until the
    /// response arrives. Caller discipline, consulted by `sync`.
    pub syncing: bool,
    /// Messages shown optimistically before the server acknowledged them.
    pub tmp_msgs: Vec<Message>,
    pub shown_messages: usize,
    pub username: Option<String>,
    pub uid: Option<String>,
    pub server_url: String,
    pub autoscroll: bool,
    pub active_room: Option<String>,
    pub rooms: RoomList,
    pub state: AppState,
    /// The last sync cursor the controller saw; changes only when a sync
    /// success response arrives.
    pub since: Option<String>,
    pub member_limit: usize,
    pub logged_in: bool,
}

/// The plain sync decision: a sync command goes out exactly when none is
/// in flight and the session is logged in.
pub open spec fn sync_command(s: AppOp) -> Option<BKCommand> {
    if !s.syncing && s.logged_in {
        Some(BKCommand::Sync)
    } else {
        None
    }
}

/// The forced sync decision: it always goes out, whatever is in flight.
pub open spec fn forced_sync_command(s: AppOp) -> Option<BKCommand> {
    Some(BKCommand::SyncForced)
}

/// A forced sync issued while a plain sync is in flight still executes,
/// while a second plain sync is suppressed before it reaches the engine.
pub proof fn lemma_forced_sync_overrides_suppression(s: AppOp)
    requires
        s.syncing,
    ensures
        sync_command(s) is None,
        forced_sync_command(s) == Some(BKCommand::SyncForced),
{
}

impl AppOp {
    pub open spec fn wf(self) -> bool {
        self.rooms.wf()
    }

    /// The controller before anything happened: logged out, nothing
    /// active, default server.
    pub fn new() -> (r: AppOp)
        ensures
            r.wf(),
            !r.syncing,
            r.tmp_msgs@ == Seq::<Message>::empty(),
            r.shown_messages == 0,
            r.username is None,
            r.uid is None,
            r.server_url@ == "https://matrix.org"@,
            r.autoscroll,
            r.active_room is None,
            r.rooms@ == Seq::<Room>::empty(),
            r.state is Login,
            r.since is None,
            r.member_limit == 50,
            !r.logged_in,
    {
        AppOp {
            syncing: false,
            tmp_msgs: Vec::new(),
            shown_messages: 0,
            username: None,
            uid: None,
            server_url: "https://matrix.org".to_owned(),
            autoscroll: true,
            active_room: None,
            rooms: RoomList::new(),
            state: AppState::Login,
            since: None,
            member_limit: 50,
            logged_in: false,
        }
    }

    /// Switch the top-level view, returning the names of the stack child
    /// and the header bar the front end must show for it.
    pub fn set_state(&mut self, state: AppState) -> (r: (String, String))
        ensures
            *final(self) == (AppOp { state, ..*old(self) }),
            r.0@ == (match state {
                AppState::Login => "login"@,
                AppState::Chat => "chat"@,
                AppState::Directory => "directory"@,
                AppState::Loading => "loading"@,
            }),
            r.1@ == (match state {
                AppState::Login => "login"@,
                AppState::Directory => "back"@,
                AppState::Loading => "login"@,
                AppState::Chat => "normal"@,
            }),
    {
        self.state = state;
        let widget_name: String = match self.state {
            AppState::Login => "login".to_owned(),
            AppState::Chat => "chat".to_owned(),
            AppState::Directory => "directory".to_owned(),
            AppState::Loading => "loading".to_owned(),
        };
        let bar_name: String = match self.state {
            AppState::Login => "login".to_owned(),
            AppState::Directory => "back".to_owned(),
            AppState::Loading => "login".to_owned(),
            AppState::Chat => "normal".to_owned(),
        };
        (widget_name, bar_name)
    }

    /// Leave the active room view (the escape key in the chat view):
    /// clears the active room and the optimistic messages; tells whether
    /// the front end must show the empty room panel.
    pub fn escape(&mut self) -> (cleared: bool)
        ensures
            cleared == old(self).state is Chat,
            cleared ==> *final(self) == (AppOp {
                active_room: None,
                tmp_msgs: final(self).tmp_msgs,
                ..*old(self)
            }) && final(self).tmp_msgs@ == Seq::<Message>::empty(),
            !cleared ==> *final(self) == *old(self),
    {
        match self.state {
            AppState::Chat => {
                self.active_room = None;
                self.tmp_msgs.clear();
                true
            },
            _ => false,
        }
    }

    /// Start a login with what the login form held: pins the server (the
    /// default one when the form left it empty), forgets the sync cursor,
    /// switches to the loading view, and yields the login command — which
    /// needs both a user name and a password.
    pub fn connect(
        &mut self,
        username: Option<String>,
        password: Option<String>,
        server: Option<String>,
    ) -> (r: Option<BKCommand>)
        ensures
            final(self).server_url@ == (match server {
                Some(s) => s@,
                None => "https://matrix.org"@,
            }),
            *final(self) == (AppOp { server_url: final(self).server_url, ..*old(self) }),
            match r {
                Some(c) => username is Some && password is Some && c == (BKCommand::Login(
                    username.unwrap(),
                    password.unwrap(),
                    final(self).server_url,
                )),
                None => username is None || password is None,
            },
    {
        self.server_url = match server {
            Some(s) => s,
            None => "https://matrix.org".to_owned(),
        };
        let user = match username {
            Some(u) => u,
            None => {
                return None;
            },
        };
        let pass = match password {
            Some(p) => p,
            None => {
                return None;
            },
        };
        Some(BKCommand::Login(user, pass, self.server_url.clone()))
    }

    /// The login button: forget the cursor, show the loading view, and
    /// connect with the form's entries.
    pub fn login(
        &mut self,
        username: Option<String>,
        password: Option<String>,
        server: Option<String>,
    ) -> (r: Option<BKCommand>)
        ensures
            final(self).state is Loading,
            final(self).since is None,
            final(self).server_url@ == (match server {
                Some(s) => s@,
                None => "https://matrix.org"@,
            }),
            *final(self) == (AppOp {
                state: AppState::Loading,
                since: None,
                server_url: final(self).server_url,
                ..*old(self)
            }),
            match r {
                Some(c) => username is Some && password is Some && c == (BKCommand::Login(
                    username.unwrap(),
                    password.unwrap(),
                    final(self).server_url,
                )),
                None => username is None || password is None,
            },
    {
        let _ = self.set_state(AppState::Loading);
        self.since = None;
        self.connect(username, password, server)
    }

    /// The registration form: both password entries must agree; on
    /// mismatch nothing changes and the message to show comes back as the
    /// error.
    pub fn register(
        &mut self,
        username: Option<String>,
        password: Option<String>,
        passconf: Option<String>,
        server: Option<String>,
    ) -> (r: Result<BKCommand, String>)
        ensures
            match r {
                Result::Err(e) => {
                    &&& *final(self) == *old(self)
                    &&& e@ == "Passwords didn't match, try again"@
                    &&& opt_text(password) != opt_text(passconf)
                },
                Result::Ok(c) => {
                    &&& opt_text(password) == opt_text(passconf)
                    &&& final(self).server_url@ == (match server {
                        Some(s) => s@,
                        None => "https://matrix.org"@,
                    })
                    &&& *final(self) == (AppOp {
                        server_url: final(self).server_url,
                        ..*old(self)
                    })
                    &&& c matches BKCommand::Register(u, p, srv) && u@ == opt_text(username) && p@
                        == opt_text(password) && srv@ == final(self).server_url@
                },
            },
    {
        let user = match username {
            Some(s) => s,
            None => String::new(),
        };
        let pass = match password {
            Some(s) => s,
            None => String::new(),
        };
        let conf = match passconf {
            Some(s) => s,
            None => String::new(),
        };
        if !pass.eq(&conf) {
            return Err("Passwords didn't match, try again".to_owned());
        }
        self.server_url = match server {
            Some(s) => s,
            None => "https://matrix.org".to_owned(),
        };
        Ok(BKCommand::Register(user, pass, self.server_url.clone()))
    }

    /// A guest session on the given server (the default one when none is
    /// given).
    pub fn connect_guest(&mut self, server: Option<String>) -> (r: BKCommand)
        ensures
            final(self).server_url@ == (match server {
                Some(s) => s@,
                None => "https://matrix.org"@,
            }),
            *final(self) == (AppOp { server_url: final(self).server_url, ..*old(self) }),
            r matches BKCommand::Guest(s) && s@ == final(self).server_url@,
    {
        self.server_url = match server {
            Some(s) => s,
            None => "https://matrix.org".to_owned(),
        };
        BKCommand::Guest(self.server_url.clone())
    }

    /// Ask the engine for the logged-in user's name and avatar.
    pub fn get_username(&self) -> (r: (BKCommand, BKCommand))
        ensures
            r.0 is GetUsername,
            r.1 is GetAvatar,
    {
        (BKCommand::GetUsername, BKCommand::GetAvatar)
    }

    pub fn set_username(&mut self, username: Option<String>)
        ensures
            *final(self) == (AppOp { username, ..*old(self) }),
    {
        self.username = username;
    }

    pub fn set_uid(&mut self, uid: Option<String>)
        ensures
            *final(self) == (AppOp { uid, ..*old(self) }),
    {
        self.uid = uid;
    }

    /// The periodic sync tick: a plain sync goes out exactly when none is
    /// in flight and the session is logged in, and marks itself in
    /// flight. An in-flight sync suppresses the new one.
    pub fn sync(&mut self) -> (r: Option<BKCommand>)
        ensures
            r == sync_command(*old(self)),
            r is Some ==> *final(self) == (AppOp { syncing: true, ..*old(self) }),
            r is None ==> *final(self) == *old(self),
    {
        if !self.syncing && self.logged_in {
            self.syncing = true;
            Some(BKCommand::Sync)
        } else {
            None
        }
    }

    /// A sync response arrived: the in-flight mark clears and the cursor
    /// takes the reported position. This is the only method that moves
    /// `since` to a new value.
    pub fn synced(&mut self, since: Option<String>)
        ensures
            *final(self) == (AppOp { syncing: false, since, ..*old(self) }),
    {
        self.syncing = false;
        self.since = since;
    }

    /// Reload the room view: show the loading view and force a sync,
    /// whatever is in flight.
    pub fn reload_rooms(&mut self) -> (r: BKCommand)
        ensures
            r == forced_sync_command(*old(self)).unwrap(),
            r is SyncForced,
            *final(self) == (AppOp { state: AppState::Loading, ..*old(self) }),
    {
        let _ = self.set_state(AppState::Loading);
        BKCommand::SyncForced
    }

    /// Tear the engine down (window closed).
    pub fn disconnect(&self) -> (r: BKCommand)
        ensures
            r is ShutDown,
    {
        BKCommand::ShutDown
    }

    /// Log out of the session (the stored password is the front end's to
    /// delete).
    pub fn logout(&self) -> (r: BKCommand)
        ensures
            r is Logout,
    {
        BKCommand::Logout
    }

    /// Tell the server a message was read.
    pub fn mark_as_read(&self, msg: &Message) -> (r: BKCommand)
        ensures
            r matches BKCommand::MarkAsRead(room, ev) && room@ == msg.room@ && ev@ == (
            match msg.id {
                Some(id) => id@,
                None => Seq::<char>::empty(),
            }),
    {
        let evid = match &msg.id {
            Some(id) => id.clone(),
            None => String::new(),
        };
        BKCommand::MarkAsRead(msg.room.clone(), evid)
    }

    /// What the on-disk room snapshot stores beside the rooms: cursor,
    /// user name and user id, each empty when unknown.
    pub fn cache_data(&self) -> (r: (String, String, String))
        ensures
            r.0@ == opt_text(self.since),
            r.1@ == opt_text(self.username),
            r.2@ == opt_text(self.uid),
    {
        let since = match &self.since {
            Some(s) => s.clone(),
            None => String::new(),
        };
        let username = match &self.username {
            Some(s) => s.clone(),
            None => String::new(),
        };
        let uid = match &self.uid {
            Some(s) => s.clone(),
            None => String::new(),
        };
        (since, username, uid)
    }

    /// Attach a picked file to the open room.
    pub fn attach_file(&self, path: String) -> (r: BKCommand)
        ensures
            r matches BKCommand::AttachFile(room, p) && room@ == opt_text(self.active_room) && p
                == path,
    {
        let room = match &self.active_room {
            Some(s) => s.clone(),
            None => String::new(),
        };
        BKCommand::AttachFile(room, path)
    }

    /// Search the active room (or none) for a term.
    pub fn search(&self, term: Option<String>) -> (r: BKCommand)
        ensures
            r matches BKCommand::Search(room, t) && room@ == opt_text(self.active_room) && t
                == term,
    {
        let room = match &self.active_room {
            Some(s) => s.clone(),
            None => String::new(),
        };
        BKCommand::Search(room, term)
    }

    /// Switch the room panel, returning the name of the stack child the
    /// front end must show and whether the room-details pane stays
    /// visible (it hides with the empty panel).
    pub fn room_panel(&self, t: RoomPanel) -> (r: (String, bool))
        ensures
            r.0@ == (match t {
                RoomPanel::Loading => "loading"@,
                RoomPanel::Room => "room_view"@,
                RoomPanel::NoRoom => "noroom"@,
            }),
            r.1 == !(t is NoRoom),
    {
        let name: String = match t {
            RoomPanel::Loading => "loading".to_owned(),
            RoomPanel::Room => "room_view".to_owned(),
            RoomPanel::NoRoom => "noroom".to_owned(),
        };
        let show_details = match t {
            RoomPanel::NoRoom => false,
            _ => true,
        };
        (name, show_details)
    }

    /// Search the directory: the query text (empty when none was given),
    /// the picked protocol, and whether this asks for the next page.
    pub fn search_rooms(&self, query: Option<String>, protocol: String, more: bool) -> (r:
        BKCommand)
        ensures
            r matches BKCommand::DirectorySearch(q, p, m) && q@ == opt_text(query) && p@
                == protocol@ && m == more,
    {
        let q = match query {
            Some(s) => s,
            None => String::new(),
        };
        BKCommand::DirectorySearch(q, protocol, more)
    }

    /// Ask the server for the directory protocols.
    pub fn init_protocols(&self) -> (r: BKCommand)
        ensures
            r is DirectoryProtocols,
    {
        BKCommand::DirectoryProtocols
    }
}

/// The text of an optional string: its characters when present, nothing
/// when absent (a missing entry reads as the empty text).
pub open spec fn opt_text(o: Option<String>) -> Seq<char> {
    match o {
        Some(s) => s@,
        None => Seq::<char>::empty(),
    }
}

/// The characters of an optional string, kept optional.
pub open spec fn opt_view(o: Option<String>) -> Option<Seq<char>> {
    match o {
        Some(s) => Some(s@),
        None => None,
    }
}

/// Whether two optional strings hold the same text (or are both absent).
pub fn opt_str_eq(a: &Option<String>, b: &Option<String>) -> (r: bool)
    ensures
        r == (opt_view(*a) == opt_view(*b)),
{
    match (a, b) {
        (Some(x), Some(y)) => x.eq(y),
        (None, None) => true,
        _ => false,
    }
}

/// Index of the first message with the given id, or the length of the
/// sequence when no message has it.
pub open spec fn first_msg_idx(s: Seq<Message>, id: Option<Seq<char>>) -> int
    decreases s.len(),
{
    if s.len() == 0 {
        0
    } else if opt_view(s[0].id) == id {
        0
    } else {
        1 + first_msg_idx(s.drop_first(), id)
    }
}

/// A scan that found no match before `i`, and a match at `i` unless `i` is
/// the length, has found the first match.
pub proof fn lemma_first_msg_idx(s: Seq<Message>, id: Option<Seq<char>>, i: int)
    requires
        0 <= i <= s.len(),
        forall|j: int| 0 <= j < i ==> opt_view(s[j].id) != id,
        i < s.len() ==> opt_view(s[i].id) == id,
    ensures
        first_msg_idx(s, id) == i,
    decreases s.len(),
{
    if s.len() > 0 && opt_view(s[0].id) != id {
        assert(i > 0);
        lemma_first_msg_idx(s.drop_first(), id, i - 1);
    }
}

/// Index of the first message with the given id, if any.
pub fn find_message(v: &Vec<Message>, id: &Option<String>) -> (r: Option<usize>)
    ensures
        match r {
            Some(i) => i < v@.len() && opt_view(v@[i as int].id) == opt_view(*id) && first_msg_idx(
                v@,
                opt_view(*id),
            ) == i,
            None => first_msg_idx(v@, opt_view(*id)) == v@.len(),
        },
{
    let n = v.len();
    let mut i: usize = 0;
    while i < n
        invariant
            n == v@.len(),
            i <= n,
            forall|j: int| 0 <= j < i ==> opt_view(v@[j].id) != opt_view(*id),
        decreases n - i,
    {
        if opt_str_eq(&v[i].id, id) {
            proof {
                lemma_first_msg_idx(v@, opt_view(*id), i as int);
            }
            return Some(i);
        }
        i = i + 1;
    }
    proof {
        lemma_first_msg_idx(v@, opt_view(*id), n as int);
    }
    None
}

/// `a` is an optimistic copy of `b`: same sender, kind, room and text.
pub open spec fn same_tmp_msg(a: Message, b: Message) -> bool {
    &&& a.sender@ == b.sender@
    &&& a.mtype@ == b.mtype@
    &&& a.room@ == b.room@
    &&& a.body@ == b.body@
}

/// Index of the first optimistic copy of `m`, or the length of the
/// sequence when there is none.
pub open spec fn first_tmp_idx(s: Seq<Message>, m: Message) -> int
    decreases s.len(),
{
    if s.len() == 0 {
        0
    } else if same_tmp_msg(s[0], m) {
        0
    } else {
        1 + first_tmp_idx(s.drop_first(), m)
    }
}

/// A scan that found no match before `i`, and a match at `i` unless `i` is
/// the length, has found the first match.
pub proof fn lemma_first_tmp_idx(s: Seq<Message>, m: Message, i: int)
    requires
        0 <= i <= s.len(),
        forall|j: int| 0 <= j < i ==> !same_tmp_msg(s[j], m),
        i < s.len() ==> same_tmp_msg(s[i], m),
    ensures
        first_tmp_idx(s, m) == i,
    decreases s.len(),
{
    if s.len() > 0 && !same_tmp_msg(s[0], m) {
        assert(i > 0);
        lemma_first_tmp_idx(s.drop_first(), m, i - 1);
    }
}

/// The message the new widget is compared with, to draw a shortened
/// widget when the same sender speaks twice: the one the caller knows, or
/// the one before the message in its room's history.
pub open spec fn calc_prev_spec(
    rooms: RoomList,
    msg: Message,
    prev: Option<Message>,
    force_full: bool,
) -> Option<Message> {
    if force_full || prev is Some {
        prev
    } else {
        match rooms.spec_get(msg.room@) {
            Some(r) => {
                let p = first_msg_idx(r.messages@, opt_view(msg.id));
                if 0 < p < r.messages@.len() {
                    Some(r.messages@[p - 1])
                } else {
                    None
                }
            },
            None => None,
        }
    }
}

/// What showing one message did.
#[derive(Debug, PartialEq)]
pub enum AddedMessage {
    /// The message belongs to the open room: show a widget for it
    /// (shortened when the same sender wrote the message before it).
    Shown { small: bool, pos: MsgPos, removed_tmp: bool },
    /// Another room: its unread count grew instead.
    Counted,
    /// The open room is not known: only the optimistic copy was dropped.
    TmpOnly { removed_tmp: bool },
}

impl AppOp {
    /// Forget every optimistic message (the front end drops the widgets).
    pub fn clear_tmp_msgs(&mut self)
        ensures
            *final(self) == (AppOp { tmp_msgs: final(self).tmp_msgs, ..*old(self) }),
            final(self).tmp_msgs@ == Seq::<Message>::empty(),
    {
        self.tmp_msgs.clear();
    }

    /// Show a message optimistically before the server acknowledged it.
    pub fn add_tmp_room_message(&mut self, msg: Message)
        ensures
            *final(self) == (AppOp { tmp_msgs: final(self).tmp_msgs, ..*old(self) }),
            final(self).tmp_msgs@ == old(self).tmp_msgs@.push(msg),
    {
        self.tmp_msgs.push(msg);
    }

    /// Drop the first optimistic copy of an acknowledged message, if one
    /// is shown; tells whether one was dropped.
    pub fn remove_tmp_room_message(&mut self, msg: &Message) -> (removed: bool)
        ensures
            *final(self) == (AppOp { tmp_msgs: final(self).tmp_msgs, ..*old(self) }),
            ({
                let p = first_tmp_idx(old(self).tmp_msgs@, *msg);
                if p < old(self).tmp_msgs@.len() {
                    removed && final(self).tmp_msgs@ == old(self).tmp_msgs@.remove(p)
                } else {
                    !removed && final(self).tmp_msgs@ == old(self).tmp_msgs@
                }
            }),
    {
        let n = self.tmp_msgs.len();
        let mut i: usize = 0;
        while i < n
            invariant
                *self == *old(self),
                n == self.tmp_msgs@.len(),
                i <= n,
                forall|j: int| 0 <= j < i ==> !same_tmp_msg(self.tmp_msgs@[j], *msg),
            decreases n - i,
        {
            let t = &self.tmp_msgs[i];
            if t.sender.eq(&msg.sender) && t.mtype.eq(&msg.mtype) && t.room.eq(&msg.room)
                && t.body.eq(&msg.body) {
                proof {
                    lemma_first_tmp_idx(self.tmp_msgs@, *msg, i as int);
                }
                self.tmp_msgs.remove(i);
                return true;
            }
            i = i + 1;
        }
        proof {
            lemma_first_tmp_idx(self.tmp_msgs@, *msg, n as int);
        }
        false
    }

    /// Build and optimistically show the message the user typed, with the
    /// given timestamp; empty input sends nothing. Yields the message and
    /// the send command.
    pub fn send_message_at(&mut self, body: String, now: i64) -> (r: Option<(Message, BKCommand)>)
        ensures
            match r {
                Some(p) => {
                    &&& body@.len() > 0
                    &&& p.0.sender@ == opt_text(old(self).uid)
                    &&& p.0.mtype@ == "m.text"@
                    &&& p.0.body@ == body@
                    &&& p.0.room@ == opt_text(old(self).active_room)
                    &&& p.0.date == now
                    &&& p.0.thumb is None && p.0.url is None && p.0.id is None
                    &&& p.1 matches BKCommand::SendMsg(m) && m == p.0
                    &&& *final(self) == (AppOp { tmp_msgs: final(self).tmp_msgs, ..*old(self) })
                    &&& final(self).tmp_msgs@ == old(self).tmp_msgs@.push(p.0)
                },
                None => body@.len() == 0 && *final(self) == *old(self),
            },
    {
        if body.as_str().is_empty() {
            return None;
        }
        let sender = match &self.uid {
            Some(u) => u.clone(),
            None => String::new(),
        };
        let room = match &self.active_room {
            Some(a) => a.clone(),
            None => String::new(),
        };
        let m = Message {
            sender,
            mtype: "m.text".to_owned(),
            body,
            room,
            date: now,
            thumb: None,
            url: None,
            id: None,
        };
        self.add_tmp_room_message(m.clone());
        Some((m.clone(), BKCommand::SendMsg(m)))
    }

    /// Send the message the user typed, dated now.
    pub fn send_message(&mut self, body: String) -> (r: Option<(Message, BKCommand)>)
        ensures
            match r {
                Some(p) => {
                    &&& body@.len() > 0
                    &&& p.0.sender@ == opt_text(old(self).uid)
                    &&& p.0.mtype@ == "m.text"@
                    &&& p.0.body@ == body@
                    &&& p.0.room@ == opt_text(old(self).active_room)
                    &&& p.0.thumb is None && p.0.url is None && p.0.id is None
                    &&& p.1 matches BKCommand::SendMsg(m) && m == p.0
                    &&& *final(self) == (AppOp { tmp_msgs: final(self).tmp_msgs, ..*old(self) })
                    &&& final(self).tmp_msgs@ == old(self).tmp_msgs@.push(p.0)
                },
                None => body@.len() == 0 && *final(self) == *old(self),
            },
    {
        let now = crate::clock::now_timestamp();
        self.send_message_at(body, now)
    }

    /// Show one message: a widget in the open room (dropping its
    /// optimistic copy), or an unread count elsewhere.
    pub fn add_room_message(
        &mut self,
        msg: &Message,
        msgpos: MsgPos,
        prev: Option<Message>,
        force_full: bool,
    ) -> (r: AddedMessage)
        requires
            old(self).wf(),
        ensures
            final(self).wf(),
            *final(self) == (AppOp {
                shown_messages: final(self).shown_messages,
                tmp_msgs: final(self).tmp_msgs,
                rooms: final(self).rooms,
                ..*old(self)
            }),
            final(self).rooms@.len() == old(self).rooms@.len(),
            if msg.room@ == opt_text(old(self).active_room) {
                // the open room: a widget is shown when the room is known
                ({
                    let tmp_removed = ({
                        let p = first_tmp_idx(old(self).tmp_msgs@, *msg);
                        if p < old(self).tmp_msgs@.len() {
                            final(self).tmp_msgs@ == old(self).tmp_msgs@.remove(p)
                        } else {
                            final(self).tmp_msgs@ == old(self).tmp_msgs@
                        }
                    });
                    &&& final(self).rooms == old(self).rooms
                    &&& tmp_removed
                    &&& if old(self).rooms.spec_contains(msg.room@) {
                        &&& final(self).shown_messages == (if old(self).shown_messages
                            < usize::MAX {
                            old(self).shown_messages + 1
                        } else {
                            old(self).shown_messages as int
                        })
                        &&& r == (AddedMessage::Shown {
                            small: match calc_prev_spec(old(self).rooms, *msg, prev, force_full) {
                                Some(p) => p.sender@ == msg.sender@,
                                None => false,
                            },
                            pos: msgpos,
                            removed_tmp: first_tmp_idx(old(self).tmp_msgs@, *msg) < old(
                                self,
                            ).tmp_msgs@.len(),
                        })
                    } else {
                        &&& final(self).shown_messages == old(self).shown_messages
                        &&& r == (AddedMessage::TmpOnly {
                            removed_tmp: first_tmp_idx(old(self).tmp_msgs@, *msg) < old(
                                self,
                            ).tmp_msgs@.len(),
                        })
                    }
                })
            } else {
                // another room: count one more unread notification
                &&& r is Counted
                &&& final(self).tmp_msgs@ == old(self).tmp_msgs@
                &&& final(self).shown_messages == old(self).shown_messages
                &&& match old(self).rooms.spec_get(msg.room@) {
                    Some(r0) => final(self).rooms.spec_get(msg.room@) == Some(
                        Room {
                            notifications: if r0.notifications < i32::MAX {
                                (r0.notifications + 1) as i32
                            } else {
                                r0.notifications
                            },
                            ..r0
                        },
                    ),
                    None => final(self).rooms == old(self).rooms,
                }
                &&& forall|k: Seq<char>|
                    k != msg.room@ ==> final(self).rooms.spec_get(k) == old(self).rooms.spec_get(k)
            },
    {
        let active = match &self.active_room {
            Some(a) => a.clone(),
            None => String::new(),
        };
        if msg.room.eq(&active) {
            let shown: bool;
            let mut small = false;
            match self.rooms.get(&msg.room) {
                Some(room) => {
                    shown = true;
                    // decide between the full and the shortened widget
                    let mut calc_prev = prev;
                    if !force_full && calc_prev.is_none() {
                        match find_message(&room.messages, &msg.id) {
                            Some(p) => {
                                if p > 0 {
                                    calc_prev = Some(room.messages[p - 1].clone());
                                }
                            },
                            None => {},
                        }
                    }
                    small = match &calc_prev {
                        Some(p) => p.sender.eq(&msg.sender),
                        None => false,
                    };
                },
                None => {
                    shown = false;
                },
            }
            if shown {
                if self.shown_messages < usize::MAX {
                    self.shown_messages = self.shown_messages + 1;
                }
                let removed = self.remove_tmp_room_message(msg);
                AddedMessage::Shown { small, pos: msgpos, removed_tmp: removed }
            } else {
                let removed = self.remove_tmp_room_message(msg);
                AddedMessage::TmpOnly { removed_tmp: removed }
            }
        } else {
            self.rooms.bump_notifications(&msg.room);
            AddedMessage::Counted
        }
    }
}

/// What a member event did to the open room.
#[derive(Debug, PartialEq)]
pub enum MemberEvent {
    /// Not the open room, or no membership kind: nothing to do.
    Ignored,
    /// A membership kind the controller does not handle.
    UnknownKind,
    /// The sender left: dropped from the open room's member list.
    Left,
    /// The sender joined: stored in the open room's member list; `show`
    /// tells whether the member list widget gets a row (it is capped).
    Joined { name: String, uid: String, show: bool },
}

/// What the load-more button does: older messages are re-shown from local
/// history, or the server is asked for the context before the oldest one.
#[derive(Debug)]
pub enum LoadMore {
    Shown(Vec<InternalCommand>),
    Fetch(BKCommand),
    Nothing,
}

impl AppOp {
    /// A room's name or topic arrived: store it under the room, and tell
    /// whether the open room is the one affected (so the front end redraws
    /// its labels).
    pub fn set_room_detail(&mut self, roomid: String, key: String, value: Option<String>) -> (r:
        bool)
        requires
            old(self).wf(),
        ensures
            final(self).wf(),
            *final(self) == (AppOp { rooms: final(self).rooms, ..*old(self) }),
            r == (roomid@ == opt_text(old(self).active_room)),
            forall|k: Seq<char>|
                k != roomid@ ==> final(self).rooms.spec_get(k) == old(self).rooms.spec_get(k),
            match old(self).rooms.spec_get(roomid@) {
                Some(r0) => final(self).rooms.spec_get(roomid@) == Some(
                    if key@ == "m.room.name"@ {
                        Room { name: value, ..r0 }
                    } else if key@ == "m.room.topic"@ {
                        Room { topic: value, ..r0 }
                    } else {
                        r0
                    },
                ),
                None => final(self).rooms@ == old(self).rooms@,
            },
    {
        if key.eq(&"m.room.name".to_owned()) {
            self.rooms.set_name(&roomid, value);
        } else if key.eq(&"m.room.topic".to_owned()) {
            self.rooms.set_topic(&roomid, value);
        }
        let active = match &self.active_room {
            Some(a) => a.clone(),
            None => String::new(),
        };
        roomid.eq(&active)
    }

    /// A room's avatar arrived: store it, and tell whether the open room
    /// is the one affected.
    pub fn set_room_avatar(&mut self, roomid: String, avatar: Option<String>) -> (r: bool)
        requires
            old(self).wf(),
        ensures
            final(self).wf(),
            *final(self) == (AppOp { rooms: final(self).rooms, ..*old(self) }),
            r == (roomid@ == opt_text(old(self).active_room)),
            forall|k: Seq<char>|
                k != roomid@ ==> final(self).rooms.spec_get(k) == old(self).rooms.spec_get(k),
            match old(self).rooms.spec_get(roomid@) {
                Some(r0) => final(self).rooms.spec_get(roomid@) == Some(
                    Room { avatar, ..r0 },
                ),
                None => final(self).rooms@ == old(self).rooms@,
            },
    {
        self.rooms.set_avatar(&roomid, avatar);
        let active = match &self.active_room {
            Some(a) => a.clone(),
            None => String::new(),
        };
        roomid.eq(&active)
    }

    /// A room was renamed on the server; tell whether the open room is the
    /// one affected.
    pub fn room_name_change(&mut self, roomid: String, name: Option<String>) -> (r: bool)
        requires
            old(self).wf(),
        ensures
            final(self).wf(),
            *final(self) == (AppOp { rooms: final(self).rooms, ..*old(self) }),
            r == (roomid@ == opt_text(old(self).active_room)),
            forall|k: Seq<char>|
                k != roomid@ ==> final(self).rooms.spec_get(k) == old(self).rooms.spec_get(k),
            match old(self).rooms.spec_get(roomid@) {
                Some(r0) => final(self).rooms.spec_get(roomid@) == Some(Room { name, ..r0 }),
                None => final(self).rooms@ == old(self).rooms@,
            },
    {
        self.rooms.set_name(&roomid, name);
        let active = match &self.active_room {
            Some(a) => a.clone(),
            None => String::new(),
        };
        roomid.eq(&active)
    }

    /// A room's topic changed on the server; tell whether the open room is
    /// the one affected.
    pub fn room_topic_change(&mut self, roomid: String, topic: Option<String>) -> (r: bool)
        requires
            old(self).wf(),
        ensures
            final(self).wf(),
            *final(self) == (AppOp { rooms: final(self).rooms, ..*old(self) }),
            r == (roomid@ == opt_text(old(self).active_room)),
            forall|k: Seq<char>|
                k != roomid@ ==> final(self).rooms.spec_get(k) == old(self).rooms.spec_get(k),
            match old(self).rooms.spec_get(roomid@) {
                Some(r0) => final(self).rooms.spec_get(roomid@) == Some(Room { topic, ..r0 }),
                None => final(self).rooms@ == old(self).rooms@,
            },
    {
        self.rooms.set_topic(&roomid, topic);
        let active = match &self.active_room {
            Some(a) => a.clone(),
            None => String::new(),
        };
        roomid.eq(&active)
    }

    /// A room got a new avatar on the server: fetch it, if the room is
    /// known.
    pub fn new_room_avatar(&self, roomid: String) -> (r: Option<BKCommand>)
        requires
            self.wf(),
        ensures
            match r {
                Some(c) => self.rooms.spec_contains(roomid@) && (c matches
                BKCommand::GetRoomAvatar(id) && id@ == roomid@),
                None => !self.rooms.spec_contains(roomid@),
            },
    {
        if self.rooms.contains_key(&roomid) {
            Some(BKCommand::GetRoomAvatar(roomid))
        } else {
            None
        }
    }

    /// Leave the open room for good: drop it locally and tell the server.
    pub fn really_leave_active_room(&mut self) -> (r: BKCommand)
        requires
            old(self).wf(),
        ensures
            final(self).wf(),
            *final(self) == (AppOp {
                rooms: final(self).rooms,
                active_room: None,
                tmp_msgs: final(self).tmp_msgs,
                ..*old(self)
            }),
            final(self).tmp_msgs@ == Seq::<Message>::empty(),
            !final(self).rooms.spec_contains(opt_text(old(self).active_room)),
            forall|k: Seq<char>|
                k != opt_text(old(self).active_room) ==> final(self).rooms.spec_get(k) == old(
                    self,
                ).rooms.spec_get(k),
            r matches BKCommand::LeaveRoom(id) && id@ == opt_text(old(self).active_room),
    {
        let r = match &self.active_room {
            Some(a) => a.clone(),
            None => String::new(),
        };
        self.rooms.remove(&r);
        self.active_room = None;
        self.tmp_msgs.clear();
        BKCommand::LeaveRoom(r)
    }

    /// The name to put in the leave-room question, when a room is open and
    /// known.
    pub fn leave_room_name(&self) -> (r: Option<String>)
        requires
            self.wf(),
        ensures
            match self.rooms.spec_get(opt_text(self.active_room)) {
                Some(room) => r is Some && r.unwrap()@ == opt_text(room.name),
                None => r is None,
            },
    {
        let active = match &self.active_room {
            Some(a) => a.clone(),
            None => String::new(),
        };
        match self.rooms.get(&active) {
            Some(room) => match &room.name {
                Some(n) => Some(n.clone()),
                None => Some(String::new()),
            },
            None => None,
        }
    }

    /// The new-room form: a private room unless the public preset was
    /// picked.
    pub fn create_new_room(&self, name: Option<String>, preset: Option<String>) -> (r: BKCommand)
        ensures
            r matches BKCommand::NewRoom(n, privacy) && n@ == opt_text(name) && privacy == (
            if opt_view(preset) == Some("public_chat"@) {
                RoomType::Public
            } else {
                RoomType::Private
            }),
    {
        let n = match name {
            Some(s) => s,
            None => String::new(),
        };
        let privacy = match preset {
            Some(p) => {
                if p.eq(&"public_chat".to_owned()) {
                    RoomType::Public
                } else {
                    RoomType::Private
                }
            },
            None => RoomType::Private,
        };
        BKCommand::NewRoom(n, privacy)
    }

    /// A room the user created arrived: store it (unless known) and hand
    /// back its id for the caller to open.
    pub fn new_room(&mut self, r: Room) -> (id: String)
        requires
            old(self).wf(),
        ensures
            final(self).wf(),
            *final(self) == (AppOp { rooms: final(self).rooms, ..*old(self) }),
            id@ == r.id@,
            final(self).rooms.spec_contains(r.id@),
            old(self).rooms.spec_contains(r.id@) ==> final(self).rooms@ == old(self).rooms@,
            !old(self).rooms.spec_contains(r.id@) ==> final(self).rooms.spec_get(r.id@) == Some(r),
            forall|k: Seq<char>|
                k != r.id@ ==> final(self).rooms.spec_get(k) == old(self).rooms.spec_get(k),
    {
        let id = r.id.clone();
        if !self.rooms.contains_key(&r.id) {
            self.rooms.insert(r);
        }
        id
    }

    /// The room-settings form was confirmed: issue a command for each
    /// field that differs from the open room's current value (the avatar
    /// is set whenever a file was picked).
    pub fn change_room_config(
        &self,
        name: Option<String>,
        topic: Option<String>,
        avatar: Option<String>,
    ) -> (r: Vec<BKCommand>)
        requires
            self.wf(),
        ensures
            match self.rooms.spec_get(opt_text(self.active_room)) {
                Some(room) => {
                    let want_name = name is Some && opt_text(name) != opt_text(room.name);
                    let want_topic = topic is Some && opt_text(topic) != opt_text(room.topic);
                    let want_avatar = avatar is Some;
                    &&& r@.len() == (if want_name {
                        1int
                    } else {
                        0int
                    }) + (if want_topic {
                        1int
                    } else {
                        0int
                    }) + (if want_avatar {
                        1int
                    } else {
                        0int
                    })
                    &&& (want_name ==> (r@[0] matches BKCommand::SetRoomName(id, n) && id@
                        == room.id@ && n@ == opt_text(name)))
                    &&& (want_topic ==> ({
                        let i = if want_name {
                            1int
                        } else {
                            0int
                        };
                        r@[i] matches BKCommand::SetRoomTopic(id, t) && id@ == room.id@ && t@
                            == opt_text(topic)
                    }))
                    &&& (want_avatar ==> ({
                        let i = (if want_name {
                            1int
                        } else {
                            0int
                        }) + (if want_topic {
                            1int
                        } else {
                            0int
                        });
                        r@[i] matches BKCommand::SetRoomAvatar(id, a) && id@ == room.id@ && a@
                            == opt_text(avatar)
                    }))
                },
                None => r@.len() == 0,
            },
    {
        let mut r: Vec<BKCommand> = Vec::new();
        let active = match &self.active_room {
            Some(a) => a.clone(),
            None => String::new(),
        };
        match self.rooms.get(&active) {
            Some(room) => {
                match &name {
                    Some(n) => {
                        let current = match &room.name {
                            Some(s) => s.clone(),
                            None => String::new(),
                        };
                        if !n.eq(&current) {
                            r.push(BKCommand::SetRoomName(room.id.clone(), n.clone()));
                        }
                    },
                    None => {},
                }
                match &topic {
                    Some(t) => {
                        let current = match &room.topic {
                            Some(s) => s.clone(),
                            None => String::new(),
                        };
                        if !t.eq(&current) {
                            r.push(BKCommand::SetRoomTopic(room.id.clone(), t.clone()));
                        }
                    },
                    None => {},
                }
                match &avatar {
                    Some(a) => {
                        r.push(BKCommand::SetRoomAvatar(room.id.clone(), a.clone()));
                    },
                    None => {},
                }
            },
            None => {},
        }
        r
    }

    /// Whether the member list widget takes one more row: the open room
    /// must be known and its member list below the cap.
    pub fn add_room_member(&self, m: &Member) -> (r: Option<(String, String)>)
        requires
            self.wf(),
        ensures
            match self.rooms.spec_get(opt_text(self.active_room)) {
                Some(room) => {
                    if room.members@.len() < 200 {
                        r is Some && r.unwrap().0@ == m.display_name() && r.unwrap().1@ == m.uid@
                    } else {
                        r is None
                    }
                },
                None => r is None,
            },
    {
        let active = match &self.active_room {
            Some(a) => a.clone(),
            None => String::new(),
        };
        match self.rooms.get(&active) {
            Some(room) => {
                if room.members.len() < 200 {
                    Some((m.get_alias(), m.uid.clone()))
                } else {
                    None
                }
            },
            None => None,
        }
    }

    /// A member event for some room: joins and leaves of the open room are
    /// folded into its member list, everything else is ignored.
    pub fn room_member_event(&mut self, ev: Event) -> (r: MemberEvent)
        requires
            old(self).wf(),
        ensures
            final(self).wf(),
            *final(self) == (AppOp { rooms: final(self).rooms, ..*old(self) }),
            forall|k: Seq<char>|
                k != opt_text(old(self).active_room) ==> final(self).rooms.spec_get(k) == old(
                    self,
                ).rooms.spec_get(k),
            ({
                let rs = final(self).rooms;
                if ev.room@ != opt_text(old(self).active_room) || ev.membership is None {
                    r is Ignored && rs@ == old(self).rooms@
                } else if opt_text(ev.membership) == "leave"@ {
                    &&& r is Left
                    &&& match old(self).rooms.spec_get(ev.room@) {
                        Some(r0) => rs.spec_contains(ev.room@) && rs.spec_get(
                            ev.room@,
                        ).unwrap().members@ == crate::roomlist::members_remove(
                            r0.members@,
                            ev.sender@,
                        ),
                        None => rs@ == old(self).rooms@,
                    }
                } else if opt_text(ev.membership) == "join"@ {
                    &&& r matches MemberEvent::Joined { name, uid, show } && uid@ == ev.sender@
                        && name@ == opt_text(ev.displayname) && show == (rs.spec_contains(ev.room@)
                        && rs.spec_get(ev.room@).unwrap().members@.len() < 200)
                    &&& match old(self).rooms.spec_get(ev.room@) {
                        Some(r0) => rs.spec_contains(ev.room@) && exists|m: Member|
                            {
                                &&& m.uid@ == ev.sender@
                                &&& opt_text(m.alias) == opt_text(ev.displayname)
                                &&& opt_text(m.avatar) == opt_text(ev.avatar_url)
                                &&& rs.spec_get(ev.room@).unwrap().members@
                                    == crate::roomlist::members_insert(r0.members@, m)
                            },
                        None => rs@ == old(self).rooms@,
                    }
                } else {
                    r is UnknownKind && rs@ == old(self).rooms@
                }
            }),
    {
        let active = match &self.active_room {
            Some(a) => a.clone(),
            None => String::new(),
        };
        if !ev.room.eq(&active) {
            return MemberEvent::Ignored;
        }
        let membership = match &ev.membership {
            Some(m) => m.clone(),
            None => {
                return MemberEvent::Ignored;
            },
        };
        if membership.eq(&"leave".to_owned()) {
            self.rooms.remove_member(&active, &ev.sender);
            MemberEvent::Left
        } else if membership.eq(&"join".to_owned()) {
            let alias = match &ev.displayname {
                Some(d) => d.clone(),
                None => String::new(),
            };
            let avatar = match &ev.avatar_url {
                Some(a) => a.clone(),
                None => String::new(),
            };
            let m = Member { alias: Some(alias), avatar: Some(avatar), uid: ev.sender.clone() };
            let name = m.get_alias();
            let uid = m.uid.clone();
            self.rooms.insert_member(&active, m);
            let show = match self.rooms.get(&active) {
                Some(room) => room.members.len() < 200,
                None => false,
            };
            MemberEvent::Joined { name, uid, show }
        } else {
            MemberEvent::UnknownKind
        }
    }

    /// The members shown in the list: the first `member_limit` of those
    /// given, and how many were left out.
    pub fn members_to_show(&self, members: &Vec<Member>) -> (r: (Vec<Member>, usize))
        ensures
            r.0@ == members@.take(
                if members@.len() < self.member_limit {
                    members@.len() as int
                } else {
                    self.member_limit as int
                },
            ),
            r.1 == (if members@.len() > self.member_limit {
                members@.len() - self.member_limit
            } else {
                0int
            }),
    {
        let mut shown: Vec<Member> = Vec::new();
        let k = if members.len() < self.member_limit {
            members.len()
        } else {
            self.member_limit
        };
        let mut i: usize = 0;
        while i < k
            invariant
                k <= members@.len(),
                i <= k,
                shown@ == members@.take(i as int),
            decreases k - i,
        {
            shown.push(members[i].clone());
            proof {
                assert(shown@ =~= members@.take(i + 1));
            }
            i = i + 1;
        }
        let remaining = if members.len() > self.member_limit {
            members.len() - self.member_limit
        } else {
            0
        };
        (shown, remaining)
    }

    /// The open room's members that match the search text: all of them
    /// without one, those whose alias contains the folded text otherwise.
    pub fn show_all_members(&self, filter: Option<String>) -> (r: Option<Vec<Member>>)
        requires
            self.wf(),
        ensures
            match self.rooms.spec_get(opt_text(self.active_room)) {
                Some(room) => match r {
                    Some(v) => match filter {
                        None => v@ == room.members@,
                        Some(t) => v@ == room.members@.filter(
                            |m: Member|
                                match m.alias {
                                    Some(a) => crate::strutil::matches_filter(a@, t@),
                                    None => false,
                                },
                        ),
                    },
                    None => false,
                },
                None => r is None,
            },
    {
        let active = match &self.active_room {
            Some(a) => a.clone(),
            None => String::new(),
        };
        let room = match self.rooms.get(&active) {
            Some(room) => room,
            None => {
                return None;
            },
        };
        match filter {
            None => Some(crate::types::clone_member_vec(&room.members)),
            Some(t) => {
                let mut v: Vec<Member> = Vec::new();
                let n = room.members.len();
                let mut i: usize = 0;
                while i < n
                    invariant
                        n == room.members@.len(),
                        i <= n,
                        v@ == room.members@.take(i as int).filter(
                            |m: Member|
                                match m.alias {
                                    Some(a) => crate::strutil::matches_filter(a@, t@),
                                    None => false,
                                },
                        ),
                    decreases n - i,
                {
                    let m = &room.members[i];
                    let keep = match &m.alias {
                        Some(a) => crate::strutil::alias_matches(a.as_str(), t.as_str()),
                        None => false,
                    };
                    if keep {
                        v.push(m.clone());
                    }
                    proof {
                        reveal(Seq::filter);
                        assert(room.members@.take(i + 1).drop_last() =~= room.members@.take(
                            i as int,
                        ));
                        assert(room.members@.take(i + 1).last() == room.members@[i as int]);
                    }
                    i = i + 1;
                }
                proof {
                    assert(room.members@.take(n as int) =~= room.members@);
                }
                Some(v)
            },
        }
    }

    /// What the desktop notification for a message shows: the room's name
    /// (or its id, for an unknown room) and the message text cut to eighty
    /// bytes.
    pub fn notification_parts(&self, msg: &Message) -> (r: (String, String))
        requires
            self.wf(),
        ensures
            r.0@ == (match self.rooms.spec_get(msg.room@) {
                Some(room) => opt_text(room.name),
                None => msg.room@,
            }),
            crate::strutil::is_bounded_prefix(r.1@, msg.body@, 80),
    {
        let roomname = match self.rooms.get(&msg.room) {
            Some(room) => match &room.name {
                Some(n) => n.clone(),
                None => String::new(),
            },
            None => msg.room.clone(),
        };
        let body = crate::strutil::truncate_str(msg.body.as_str(), 80);
        (roomname, body)
    }

    /// Whether a message warrants a desktop notification: it mentions the
    /// user's name, is not part of the initial load, and was written by
    /// someone else. Unknown when the controller does not know its own
    /// user name or id yet.
    pub fn should_notify(&self, msg: &Message, init: bool) -> (r: Option<bool>)
        ensures
            match (self.username, self.uid) {
                (Some(name), Some(uid)) => r == Some(
                    crate::strutil::string_contains(msg.body@, name@) && !init && msg.sender@
                        != uid@,
                ),
                _ => r is None,
            },
    {
        let name = match &self.username {
            Some(n) => n.clone(),
            None => {
                return None;
            },
        };
        let uid = match &self.uid {
            Some(u) => u.clone(),
            None => {
                return None;
            },
        };
        let mentioned = crate::strutil::contains_sub(msg.body.as_str(), name.as_str());
        Some(mentioned && !init && !msg.sender.eq(&uid))
    }

    /// The load-more button: re-show the next page of local history, or
    /// ask the server for what lies before the oldest known message.
    pub fn load_more_messages(&self) -> (r: LoadMore)
        requires
            self.wf(),
        ensures
            match self.rooms.spec_get(opt_text(self.active_room)) {
                Some(room) => {
                    let len = room.messages@.len() as int;
                    if self.shown_messages < len {
                        let hidden = len - self.shown_messages;
                        let k = if hidden < INITIAL_MESSAGES as int {
                            hidden
                        } else {
                            INITIAL_MESSAGES as int
                        };
                        r matches LoadMore::Shown(cmds) && cmds@.len() == k && (forall|i: int|
                            0 <= i < k ==> cmds@[i] == (InternalCommand::AddRoomMessage(
                                room.messages@[len - 1 - self.shown_messages - i],
                                MsgPos::Top,
                                None,
                                i == k - 1,
                            )))
                    } else if len > 0 {
                        r matches LoadMore::Fetch(c) && c matches BKCommand::GetMessageContext(m)
                            && m == room.messages@[0]
                    } else {
                        r is Nothing
                    }
                },
                None => r is Nothing,
            },
    {
        let active = match &self.active_room {
            Some(a) => a.clone(),
            None => String::new(),
        };
        let room = match self.rooms.get(&active) {
            Some(room) => room,
            None => {
                return LoadMore::Nothing;
            },
        };
        let len = room.messages.len();
        if self.shown_messages < len {
            let hidden = len - self.shown_messages;
            let k = if hidden < INITIAL_MESSAGES {
                hidden
            } else {
                INITIAL_MESSAGES
            };
            let mut cmds: Vec<InternalCommand> = Vec::new();
            let mut i: usize = 0;
            while i < k
                invariant
                    k <= len - self.shown_messages,
                    self.shown_messages < len,
                    len == room.messages@.len(),
                    0 < k,
                    i <= k,
                    cmds@.len() == i as int,
                    forall|j: int|
                        0 <= j < i ==> cmds@[j] == (InternalCommand::AddRoomMessage(
                            room.messages@[len - 1 - self.shown_messages - j],
                            MsgPos::Top,
                            None,
                            j == k - 1,
                        )),
                decreases k - i,
            {
                let idx = len - 1 - self.shown_messages - i;
                cmds.push(
                    InternalCommand::AddRoomMessage(
                        room.messages[idx].clone(),
                        MsgPos::Top,
                        None,
                        i == k - 1,
                    ),
                );
                i = i + 1;
            }
            LoadMore::Shown(cmds)
        } else if len > 0 {
            LoadMore::Fetch(BKCommand::GetMessageContext(room.messages[0].clone()))
        } else {
            LoadMore::Nothing
        }
    }
}

/// The room stored last under a given id in a batch, which is the one a
/// rebuilt room map holds.
pub open spec fn last_room_with_id(s: Seq<Room>, k: Seq<char>) -> Option<Room>
    decreases s.len(),
{
    if s.len() == 0 {
        None
    } else if s.last().id@ == k {
        Some(s.last())
    } else {
        last_room_with_id(s.drop_last(), k)
    }
}

/// What opening a room asks of the front end: the internal commands that
/// fill the message list, the commands to the engine, and whether to
/// scroll to the bottom.
#[derive(Debug)]
pub struct ActiveRoomEffects {
    pub internal: Vec<InternalCommand>,
    pub backend: Vec<BKCommand>,
    pub scroll_down: bool,
}

/// What the room opened through `set_active_room` asks of the front end.
/// The last `INITIAL_MESSAGES` messages are queued oldest-flagged-last,
/// the panel is switched, the room's details are fetched, the last message
/// is marked read when there is one, and the history is fetched when there
/// is none.
pub open spec fn active_room_effects_ok(fx: ActiveRoomEffects, room: Room) -> bool {
    let n = room.messages@.len() as int;
    let k = if n < INITIAL_MESSAGES as int {
        n
    } else {
        INITIAL_MESSAGES as int
    };
    &&& fx.internal@.len() == k + 1
    &&& (forall|i: int|
        0 <= i < k ==> fx.internal@[i] == (InternalCommand::AddRoomMessage(
            room.messages@[n - 1 - i],
            MsgPos::Top,
            None,
            i == k - 1,
        )))
    &&& fx.internal@[k] == (InternalCommand::SetPanel(RoomPanel::Room))
    &&& fx.scroll_down == (n > 0)
    &&& fx.backend@.len() == 2
    &&& if n > 0 {
        &&& (fx.backend@[0] matches BKCommand::MarkAsRead(rm, ev) && rm@ == room.messages@[n
            - 1].room@ && ev@ == opt_text(room.messages@[n - 1].id))
        &&& (fx.backend@[1] matches BKCommand::SetRoom(r2) && crate::types::room_like(r2, room))
    } else {
        &&& (fx.backend@[0] matches BKCommand::SetRoom(r2) && crate::types::room_like(r2, room))
        &&& (fx.backend@[1] matches BKCommand::GetRoomMessages(id) && id@ == room.id@)
    }
}

impl AppOp {
    /// Open a room: reset the member cap and the shown count, clear the
    /// optimistic messages, and queue what fills the view.
    pub fn set_active_room(&mut self, room: &Room) -> (fx: ActiveRoomEffects)
        requires
            old(self).wf(),
        ensures
            final(self).wf(),
            *final(self) == (AppOp {
                member_limit: 50,
                active_room: final(self).active_room,
                tmp_msgs: final(self).tmp_msgs,
                autoscroll: true,
                shown_messages: final(self).shown_messages,
                ..*old(self)
            }),
            final(self).active_room matches Some(id) && id@ == room.id@,
            final(self).tmp_msgs@ == Seq::<Message>::empty(),
            final(self).shown_messages == (if room.messages@.len() < INITIAL_MESSAGES {
                room.messages@.len() as int
            } else {
                INITIAL_MESSAGES as int
            }),
            active_room_effects_ok(fx, *room),
    {
        self.member_limit = 50;
        self.active_room = Some(room.id.clone());
        self.tmp_msgs.clear();
        self.autoscroll = true;
        let n = room.messages.len();
        let k = if n < INITIAL_MESSAGES {
            n
        } else {
            INITIAL_MESSAGES
        };
        self.shown_messages = k;
        let mut internal: Vec<InternalCommand> = Vec::new();
        let mut i: usize = 0;
        while i < k
            invariant
                k <= n,
                n == room.messages@.len(),
                i <= k,
                internal@.len() == i as int,
                forall|j: int|
                    0 <= j < i ==> internal@[j] == (InternalCommand::AddRoomMessage(
                        room.messages@[n - 1 - j],
                        MsgPos::Top,
                        None,
                        j == k - 1,
                    )),
            decreases k - i,
        {
            internal.push(
                InternalCommand::AddRoomMessage(
                    room.messages[n - 1 - i].clone(),
                    MsgPos::Top,
                    None,
                    i == k - 1,
                ),
            );
            i = i + 1;
        }
        internal.push(InternalCommand::SetPanel(RoomPanel::Room));
        let mut backend: Vec<BKCommand> = Vec::new();
        let scroll_down = n > 0;
        if n > 0 {
            let last = &room.messages[n - 1];
            backend.push(self.mark_as_read(last));
        }
        backend.push(BKCommand::SetRoom(room.clone()));
        if n == 0 {
            backend.push(BKCommand::GetRoomMessages(room.id.clone()));
        }
        ActiveRoomEffects { internal, backend, scroll_down }
    }

    /// Open the room with the given id, when it is known; nothing happens
    /// otherwise.
    pub fn set_active_room_by_id(&mut self, roomid: &String) -> (fx: ActiveRoomEffects)
        requires
            old(self).wf(),
        ensures
            final(self).wf(),
            match old(self).rooms.spec_get(roomid@) {
                Some(room) => {
                    &&& *final(self) == (AppOp {
                        member_limit: 50,
                        active_room: final(self).active_room,
                        tmp_msgs: final(self).tmp_msgs,
                        autoscroll: true,
                        shown_messages: final(self).shown_messages,
                        ..*old(self)
                    })
                    &&& final(self).active_room matches Some(id) && id@ == room.id@
                    &&& final(self).tmp_msgs@ == Seq::<Message>::empty()
                    &&& active_room_effects_ok(fx, room)
                },
                None => *final(self) == *old(self) && fx.internal@.len() == 0 && fx.backend@.len()
                    == 0 && !fx.scroll_down,
            },
    {
        let room = match self.rooms.get(roomid) {
            Some(r) => r.clone(),
            None => {
                return ActiveRoomEffects {
                    internal: Vec::new(),
                    backend: Vec::new(),
                    scroll_down: false,
                };
            },
        };
        let fx = self.set_active_room(&room);
        proof {
            let stored = old(self).rooms.spec_get(roomid@).unwrap();
            assert(room.messages@ == stored.messages@);
            assert(active_room_effects_ok(fx, stored));
        }
        fx
    }

    /// Take a fresh room list (from a sync or the on-disk snapshot): the
    /// map is rebuilt from it, and the room to reopen comes back — the one
    /// that was open, if the new list still has it, else the suggested
    /// one. With no room to reopen, the view falls back to the chat state
    /// with no room panel, the open room and optimistic messages are
    /// dropped, and the caller shows the empty panel.
    pub fn set_rooms(&mut self, rooms: Vec<Room>, def: Option<Room>) -> (to_activate: Option<
        String,
    >)
        requires
            old(self).wf(),
        ensures
            final(self).wf(),
            forall|k: Seq<char>|
                final(self).rooms.spec_get(k) == last_room_with_id(rooms@, k),
            if old(self).active_room is Some && last_room_with_id(
                rooms@,
                opt_text(old(self).active_room),
            ) is Some {
                &&& to_activate matches Some(id) && id@ == opt_text(old(self).active_room)
                &&& *final(self) == (AppOp { rooms: final(self).rooms, ..*old(self) })
            } else {
                match def {
                    Some(d) => {
                        &&& to_activate matches Some(id) && id@ == d.id@
                        &&& *final(self) == (AppOp { rooms: final(self).rooms, ..*old(self) })
                    },
                    None => {
                        &&& to_activate is None
                        &&& *final(self) == (AppOp {
                            rooms: final(self).rooms,
                            state: AppState::Chat,
                            active_room: None,
                            tmp_msgs: final(self).tmp_msgs,
                            ..*old(self)
                        })
                        &&& final(self).tmp_msgs@ == Seq::<Message>::empty()
                    },
                }
            },
    {
        let ghost all = rooms@;
        let mut rooms = rooms;
        self.rooms.clear();
        let mut i: usize = 0;
        let n = rooms.len();
        while i < n
            invariant
                *self == (AppOp { rooms: self.rooms, ..*old(self) }),
                self.rooms.wf(),
                n == all.len(),
                i <= n,
                rooms@ == all.subrange(i as int, n as int),
                forall|k: Seq<char>|
                    self.rooms.spec_get(k) == last_room_with_id(all.subrange(0, i as int), k),
            decreases n - i,
        {
            let r = rooms.remove(0);
            proof {
                assert(r == all[i as int]);
                assert(rooms@ =~= all.subrange(i + 1, n as int));
            }
            let ghost before = self.rooms;
            self.rooms.insert(r);
            proof {
                let pre = all.subrange(0, i as int);
                let post = all.subrange(0, i + 1);
                assert(post.drop_last() =~= pre);
                assert(post.last() == all[i as int]);
                assert forall|k: Seq<char>| self.rooms.spec_get(k) == last_room_with_id(
                    post,
                    k,
                ) by {
                    if k != all[i as int].id@ {
                        assert(self.rooms.spec_get(k) == before.spec_get(k));
                    }
                }
            }
            i = i + 1;
        }
        proof {
            assert(all.subrange(0, n as int) =~= all);
        }
        let act = match &self.active_room {
            Some(a) => Some(a.clone()),
            None => None,
        };
        match act {
            Some(a) => {
                proof {
                    assert(self.rooms.spec_get(a@) == last_room_with_id(all, a@));
                }
                if self.rooms.contains_key(&a) {
                    return Some(a);
                }
            },
            None => {},
        }
        match def {
            Some(d) => Some(d.id),
            None => {
                let _ = self.set_state(AppState::Chat);
                self.active_room = None;
                self.tmp_msgs.clear();
                None
            },
        }
    }

    /// What was restored from the on-disk snapshot at startup.
    pub fn init_restore(
        &mut self,
        rooms: Vec<Room>,
        since: String,
        username: String,
        uid: String,
    ) -> (to_activate: Option<String>)
        requires
            old(self).wf(),
        ensures
            final(self).wf(),
            forall|k: Seq<char>|
                final(self).rooms.spec_get(k) == last_room_with_id(rooms@, k),
            final(self).since matches Some(s) && s@ == since@,
            final(self).username matches Some(u) && u@ == username@,
            final(self).uid matches Some(u) && u@ == uid@,
    {
        let to_activate = self.set_rooms(rooms, None);
        self.since = Some(since);
        self.username = Some(username);
        self.uid = Some(uid);
        to_activate
    }

    /// Start the application: show the loading view, restore the on-disk
    /// snapshot when one was read, and connect with the stored
    /// credentials when they were found — falling back to the login view
    /// for whichever is missing. Yields the room to reopen and the login
    /// command.
    pub fn init(
        &mut self,
        snapshot: Option<(Vec<Room>, String, String, String)>,
        pass: Option<(String, String, String)>,
    ) -> (r: (Option<String>, Option<BKCommand>))
        requires
            old(self).wf(),
        ensures
            final(self).wf(),
            snapshot is Some ==> ({
                let snap = snapshot.unwrap();
                &&& (forall|k: Seq<char>|
                    final(self).rooms.spec_get(k) == last_room_with_id(snap.0@, k))
                &&& final(self).since matches Some(v) && v@ == snap.1@
                &&& final(self).username matches Some(v) && v@ == snap.2@
                &&& final(self).uid matches Some(v) && v@ == snap.3@
            }),
            pass is None ==> r.1 is None && final(self).state is Login,
            pass is Some ==> ({
                let p = pass.unwrap();
                r.1 matches Some(c) && c matches BKCommand::Login(u, w, srv) && u@ == p.0@ && w@
                    == p.1@ && srv@ == p.2@ && final(self).server_url@ == p.2@
            }),
    {
        let _ = self.set_state(AppState::Loading);
        let to_activate = match snapshot {
            Some((rooms, since, username, uid)) => self.init_restore(rooms, since, username, uid),
            None => {
                let _ = self.set_state(AppState::Login);
                None
            },
        };
        let cmd = match pass {
            Some((username, password, server)) => self.connect(
                Some(username),
                Some(password),
                Some(server),
            ),
            None => {
                let _ = self.set_state(AppState::Login);
                None
            },
        };
        (to_activate, cmd)
    }
}

/// The messages of a batch that belong to one room, in batch order.
pub open spec fn msgs_in_room(s: Seq<Message>, k: Seq<char>) -> Seq<Message>
    decreases s.len(),
{
    if s.len() == 0 {
        Seq::empty()
    } else if s[0].room@ == k {
        seq![s[0]] + msgs_in_room(s.drop_first(), k)
    } else {
        msgs_in_room(s.drop_first(), k)
    }
}

/// One more batch message goes to the end of its own room's share and to
/// no other room's.
pub proof fn lemma_msgs_in_room_push(s: Seq<Message>, x: Message, k: Seq<char>)
    ensures
        msgs_in_room(s.push(x), k) == msgs_in_room(s, k) + (if x.room@ == k {
            seq![x]
        } else {
            Seq::<Message>::empty()
        }),
    decreases s.len(),
{
    let t = s.push(x);
    if s.len() == 0 {
        assert(t.len() == 1);
        assert(t[0] == x);
        assert(t.drop_first() =~= Seq::<Message>::empty());
        assert(msgs_in_room(t.drop_first(), k) =~= Seq::<Message>::empty());
        assert(msgs_in_room(s, k) =~= Seq::<Message>::empty());
        if x.room@ == k {
            assert(msgs_in_room(t, k) =~= msgs_in_room(s, k) + seq![x]);
        } else {
            assert(msgs_in_room(t, k) =~= msgs_in_room(s, k) + Seq::<Message>::empty());
        }
    } else {
        assert(t[0] == s[0]);
        assert(t.drop_first() =~= s.drop_first().push(x));
        lemma_msgs_in_room_push(s.drop_first(), x, k);
        if x.room@ == k {
            assert(msgs_in_room(t, k) =~= msgs_in_room(s, k) + seq![x]);
        } else {
            assert(msgs_in_room(t, k) =~= msgs_in_room(s, k) + Seq::<Message>::empty());
        }
    }
}

/// Every room the map knew gained exactly its share of the batch at the
/// end of its history, in batch order; no room appeared or vanished.
pub open spec fn batch_appended(a: RoomList, b: RoomList, msgs: Seq<Message>) -> bool {
    forall|k: Seq<char>|
        match #[trigger] a.spec_get(k) {
            Some(r0) => b.spec_contains(k) && b.spec_get(k).unwrap().messages@ == r0.messages@
                + msgs_in_room(msgs, k),
            None => !b.spec_contains(k),
        }
}

/// Every room the map knew gained exactly its share of the page in front
/// of its history, in page order; no room appeared or vanished.
pub open spec fn batch_prepended(a: RoomList, b: RoomList, msgs: Seq<Message>) -> bool {
    forall|k: Seq<char>|
        match #[trigger] a.spec_get(k) {
            Some(r0) => b.spec_contains(k) && b.spec_get(k).unwrap().messages@ == msgs_in_room(
                msgs,
                k,
            ) + r0.messages@,
            None => !b.spec_contains(k),
        }
}

/// Whether a message warrants a desktop notification: the controller
/// knows its own name and id, the text mentions the name, the batch is
/// not the initial load, and someone else wrote it.
pub open spec fn warrants_notify(s: AppOp, m: Message, init: bool) -> bool {
    match (s.username, s.uid) {
        (Some(name), Some(uid)) => crate::strutil::string_contains(m.body@, name@) && !init
            && m.sender@ != uid@,
        _ => false,
    }
}

/// One outward effect of handling a response: a command back to the
/// engine, an internal command the controller queues for itself, or a
/// user-interface action the front end carries out.
#[derive(Debug)]
pub enum AppEffect {
    /// Submit this command to the engine.
    Send(BKCommand),
    /// Queue this command on the controller's own queue.
    Queue(InternalCommand),
    /// Put a widget for this message in the message list.
    ShowMessage { msg: Message, pos: MsgPos, small: bool },
    /// Show this text in a warning dialog.
    ShowError(String),
    /// Show this file as the user's avatar.
    SetAvatarImage(String),
    /// Hand this file to the system's opener.
    OpenMedia(String),
    /// Raise a desktop notification for this message.
    Notify(Message),
    /// Move this room to the top of the room list.
    MoveRoomUp(String),
    /// Scroll the message list to the bottom.
    ScrollDown,
    /// Switch the room panel.
    Panel(RoomPanel),
    /// Store the room snapshot on disk.
    CacheRooms,
    /// Redraw the open room's name, topic and avatar from the state.
    RefreshActiveRoom,
    /// Redraw the member list from the state.
    RefreshMemberList,
    /// Fill the directory protocol picker.
    SetProtocols(Vec<Protocol>),
    /// Append one room to the directory search results.
    AddDirectoryRoom(Room),
    /// The search finished: restore the search button.
    SearchFinished,
    /// Restore the load-more button's label.
    LoadMoreDone,
    /// Present the main window.
    PresentWindow,
}

impl AppOp {
    /// Show one just-arrived message: raise a notification when it
    /// warrants one, show the widget in the open room or count the unread
    /// elsewhere, and move its room up in the list unless this is the
    /// initial load.
    pub fn process_incoming_message(
        &mut self,
        msg: &Message,
        prev: Option<Message>,
        init: bool,
    ) -> (fx: Vec<AppEffect>)
        requires
            old(self).wf(),
        ensures
            final(self).wf(),
            *final(self) == (AppOp {
                shown_messages: final(self).shown_messages,
                tmp_msgs: final(self).tmp_msgs,
                rooms: final(self).rooms,
                ..*old(self)
            }),
            final(self).rooms@.len() == old(self).rooms@.len(),
            // no message is added to or dropped from any room's history
            forall|k: Seq<char>|
                match #[trigger] old(self).rooms.spec_get(k) {
                    Some(r0) => final(self).rooms.spec_contains(k) && final(self).rooms.spec_get(
                        k,
                    ).unwrap().messages@ == r0.messages@,
                    None => !final(self).rooms.spec_contains(k),
                },
            ({
                let notify = warrants_notify(*old(self), *msg, init);
                let shown = msg.room@ == opt_text(old(self).active_room) && old(
                    self,
                ).rooms.spec_contains(msg.room@);
                let moveup = !init;
                &&& fx@.len() == (if notify {
                    1int
                } else {
                    0int
                }) + (if shown {
                    1int
                } else {
                    0int
                }) + (if moveup {
                    1int
                } else {
                    0int
                })
                &&& (notify ==> (fx@[0] matches AppEffect::Notify(m) && m == *msg))
                &&& (shown ==> ({
                    let i = if notify {
                        1int
                    } else {
                        0int
                    };
                    fx@[i] matches AppEffect::ShowMessage { msg: m2, pos, small } && m2 == *msg
                        && pos == MsgPos::Bottom && small == (
                    match calc_prev_spec(old(self).rooms, *msg, prev, false) {
                        Some(p) => p.sender@ == msg.sender@,
                        None => false,
                    })
                }))
                &&& (moveup ==> ({
                    let i = (if notify {
                        1int
                    } else {
                        0int
                    }) + (if shown {
                        1int
                    } else {
                        0int
                    });
                    fx@[i] matches AppEffect::MoveRoomUp(r) && r@ == msg.room@
                }))
            }),
    {
        let mut fx: Vec<AppEffect> = Vec::new();
        match self.should_notify(msg, init) {
            Some(true) => {
                fx.push(AppEffect::Notify(msg.clone()));
            },
            _ => {},
        }
        match self.add_room_message(msg, MsgPos::Bottom, prev, false) {
            AddedMessage::Shown { small, pos, removed_tmp: _ } => {
                fx.push(AppEffect::ShowMessage { msg: msg.clone(), pos, small });
            },
            _ => {},
        }
        if !init {
            fx.push(AppEffect::MoveRoomUp(msg.room.clone()));
        }
        fx
    }

    /// A batch of new messages arrived (from a sync, or the initial load
    /// of a room). Every message is appended to its room's history; then —
    /// provided the controller knows its own user name and id, as the
    /// mention check needs both — each message is shown through
    /// `process_incoming_message` (with a notification exactly where
    /// `warrants_notify` says so, and a room-list move-up when not the
    /// initial load), the open room is scrolled and its last batch
    /// message marked read, and the initial load switches the panel to
    /// the room view.
    pub fn show_room_messages(&mut self, msgs: Vec<Message>, init: bool) -> (fx: Vec<AppEffect>)
        requires
            old(self).wf(),
        ensures
            final(self).wf(),
            *final(self) == (AppOp {
                shown_messages: final(self).shown_messages,
                tmp_msgs: final(self).tmp_msgs,
                rooms: final(self).rooms,
                ..*old(self)
            }),
            final(self).rooms@.len() == old(self).rooms@.len(),
            batch_appended(old(self).rooms, final(self).rooms, msgs@),
            (old(self).username is None || old(self).uid is None) ==> fx@.len() == 0,
            (init && old(self).username is Some && old(self).uid is Some) ==> fx@.len() > 0
                && fx@.last() == (AppEffect::Panel(RoomPanel::Room)),
            // a notification effect exactly for the qualifying batch
            // messages
            forall|m: Message|
                #[trigger] fx@.contains(AppEffect::Notify(m)) ==> warrants_notify(
                    *old(self),
                    m,
                    init,
                ) && msgs@.contains(m),
            forall|i: int|
                0 <= i < msgs@.len() && warrants_notify(*old(self), #[trigger] msgs@[i], init)
                    ==> fx@.contains(AppEffect::Notify(msgs@[i])),
    {
        let mut fx: Vec<AppEffect> = Vec::new();
        let n = msgs.len();
        proof {
            let a = self.rooms;
            assert(msgs@.take(0).len() == 0);
            assert forall|k: Seq<char>|
                match #[trigger] a.spec_get(k) {
                    Some(r0) => a.spec_contains(k) && a.spec_get(k).unwrap().messages@
                        == r0.messages@ + msgs_in_room(msgs@.take(0), k),
                    None => !a.spec_contains(k),
                } by {
                match a.spec_get(k) {
                    Some(r0) => {
                        assert(r0.messages@ + msgs_in_room(msgs@.take(0), k) =~= r0.messages@);
                    },
                    None => {},
                }
            }
            assert(batch_appended(a, a, msgs@.take(0)));
        }
        let mut i: usize = 0;
        while i < n
            invariant
                old(self).wf(),
                self.wf(),
                *self == (AppOp { rooms: self.rooms, ..*old(self) }),
                self.rooms@.len() == old(self).rooms@.len(),
                n == msgs@.len(),
                i <= n,
                batch_appended(old(self).rooms, self.rooms, msgs@.take(i as int)),
            decreases n - i,
        {
            let ghost before = self.rooms;
            self.rooms.push_message(&msgs[i].room, msgs[i].clone());
            proof {
                let a = old(self).rooms;
                let b = self.rooms;
                let mi = msgs@[i as int];
                assert(msgs@.take(i + 1) =~= msgs@.take(i as int).push(mi));
                assert forall|k: Seq<char>|
                    match #[trigger] a.spec_get(k) {
                        Some(r0) => b.spec_contains(k) && b.spec_get(k).unwrap().messages@
                            == r0.messages@ + msgs_in_room(msgs@.take(i + 1), k),
                        None => !b.spec_contains(k),
                    } by {
                    lemma_msgs_in_room_push(msgs@.take(i as int), mi, k);
                    match a.spec_get(k) {
                        Some(r0) => {
                            if k == mi.room@ {
                                // the message lands at the end of this
                                // room's history
                                assert(before.spec_contains(k));
                                assert(b.spec_get(k).unwrap().messages@ =~= r0.messages@
                                    + msgs_in_room(msgs@.take(i + 1), k));
                            } else {
                                assert(b.spec_get(k) == before.spec_get(k));
                                assert(msgs_in_room(msgs@.take(i + 1), k) =~= msgs_in_room(
                                    msgs@.take(i as int),
                                    k,
                                ));
                            }
                        },
                        None => {
                            if k != mi.room@ {
                                assert(b.spec_get(k) == before.spec_get(k));
                            }
                        },
                    }
                }
                assert(batch_appended(a, b, msgs@.take(i + 1)));
            }
            i = i + 1;
        }
        proof {
            assert(msgs@.take(n as int) =~= msgs@);
        }
        let known = match (&self.username, &self.uid) {
            (Some(_), Some(_)) => true,
            _ => false,
        };
        if !known {
            return fx;
        }
        let mut prev: Option<Message> = None;
        let mut i: usize = 0;
        while i < n
            invariant
                self.wf(),
                *self == (AppOp {
                    shown_messages: self.shown_messages,
                    tmp_msgs: self.tmp_msgs,
                    rooms: self.rooms,
                    ..*old(self)
                }),
                self.rooms@.len() == old(self).rooms@.len(),
                n == msgs@.len(),
                i <= n,
                batch_appended(old(self).rooms, self.rooms, msgs@),
                forall|m: Message|
                    #[trigger] fx@.contains(AppEffect::Notify(m)) ==> warrants_notify(
                        *old(self),
                        m,
                        init,
                    ) && msgs@.contains(m),
                forall|j: int|
                    0 <= j < i && warrants_notify(*old(self), #[trigger] msgs@[j], init)
                        ==> fx@.contains(AppEffect::Notify(msgs@[j])),
            decreases n - i,
        {
            let msg = &msgs[i];
            let ghost mid = *self;
            let ghost fx0 = fx@;
            let mut more = self.process_incoming_message(msg, prev, init);
            let ghost madd = more@;
            fx.append(&mut more);
            proof {
                let a = old(self).rooms;
                let b = self.rooms;
                // each room's history is exactly as it was after the
                // appends
                assert forall|k: Seq<char>|
                    match #[trigger] a.spec_get(k) {
                        Some(r0) => b.spec_contains(k) && b.spec_get(k).unwrap().messages@
                            == r0.messages@ + msgs_in_room(msgs@, k),
                        None => !b.spec_contains(k),
                    } by {
                    match a.spec_get(k) {
                        Some(r0) => {
                            assert(mid.rooms.spec_contains(k));
                        },
                        None => {
                            assert(!mid.rooms.spec_contains(k));
                        },
                    }
                }
                assert(batch_appended(a, b, msgs@));
                // which effects the step added, and which of them notify
                let notify = warrants_notify(mid, msgs@[i as int], init);
                assert(warrants_notify(mid, msgs@[i as int], init) == warrants_notify(
                    *old(self),
                    msgs@[i as int],
                    init,
                ));
                assert forall|m: Message|
                    #[trigger] fx@.contains(AppEffect::Notify(m)) implies warrants_notify(
                        *old(self),
                        m,
                        init,
                    ) && msgs@.contains(m) by {
                    let idx = choose|idx: int|
                        0 <= idx < fx@.len() && fx@[idx] == AppEffect::Notify(m);
                    if idx < fx0.len() {
                        assert(fx0[idx] == AppEffect::Notify(m));
                        assert(fx0.contains(AppEffect::Notify(m)));
                    } else {
                        let t = idx - fx0.len();
                        assert(madd[t] == AppEffect::Notify(m));
                        assert(notify && t == 0);
                        assert(m == msgs@[i as int]);
                        assert(msgs@.contains(m));
                    }
                }
                assert forall|j: int|
                    0 <= j < i + 1 && warrants_notify(*old(self), #[trigger] msgs@[j], init)
                        implies fx@.contains(AppEffect::Notify(msgs@[j])) by {
                    if j < i {
                        assert(fx0.contains(AppEffect::Notify(msgs@[j])));
                        let idx = choose|idx: int|
                            0 <= idx < fx0.len() && fx0[idx] == AppEffect::Notify(msgs@[j]);
                        assert(fx@[idx] == AppEffect::Notify(msgs@[j]));
                        assert(fx@.contains(AppEffect::Notify(msgs@[j])));
                    } else {
                        assert(madd[0] == AppEffect::Notify(msgs@[i as int]));
                        assert(fx@[fx0.len() as int] == AppEffect::Notify(msgs@[i as int]));
                        assert(fx@.contains(AppEffect::Notify(msgs@[i as int])));
                    }
                }
            }
            prev = Some(msg.clone());
            i = i + 1;
        }
        // the closing effects carry no notification
        let mut tail: Vec<AppEffect> = Vec::new();
        if n > 0 {
            // the last batch message of the open room: scroll to it and
            // mark it read
            let active = match &self.active_room {
                Some(a) => a.clone(),
                None => String::new(),
            };
            let mut j = n;
            while j > 0
                invariant
                    n == msgs@.len(),
                    j <= n,
                    forall|t: int| 0 <= t < tail@.len() ==> !((#[trigger] tail@[t]) is Notify),
                decreases j,
            {
                j = j - 1;
                if msgs[j].room.eq(&active) {
                    if self.autoscroll {
                        tail.push(AppEffect::ScrollDown);
                    }
                    tail.push(AppEffect::Send(self.mark_as_read(&msgs[j])));
                    break ;
                }
            }
        }
        if init {
            tail.push(AppEffect::Panel(RoomPanel::Room));
        }
        let ghost fx0 = fx@;
        let ghost tadd = tail@;
        fx.append(&mut tail);
        proof {
            assert forall|m: Message|
                #[trigger] fx@.contains(AppEffect::Notify(m)) implies warrants_notify(
                    *old(self),
                    m,
                    init,
                ) && msgs@.contains(m) by {
                let idx = choose|idx: int|
                    0 <= idx < fx@.len() && fx@[idx] == AppEffect::Notify(m);
                if idx < fx0.len() {
                    assert(fx0[idx] == AppEffect::Notify(m));
                    assert(fx0.contains(AppEffect::Notify(m)));
                } else {
                    assert(tadd[idx - fx0.len()] is Notify);
                }
            }
            assert forall|i2: int|
                0 <= i2 < msgs@.len() && warrants_notify(*old(self), #[trigger] msgs@[i2], init)
                    implies fx@.contains(AppEffect::Notify(msgs@[i2])) by {
                assert(fx0.contains(AppEffect::Notify(msgs@[i2])));
                let idx = choose|idx: int|
                    0 <= idx < fx0.len() && fx0[idx] == AppEffect::Notify(msgs@[i2]);
                assert(fx@[idx] == AppEffect::Notify(msgs@[i2]));
            }
        }
        fx
    }

    /// A page of older messages arrived for the load-more button: each is
    /// put in front of its room's history (so each known room's history
    /// becomes its share of the page, in page order, followed by what it
    /// held) and shown at the top of the view, with the batch neighbour
    /// as the widget's predecessor; an empty page only restores the
    /// button.
    pub fn show_room_messages_top(&mut self, msgs: Vec<Message>) -> (fx: Vec<AppEffect>)
        requires
            old(self).wf(),
        ensures
            final(self).wf(),
            *final(self) == (AppOp {
                shown_messages: final(self).shown_messages,
                tmp_msgs: final(self).tmp_msgs,
                rooms: final(self).rooms,
                ..*old(self)
            }),
            final(self).rooms@.len() == old(self).rooms@.len(),
            batch_prepended(old(self).rooms, final(self).rooms, msgs@),
            fx@.len() > 0 && fx@.last() == AppEffect::LoadMoreDone,
            msgs@.len() == 0 ==> *final(self) == *old(self) && fx@.len() == 1,
    {
        let mut fx: Vec<AppEffect> = Vec::new();
        let n = msgs.len();
        if n == 0 {
            fx.push(AppEffect::LoadMoreDone);
            proof {
                let a = self.rooms;
                assert forall|k: Seq<char>|
                    match #[trigger] a.spec_get(k) {
                        Some(r0) => a.spec_contains(k) && a.spec_get(k).unwrap().messages@
                            == msgs_in_room(msgs@, k) + r0.messages@,
                        None => !a.spec_contains(k),
                    } by {
                    match a.spec_get(k) {
                        Some(r0) => {
                            assert(msgs_in_room(msgs@, k) + r0.messages@ =~= r0.messages@);
                        },
                        None => {},
                    }
                }
                assert(batch_prepended(a, a, msgs@));
            }
            return fx;
        }
        proof {
            let a = self.rooms;
            assert(msgs@.subrange(n as int, n as int).len() == 0);
            assert forall|k: Seq<char>|
                match #[trigger] a.spec_get(k) {
                    Some(r0) => a.spec_contains(k) && a.spec_get(k).unwrap().messages@
                        == msgs_in_room(msgs@.subrange(n as int, n as int), k) + r0.messages@,
                    None => !a.spec_contains(k),
                } by {
                match a.spec_get(k) {
                    Some(r0) => {
                        assert(msgs_in_room(msgs@.subrange(n as int, n as int), k) + r0.messages@
                            =~= r0.messages@);
                    },
                    None => {},
                }
            }
            assert(batch_prepended(a, a, msgs@.subrange(n as int, n as int)));
        }
        let mut i = n;
        while i > 0
            invariant
                old(self).wf(),
                self.wf(),
                *self == (AppOp { rooms: self.rooms, ..*old(self) }),
                self.rooms@.len() == old(self).rooms@.len(),
                n == msgs@.len(),
                i <= n,
                batch_prepended(old(self).rooms, self.rooms, msgs@.subrange(i as int, n as int)),
            decreases i,
        {
            i = i - 1;
            let ghost before = self.rooms;
            self.rooms.insert_message_front(&msgs[i].room, msgs[i].clone());
            proof {
                let a = old(self).rooms;
                let b = self.rooms;
                let mi = msgs@[i as int];
                let rest = msgs@.subrange(i + 1, n as int);
                let page = msgs@.subrange(i as int, n as int);
                assert(page[0] == mi);
                assert(page.drop_first() =~= rest);
                assert forall|k: Seq<char>|
                    match #[trigger] a.spec_get(k) {
                        Some(r0) => b.spec_contains(k) && b.spec_get(k).unwrap().messages@
                            == msgs_in_room(page, k) + r0.messages@,
                        None => !b.spec_contains(k),
                    } by {
                    match a.spec_get(k) {
                        Some(r0) => {
                            if k == mi.room@ {
                                // the page message goes to the very front
                                assert(before.spec_contains(k));
                                assert(b.spec_get(k).unwrap().messages@ =~= msgs_in_room(page, k)
                                    + r0.messages@);
                            } else {
                                assert(b.spec_get(k) == before.spec_get(k));
                                assert(msgs_in_room(page, k) =~= msgs_in_room(rest, k));
                            }
                        },
                        None => {
                            if k != mi.room@ {
                                assert(b.spec_get(k) == before.spec_get(k));
                            }
                        },
                    }
                }
                assert(batch_prepended(a, b, page));
            }
        }
        proof {
            assert(msgs@.subrange(0, n as int) =~= msgs@);
        }
        let mut i = n;
        while i > 0
            invariant
                self.wf(),
                *self == (AppOp {
                    shown_messages: self.shown_messages,
                    tmp_msgs: self.tmp_msgs,
                    rooms: self.rooms,
                    ..*old(self)
                }),
                self.rooms@.len() == old(self).rooms@.len(),
                n == msgs@.len(),
                i <= n,
                batch_prepended(old(self).rooms, self.rooms, msgs@),
            decreases i,
        {
            i = i - 1;
            let prev: Option<Message> = if i > 0 {
                Some(msgs[i - 1].clone())
            } else {
                None
            };
            let ghost mid = *self;
            match self.add_room_message(&msgs[i], MsgPos::Top, prev, false) {
                AddedMessage::Shown { small, pos, removed_tmp: _ } => {
                    fx.push(AppEffect::ShowMessage { msg: msgs[i].clone(), pos, small });
                },
                _ => {},
            }
            proof {
                let a = old(self).rooms;
                let b = self.rooms;
                assert forall|k: Seq<char>|
                    match #[trigger] a.spec_get(k) {
                        Some(r0) => b.spec_contains(k) && b.spec_get(k).unwrap().messages@
                            == msgs_in_room(msgs@, k) + r0.messages@,
                        None => !b.spec_contains(k),
                    } by {
                    match a.spec_get(k) {
                        Some(r0) => {
                            assert(mid.rooms.spec_contains(k));
                        },
                        None => {
                            assert(!mid.rooms.spec_contains(k));
                        },
                    }
                }
                assert(batch_prepended(a, b, msgs@));
            }
        }
        fx.push(AppEffect::LoadMoreDone);
        fx
    }

    /// Open the room a clicked notification points at, raising the window.
    pub fn notification_cliked(&mut self, msg: &Message) -> (fx: Vec<AppEffect>)
        requires
            old(self).wf(),
        ensures
            final(self).wf(),
            fx@.len() > 0 && fx@[0] is PresentWindow,
            old(self).rooms.spec_contains(msg.room@) ==> (final(self).active_room matches Some(id)
                && id@ == msg.room@),
            !old(self).rooms.spec_contains(msg.room@) ==> *final(self) == *old(self)
                && fx@.len() == 1,
    {
        let mut fx: Vec<AppEffect> = Vec::new();
        fx.push(AppEffect::PresentWindow);
        let more = self.set_active_room_by_id(&msg.room);
        let mut tail = active_room_fx(more);
        fx.append(&mut tail);
        fx
    }

    /// One internal command from the controller's own queue.
    pub fn handle_internal(&mut self, cmd: InternalCommand) -> (fx: Vec<AppEffect>)
        requires
            old(self).wf(),
        ensures
            final(self).wf(),
            match cmd {
                InternalCommand::AddRoomMessage(msg, pos, prev, force_full) => {
                    let shown = msg.room@ == opt_text(old(self).active_room) && old(
                        self,
                    ).rooms.spec_contains(msg.room@);
                    if shown {
                        fx@.len() == 1 && (fx@[0] matches AppEffect::ShowMessage {
                            msg: m2,
                            pos: p2,
                            small,
                        } && m2 == msg && p2 == pos && small == (
                        match calc_prev_spec(old(self).rooms, msg, prev, force_full) {
                            Some(p) => p.sender@ == msg.sender@,
                            None => false,
                        }))
                    } else {
                        fx@.len() == 0
                    }
                },
                InternalCommand::SetPanel(p) => fx@ == seq![AppEffect::Panel(p)] && *final(self)
                    == *old(self),
                InternalCommand::NotifyClicked(msg) => fx@.len() > 0 && fx@[0] is PresentWindow
                    && (old(self).rooms.spec_contains(msg.room@) ==> (final(self).active_room
                    matches Some(id) && id@ == msg.room@)),
                InternalCommand::SelectRoom(r) => {
                    &&& (old(self).rooms.spec_contains(r.id@) ==> (final(self).active_room
                        matches Some(id) && id@ == r.id@))
                    &&& (!old(self).rooms.spec_contains(r.id@) ==> *final(self) == *old(self)
                        && fx@.len() == 0)
                },
            },
    {
        match cmd {
            InternalCommand::AddRoomMessage(msg, pos, prev, force_full) => {
                let mut fx: Vec<AppEffect> = Vec::new();
                match self.add_room_message(&msg, pos, prev, force_full) {
                    AddedMessage::Shown { small, pos, removed_tmp: _ } => {
                        fx.push(AppEffect::ShowMessage { msg, pos, small });
                    },
                    _ => {},
                }
                fx
            },
            InternalCommand::SetPanel(p) => {
                let mut fx: Vec<AppEffect> = Vec::new();
                fx.push(AppEffect::Panel(p));
                fx
            },
            InternalCommand::NotifyClicked(msg) => self.notification_cliked(&msg),
            InternalCommand::SelectRoom(r) => {
                let more = self.set_active_room_by_id(&r.id);
                active_room_fx(more)
            },
        }
    }
}

impl AppOp {
    /// One response from the engine: fold it into the controller state
    /// and yield the effects the front end carries out.
    ///
    /// The one clause that holds whatever arrives: the sync cursor takes a
    /// new value exactly on a sync success response — a failed sync only
    /// clears the in-flight mark and leaves everything else as it was.
    #[verifier::rlimit(100)]
    pub fn handle_response(&mut self, resp: BKResponse) -> (fx: Vec<AppEffect>)
        requires
            old(self).wf(),
        ensures
            final(self).wf(),
            final(self).since == (match resp {
                BKResponse::Sync(s) => Some(s),
                _ => old(self).since,
            }),
            (resp matches BKResponse::Token(uid, token) ==> ({
                &&& *final(self) == (AppOp {
                    logged_in: true,
                    state: AppState::Chat,
                    uid: Some(uid),
                    username: Some(uid),
                    syncing: true,
                    ..*old(self)
                })
                &&& fx@ == (if !old(self).syncing {
                    seq![
                        AppEffect::Send(BKCommand::GetUsername),
                        AppEffect::Send(BKCommand::GetAvatar),
                        AppEffect::Send(BKCommand::Sync),
                        AppEffect::Send(BKCommand::DirectoryProtocols),
                    ]
                } else {
                    seq![
                        AppEffect::Send(BKCommand::GetUsername),
                        AppEffect::Send(BKCommand::GetAvatar),
                        AppEffect::Send(BKCommand::DirectoryProtocols),
                    ]
                })
            })),
            (resp is Logout ==> *final(self) == (AppOp {
                logged_in: false,
                state: AppState::Login,
                uid: None,
                username: None,
                ..*old(self)
            }) && fx@.len() == 0),
            (resp matches BKResponse::Name(username) ==> *final(self) == (AppOp {
                username: Some(username),
                ..*old(self)
            }) && fx@.len() == 0),
            (resp matches BKResponse::Avatar(path) ==> *final(self) == *old(self) && fx@ == seq![
                AppEffect::SetAvatarImage(path),
            ]),
            (resp matches BKResponse::Sync(s) ==> *final(self) == (AppOp {
                syncing: false,
                since: Some(s),
                ..*old(self)
            }) && fx@.len() == 0),
            (resp matches BKResponse::Rooms(rooms, default) ==> ({
                &&& final(self).since == old(self).since
                &&& final(self).syncing == old(self).syncing
                &&& final(self).username == old(self).username
                &&& final(self).uid == old(self).uid
                &&& final(self).logged_in == old(self).logged_in
                &&& final(self).server_url == old(self).server_url
                &&& forall|k: Seq<char>|
                    final(self).rooms.spec_get(k) == last_room_with_id(rooms@, k)
                &&& fx@.len() >= rooms@.len() + 1
                &&& (forall|i: int|
                    0 <= i < rooms@.len() ==> (#[trigger] fx@[i] matches AppEffect::Send(c)
                        && c matches BKCommand::GetRoomAvatar(id) && id@ == rooms@[i].id@))
                &&& fx@.last() == AppEffect::CacheRooms
            })),
            (resp matches BKResponse::RoomDetail(roomid, key, value) ==> ({
                &&& *final(self) == (AppOp { rooms: final(self).rooms, ..*old(self) })
                &&& match old(self).rooms.spec_get(roomid@) {
                    Some(r0) => final(self).rooms.spec_get(roomid@) == Some(
                        if key@ == "m.room.name"@ {
                            Room { name: Some(value), ..r0 }
                        } else if key@ == "m.room.topic"@ {
                            Room { topic: Some(value), ..r0 }
                        } else {
                            r0
                        },
                    ),
                    None => final(self).rooms@ == old(self).rooms@,
                }
                &&& fx@ == (if roomid@ == opt_text(old(self).active_room) {
                    seq![AppEffect::RefreshActiveRoom]
                } else {
                    Seq::<AppEffect>::empty()
                })
            })),
            (resp matches BKResponse::RoomAvatar(roomid, avatar) ==> ({
                &&& *final(self) == (AppOp { rooms: final(self).rooms, ..*old(self) })
                &&& match old(self).rooms.spec_get(roomid@) {
                    Some(r0) => final(self).rooms.spec_get(roomid@) == Some(
                        Room { avatar: Some(avatar), ..r0 },
                    ),
                    None => final(self).rooms@ == old(self).rooms@,
                }
                &&& fx@ == (if roomid@ == opt_text(old(self).active_room) {
                    seq![AppEffect::RefreshActiveRoom]
                } else {
                    Seq::<AppEffect>::empty()
                })
            })),
            ((resp is RoomMessages || resp is RoomMessagesInit || resp is RoomMessagesTo)
                ==> *final(self) == (AppOp {
                shown_messages: final(self).shown_messages,
                tmp_msgs: final(self).tmp_msgs,
                rooms: final(self).rooms,
                ..*old(self)
            })),
            (resp matches BKResponse::RoomMessages(msgs) ==> batch_appended(
                old(self).rooms,
                final(self).rooms,
                msgs@,
            )),
            (resp matches BKResponse::RoomMessagesInit(msgs) ==> batch_appended(
                old(self).rooms,
                final(self).rooms,
                msgs@,
            )),
            (resp matches BKResponse::RoomMessagesTo(msgs) ==> batch_prepended(
                old(self).rooms,
                final(self).rooms,
                msgs@,
            )),
            (resp is RoomMessagesTo ==> fx@.len() > 0 && fx@.last() == AppEffect::LoadMoreDone),
            (resp is SendMsg ==> ({
                &&& *final(self) == (AppOp { syncing: final(self).syncing, ..*old(self) })
                &&& final(self).syncing == (old(self).syncing || old(self).logged_in)
                &&& fx@ == (if sync_command(*old(self)) is Some {
                    seq![AppEffect::Send(BKCommand::Sync)]
                } else {
                    Seq::<AppEffect>::empty()
                })
            })),
            (resp matches BKResponse::DirectoryProtocols(protocols) ==> *final(self) == *old(self)
                && fx@ == seq![AppEffect::SetProtocols(protocols)]),
            (resp matches BKResponse::DirectorySearch(rooms) ==> ({
                &&& *final(self) == *old(self)
                &&& fx@.len() == rooms@.len()
                &&& (forall|i: int|
                    0 <= i < rooms@.len() ==> fx@[i] == (AppEffect::AddDirectoryRoom(rooms@[i])))
            })),
            (resp is JoinRoom ==> *final(self) == (AppOp {
                state: AppState::Loading,
                ..*old(self)
            }) && fx@ == seq![AppEffect::Send(BKCommand::SyncForced)]),
            ((resp is LeaveRoom || resp is SetRoomName || resp is SetRoomTopic
                || resp is SetRoomAvatar) ==> *final(self) == *old(self) && fx@.len() == 0),
            (resp matches BKResponse::MarkedAsRead(roomid, evid) ==> ({
                &&& *final(self) == (AppOp { rooms: final(self).rooms, ..*old(self) })
                &&& match old(self).rooms.spec_get(roomid@) {
                    Some(r0) => final(self).rooms.spec_get(roomid@) == Some(
                        Room { notifications: 0, ..r0 },
                    ),
                    None => final(self).rooms@ == old(self).rooms@,
                }
                &&& fx@.len() == 0
            })),
            (resp matches BKResponse::RoomName(roomid, name) ==> ({
                &&& *final(self) == (AppOp { rooms: final(self).rooms, ..*old(self) })
                &&& match old(self).rooms.spec_get(roomid@) {
                    Some(r0) => final(self).rooms.spec_get(roomid@) == Some(
                        Room { name: Some(name), ..r0 },
                    ),
                    None => final(self).rooms@ == old(self).rooms@,
                }
                &&& fx@ == (if roomid@ == opt_text(old(self).active_room) {
                    seq![AppEffect::RefreshActiveRoom]
                } else {
                    Seq::<AppEffect>::empty()
                })
            })),
            (resp matches BKResponse::RoomTopic(roomid, topic) ==> ({
                &&& *final(self) == (AppOp { rooms: final(self).rooms, ..*old(self) })
                &&& match old(self).rooms.spec_get(roomid@) {
                    Some(r0) => final(self).rooms.spec_get(roomid@) == Some(
                        Room { topic: Some(topic), ..r0 },
                    ),
                    None => final(self).rooms@ == old(self).rooms@,
                }
                &&& fx@ == (if roomid@ == opt_text(old(self).active_room) {
                    seq![AppEffect::RefreshActiveRoom]
                } else {
                    Seq::<AppEffect>::empty()
                })
            })),
            (resp matches BKResponse::NewRoomAvatar(roomid) ==> ({
                &&& *final(self) == *old(self)
                &&& if old(self).rooms.spec_contains(roomid@) {
                    fx@.len() == 1 && (fx@[0] matches AppEffect::Send(c) && c matches
                    BKCommand::GetRoomAvatar(id) && id@ == roomid@)
                } else {
                    fx@.len() == 0
                }
            })),
            (resp matches BKResponse::RoomMemberEvent(ev) ==> ({
                &&& *final(self) == (AppOp { rooms: final(self).rooms, ..*old(self) })
                &&& if ev.room@ == opt_text(old(self).active_room) && (opt_text(ev.membership)
                    == "leave"@ || opt_text(ev.membership) == "join"@) {
                    fx@ == seq![AppEffect::RefreshMemberList]
                } else {
                    final(self).rooms@ == old(self).rooms@ && fx@.len() == 0
                }
            })),
            (resp matches BKResponse::Media(fname) ==> *final(self) == *old(self) && fx@ == seq![
                AppEffect::OpenMedia(fname),
            ]),
            (resp matches BKResponse::AttachedFile(msg) ==> ({
                &&& *final(self) == (AppOp { tmp_msgs: final(self).tmp_msgs, ..*old(self) })
                &&& final(self).tmp_msgs@ == old(self).tmp_msgs@.push(msg)
                &&& fx@ == seq![AppEffect::ScrollDown]
            })),
            (resp is SearchEnd ==> *final(self) == *old(self) && fx@ == seq![
                AppEffect::SearchFinished,
            ]),
            (resp matches BKResponse::NewRoom(r) ==> ({
                &&& final(self).since == old(self).since
                &&& final(self).syncing == old(self).syncing
                &&& final(self).username == old(self).username
                &&& final(self).uid == old(self).uid
                &&& final(self).logged_in == old(self).logged_in
                &&& final(self).server_url == old(self).server_url
                &&& final(self).state == old(self).state
                &&& final(self).rooms.spec_contains(r.id@)
                &&& (final(self).active_room matches Some(id) && id@ == r.id@)
            })),
            (resp is NewRoomError ==> ({
                &&& *final(self) == *old(self)
                &&& fx@.len() == 2
                &&& (fx@[0] matches AppEffect::ShowError(m) && m@
                    == "Can't create the room, try again"@)
                &&& fx@[1] == (AppEffect::Panel(RoomPanel::NoRoom))
            })),
            (resp is LoginError ==> ({
                &&& *final(self) == (AppOp { state: AppState::Login, ..*old(self) })
                &&& fx@.len() == 1
                &&& (fx@[0] matches AppEffect::ShowError(m) && m@ == "Can't login, try again"@)
            })),
            (resp is SendMsgError ==> ({
                &&& *final(self) == *old(self)
                &&& fx@.len() == 1
                &&& (fx@[0] matches AppEffect::ShowError(m) && m@ == "Error sending message"@)
            })),
            (resp is SyncError ==> *final(self) == (AppOp { syncing: false, ..*old(self) })
                && fx@.len() == 0),
            ((resp is RoomMembers || resp is UserNameError || resp is AvatarError
                || resp is LogoutError || resp is GuestLoginError || resp is RoomDetailError
                || resp is RoomAvatarError || resp is RoomMessagesError
                || resp is RoomMembersError || resp is SetRoomError || resp is CommandError
                || resp is DirectoryError || resp is JoinRoomError || resp is MarkAsReadError
                || resp is LeaveRoomError || resp is SetRoomNameError
                || resp is SetRoomTopicError || resp is SetRoomAvatarError
                || resp is GetRoomAvatarError || resp is MediaError || resp is AttachFileError
                || resp is SearchError) ==> *final(self) == *old(self) && fx@.len() == 0),
    {
        match resp {
            BKResponse::Token(uid, _token) => {
                let mut fx: Vec<AppEffect> = Vec::new();
                self.logged_in = true;
                let _ = self.set_state(AppState::Chat);
                self.set_uid(Some(uid.clone()));
                self.set_username(Some(uid));
                let (c1, c2) = self.get_username();
                fx.push(AppEffect::Send(c1));
                fx.push(AppEffect::Send(c2));
                match self.sync() {
                    Some(c) => fx.push(AppEffect::Send(c)),
                    None => {},
                }
                fx.push(AppEffect::Send(self.init_protocols()));
                proof {
                    if old(self).syncing {
                        assert(fx@ =~= seq![
                            AppEffect::Send(BKCommand::GetUsername),
                            AppEffect::Send(BKCommand::GetAvatar),
                            AppEffect::Send(BKCommand::DirectoryProtocols),
                        ]);
                    } else {
                        assert(fx@ =~= seq![
                            AppEffect::Send(BKCommand::GetUsername),
                            AppEffect::Send(BKCommand::GetAvatar),
                            AppEffect::Send(BKCommand::Sync),
                            AppEffect::Send(BKCommand::DirectoryProtocols),
                        ]);
                    }
                }
                fx
            },
            BKResponse::Logout => {
                self.logged_in = false;
                let _ = self.set_state(AppState::Login);
                self.set_uid(None);
                self.set_username(None);
                Vec::new()
            },
            BKResponse::Name(username) => {
                self.set_username(Some(username));
                Vec::new()
            },
            BKResponse::Avatar(path) => {
                let mut fx: Vec<AppEffect> = Vec::new();
                fx.push(AppEffect::SetAvatarImage(path));
                fx
            },
            BKResponse::Sync(s) => {
                self.synced(Some(s));
                Vec::new()
            },
            BKResponse::Rooms(rooms, default) => {
                let mut fx: Vec<AppEffect> = Vec::new();
                let n = rooms.len();
                let mut i: usize = 0;
                while i < n
                    invariant
                        n == rooms@.len(),
                        i <= n,
                        fx@.len() == i as int,
                        forall|j: int|
                            0 <= j < i ==> (#[trigger] fx@[j] matches AppEffect::Send(c)
                                && c matches BKCommand::GetRoomAvatar(id) && id@
                                == rooms@[j].id@),
                    decreases n - i,
                {
                    fx.push(AppEffect::Send(BKCommand::GetRoomAvatar(rooms[i].id.clone())));
                    i = i + 1;
                }
                match self.set_rooms(rooms, default) {
                    Some(id) => {
                        let more = self.set_active_room_by_id(&id);
                        let mut tail = active_room_fx(more);
                        fx.append(&mut tail);
                    },
                    None => {
                        fx.push(AppEffect::Panel(RoomPanel::NoRoom));
                    },
                }
                fx.push(AppEffect::CacheRooms);
                fx
            },
            BKResponse::RoomDetail(roomid, key, value) => {
                let mut fx: Vec<AppEffect> = Vec::new();
                if self.set_room_detail(roomid, key, Some(value)) {
                    fx.push(AppEffect::RefreshActiveRoom);
                }
                fx
            },
            BKResponse::RoomAvatar(roomid, avatar) => {
                let mut fx: Vec<AppEffect> = Vec::new();
                if self.set_room_avatar(roomid, Some(avatar)) {
                    fx.push(AppEffect::RefreshActiveRoom);
                }
                fx
            },
            BKResponse::RoomMessages(msgs) => self.show_room_messages(msgs, false),
            BKResponse::RoomMessagesInit(msgs) => self.show_room_messages(msgs, true),
            BKResponse::RoomMessagesTo(msgs) => self.show_room_messages_top(msgs),
            BKResponse::SendMsg => {
                let mut fx: Vec<AppEffect> = Vec::new();
                match self.sync() {
                    Some(c) => fx.push(AppEffect::Send(c)),
                    None => {},
                }
                fx
            },
            BKResponse::DirectoryProtocols(protocols) => {
                let mut fx: Vec<AppEffect> = Vec::new();
                fx.push(AppEffect::SetProtocols(protocols));
                fx
            },
            BKResponse::DirectorySearch(rooms) => {
                let mut fx: Vec<AppEffect> = Vec::new();
                let ghost all = rooms@;
                let mut rooms = rooms;
                let n = rooms.len();
                let mut i: usize = 0;
                while i < n
                    invariant
                        n == all.len(),
                        i <= n,
                        rooms@ == all.subrange(i as int, n as int),
                        fx@.len() == i as int,
                        forall|j: int|
                            0 <= j < i ==> fx@[j] == (AppEffect::AddDirectoryRoom(all[j])),
                    decreases n - i,
                {
                    let r = rooms.remove(0);
                    proof {
                        assert(r == all[i as int]);
                        assert(rooms@ =~= all.subrange(i + 1, n as int));
                    }
                    fx.push(AppEffect::AddDirectoryRoom(r));
                    i = i + 1;
                }
                fx
            },
            BKResponse::JoinRoom => {
                let mut fx: Vec<AppEffect> = Vec::new();
                let c = self.reload_rooms();
                fx.push(AppEffect::Send(c));
                fx
            },
            BKResponse::LeaveRoom => Vec::new(),
            BKResponse::SetRoomName => Vec::new(),
            BKResponse::SetRoomTopic => Vec::new(),
            BKResponse::SetRoomAvatar => Vec::new(),
            BKResponse::MarkedAsRead(roomid, _evid) => {
                self.rooms.reset_notifications(&roomid);
                Vec::new()
            },
            BKResponse::RoomName(roomid, name) => {
                let mut fx: Vec<AppEffect> = Vec::new();
                if self.room_name_change(roomid, Some(name)) {
                    fx.push(AppEffect::RefreshActiveRoom);
                }
                fx
            },
            BKResponse::RoomTopic(roomid, topic) => {
                let mut fx: Vec<AppEffect> = Vec::new();
                if self.room_topic_change(roomid, Some(topic)) {
                    fx.push(AppEffect::RefreshActiveRoom);
                }
                fx
            },
            BKResponse::NewRoomAvatar(roomid) => {
                let mut fx: Vec<AppEffect> = Vec::new();
                match self.new_room_avatar(roomid) {
                    Some(c) => fx.push(AppEffect::Send(c)),
                    None => {},
                }
                fx
            },
            BKResponse::RoomMemberEvent(ev) => {
                proof {
                    reveal_strlit("leave");
                    reveal_strlit("join");
                    assert("leave"@.len() == 5);
                    assert("join"@.len() == 4);
                }
                let mut fx: Vec<AppEffect> = Vec::new();
                match self.room_member_event(ev) {
                    MemberEvent::Left => fx.push(AppEffect::RefreshMemberList),
                    MemberEvent::Joined { name: _, uid: _, show: _ } => fx.push(
                        AppEffect::RefreshMemberList,
                    ),
                    MemberEvent::Ignored => {},
                    MemberEvent::UnknownKind => {},
                }
                fx
            },
            BKResponse::Media(fname) => {
                let mut fx: Vec<AppEffect> = Vec::new();
                fx.push(AppEffect::OpenMedia(fname));
                fx
            },
            BKResponse::AttachedFile(msg) => {
                let mut fx: Vec<AppEffect> = Vec::new();
                self.add_tmp_room_message(msg);
                fx.push(AppEffect::ScrollDown);
                fx
            },
            BKResponse::SearchEnd => {
                let mut fx: Vec<AppEffect> = Vec::new();
                fx.push(AppEffect::SearchFinished);
                fx
            },
            BKResponse::NewRoom(r) => {
                let id = self.new_room(r);
                let more = self.set_active_room_by_id(&id);
                active_room_fx(more)
            },
            BKResponse::NewRoomError(_e) => {
                let mut fx: Vec<AppEffect> = Vec::new();
                fx.push(AppEffect::ShowError("Can't create the room, try again".to_owned()));
                fx.push(AppEffect::Panel(RoomPanel::NoRoom));
                fx
            },
            BKResponse::LoginError(_e) => {
                let mut fx: Vec<AppEffect> = Vec::new();
                fx.push(AppEffect::ShowError("Can't login, try again".to_owned()));
                let _ = self.set_state(AppState::Login);
                fx
            },
            BKResponse::SendMsgError(_e) => {
                let mut fx: Vec<AppEffect> = Vec::new();
                fx.push(AppEffect::ShowError("Error sending message".to_owned()));
                fx
            },
            BKResponse::SyncError(_e) => {
                self.syncing = false;
                Vec::new()
            },
            BKResponse::RoomMembers(_) => Vec::new(),
            BKResponse::UserNameError(_) => Vec::new(),
            BKResponse::AvatarError(_) => Vec::new(),
            BKResponse::LogoutError(_) => Vec::new(),
            BKResponse::GuestLoginError(_) => Vec::new(),
            BKResponse::RoomDetailError(_) => Vec::new(),
            BKResponse::RoomAvatarError(_) => Vec::new(),
            BKResponse::RoomMessagesError(_) => Vec::new(),
            BKResponse::RoomMembersError(_) => Vec::new(),
            BKResponse::SetRoomError(_) => Vec::new(),
            BKResponse::CommandError(_) => Vec::new(),
            BKResponse::DirectoryError(_) => Vec::new(),
            BKResponse::JoinRoomError(_) => Vec::new(),
            BKResponse::MarkAsReadError(_) => Vec::new(),
            BKResponse::LeaveRoomError(_) => Vec::new(),
            BKResponse::SetRoomNameError(_) => Vec::new(),
            BKResponse::SetRoomTopicError(_) => Vec::new(),
            BKResponse::SetRoomAvatarError(_) => Vec::new(),
            BKResponse::GetRoomAvatarError(_) => Vec::new(),
            BKResponse::MediaError(_) => Vec::new(),
            BKResponse::AttachFileError(_) => Vec::new(),
            BKResponse::SearchError(_) => Vec::new(),
        }
    }
}

/// Turn the effects of opening a room into the general effect list: the
/// queued internal commands, the engine commands, and the scroll.
pub fn active_room_fx(fx: ActiveRoomEffects) -> (r: Vec<AppEffect>)
    ensures
        r@.len() == fx.internal@.len() + fx.backend@.len() + (if fx.scroll_down {
            1int
        } else {
            0int
        }),
        forall|i: int|
            0 <= i < fx.internal@.len() ==> r@[i] == (AppEffect::Queue(fx.internal@[i])),
        forall|i: int|
            0 <= i < fx.backend@.len() ==> r@[fx.internal@.len() + i] == (AppEffect::Send(
                fx.backend@[i],
            )),
        fx.scroll_down ==> r@.last() == AppEffect::ScrollDown,
{
    let ActiveRoomEffects { internal, backend, scroll_down } = fx;
    let mut r: Vec<AppEffect> = Vec::new();
    let mut internal = internal;
    let mut backend = backend;
    let ghost gi = internal@;
    let ghost gb = backend@;
    let ni = internal.len();
    let mut i: usize = 0;
    while i < ni
        invariant
            ni == gi.len(),
            internal@ == gi.subrange(i as int, ni as int),
            i <= ni,
            r@.len() == i as int,
            forall|j: int| 0 <= j < i ==> r@[j] == (AppEffect::Queue(gi[j])),
        decreases ni - i,
    {
        let c = internal.remove(0);
        proof {
            assert(c == gi[i as int]);
            assert(internal@ =~= gi.subrange(i + 1, ni as int));
        }
        r.push(AppEffect::Queue(c));
        i = i + 1;
    }
    let nb = backend.len();
    let mut i: usize = 0;
    while i < nb
        invariant
            ni == gi.len(),
            nb == gb.len(),
            backend@ == gb.subrange(i as int, nb as int),
            i <= nb,
            r@.len() == ni + i,
            forall|j: int| 0 <= j < ni ==> r@[j] == (AppEffect::Queue(gi[j])),
            forall|j: int| 0 <= j < i ==> r@[ni + j] == (AppEffect::Send(gb[j])),
        decreases nb - i,
    {
        let c = backend.remove(0);
        proof {
            assert(c == gb[i as int]);
            assert(backend@ =~= gb.subrange(i + 1, nb as int));
        }
        r.push(AppEffect::Send(c));
        i = i + 1;
    }
    if scroll_down {
        r.push(AppEffect::ScrollDown);
    }
    r
}

} // verus!
