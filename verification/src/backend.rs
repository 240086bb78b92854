//! The engine: command intake, session state, and the mapping of each
//! command to the protocol call that executes it.
//!
//! The dispatcher consumes commands and decides, from the command and the
//! session state alone, which protocol call to run. The caller runs each
//! call on its own task (so a slow operation cannot starve others) and
//! feeds the call's outcome back through the completion functions, which
//! mutate the session state and yield the broadcast responses.

use vstd::prelude::*;

use crate::identity::CacheLookup;
use crate::identity::IdentityCache;
use crate::reply::send_string;
use crate::reply::send_user_info;
use crate::throttle::DownloadThrottle;
use crate::types::Member;
use crate::types::Message;
use crate::types::Protocol;
use crate::types::Room;
use crate::types::RoomType;

verus! {

/// The error payload attached to a failing command's response.
#[derive(Debug, PartialEq)]
pub enum Error {
    /// The remote call could not be carried out.
    Network(String),
    /// The remote answer could not be understood.
    MalformedResponse(String),
}

impl Clone for Error {
    fn clone(&self) -> (r: Self)
        ensures
            r == *self,
    {
        match self {
            Error::Network(s) => Error::Network(s.clone()),
            Error::MalformedResponse(s) => Error::MalformedResponse(s.clone()),
        }
    }
}

/// One requested operation, consumed exactly once by the dispatcher.
#[derive(Debug)]
pub enum BKCommand {
    Login(String, String, String),
    Logout,
    Register(String, String, String),
    Guest(String),
    GetUsername,
    GetAvatar,
    Sync,
    SyncForced,
    GetRoomMessages(String),
    GetMessageContext(Message),
    GetRoomAvatar(String),
    GetThumbAsync(String, std::sync::mpsc::Sender<String>),
    GetAvatarAsync(Option<Member>, std::sync::mpsc::Sender<String>),
    GetMedia(String),
    GetUserInfoAsync(String, std::sync::mpsc::Sender<(String, String)>),
    SendMsg(Message),
    SetRoom(Room),
    ShutDown,
    DirectoryProtocols,
    DirectorySearch(String, String, bool),
    JoinRoom(String),
    MarkAsRead(String, String),
    LeaveRoom(String),
    SetRoomName(String, String),
    SetRoomTopic(String, String),
    SetRoomAvatar(String, String),
    AttachFile(String, String),
    AttachImage(String, Vec<u8>),
    Search(String, Option<String>),
    NewRoom(String, RoomType),
}

/// One broadcast result of executing a command: a success payload, or the
/// error payload scoped to the command family that failed.
#[derive(Debug, PartialEq)]
pub enum BKResponse {
    Token(String, String),
    Logout,
    Name(String),
    Avatar(String),
    Sync(String),
    Rooms(Vec<Room>, Option<Room>),
    RoomDetail(String, String, String),
    RoomAvatar(String, String),
    NewRoomAvatar(String),
    RoomMemberEvent(crate::types::Event),
    RoomMessages(Vec<Message>),
    RoomMessagesInit(Vec<Message>),
    RoomMessagesTo(Vec<Message>),
    RoomMembers(Vec<Member>),
    SendMsg,
    DirectoryProtocols(Vec<Protocol>),
    DirectorySearch(Vec<Room>),
    JoinRoom,
    LeaveRoom,
    MarkedAsRead(String, String),
    SetRoomName,
    SetRoomTopic,
    SetRoomAvatar,
    RoomName(String, String),
    RoomTopic(String, String),
    Media(String),
    AttachedFile(Message),
    SearchEnd,
    NewRoom(Room),
    UserNameError(Error),
    AvatarError(Error),
    LoginError(Error),
    LogoutError(Error),
    GuestLoginError(Error),
    SyncError(Error),
    RoomDetailError(Error),
    RoomAvatarError(Error),
    RoomMessagesError(Error),
    RoomMembersError(Error),
    SendMsgError(Error),
    SetRoomError(Error),
    CommandError(Error),
    DirectoryError(Error),
    JoinRoomError(Error),
    MarkAsReadError(Error),
    LeaveRoomError(Error),
    SetRoomNameError(Error),
    SetRoomTopicError(Error),
    SetRoomAvatarError(Error),
    GetRoomAvatarError(Error),
    MediaError(Error),
    AttachFileError(Error),
    SearchError(Error),
    NewRoomError(Error),
}

/// The session state: identity, sync cursor and counters. Mutated only by
/// the completion functions, on the success path of the matching call.
pub struct BackendData {
    pub user_id: String,
    pub access_token: String,
    pub server_url: String,
    /// Sync cursor: advances only on a successful sync, never regresses on
    /// a failed one; cleared at logout.
    pub since: String,
    /// Local transaction counter for sent messages; grows by one per send
    /// (stopping at the largest representable value rather than wrap).
    pub msgid: i32,
    pub rooms_since: String,
    pub join_to_room: String,
}

impl BackendData {
    /// Fresh session state: no identity, no cursor, counter at one.
    pub fn new() -> (r: BackendData)
        ensures
            r.user_id@ == Seq::<char>::empty(),
            r.access_token@ == Seq::<char>::empty(),
            r.server_url@ == "https://matrix.org"@,
            r.since@ == Seq::<char>::empty(),
            r.msgid == 1,
            r.rooms_since@ == Seq::<char>::empty(),
            r.join_to_room@ == Seq::<char>::empty(),
    {
        BackendData {
            user_id: String::new(),
            access_token: String::new(),
            server_url: "https://matrix.org".to_owned(),
            since: String::new(),
            msgid: 1,
            rooms_since: String::new(),
            join_to_room: String::new(),
        }
    }
}

/// One protocol call the dispatcher resolved a command into, carrying
/// everything the call needs from the command and the session state.
pub enum ProtocolCall {
    Login { user: String, password: String, server: String },
    Logout { server: String, token: String },
    Register { user: String, password: String, server: String },
    Guest { server: String },
    GetUsername { server: String, token: String, uid: String },
    GetAvatar { server: String, token: String, uid: String },
    Sync { server: String, token: String, since: String },
    GetRoomMessages { server: String, token: String, roomid: String },
    GetMessageContext { server: String, token: String, msg: Message },
    GetRoomAvatar { server: String, token: String, roomid: String },
    GetThumb { server: String, url: String, tx: std::sync::mpsc::Sender<String> },
    GetMemberAvatar { server: String, member: Member, tx: std::sync::mpsc::Sender<String> },
    GetMedia { server: String, url: String },
    GetUserInfo { server: String, uid: String },
    SendMsg { server: String, token: String, msg: Message, txn_id: i32 },
    GetRoomDetails { server: String, token: String, room: Room },
    DirectoryProtocols { server: String },
    DirectorySearch { server: String, query: String, protocol: String, more: bool },
    JoinRoom { server: String, token: String, roomid: String },
    MarkAsRead { server: String, token: String, roomid: String, evid: String },
    LeaveRoom { server: String, token: String, roomid: String },
    SetRoomName { server: String, token: String, roomid: String, name: String },
    SetRoomTopic { server: String, token: String, roomid: String, topic: String },
    SetRoomAvatar { server: String, token: String, roomid: String, avatar: String },
    AttachFile { server: String, token: String, roomid: String, path: String },
    AttachImage { server: String, token: String, roomid: String, image: Vec<u8> },
    Search { server: String, token: String, roomid: String, term: Option<String> },
    NewRoom { server: String, token: String, name: String, privacy: RoomType },
}

/// What the dispatcher decided for one command.
pub enum DispatchOutcome {
    /// Run this call on its own task; feed the outcome back through the
    /// completion functions.
    Call(ProtocolCall),
    /// Like `Call`, but the task must hold a download permit from
    /// `limit_threads` while it runs, released on every exit path.
    ThrottledCall(ProtocolCall),
    /// The command was answered at once from local state; nothing to run.
    Done,
    /// Stop the intake loop; no further command is accepted.
    Stop,
    /// The command arrived after shutdown and was dropped.
    Refused,
}

/// The engine: session state, identity cache, download throttle, and the
/// intake gate.
pub struct Backend {
    pub data: BackendData,
    /// User info cache: uid -> (name, avatar), single flight per uid.
    pub user_info_cache: IdentityCache,
    /// Semaphore limiting the number of tasks downloading images.
    pub limit_threads: DownloadThrottle,
    /// False once `ShutDown` was taken in.
    pub accepting: bool,
}

impl Backend {
    pub open spec fn wf(self) -> bool {
        &&& self.user_info_cache.wf()
        &&& self.limit_threads.wf()
    }

    /// Resolve one command into the protocol call that executes it.
    ///
    /// Reads and updates the session state as the command demands: login
    /// and registration pin the server, a send draws the next transaction
    /// id, a join records the pending-room-join marker, and a user-info
    /// lookup goes through the single-flight cache. `Sync` and
    /// `SyncForced` are executed alike here: suppressing an overlapping
    /// plain `Sync` is the caller's discipline, not the dispatcher's.
    /// After `ShutDown`, every command is refused.
    pub fn dispatch(&mut self, cmd: BKCommand) -> (r: DispatchOutcome)
        requires
            old(self).wf(),
        ensures
            final(self).wf(),
            final(self).limit_threads == old(self).limit_threads,
            !old(self).accepting ==> r is Refused && *final(self) == *old(self),
            old(self).accepting ==> final(self).accepting == !(cmd is ShutDown),
            old(self).accepting ==> !(cmd is GetUserInfoAsync) ==> final(self).user_info_cache@
                == old(self).user_info_cache@,
            old(self).accepting ==> match cmd {
                BKCommand::Login(user, password, server) => {
                    &&& final(self).data == (BackendData { server_url: server, ..old(self).data })
                    &&& r == (DispatchOutcome::Call(ProtocolCall::Login { user, password, server }))
                },
                BKCommand::Logout => {
                    &&& final(self).data == old(self).data
                    &&& r == (DispatchOutcome::Call(ProtocolCall::Logout {
                        server: old(self).data.server_url,
                        token: old(self).data.access_token,
                    }))
                },
                BKCommand::Register(user, password, server) => {
                    &&& final(self).data == (BackendData { server_url: server, ..old(self).data })
                    &&& r == (DispatchOutcome::Call(ProtocolCall::Register {
                        user,
                        password,
                        server,
                    }))
                },
                BKCommand::Guest(server) => {
                    &&& final(self).data == (BackendData { server_url: server, ..old(self).data })
                    &&& r == (DispatchOutcome::Call(ProtocolCall::Guest { server }))
                },
                BKCommand::GetUsername => {
                    &&& final(self).data == old(self).data
                    &&& r == (DispatchOutcome::Call(ProtocolCall::GetUsername {
                        server: old(self).data.server_url,
                        token: old(self).data.access_token,
                        uid: old(self).data.user_id,
                    }))
                },
                BKCommand::GetAvatar => {
                    &&& final(self).data == old(self).data
                    &&& r == (DispatchOutcome::Call(ProtocolCall::GetAvatar {
                        server: old(self).data.server_url,
                        token: old(self).data.access_token,
                        uid: old(self).data.user_id,
                    }))
                },
                BKCommand::Sync | BKCommand::SyncForced => {
                    &&& final(self).data == old(self).data
                    &&& r == (DispatchOutcome::Call(ProtocolCall::Sync {
                        server: old(self).data.server_url,
                        token: old(self).data.access_token,
                        since: old(self).data.since,
                    }))
                },
                BKCommand::GetRoomMessages(roomid) => {
                    &&& final(self).data == old(self).data
                    &&& r == (DispatchOutcome::Call(ProtocolCall::GetRoomMessages {
                        server: old(self).data.server_url,
                        token: old(self).data.access_token,
                        roomid,
                    }))
                },
                BKCommand::GetMessageContext(msg) => {
                    &&& final(self).data == old(self).data
                    &&& r == (DispatchOutcome::Call(ProtocolCall::GetMessageContext {
                        server: old(self).data.server_url,
                        token: old(self).data.access_token,
                        msg,
                    }))
                },
                BKCommand::GetRoomAvatar(roomid) => {
                    &&& final(self).data == old(self).data
                    &&& r == (DispatchOutcome::Call(ProtocolCall::GetRoomAvatar {
                        server: old(self).data.server_url,
                        token: old(self).data.access_token,
                        roomid,
                    }))
                },
                BKCommand::GetThumbAsync(url, tx) => {
                    &&& final(self).data == old(self).data
                    &&& r == (DispatchOutcome::ThrottledCall(ProtocolCall::GetThumb {
                        server: old(self).data.server_url,
                        url,
                        tx,
                    }))
                },
                BKCommand::GetAvatarAsync(member, tx) => {
                    &&& final(self).data == old(self).data
                    &&& match member {
                        Some(m) => r == (DispatchOutcome::ThrottledCall(
                            ProtocolCall::GetMemberAvatar {
                                server: old(self).data.server_url,
                                member: m,
                                tx,
                            },
                        )),
                        None => r is Done,
                    }
                },
                BKCommand::GetMedia(url) => {
                    &&& final(self).data == old(self).data
                    &&& r == (DispatchOutcome::Call(ProtocolCall::GetMedia {
                        server: old(self).data.server_url,
                        url,
                    }))
                },
                BKCommand::GetUserInfoAsync(uid, tx) => {
                    &&& final(self).data == old(self).data
                    &&& final(self).user_info_cache.spec_contains(uid@)
                    &&& forall|k: Seq<char>|
                        k != uid@ ==> final(self).user_info_cache.spec_get(k) == old(
                            self,
                        ).user_info_cache.spec_get(k)
                    &&& if !old(self).user_info_cache.spec_contains(uid@) {
                        // first caller for this uid: the one fetch starts
                        r == (DispatchOutcome::ThrottledCall(ProtocolCall::GetUserInfo {
                            server: old(self).data.server_url,
                            uid,
                        })) && !final(self).user_info_cache.spec_get(uid@).unwrap().filled
                            && final(self).user_info_cache.spec_get(uid@).unwrap().waiters@.len()
                            == 1
                    } else {
                        // later caller: ride the in-flight fetch (the cell
                        // gains this caller's sender) or be answered from
                        // the filled cell, which stays exactly as it is
                        let e0 = old(self).user_info_cache.spec_get(uid@).unwrap();
                        let e1 = final(self).user_info_cache.spec_get(uid@).unwrap();
                        r is Done && if e0.filled {
                            final(self).user_info_cache.spec_get(uid@) == old(
                                self,
                            ).user_info_cache.spec_get(uid@)
                        } else {
                            !e1.filled && e1.waiters@.len() == e0.waiters@.len() + 1
                        }
                    }
                },
                BKCommand::SendMsg(msg) => {
                    &&& final(self).data == (BackendData {
                        msgid: if old(self).data.msgid < i32::MAX {
                            (old(self).data.msgid + 1) as i32
                        } else {
                            old(self).data.msgid
                        },
                        ..old(self).data
                    })
                    &&& r == (DispatchOutcome::Call(ProtocolCall::SendMsg {
                        server: old(self).data.server_url,
                        token: old(self).data.access_token,
                        msg,
                        txn_id: old(self).data.msgid,
                    }))
                },
                BKCommand::SetRoom(room) => {
                    &&& final(self).data == old(self).data
                    &&& r == (DispatchOutcome::Call(ProtocolCall::GetRoomDetails {
                        server: old(self).data.server_url,
                        token: old(self).data.access_token,
                        room,
                    }))
                },
                BKCommand::ShutDown => {
                    &&& final(self).data == old(self).data
                    &&& !final(self).accepting
                    &&& r is Stop
                },
                BKCommand::DirectoryProtocols => {
                    &&& final(self).data == old(self).data
                    &&& r == (DispatchOutcome::Call(ProtocolCall::DirectoryProtocols {
                        server: old(self).data.server_url,
                    }))
                },
                BKCommand::DirectorySearch(query, protocol, more) => {
                    &&& final(self).data == old(self).data
                    &&& r == (DispatchOutcome::Call(ProtocolCall::DirectorySearch {
                        server: old(self).data.server_url,
                        query,
                        protocol,
                        more,
                    }))
                },
                BKCommand::JoinRoom(roomid) => {
                    &&& final(self).data == (BackendData {
                        join_to_room: roomid,
                        ..old(self).data
                    })
                    &&& r == (DispatchOutcome::Call(ProtocolCall::JoinRoom {
                        server: old(self).data.server_url,
                        token: old(self).data.access_token,
                        roomid,
                    }))
                },
                BKCommand::MarkAsRead(roomid, evid) => {
                    &&& final(self).data == old(self).data
                    &&& r == (DispatchOutcome::Call(ProtocolCall::MarkAsRead {
                        server: old(self).data.server_url,
                        token: old(self).data.access_token,
                        roomid,
                        evid,
                    }))
                },
                BKCommand::LeaveRoom(roomid) => {
                    &&& final(self).data == old(self).data
                    &&& r == (DispatchOutcome::Call(ProtocolCall::LeaveRoom {
                        server: old(self).data.server_url,
                        token: old(self).data.access_token,
                        roomid,
                    }))
                },
                BKCommand::SetRoomName(roomid, name) => {
                    &&& final(self).data == old(self).data
                    &&& r == (DispatchOutcome::Call(ProtocolCall::SetRoomName {
                        server: old(self).data.server_url,
                        token: old(self).data.access_token,
                        roomid,
                        name,
                    }))
                },
                BKCommand::SetRoomTopic(roomid, topic) => {
                    &&& final(self).data == old(self).data
                    &&& r == (DispatchOutcome::Call(ProtocolCall::SetRoomTopic {
                        server: old(self).data.server_url,
                        token: old(self).data.access_token,
                        roomid,
                        topic,
                    }))
                },
                BKCommand::SetRoomAvatar(roomid, avatar) => {
                    &&& final(self).data == old(self).data
                    &&& r == (DispatchOutcome::Call(ProtocolCall::SetRoomAvatar {
                        server: old(self).data.server_url,
                        token: old(self).data.access_token,
                        roomid,
                        avatar,
                    }))
                },
                BKCommand::AttachFile(roomid, path) => {
                    &&& final(self).data == old(self).data
                    &&& r == (DispatchOutcome::Call(ProtocolCall::AttachFile {
                        server: old(self).data.server_url,
                        token: old(self).data.access_token,
                        roomid,
                        path,
                    }))
                },
                BKCommand::AttachImage(roomid, image) => {
                    &&& final(self).data == old(self).data
                    &&& r == (DispatchOutcome::Call(ProtocolCall::AttachImage {
                        server: old(self).data.server_url,
                        token: old(self).data.access_token,
                        roomid,
                        image,
                    }))
                },
                BKCommand::Search(roomid, term) => {
                    &&& final(self).data == old(self).data
                    &&& r == (DispatchOutcome::Call(ProtocolCall::Search {
                        server: old(self).data.server_url,
                        token: old(self).data.access_token,
                        roomid,
                        term,
                    }))
                },
                BKCommand::NewRoom(name, privacy) => {
                    &&& final(self).data == old(self).data
                    &&& r == (DispatchOutcome::Call(ProtocolCall::NewRoom {
                        server: old(self).data.server_url,
                        token: old(self).data.access_token,
                        name,
                        privacy,
                    }))
                },
            },
    {
        if !self.accepting {
            return DispatchOutcome::Refused;
        }
        match cmd {
            BKCommand::Login(user, password, server) => {
                self.data.server_url = server.clone();
                DispatchOutcome::Call(ProtocolCall::Login { user, password, server })
            },
            BKCommand::Logout => DispatchOutcome::Call(ProtocolCall::Logout {
                server: self.data.server_url.clone(),
                token: self.data.access_token.clone(),
            }),
            BKCommand::Register(user, password, server) => {
                self.data.server_url = server.clone();
                DispatchOutcome::Call(ProtocolCall::Register { user, password, server })
            },
            BKCommand::Guest(server) => {
                self.data.server_url = server.clone();
                DispatchOutcome::Call(ProtocolCall::Guest { server })
            },
            BKCommand::GetUsername => DispatchOutcome::Call(ProtocolCall::GetUsername {
                server: self.data.server_url.clone(),
                token: self.data.access_token.clone(),
                uid: self.data.user_id.clone(),
            }),
            BKCommand::GetAvatar => DispatchOutcome::Call(ProtocolCall::GetAvatar {
                server: self.data.server_url.clone(),
                token: self.data.access_token.clone(),
                uid: self.data.user_id.clone(),
            }),
            BKCommand::Sync => DispatchOutcome::Call(ProtocolCall::Sync {
                server: self.data.server_url.clone(),
                token: self.data.access_token.clone(),
                since: self.data.since.clone(),
            }),
            BKCommand::SyncForced => DispatchOutcome::Call(ProtocolCall::Sync {
                server: self.data.server_url.clone(),
                token: self.data.access_token.clone(),
                since: self.data.since.clone(),
            }),
            BKCommand::GetRoomMessages(roomid) => DispatchOutcome::Call(
                ProtocolCall::GetRoomMessages {
                    server: self.data.server_url.clone(),
                    token: self.data.access_token.clone(),
                    roomid,
                },
            ),
            BKCommand::GetMessageContext(msg) => DispatchOutcome::Call(
                ProtocolCall::GetMessageContext {
                    server: self.data.server_url.clone(),
                    token: self.data.access_token.clone(),
                    msg,
                },
            ),
            BKCommand::GetRoomAvatar(roomid) => DispatchOutcome::Call(
                ProtocolCall::GetRoomAvatar {
                    server: self.data.server_url.clone(),
                    token: self.data.access_token.clone(),
                    roomid,
                },
            ),
            BKCommand::GetThumbAsync(url, tx) => DispatchOutcome::ThrottledCall(
                ProtocolCall::GetThumb { server: self.data.server_url.clone(), url, tx },
            ),
            BKCommand::GetAvatarAsync(member, tx) => match member {
                Some(m) => DispatchOutcome::ThrottledCall(ProtocolCall::GetMemberAvatar {
                    server: self.data.server_url.clone(),
                    member: m,
                    tx,
                }),
                None => {
                    // no member to look up: deliver the fallback at once,
                    // never silently drop the reply
                    send_string(&tx, String::new());
                    DispatchOutcome::Done
                },
            },
            BKCommand::GetMedia(url) => DispatchOutcome::Call(ProtocolCall::GetMedia {
                server: self.data.server_url.clone(),
                url,
            }),
            BKCommand::GetUserInfoAsync(uid, tx) => {
                match self.user_info_cache.resolve(&uid, tx) {
                    CacheLookup::Fetch => DispatchOutcome::ThrottledCall(
                        ProtocolCall::GetUserInfo { server: self.data.server_url.clone(), uid },
                    ),
                    CacheLookup::InFlight => DispatchOutcome::Done,
                    CacheLookup::Hit(tx2, name, avatar) => {
                        // answered from the cache; the sender was not parked
                        send_user_info(&tx2, name, avatar);
                        DispatchOutcome::Done
                    },
                }
            },
            BKCommand::SendMsg(msg) => {
                let txn_id = self.data.msgid;
                if self.data.msgid < i32::MAX {
                    self.data.msgid = self.data.msgid + 1;
                }
                DispatchOutcome::Call(ProtocolCall::SendMsg {
                    server: self.data.server_url.clone(),
                    token: self.data.access_token.clone(),
                    msg,
                    txn_id,
                })
            },
            BKCommand::SetRoom(room) => DispatchOutcome::Call(ProtocolCall::GetRoomDetails {
                server: self.data.server_url.clone(),
                token: self.data.access_token.clone(),
                room,
            }),
            BKCommand::ShutDown => {
                self.accepting = false;
                DispatchOutcome::Stop
            },
            BKCommand::DirectoryProtocols => DispatchOutcome::Call(
                ProtocolCall::DirectoryProtocols { server: self.data.server_url.clone() },
            ),
            BKCommand::DirectorySearch(query, protocol, more) => DispatchOutcome::Call(
                ProtocolCall::DirectorySearch {
                    server: self.data.server_url.clone(),
                    query,
                    protocol,
                    more,
                },
            ),
            BKCommand::JoinRoom(roomid) => {
                self.data.join_to_room = roomid.clone();
                DispatchOutcome::Call(ProtocolCall::JoinRoom {
                    server: self.data.server_url.clone(),
                    token: self.data.access_token.clone(),
                    roomid,
                })
            },
            BKCommand::MarkAsRead(roomid, evid) => DispatchOutcome::Call(
                ProtocolCall::MarkAsRead {
                    server: self.data.server_url.clone(),
                    token: self.data.access_token.clone(),
                    roomid,
                    evid,
                },
            ),
            BKCommand::LeaveRoom(roomid) => DispatchOutcome::Call(ProtocolCall::LeaveRoom {
                server: self.data.server_url.clone(),
                token: self.data.access_token.clone(),
                roomid,
            }),
            BKCommand::SetRoomName(roomid, name) => DispatchOutcome::Call(
                ProtocolCall::SetRoomName {
                    server: self.data.server_url.clone(),
                    token: self.data.access_token.clone(),
                    roomid,
                    name,
                },
            ),
            BKCommand::SetRoomTopic(roomid, topic) => DispatchOutcome::Call(
                ProtocolCall::SetRoomTopic {
                    server: self.data.server_url.clone(),
                    token: self.data.access_token.clone(),
                    roomid,
                    topic,
                },
            ),
            BKCommand::SetRoomAvatar(roomid, avatar) => DispatchOutcome::Call(
                ProtocolCall::SetRoomAvatar {
                    server: self.data.server_url.clone(),
                    token: self.data.access_token.clone(),
                    roomid,
                    avatar,
                },
            ),
            BKCommand::AttachFile(roomid, path) => DispatchOutcome::Call(
                ProtocolCall::AttachFile {
                    server: self.data.server_url.clone(),
                    token: self.data.access_token.clone(),
                    roomid,
                    path,
                },
            ),
            BKCommand::AttachImage(roomid, image) => DispatchOutcome::Call(
                ProtocolCall::AttachImage {
                    server: self.data.server_url.clone(),
                    token: self.data.access_token.clone(),
                    roomid,
                    image,
                },
            ),
            BKCommand::Search(roomid, term) => DispatchOutcome::Call(ProtocolCall::Search {
                server: self.data.server_url.clone(),
                token: self.data.access_token.clone(),
                roomid,
                term,
            }),
            BKCommand::NewRoom(name, privacy) => DispatchOutcome::Call(ProtocolCall::NewRoom {
                server: self.data.server_url.clone(),
                token: self.data.access_token.clone(),
                name,
                privacy,
            }),
        }
    }

    /// Finish a user-info fetch: store the pair under the user id — the
    /// empty-string fallback when the fetch failed, so later callers are
    /// answered rather than left waiting — and answer every parked rider,
    /// one send each. Returns how many riders were answered. The first
    /// completion wins (a filled cell keeps its pair and owes nobody),
    /// and with no cell for the id (logout tore the cache down since the
    /// fetch started) nothing changes and nobody is owed an answer.
    pub fn complete_user_info(&mut self, uid: &String, res: Result<(String, String), Error>) -> (n:
        usize)
        requires
            old(self).wf(),
        ensures
            final(self).wf(),
            final(self).data == old(self).data,
            final(self).accepting == old(self).accepting,
            final(self).limit_threads == old(self).limit_threads,
            match old(self).user_info_cache.spec_get(uid@) {
                Some(e0) => if e0.filled {
                    final(self).user_info_cache == old(self).user_info_cache && n == 0
                } else {
                    let e1 = final(self).user_info_cache.spec_get(uid@).unwrap();
                    &&& final(self).user_info_cache.spec_contains(uid@)
                    &&& e1.filled
                    &&& e1.waiters@.len() == 0
                    &&& match res {
                        Ok(p) => e1.name@ == p.0@ && e1.avatar@ == p.1@,
                        Err(_) => e1.name@ == Seq::<char>::empty() && e1.avatar@
                            == Seq::<char>::empty(),
                    }
                    &&& n == e0.waiters@.len()
                },
                None => final(self).user_info_cache@ == old(self).user_info_cache@ && n == 0,
            },
            forall|k: Seq<char>|
                k != uid@ ==> final(self).user_info_cache.spec_get(k) == old(
                    self,
                ).user_info_cache.spec_get(k),
            // a filled cell's pair is permanent
            forall|k: Seq<char>|
                match #[trigger] old(self).user_info_cache.spec_get(k) {
                    Some(e) => e.filled ==> final(self).user_info_cache.spec_get(k) == old(
                        self,
                    ).user_info_cache.spec_get(k),
                    None => true,
                },
    {
        let (name, avatar) = match res {
            Ok(p) => p,
            Err(_) => (String::new(), String::new()),
        };
        let waiters = self.user_info_cache.fill(uid, name.clone(), avatar.clone());
        let n = waiters.len();
        let mut i: usize = 0;
        while i < n
            invariant
                i <= n,
                n == waiters@.len(),
            decreases n - i,
        {
            send_user_info(&waiters[i], name.clone(), avatar.clone());
            i = i + 1;
        }
        n
    }

    /// A fresh engine accepting commands, with the given download limit.
    pub fn new(limit: u8) -> (r: Backend)
        ensures
            r.wf(),
            r.accepting,
            r.data.since@ == Seq::<char>::empty(),
            r.data.access_token@ == Seq::<char>::empty(),
            r.data.user_id@ == Seq::<char>::empty(),
            r.data.msgid == 1,
            r.user_info_cache@ == Seq::<crate::identity::CacheEntry>::empty(),
            r.limit_threads.spec_capacity() == limit as int,
            r.limit_threads.active() == 0,
    {
        Backend {
            data: BackendData::new(),
            user_info_cache: IdentityCache::new(),
            limit_threads: DownloadThrottle::new(limit),
            accepting: true,
        }
    }
}

/// What a successful sync brought back: the new cursor, the room list, a
/// room to select, the new messages, and the member events.
pub struct SyncUpdate {
    pub since: String,
    pub rooms: Vec<Room>,
    pub default: Option<Room>,
    pub new_messages: Vec<Message>,
    pub member_events: Vec<crate::types::Event>,
}

/// The outcome of one protocol call, fed back to `complete`. Each variant
/// matches the call that produced it and carries what the matching
/// responses need.
pub enum CallOutcome {
    Login(Result<(String, String), Error>),
    Logout(Result<(), Error>),
    Register(Result<(String, String), Error>),
    Guest(Result<(String, String), Error>),
    Username(Result<String, Error>),
    Avatar(Result<String, Error>),
    Sync(Result<SyncUpdate, Error>),
    RoomMessages(Result<Vec<Message>, Error>),
    MessageContext(Result<Vec<Message>, Error>),
    RoomAvatar(String, Result<String, Error>),
    RoomDetail(String, String, Result<String, Error>),
    RoomMembers(Result<Vec<Member>, Error>),
    Media(Result<String, Error>),
    SendMsg(Result<(), Error>),
    DirectoryProtocols(Result<Vec<Protocol>, Error>),
    DirectorySearch(Result<Vec<Room>, Error>),
    JoinRoom(Result<(), Error>),
    MarkAsRead(String, String, Result<(), Error>),
    LeaveRoom(Result<(), Error>),
    SetRoomName(Result<(), Error>),
    SetRoomTopic(Result<(), Error>),
    SetRoomAvatar(Result<(), Error>),
    AttachedFile(Result<Message, Error>),
    Search(Result<Vec<Message>, Error>),
    NewRoom(Result<Room, Error>),
}

impl Backend {
    /// Turn one call outcome into its broadcast responses, mutating the
    /// session only on the success path of the matching call:
    ///
    /// - the sync cursor takes the new value on sync success, stays
    ///   exactly as it was on sync failure or any other outcome, and is
    ///   cleared by the logout teardown;
    /// - identity fields are set by a successful login (and the guest and
    ///   registration variants), cleared by logout;
    /// - logout acknowledges locally whether or not the remote call
    ///   succeeded, and tears the identity cache down.
    ///
    /// Every failing outcome yields the error response of its command
    /// family and leaves the session untouched.
    pub fn complete(&mut self, outcome: CallOutcome) -> (r: Vec<BKResponse>)
        requires
            old(self).wf(),
        ensures
            final(self).wf(),
            final(self).accepting == old(self).accepting,
            final(self).limit_threads == old(self).limit_threads,
            // the cursor moves only on sync success, or is cleared at logout
            match outcome {
                CallOutcome::Sync(Ok(u)) => final(self).data.since == u.since,
                CallOutcome::Logout(_) => final(self).data.since@ == Seq::<char>::empty(),
                _ => final(self).data.since == old(self).data.since,
            },
            // the identity cache is torn down at logout, kept otherwise
            match outcome {
                CallOutcome::Logout(_) => final(self).user_info_cache@ == Seq::<
                    crate::identity::CacheEntry,
                >::empty(),
                _ => final(self).user_info_cache@ == old(self).user_info_cache@,
            },
            match outcome {
                CallOutcome::Login(res) | CallOutcome::Register(res) => match res {
                    Ok(p) => final(self).data == (BackendData {
                        user_id: p.0,
                        access_token: p.1,
                        ..old(self).data
                    }) && r@ == seq![BKResponse::Token(p.0, p.1)],
                    Err(e) => final(self).data == old(self).data && r@ == seq![
                        BKResponse::LoginError(e),
                    ],
                },
                CallOutcome::Guest(res) => match res {
                    Ok(p) => final(self).data == (BackendData {
                        user_id: p.0,
                        access_token: p.1,
                        ..old(self).data
                    }) && r@ == seq![BKResponse::Token(p.0, p.1)],
                    Err(e) => final(self).data == old(self).data && r@ == seq![
                        BKResponse::GuestLoginError(e),
                    ],
                },
                CallOutcome::Logout(_) => {
                    // best-effort remote, authoritative local: always the ack
                    &&& final(self).data.user_id@ == Seq::<char>::empty()
                    &&& final(self).data.access_token@ == Seq::<char>::empty()
                    &&& final(self).data.since@ == Seq::<char>::empty()
                    &&& final(self).data.server_url == old(self).data.server_url
                    &&& final(self).data.msgid == old(self).data.msgid
                    &&& r@ == seq![BKResponse::Logout]
                },
                CallOutcome::Username(res) => final(self).data == old(self).data && match res {
                    Ok(name) => r@ == seq![BKResponse::Name(name)],
                    Err(e) => r@ == seq![BKResponse::UserNameError(e)],
                },
                CallOutcome::Avatar(res) => final(self).data == old(self).data && match res {
                    Ok(path) => r@ == seq![BKResponse::Avatar(path)],
                    Err(e) => r@ == seq![BKResponse::AvatarError(e)],
                },
                CallOutcome::Sync(res) => match res {
                    Ok(u) => {
                        // the one place the cursor advances
                        &&& final(self).data == (BackendData {
                            since: u.since,
                            ..old(self).data
                        })
                        &&& r@.len() == 3 + u.member_events@.len()
                        &&& r@[0] == (BKResponse::Rooms(u.rooms, u.default))
                        &&& r@[1] == (BKResponse::RoomMessages(u.new_messages))
                        &&& (forall|i: int|
                            0 <= i < u.member_events@.len() ==> r@[2 + i]
                                == (BKResponse::RoomMemberEvent(u.member_events@[i])))
                        &&& r@[r@.len() - 1] == (BKResponse::Sync(u.since))
                    },
                    Err(e) => {
                        // a failed sync leaves the state strictly unchanged
                        &&& final(self).data == old(self).data
                        &&& r@ == seq![BKResponse::SyncError(e)]
                    },
                },
                CallOutcome::RoomMessages(res) => final(self).data == old(self).data && match res {
                    Ok(msgs) => r@ == seq![BKResponse::RoomMessagesInit(msgs)],
                    Err(e) => r@ == seq![BKResponse::RoomMessagesError(e)],
                },
                CallOutcome::MessageContext(res) => final(self).data == old(self).data
                    && match res {
                    Ok(msgs) => r@ == seq![BKResponse::RoomMessagesTo(msgs)],
                    Err(e) => r@ == seq![BKResponse::RoomMessagesError(e)],
                },
                CallOutcome::RoomAvatar(roomid, res) => final(self).data == old(self).data
                    && match res {
                    Ok(avatar) => r@ == seq![BKResponse::RoomAvatar(roomid, avatar)],
                    Err(e) => r@ == seq![BKResponse::GetRoomAvatarError(e)],
                },
                CallOutcome::RoomDetail(roomid, key, res) => final(self).data == old(self).data
                    && match res {
                    Ok(value) => r@ == seq![BKResponse::RoomDetail(roomid, key, value)],
                    Err(e) => r@ == seq![BKResponse::RoomDetailError(e)],
                },
                CallOutcome::RoomMembers(res) => final(self).data == old(self).data && match res {
                    Ok(members) => r@ == seq![BKResponse::RoomMembers(members)],
                    Err(e) => r@ == seq![BKResponse::RoomMembersError(e)],
                },
                CallOutcome::Media(res) => final(self).data == old(self).data && match res {
                    Ok(path) => r@ == seq![BKResponse::Media(path)],
                    Err(e) => r@ == seq![BKResponse::MediaError(e)],
                },
                CallOutcome::SendMsg(res) => final(self).data == old(self).data && match res {
                    Ok(_) => r@ == seq![BKResponse::SendMsg],
                    Err(e) => r@ == seq![BKResponse::SendMsgError(e)],
                },
                CallOutcome::DirectoryProtocols(res) => final(self).data == old(self).data
                    && match res {
                    Ok(protocols) => r@ == seq![BKResponse::DirectoryProtocols(protocols)],
                    Err(e) => r@ == seq![BKResponse::DirectoryError(e)],
                },
                CallOutcome::DirectorySearch(res) => final(self).data == old(self).data
                    && match res {
                    Ok(rooms) => r@ == seq![BKResponse::DirectorySearch(rooms)],
                    Err(e) => r@ == seq![BKResponse::DirectoryError(e)],
                },
                CallOutcome::JoinRoom(res) => final(self).data == old(self).data && match res {
                    Ok(_) => r@ == seq![BKResponse::JoinRoom],
                    Err(e) => r@ == seq![BKResponse::JoinRoomError(e)],
                },
                CallOutcome::MarkAsRead(roomid, evid, res) => final(self).data == old(self).data
                    && match res {
                    Ok(_) => r@ == seq![BKResponse::MarkedAsRead(roomid, evid)],
                    Err(e) => r@ == seq![BKResponse::MarkAsReadError(e)],
                },
                CallOutcome::LeaveRoom(res) => final(self).data == old(self).data && match res {
                    Ok(_) => r@ == seq![BKResponse::LeaveRoom],
                    Err(e) => r@ == seq![BKResponse::LeaveRoomError(e)],
                },
                CallOutcome::SetRoomName(res) => final(self).data == old(self).data && match res {
                    Ok(_) => r@ == seq![BKResponse::SetRoomName],
                    Err(e) => r@ == seq![BKResponse::SetRoomNameError(e)],
                },
                CallOutcome::SetRoomTopic(res) => final(self).data == old(self).data && match res {
                    Ok(_) => r@ == seq![BKResponse::SetRoomTopic],
                    Err(e) => r@ == seq![BKResponse::SetRoomTopicError(e)],
                },
                CallOutcome::SetRoomAvatar(res) => final(self).data == old(self).data
                    && match res {
                    Ok(_) => r@ == seq![BKResponse::SetRoomAvatar],
                    Err(e) => r@ == seq![BKResponse::SetRoomAvatarError(e)],
                },
                CallOutcome::AttachedFile(res) => final(self).data == old(self).data && match res {
                    Ok(msg) => r@ == seq![BKResponse::AttachedFile(msg)],
                    Err(e) => r@ == seq![BKResponse::AttachFileError(e)],
                },
                CallOutcome::Search(res) => final(self).data == old(self).data && match res {
                    Ok(msgs) => r@ == seq![
                        BKResponse::RoomMessagesInit(msgs),
                        BKResponse::SearchEnd,
                    ],
                    Err(e) => r@ == seq![BKResponse::SearchError(e), BKResponse::SearchEnd],
                },
                CallOutcome::NewRoom(res) => final(self).data == old(self).data && match res {
                    Ok(room) => r@ == seq![BKResponse::NewRoom(room)],
                    Err(e) => r@ == seq![BKResponse::NewRoomError(e)],
                },
            },
    {
        let mut r: Vec<BKResponse> = Vec::new();
        match outcome {
            CallOutcome::Login(res) | CallOutcome::Register(res) => match res {
                Ok((uid, token)) => {
                    self.data.user_id = uid.clone();
                    self.data.access_token = token.clone();
                    r.push(BKResponse::Token(uid, token));
                },
                Err(e) => {
                    r.push(BKResponse::LoginError(e));
                },
            },
            CallOutcome::Guest(res) => match res {
                Ok((uid, token)) => {
                    self.data.user_id = uid.clone();
                    self.data.access_token = token.clone();
                    r.push(BKResponse::Token(uid, token));
                },
                Err(e) => {
                    r.push(BKResponse::GuestLoginError(e));
                },
            },
            CallOutcome::Logout(_) => {
                self.data.user_id = String::new();
                self.data.access_token = String::new();
                self.data.since = String::new();
                self.user_info_cache.clear();
                r.push(BKResponse::Logout);
            },
            CallOutcome::Username(res) => match res {
                Ok(name) => r.push(BKResponse::Name(name)),
                Err(e) => r.push(BKResponse::UserNameError(e)),
            },
            CallOutcome::Avatar(res) => match res {
                Ok(path) => r.push(BKResponse::Avatar(path)),
                Err(e) => r.push(BKResponse::AvatarError(e)),
            },
            CallOutcome::Sync(res) => match res {
                Ok(u) => {
                    self.data.since = u.since.clone();
                    r.push(BKResponse::Rooms(u.rooms, u.default));
                    r.push(BKResponse::RoomMessages(u.new_messages));
                    let mut evs = u.member_events;
                    let n = evs.len();
                    let mut i: usize = 0;
                    while i < n
                        invariant
                            i <= n,
                            n == evs@.len(),
                            r@.len() == 2 + i,
                            r@[0] == (BKResponse::Rooms(u.rooms, u.default)),
                            r@[1] == (BKResponse::RoomMessages(u.new_messages)),
                            forall|j: int|
                                0 <= j < i ==> r@[2 + j] == (BKResponse::RoomMemberEvent(
                                    evs@[j],
                                )),
                        decreases n - i,
                    {
                        r.push(BKResponse::RoomMemberEvent(evs[i].clone()));
                        i = i + 1;
                    }
                    r.push(BKResponse::Sync(u.since));
                },
                Err(e) => {
                    r.push(BKResponse::SyncError(e));
                },
            },
            CallOutcome::RoomMessages(res) => match res {
                Ok(msgs) => r.push(BKResponse::RoomMessagesInit(msgs)),
                Err(e) => r.push(BKResponse::RoomMessagesError(e)),
            },
            CallOutcome::MessageContext(res) => match res {
                Ok(msgs) => r.push(BKResponse::RoomMessagesTo(msgs)),
                Err(e) => r.push(BKResponse::RoomMessagesError(e)),
            },
            CallOutcome::RoomAvatar(roomid, res) => match res {
                Ok(avatar) => r.push(BKResponse::RoomAvatar(roomid, avatar)),
                Err(e) => r.push(BKResponse::GetRoomAvatarError(e)),
            },
            CallOutcome::RoomDetail(roomid, key, res) => match res {
                Ok(value) => r.push(BKResponse::RoomDetail(roomid, key, value)),
                Err(e) => r.push(BKResponse::RoomDetailError(e)),
            },
            CallOutcome::RoomMembers(res) => match res {
                Ok(members) => r.push(BKResponse::RoomMembers(members)),
                Err(e) => r.push(BKResponse::RoomMembersError(e)),
            },
            CallOutcome::Media(res) => match res {
                Ok(path) => r.push(BKResponse::Media(path)),
                Err(e) => r.push(BKResponse::MediaError(e)),
            },
            CallOutcome::SendMsg(res) => match res {
                Ok(_) => r.push(BKResponse::SendMsg),
                Err(e) => r.push(BKResponse::SendMsgError(e)),
            },
            CallOutcome::DirectoryProtocols(res) => match res {
                Ok(protocols) => r.push(BKResponse::DirectoryProtocols(protocols)),
                Err(e) => r.push(BKResponse::DirectoryError(e)),
            },
            CallOutcome::DirectorySearch(res) => match res {
                Ok(rooms) => r.push(BKResponse::DirectorySearch(rooms)),
                Err(e) => r.push(BKResponse::DirectoryError(e)),
            },
            CallOutcome::JoinRoom(res) => match res {
                Ok(_) => r.push(BKResponse::JoinRoom),
                Err(e) => r.push(BKResponse::JoinRoomError(e)),
            },
            CallOutcome::MarkAsRead(roomid, evid, res) => match res {
                Ok(_) => r.push(BKResponse::MarkedAsRead(roomid, evid)),
                Err(e) => r.push(BKResponse::MarkAsReadError(e)),
            },
            CallOutcome::LeaveRoom(res) => match res {
                Ok(_) => r.push(BKResponse::LeaveRoom),
                Err(e) => r.push(BKResponse::LeaveRoomError(e)),
            },
            CallOutcome::SetRoomName(res) => match res {
                Ok(_) => r.push(BKResponse::SetRoomName),
                Err(e) => r.push(BKResponse::SetRoomNameError(e)),
            },
            CallOutcome::SetRoomTopic(res) => match res {
                Ok(_) => r.push(BKResponse::SetRoomTopic),
                Err(e) => r.push(BKResponse::SetRoomTopicError(e)),
            },
            CallOutcome::SetRoomAvatar(res) => match res {
                Ok(_) => r.push(BKResponse::SetRoomAvatar),
                Err(e) => r.push(BKResponse::SetRoomAvatarError(e)),
            },
            CallOutcome::AttachedFile(res) => match res {
                Ok(msg) => r.push(BKResponse::AttachedFile(msg)),
                Err(e) => r.push(BKResponse::AttachFileError(e)),
            },
            CallOutcome::Search(res) => {
                match res {
                    Ok(msgs) => r.push(BKResponse::RoomMessagesInit(msgs)),
                    Err(e) => r.push(BKResponse::SearchError(e)),
                }
                r.push(BKResponse::SearchEnd);
            },
            CallOutcome::NewRoom(res) => match res {
                Ok(room) => r.push(BKResponse::NewRoom(room)),
                Err(e) => r.push(BKResponse::NewRoomError(e)),
            },
        }
        r
    }
}

/// The value a finished thumbnail or avatar fetch owes its caller: the
/// fetched path, or the empty-string fallback when the fetch failed.
pub fn media_reply_value(res: Result<String, Error>) -> (r: String)
    ensures
        res matches Ok(path) ==> r@ == path@,
        res is Err ==> r@ == Seq::<char>::empty(),
{
    match res {
        Ok(path) => path,
        Err(_) => String::new(),
    }
}

/// Deliver the result of a thumbnail or avatar fetch on the command's
/// reply sender: exactly one send of `media_reply_value(res)`, never a
/// silent drop. Whether the send lands depends on the receiver alone.
pub fn deliver_media_reply(
    tx: &std::sync::mpsc::Sender<String>,
    res: Result<String, Error>,
) -> bool {
    send_string(tx, media_reply_value(res))
}

} // verus!
