//! Plain data carried through the engine: messages, members, rooms,
//! directory protocols and member events.
//!
//! A message date is a unix timestamp in seconds; a member event carries the
//! membership fields the engine reads (membership kind, display name and
//! avatar location) as plain optional strings.

use vstd::prelude::*;

verus! {

/// One chat message, sent or received.
#[derive(Debug, PartialEq)]
pub struct Message {
    pub sender: String,
    pub mtype: String,
    pub body: String,
    pub room: String,
    /// Unix timestamp, in seconds, of when the message was written.
    pub date: i64,
    pub thumb: Option<String>,
    pub url: Option<String>,
    pub id: Option<String>,
}

/// One member of a room.
#[derive(Debug, PartialEq)]
pub struct Member {
    pub alias: Option<String>,
    pub avatar: Option<String>,
    pub uid: String,
}

/// One room the user takes part in, with its local message and member state.
#[derive(Debug, PartialEq)]
pub struct Room {
    pub id: String,
    pub name: Option<String>,
    pub topic: Option<String>,
    pub avatar: Option<String>,
    pub notifications: i32,
    pub messages: Vec<Message>,
    pub members: Vec<Member>,
}

/// One third-party directory protocol offered by the server.
#[derive(Debug, PartialEq)]
pub struct Protocol {
    pub id: String,
    pub desc: String,
}

/// One room member event, reduced to the fields the engine reads.
#[derive(Debug, PartialEq)]
pub struct Event {
    pub sender: String,
    pub room: String,
    /// The membership kind ("join", "leave", ...), when the event has one.
    pub membership: Option<String>,
    pub displayname: Option<String>,
    pub avatar_url: Option<String>,
}

/// Visibility of a room to be created.
#[derive(Debug, PartialEq)]
pub enum RoomType {
    Public,
    Private,
}

fn clone_opt_string(o: &Option<String>) -> (r: Option<String>)
    ensures
        r == *o,
{
    match o {
        Some(s) => Some(s.clone()),
        None => None,
    }
}

impl Clone for Message {
    fn clone(&self) -> (r: Self)
        ensures
            r == *self,
    {
        Message {
            sender: self.sender.clone(),
            mtype: self.mtype.clone(),
            body: self.body.clone(),
            room: self.room.clone(),
            date: self.date,
            thumb: clone_opt_string(&self.thumb),
            url: clone_opt_string(&self.url),
            id: clone_opt_string(&self.id),
        }
    }
}

impl Member {
    /// The name to show for the member: the alias when one is set, the
    /// user id otherwise.
    pub fn get_alias(&self) -> (r: String)
        ensures
            r@ == self.display_name(),
    {
        match &self.alias {
            Some(a) => a.clone(),
            None => self.uid.clone(),
        }
    }

    pub open spec fn display_name(self) -> Seq<char> {
        match self.alias {
            Some(a) => a@,
            None => self.uid@,
        }
    }
}

impl Clone for Member {
    fn clone(&self) -> (r: Self)
        ensures
            r == *self,
    {
        Member {
            alias: clone_opt_string(&self.alias),
            avatar: clone_opt_string(&self.avatar),
            uid: self.uid.clone(),
        }
    }
}

fn clone_messages(v: &Vec<Message>) -> (r: Vec<Message>)
    ensures
        r@ == v@,
{
    let mut r: Vec<Message> = Vec::new();
    let mut i: usize = 0;
    while i < v.len()
        invariant
            i <= v.len(),
            r@ == v@.subrange(0, i as int),
        decreases v.len() - i,
    {
        r.push(v[i].clone());
        i = i + 1;
    }
    proof {
        assert(r@ =~= v@);
    }
    r
}

/// A fresh vector holding the same members.
pub fn clone_member_vec(v: &Vec<Member>) -> (r: Vec<Member>)
    ensures
        r@ == v@,
{
    let mut r: Vec<Member> = Vec::new();
    let mut i: usize = 0;
    while i < v.len()
        invariant
            i <= v.len(),
            r@ == v@.subrange(0, i as int),
        decreases v.len() - i,
    {
        r.push(v[i].clone());
        i = i + 1;
    }
    proof {
        assert(r@ =~= v@);
    }
    r
}

/// `a` holds the same data as `b`. Rooms hold vectors, whose abstract
/// content is compared here; this is the equality the engine's contracts
/// use for rooms.
pub open spec fn room_like(a: Room, b: Room) -> bool {
    &&& a.id == b.id
    &&& a.name == b.name
    &&& a.topic == b.topic
    &&& a.avatar == b.avatar
    &&& a.notifications == b.notifications
    &&& a.messages@ == b.messages@
    &&& a.members@ == b.members@
}

impl Clone for Room {
    fn clone(&self) -> (r: Self)
        ensures
            room_like(r, *self),
    {
        Room {
            id: self.id.clone(),
            name: clone_opt_string(&self.name),
            topic: clone_opt_string(&self.topic),
            avatar: clone_opt_string(&self.avatar),
            notifications: self.notifications,
            messages: clone_messages(&self.messages),
            members: clone_member_vec(&self.members),
        }
    }
}

impl Clone for Protocol {
    fn clone(&self) -> (r: Self)
        ensures
            r == *self,
    {
        Protocol { id: self.id.clone(), desc: self.desc.clone() }
    }
}

impl Clone for Event {
    fn clone(&self) -> (r: Self)
        ensures
            r == *self,
    {
        Event {
            sender: self.sender.clone(),
            room: self.room.clone(),
            membership: clone_opt_string(&self.membership),
            displayname: clone_opt_string(&self.displayname),
            avatar_url: clone_opt_string(&self.avatar_url),
        }
    }
}

impl Clone for RoomType {
    fn clone(&self) -> (r: Self)
        ensures
            r == *self,
    {
        match self {
            RoomType::Public => RoomType::Public,
            RoomType::Private => RoomType::Private,
        }
    }
}

} // verus!
