//! The set of rooms the session knows, keyed by room id.
//!
//! Backed by a vector whose invariant is that room ids are distinct, so a
//! lookup by id has at most one answer. Contracts are stated pointwise:
//! what the lookup of each id returns before and after an operation.

use vstd::prelude::*;

use crate::types::Member;
use crate::types::Message;
use crate::types::Room;

verus! {

/// Index of the first member with the given user id, or the length of the
/// sequence when no member has it.
pub open spec fn first_member_idx(s: Seq<Member>, uid: Seq<char>) -> int
    decreases s.len(),
{
    if s.len() == 0 {
        0
    } else if s[0].uid@ == uid {
        0
    } else {
        1 + first_member_idx(s.drop_first(), uid)
    }
}

/// A scan that found no match before `i`, and a match at `i` unless `i` is
/// the length, has found the first match.
pub proof fn lemma_first_member_idx(s: Seq<Member>, uid: Seq<char>, i: int)
    requires
        0 <= i <= s.len(),
        forall|j: int| 0 <= j < i ==> s[j].uid@ != uid,
        i < s.len() ==> s[i].uid@ == uid,
    ensures
        first_member_idx(s, uid) == i,
    decreases s.len(),
{
    if s.len() > 0 && s[0].uid@ != uid {
        assert(i > 0);
        lemma_first_member_idx(s.drop_first(), uid, i - 1);
    }
}

/// The member sequence after storing `m`: the first member with the same
/// user id is replaced, or `m` is appended when there is none.
pub open spec fn members_insert(s: Seq<Member>, m: Member) -> Seq<Member> {
    let i = first_member_idx(s, m.uid@);
    if i < s.len() {
        s.update(i, m)
    } else {
        s.push(m)
    }
}

/// The member sequence after dropping the given user id: the first member
/// with it is removed; nothing changes when there is none.
pub open spec fn members_remove(s: Seq<Member>, uid: Seq<char>) -> Seq<Member> {
    let i = first_member_idx(s, uid);
    if i < s.len() {
        s.remove(i)
    } else {
        s
    }
}

/// Index of the first member with the given user id, if any.
pub fn find_member(v: &Vec<Member>, uid: &String) -> (r: Option<usize>)
    ensures
        match r {
            Some(i) => i < v@.len() && v@[i as int].uid@ == uid@ && first_member_idx(v@, uid@)
                == i,
            None => first_member_idx(v@, uid@) == v@.len(),
        },
{
    let n = v.len();
    let mut i: usize = 0;
    while i < n
        invariant
            n == v@.len(),
            i <= n,
            forall|j: int| 0 <= j < i ==> v@[j].uid@ != uid@,
        decreases n - i,
    {
        if v[i].uid.eq(uid) {
            proof {
                lemma_first_member_idx(v@, uid@, i as int);
            }
            return Some(i);
        }
        i = i + 1;
    }
    proof {
        lemma_first_member_idx(v@, uid@, n as int);
    }
    None
}

pub struct RoomList {
    rooms: Vec<Room>,
}

impl View for RoomList {
    type V = Seq<Room>;

    closed spec fn view(&self) -> Seq<Room> {
        self.rooms@
    }
}

impl RoomList {
    /// Room ids are distinct, so each id names at most one room.
    pub open spec fn wf(self) -> bool {
        forall|i: int, j: int|
            0 <= i < j < self@.len() ==> self@[i].id@ != self@[j].id@
    }

    pub open spec fn spec_contains(self, id: Seq<char>) -> bool {
        exists|i: int| 0 <= i < self@.len() && self@[i].id@ == id
    }

    /// The index of the room with the given id; meaningful only when
    /// `spec_contains(id)` holds (and then unique, by `wf`).
    pub open spec fn idx_of(self, id: Seq<char>) -> int {
        choose|i: int| 0 <= i < self@.len() && self@[i].id@ == id
    }

    /// The room stored under the given id, if any.
    pub open spec fn spec_get(self, id: Seq<char>) -> Option<Room> {
        if self.spec_contains(id) {
            Some(self@[self.idx_of(id)])
        } else {
            None
        }
    }

    /// Under `wf`, any index holding `id` is the index `spec_get` reads.
    pub proof fn lemma_get_at(self, id: Seq<char>, i: int)
        requires
            self.wf(),
            0 <= i < self@.len(),
            self@[i].id@ == id,
        ensures
            self.spec_contains(id),
            self.idx_of(id) == i,
            self.spec_get(id) == Some(self@[i]),
    {
        let j = self.idx_of(id);
        assert(0 <= j < self@.len() && self@[j].id@ == id);
        if i != j {
            assert(self@[i].id@ != self@[j].id@);
        }
    }

    pub fn new() -> (r: RoomList)
        ensures
            r.wf(),
            r@ == Seq::<Room>::empty(),
    {
        RoomList { rooms: Vec::new() }
    }

    pub fn clear(&mut self)
        ensures
            final(self).wf(),
            final(self)@ == Seq::<Room>::empty(),
    {
        self.rooms.clear();
    }

    pub fn len(&self) -> (n: usize)
        ensures
            n == self@.len(),
    {
        self.rooms.len()
    }

    /// All rooms, in storage order.
    pub fn as_vec(&self) -> (r: &Vec<Room>)
        ensures
            r@ == self@,
    {
        &self.rooms
    }

    /// The index of the room with the given id, if the id is known.
    fn find(&self, id: &String) -> (r: Option<usize>)
        requires
            self.wf(),
        ensures
            match r {
                Some(i) => i < self@.len() && self@[i as int].id@ == id@
                    && self.spec_contains(id@) && self.idx_of(id@) == i,
                None => !self.spec_contains(id@),
            },
    {
        let n = self.rooms.len();
        let mut i: usize = 0;
        while i < n
            invariant
                self.wf(),
                n == self@.len(),
                i <= n,
                forall|j: int| 0 <= j < i ==> self@[j].id@ != id@,
            decreases n - i,
        {
            if self.rooms[i].id.eq(id) {
                proof {
                    self.lemma_get_at(id@, i as int);
                }
                return Some(i);
            }
            i = i + 1;
        }
        None
    }

    pub fn contains_key(&self, id: &String) -> (r: bool)
        requires
            self.wf(),
        ensures
            r == self.spec_contains(id@),
    {
        match self.find(id) {
            Some(_) => true,
            None => false,
        }
    }

    pub fn get(&self, id: &String) -> (r: Option<&Room>)
        requires
            self.wf(),
        ensures
            match r {
                Some(room) => self.spec_get(id@) == Some(*room),
                None => !self.spec_contains(id@),
            },
    {
        match self.find(id) {
            Some(i) => Some(&self.rooms[i]),
            None => None,
        }
    }

    /// Insert a room under its id, replacing any room already stored
    /// under that id.
    pub fn insert(&mut self, room: Room)
        requires
            old(self).wf(),
        ensures
            final(self).wf(),
            final(self).spec_get(room.id@) == Some(room),
            forall|k: Seq<char>|
                k != room.id@ ==> final(self).spec_get(k) == old(self).spec_get(k),
            final(self)@.len() == old(self)@.len() + (
                if old(self).spec_contains(room.id@) {
                    0int
                } else {
                    1int
                }
            ),
    {
        let ghost id_view = room.id@;
        match self.find(&room.id) {
            Some(i) => {
                self.rooms.set(i, room);
                proof {
                    let a = *old(self);
                    let b = *self;
                    assert(forall|j: int|
                        0 <= j < b@.len() ==> b@[j].id@ == a@[j].id@);
                    assert(b.wf());
                    b.lemma_get_at(id_view, i as int);
                    assert forall|k: Seq<char>| k != id_view implies b.spec_get(k)
                        == a.spec_get(k) by {
                        Self::lemma_same_ids_same_get(a, b, k);
                    }
                }
            },
            None => {
                self.rooms.push(room);
                proof {
                    let a = *old(self);
                    let b = *self;
                    let n = a@.len() as int;
                    assert(b@[n].id@ == id_view);
                    assert(forall|j: int| 0 <= j < n ==> b@[j] == a@[j]);
                    assert(b.wf());
                    b.lemma_get_at(id_view, n);
                    assert forall|k: Seq<char>| k != id_view implies b.spec_get(k)
                        == a.spec_get(k) by {
                        Self::lemma_push_other_get(a, b, k);
                    }
                }
            },
        }
    }

    /// Helper: two well-formed lists of the same length whose ids agree at
    /// every index, and whose rooms agree at every index holding `k`, look
    /// `k` up the same way.
    proof fn lemma_same_ids_same_get(a: RoomList, b: RoomList, k: Seq<char>)
        requires
            a.wf(),
            b.wf(),
            a@.len() == b@.len(),
            forall|j: int| 0 <= j < a@.len() ==> a@[j].id@ == b@[j].id@,
            forall|j: int| 0 <= j < a@.len() && a@[j].id@ == k ==> a@[j] == b@[j],
        ensures
            a.spec_get(k) == b.spec_get(k),
    {
        if a.spec_contains(k) {
            let i = a.idx_of(k);
            assert(0 <= i < a@.len() && a@[i].id@ == k);
            b.lemma_get_at(k, i);
            a.lemma_get_at(k, i);
        } else {
            assert(!b.spec_contains(k)) by {
                if b.spec_contains(k) {
                    let i = b.idx_of(k);
                    assert(0 <= i < b@.len() && b@[i].id@ == k);
                    assert(a@[i].id@ == k);
                }
            }
        }
    }

    /// Helper: appending a room with a different id from `k` leaves the
    /// lookup of `k` unchanged.
    proof fn lemma_push_other_get(a: RoomList, b: RoomList, k: Seq<char>)
        requires
            a.wf(),
            b.wf(),
            b@.len() == a@.len() + 1,
            forall|j: int| 0 <= j < a@.len() ==> a@[j] == b@[j],
            b@[a@.len() as int].id@ != k,
        ensures
            a.spec_get(k) == b.spec_get(k),
    {
        if a.spec_contains(k) {
            let i = a.idx_of(k);
            assert(0 <= i < a@.len() && a@[i].id@ == k);
            assert(b@[i].id@ == k);
            a.lemma_get_at(k, i);
            b.lemma_get_at(k, i);
        } else {
            assert(!b.spec_contains(k)) by {
                if b.spec_contains(k) {
                    let i = b.idx_of(k);
                    assert(0 <= i < b@.len() && b@[i].id@ == k);
                    assert(i < a@.len());
                    assert(a@[i].id@ == k);
                }
            }
        }
    }

    /// Helper: replacing the room at one index by a room with the same id
    /// keeps the list well formed, changes the lookup of that id to the new
    /// room, and leaves every other lookup unchanged.
    proof fn lemma_point_update(a: RoomList, b: RoomList, i: int)
        requires
            a.wf(),
            0 <= i < a@.len(),
            b@.len() == a@.len(),
            forall|j: int| 0 <= j < a@.len() && j != i ==> b@[j] == a@[j],
            b@[i].id@ == a@[i].id@,
        ensures
            b.wf(),
            b.spec_get(a@[i].id@) == Some(b@[i]),
            forall|k: Seq<char>| k != a@[i].id@ ==> b.spec_get(k) == a.spec_get(k),
    {
        assert(forall|j: int| 0 <= j < a@.len() ==> b@[j].id@ == a@[j].id@);
        assert(b.wf());
        b.lemma_get_at(a@[i].id@, i);
        assert forall|k: Seq<char>| k != a@[i].id@ implies b.spec_get(k) == a.spec_get(k) by {
            Self::lemma_same_ids_same_get(a, b, k);
        }
    }

    /// Set the name of the room stored under the given id, if any.
    pub fn set_name(&mut self, id: &String, name: Option<String>)
        requires
            old(self).wf(),
        ensures
            final(self).wf(),
            final(self)@.len() == old(self)@.len(),
            match old(self).spec_get(id@) {
                Some(r0) => final(self).spec_get(id@) == Some(Room { name, ..r0 }),
                None => *final(self) == *old(self),
            },
            forall|k: Seq<char>|
                k != id@ ==> final(self).spec_get(k) == old(self).spec_get(k),
    {
        match self.find(id) {
            Some(i) => {
                let r = &mut self.rooms[i];
                r.name = name;
                proof {
                    Self::lemma_point_update(*old(self), *self, i as int);
                }
            },
            None => {},
        }
    }

    /// Set the topic of the room stored under the given id, if any.
    pub fn set_topic(&mut self, id: &String, topic: Option<String>)
        requires
            old(self).wf(),
        ensures
            final(self).wf(),
            final(self)@.len() == old(self)@.len(),
            match old(self).spec_get(id@) {
                Some(r0) => final(self).spec_get(id@) == Some(Room { topic, ..r0 }),
                None => *final(self) == *old(self),
            },
            forall|k: Seq<char>|
                k != id@ ==> final(self).spec_get(k) == old(self).spec_get(k),
    {
        match self.find(id) {
            Some(i) => {
                let r = &mut self.rooms[i];
                r.topic = topic;
                proof {
                    Self::lemma_point_update(*old(self), *self, i as int);
                }
            },
            None => {},
        }
    }

    /// Set the avatar of the room stored under the given id, if any.
    pub fn set_avatar(&mut self, id: &String, avatar: Option<String>)
        requires
            old(self).wf(),
        ensures
            final(self).wf(),
            final(self)@.len() == old(self)@.len(),
            match old(self).spec_get(id@) {
                Some(r0) => final(self).spec_get(id@) == Some(Room { avatar, ..r0 }),
                None => *final(self) == *old(self),
            },
            forall|k: Seq<char>|
                k != id@ ==> final(self).spec_get(k) == old(self).spec_get(k),
    {
        match self.find(id) {
            Some(i) => {
                let r = &mut self.rooms[i];
                r.avatar = avatar;
                proof {
                    Self::lemma_point_update(*old(self), *self, i as int);
                }
            },
            None => {},
        }
    }

    /// Count one more unread notification for the room stored under the
    /// given id, if any. The count stops at the largest representable
    /// value rather than wrap.
    pub fn bump_notifications(&mut self, id: &String)
        requires
            old(self).wf(),
        ensures
            final(self).wf(),
            final(self)@.len() == old(self)@.len(),
            match old(self).spec_get(id@) {
                Some(r0) => final(self).spec_get(id@) == Some(
                    Room {
                        notifications: if r0.notifications < i32::MAX {
                            (r0.notifications + 1) as i32
                        } else {
                            r0.notifications
                        },
                        ..r0
                    },
                ),
                None => *final(self) == *old(self),
            },
            forall|k: Seq<char>|
                k != id@ ==> final(self).spec_get(k) == old(self).spec_get(k),
    {
        match self.find(id) {
            Some(i) => {
                let r = &mut self.rooms[i];
                if r.notifications < i32::MAX {
                    r.notifications = r.notifications + 1;
                }
                proof {
                    Self::lemma_point_update(*old(self), *self, i as int);
                }
            },
            None => {},
        }
    }

    /// Clear the unread notification count of the room stored under the
    /// given id, if any.
    pub fn reset_notifications(&mut self, id: &String)
        requires
            old(self).wf(),
        ensures
            final(self).wf(),
            final(self)@.len() == old(self)@.len(),
            match old(self).spec_get(id@) {
                Some(r0) => final(self).spec_get(id@) == Some(
                    Room { notifications: 0, ..r0 },
                ),
                None => *final(self) == *old(self),
            },
            forall|k: Seq<char>|
                k != id@ ==> final(self).spec_get(k) == old(self).spec_get(k),
    {
        match self.find(id) {
            Some(i) => {
                let r = &mut self.rooms[i];
                r.notifications = 0;
                proof {
                    Self::lemma_point_update(*old(self), *self, i as int);
                }
            },
            None => {},
        }
    }

    /// Append a message to the room stored under the given id, if any.
    pub fn push_message(&mut self, id: &String, msg: Message)
        requires
            old(self).wf(),
        ensures
            final(self).wf(),
            final(self)@.len() == old(self)@.len(),
            match old(self).spec_get(id@) {
                Some(r0) => final(self).spec_contains(id@)
                    && final(self).spec_get(id@).unwrap().messages@ == r0.messages@.push(msg)
                    && final(self).spec_get(id@).unwrap() == Room {
                        messages: final(self).spec_get(id@).unwrap().messages,
                        ..r0
                    },
                None => *final(self) == *old(self),
            },
            forall|k: Seq<char>|
                k != id@ ==> final(self).spec_get(k) == old(self).spec_get(k),
    {
        match self.find(id) {
            Some(i) => {
                let r = &mut self.rooms[i];
                r.messages.push(msg);
                proof {
                    Self::lemma_point_update(*old(self), *self, i as int);
                }
            },
            None => {},
        }
    }

    /// Put a message in front of the messages of the room stored under the
    /// given id, if any.
    pub fn insert_message_front(&mut self, id: &String, msg: Message)
        requires
            old(self).wf(),
        ensures
            final(self).wf(),
            final(self)@.len() == old(self)@.len(),
            match old(self).spec_get(id@) {
                Some(r0) => final(self).spec_contains(id@)
                    && final(self).spec_get(id@).unwrap().messages@ == seq![msg] + r0.messages@
                    && final(self).spec_get(id@).unwrap() == Room {
                        messages: final(self).spec_get(id@).unwrap().messages,
                        ..r0
                    },
                None => *final(self) == *old(self),
            },
            forall|k: Seq<char>|
                k != id@ ==> final(self).spec_get(k) == old(self).spec_get(k),
    {
        match self.find(id) {
            Some(i) => {
                let r = &mut self.rooms[i];
                r.messages.insert(0, msg);
                proof {
                    assert(self@[i as int].messages@ =~= seq![msg]
                        + old(self)@[i as int].messages@);
                    Self::lemma_point_update(*old(self), *self, i as int);
                }
            },
            None => {},
        }
    }

    /// Store a member in the room stored under the given id, if any,
    /// replacing the first member with the same user id or appending.
    pub fn insert_member(&mut self, id: &String, m: Member)
        requires
            old(self).wf(),
        ensures
            final(self).wf(),
            final(self)@.len() == old(self)@.len(),
            match old(self).spec_get(id@) {
                Some(r0) => final(self).spec_contains(id@)
                    && final(self).spec_get(id@).unwrap().members@ == members_insert(
                        r0.members@,
                        m,
                    )
                    && final(self).spec_get(id@).unwrap() == Room {
                        members: final(self).spec_get(id@).unwrap().members,
                        ..r0
                    },
                None => *final(self) == *old(self),
            },
            forall|k: Seq<char>|
                k != id@ ==> final(self).spec_get(k) == old(self).spec_get(k),
    {
        match self.find(id) {
            Some(i) => {
                let r = &mut self.rooms[i];
                match find_member(&r.members, &m.uid) {
                    Some(j) => {
                        r.members.set(j, m);
                    },
                    None => {
                        r.members.push(m);
                    },
                }
                proof {
                    Self::lemma_point_update(*old(self), *self, i as int);
                }
            },
            None => {},
        }
    }

    /// Drop the first member with the given user id from the room stored
    /// under the given id, if any.
    pub fn remove_member(&mut self, id: &String, uid: &String)
        requires
            old(self).wf(),
        ensures
            final(self).wf(),
            final(self)@.len() == old(self)@.len(),
            match old(self).spec_get(id@) {
                Some(r0) => final(self).spec_contains(id@)
                    && final(self).spec_get(id@).unwrap().members@ == members_remove(
                        r0.members@,
                        uid@,
                    )
                    && final(self).spec_get(id@).unwrap() == Room {
                        members: final(self).spec_get(id@).unwrap().members,
                        ..r0
                    },
                None => *final(self) == *old(self),
            },
            forall|k: Seq<char>|
                k != id@ ==> final(self).spec_get(k) == old(self).spec_get(k),
    {
        match self.find(id) {
            Some(i) => {
                let r = &mut self.rooms[i];
                match find_member(&r.members, uid) {
                    Some(j) => {
                        r.members.remove(j);
                    },
                    None => {},
                }
                proof {
                    Self::lemma_point_update(*old(self), *self, i as int);
                }
            },
            None => {},
        }
    }

    /// Remove the room stored under the given id, if any.
    pub fn remove(&mut self, id: &String)
        requires
            old(self).wf(),
        ensures
            final(self).wf(),
            !final(self).spec_contains(id@),
            forall|k: Seq<char>|
                k != id@ ==> final(self).spec_get(k) == old(self).spec_get(k),
    {
        match self.find(id) {
            Some(i) => {
                self.rooms.remove(i);
                proof {
                    let a = *old(self);
                    let b = *self;
                    let ii = i as int;
                    assert(forall|j: int|
                        0 <= j < b@.len() ==> b@[j] == (
                            if j < ii {
                                a@[j]
                            } else {
                                a@[j + 1]
                            }
                        ));
                    assert(b.wf());
                    assert(!b.spec_contains(id@)) by {
                        if b.spec_contains(id@) {
                            let j = b.idx_of(id@);
                            assert(0 <= j < b@.len() && b@[j].id@ == id@);
                            if j < ii {
                                a.lemma_get_at(id@, j);
                            } else {
                                a.lemma_get_at(id@, j + 1);
                            }
                            assert(a.idx_of(id@) == ii);
                        }
                    }
                    assert forall|k: Seq<char>| k != id@ implies b.spec_get(k)
                        == a.spec_get(k) by {
                        Self::lemma_remove_other_get(a, b, ii, k);
                    }
                }
            },
            None => {},
        }
    }

    /// Helper: removing the room at one index leaves every lookup of a
    /// different id unchanged.
    proof fn lemma_remove_other_get(a: RoomList, b: RoomList, i: int, k: Seq<char>)
        requires
            a.wf(),
            b.wf(),
            0 <= i < a@.len(),
            b@.len() == a@.len() - 1,
            forall|j: int| 0 <= j < b@.len() ==> b@[j] == (if j < i { a@[j] } else { a@[j + 1] }),
            a@[i].id@ != k,
        ensures
            a.spec_get(k) == b.spec_get(k),
    {
        if a.spec_contains(k) {
            let j = a.idx_of(k);
            assert(0 <= j < a@.len() && a@[j].id@ == k);
            assert(j != i);
            if j < i {
                assert(b@[j] == a@[j]);
                b.lemma_get_at(k, j);
            } else {
                assert(b@[j - 1] == a@[j]);
                b.lemma_get_at(k, j - 1);
            }
            a.lemma_get_at(k, j);
        } else {
            assert(!b.spec_contains(k)) by {
                if b.spec_contains(k) {
                    let j = b.idx_of(k);
                    assert(0 <= j < b@.len() && b@[j].id@ == k);
                    if j < i {
                        assert(a@[j].id@ == k);
                    } else {
                        assert(a@[j + 1].id@ == k);
                    }
                }
            }
        }
    }
}

} // verus!
