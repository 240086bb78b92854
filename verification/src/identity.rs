//! Single-flight memoizing cache for user identities.
//!
//! Maps a user id to its (display name, avatar path) pair. The first
//! lookup of a key starts the one underlying fetch; every concurrent
//! lookup of the same key rides on that fetch, parking its reply sender on
//! the entry, and is answered when the fetch completes. A cell once
//! filled never changes — every caller for a key observes the one pair
//! the first completion stored — and entries never expire; the cache is
//! torn down as a whole at logout.

use vstd::prelude::*;

verus! {

/// What a lookup found. `Fetch` is returned to exactly the first caller
/// for a key: that caller performs the one underlying fetch and reports it
/// through `fill`. Every later caller either rides on the in-flight fetch
/// (`InFlight`) or gets its sender handed back with the cached pair
/// (`Hit`), to be answered at once.
pub enum CacheLookup {
    Fetch,
    InFlight,
    Hit(std::sync::mpsc::Sender<(String, String)>, String, String),
}

/// One cache cell: the key, the value once known, and the reply senders
/// of the callers waiting for the in-flight fetch.
pub struct CacheEntry {
    pub uid: String,
    pub filled: bool,
    pub name: String,
    pub avatar: String,
    pub waiters: Vec<std::sync::mpsc::Sender<(String, String)>>,
}

pub struct IdentityCache {
    entries: Vec<CacheEntry>,
}

impl View for IdentityCache {
    type V = Seq<CacheEntry>;

    closed spec fn view(&self) -> Seq<CacheEntry> {
        self.entries@
    }
}

impl IdentityCache {
    /// Keys are distinct, so each user id has at most one cell.
    pub open spec fn wf(self) -> bool {
        forall|i: int, j: int|
            0 <= i < j < self@.len() ==> self@[i].uid@ != self@[j].uid@
    }

    pub open spec fn spec_contains(self, uid: Seq<char>) -> bool {
        exists|i: int| 0 <= i < self@.len() && self@[i].uid@ == uid
    }

    /// The index of the cell for the given user id; meaningful only when
    /// `spec_contains(uid)` holds (and then unique, by `wf`).
    pub open spec fn idx_of(self, uid: Seq<char>) -> int {
        choose|i: int| 0 <= i < self@.len() && self@[i].uid@ == uid
    }

    /// The cell for the given user id, if any.
    pub open spec fn spec_get(self, uid: Seq<char>) -> Option<CacheEntry> {
        if self.spec_contains(uid) {
            Some(self@[self.idx_of(uid)])
        } else {
            None
        }
    }

    /// Under `wf`, any index holding `uid` is the index `spec_get` reads.
    pub proof fn lemma_get_at(self, uid: Seq<char>, i: int)
        requires
            self.wf(),
            0 <= i < self@.len(),
            self@[i].uid@ == uid,
        ensures
            self.spec_contains(uid),
            self.idx_of(uid) == i,
            self.spec_get(uid) == Some(self@[i]),
    {
        let j = self.idx_of(uid);
        assert(0 <= j < self@.len() && self@[j].uid@ == uid);
        if i != j {
            assert(self@[i].uid@ != self@[j].uid@);
        }
    }

    pub fn new() -> (r: IdentityCache)
        ensures
            r.wf(),
            r@ == Seq::<CacheEntry>::empty(),
    {
        IdentityCache { entries: Vec::new() }
    }

    /// Tear the whole cache down (at logout).
    pub fn clear(&mut self)
        ensures
            final(self).wf(),
            final(self)@ == Seq::<CacheEntry>::empty(),
    {
        self.entries.clear();
    }

    /// The index of the cell for the given user id, if there is one.
    fn find(&self, uid: &String) -> (r: Option<usize>)
        requires
            self.wf(),
        ensures
            match r {
                Some(i) => i < self@.len() && self@[i as int].uid@ == uid@
                    && self.spec_contains(uid@) && self.idx_of(uid@) == i,
                None => !self.spec_contains(uid@),
            },
    {
        let n = self.entries.len();
        let mut i: usize = 0;
        while i < n
            invariant
                self.wf(),
                n == self@.len(),
                i <= n,
                forall|j: int| 0 <= j < i ==> self@[j].uid@ != uid@,
            decreases n - i,
        {
            if self.entries[i].uid.eq(uid) {
                proof {
                    self.lemma_get_at(uid@, i as int);
                }
                return Some(i);
            }
            i = i + 1;
        }
        None
    }

    /// Look the user id up on behalf of a caller whose reply sender is
    /// `tx`. Exactly when the id is new, a cell is created and the caller
    /// is told to perform the one underlying fetch. A caller that finds an
    /// in-flight fetch parks its sender on the cell. A caller that finds a
    /// filled cell gets the pair back and parks nothing.
    pub fn resolve(&mut self, uid: &String, tx: std::sync::mpsc::Sender<(String, String)>) -> (r:
        CacheLookup)
        requires
            old(self).wf(),
        ensures
            final(self).wf(),
            final(self).spec_contains(uid@),
            // known keys only grow, and no cell goes back to pending
            forall|k: Seq<char>|
                old(self).spec_contains(k) ==> final(self).spec_contains(k),
            forall|k: Seq<char>|
                k != uid@ ==> final(self).spec_get(k) == old(self).spec_get(k),
            // a filled cell's pair is permanent
            forall|k: Seq<char>|
                match #[trigger] old(self).spec_get(k) {
                    Some(e) => e.filled ==> final(self).spec_get(k) == old(self).spec_get(k),
                    None => true,
                },
            // the one underlying fetch is started exactly on the first call
            r is Fetch <==> !old(self).spec_contains(uid@),
            match r {
                CacheLookup::Fetch => !final(self).spec_get(uid@).unwrap().filled
                    && final(self).spec_get(uid@).unwrap().waiters@.len() == 1,
                CacheLookup::InFlight => {
                    let e0 = old(self).spec_get(uid@).unwrap();
                    let e1 = final(self).spec_get(uid@).unwrap();
                    !e0.filled && !e1.filled && e1.waiters@.len() == e0.waiters@.len() + 1
                },
                CacheLookup::Hit(tx2, name, avatar) => {
                    let e0 = old(self).spec_get(uid@).unwrap();
                    e0.filled && tx2 == tx && name@ == e0.name@ && avatar@ == e0.avatar@
                        && final(self).spec_get(uid@) == old(self).spec_get(uid@)
                },
            },
    {
        match self.find(uid) {
            Some(i) => {
                if self.entries[i].filled {
                    let name = self.entries[i].name.clone();
                    let avatar = self.entries[i].avatar.clone();
                    CacheLookup::Hit(tx, name, avatar)
                } else {
                    let e = &mut self.entries[i];
                    e.waiters.push(tx);
                    proof {
                        let a = *old(self);
                        let b = *self;
                        assert(forall|j: int|
                            0 <= j < a@.len() ==> b@[j].uid@ == a@[j].uid@);
                        assert(b.wf());
                        b.lemma_get_at(uid@, i as int);
                        assert forall|k: Seq<char>| k != uid@ implies b.spec_get(k)
                            == a.spec_get(k) by {
                            Self::lemma_same_uids_same_get(a, b, k);
                        }
                    }
                    CacheLookup::InFlight
                }
            },
            None => {
                let mut waiters: Vec<std::sync::mpsc::Sender<(String, String)>> = Vec::new();
                waiters.push(tx);
                let entry = CacheEntry {
                    uid: uid.clone(),
                    filled: false,
                    name: String::new(),
                    avatar: String::new(),
                    waiters,
                };
                self.entries.push(entry);
                proof {
                    let a = *old(self);
                    let b = *self;
                    let n = a@.len() as int;
                    assert(b@[n].uid@ == uid@);
                    assert(forall|j: int| 0 <= j < n ==> b@[j] == a@[j]);
                    assert(b.wf());
                    b.lemma_get_at(uid@, n);
                    assert forall|k: Seq<char>| k != uid@ implies b.spec_get(k)
                        == a.spec_get(k) by {
                        Self::lemma_push_other_get(a, b, k);
                    }
                }
                CacheLookup::Fetch
            },
        }
    }

    /// Report the outcome of the one fetch for a user id: store the pair
    /// (a fallback pair when the fetch failed, so later callers are
    /// answered rather than left waiting) and hand back the parked reply
    /// senders, each owed exactly one send of this pair. The first
    /// completion wins: a cell already filled keeps its pair and owes
    /// nobody. With no cell for the id — the cache was torn down since
    /// the fetch started — nothing changes and nobody is owed an answer.
    pub fn fill(&mut self, uid: &String, name: String, avatar: String) -> (waiters: Vec<
        std::sync::mpsc::Sender<(String, String)>,
    >)
        requires
            old(self).wf(),
        ensures
            final(self).wf(),
            match old(self).spec_get(uid@) {
                Some(e0) => if e0.filled {
                    *final(self) == *old(self) && waiters@.len() == 0
                } else {
                    let e1 = final(self).spec_get(uid@).unwrap();
                    final(self).spec_contains(uid@) && e1.filled && e1.name@ == name@
                        && e1.avatar@ == avatar@ && e1.waiters@.len() == 0
                        && waiters@ == e0.waiters@
                },
                None => *final(self) == *old(self) && waiters@.len() == 0,
            },
            forall|k: Seq<char>|
                k != uid@ ==> final(self).spec_get(k) == old(self).spec_get(k),
            // a filled cell's pair is permanent
            forall|k: Seq<char>|
                match #[trigger] old(self).spec_get(k) {
                    Some(e) => e.filled ==> final(self).spec_get(k) == old(self).spec_get(k),
                    None => true,
                },
    {
        let i = match self.find(uid) {
            Some(i) => i,
            None => {
                return Vec::new();
            },
        };
        if self.entries[i].filled {
            return Vec::new();
        }
        let e = &mut self.entries[i];
        e.filled = true;
        e.name = name;
        e.avatar = avatar;
        let mut drained: Vec<std::sync::mpsc::Sender<(String, String)>> = Vec::new();
        core::mem::swap(&mut drained, &mut e.waiters);
        proof {
            let a = *old(self);
            let b = *self;
            assert(forall|j: int| 0 <= j < a@.len() ==> b@[j].uid@ == a@[j].uid@);
            assert(b.wf());
            b.lemma_get_at(uid@, i as int);
            assert forall|k: Seq<char>| k != uid@ implies b.spec_get(k) == a.spec_get(k) by {
                Self::lemma_same_uids_same_get(a, b, k);
            }
        }
        drained
    }

    /// Helper: two well-formed caches of the same length whose uids agree
    /// at every index, and whose cells agree at every index holding `k`,
    /// look `k` up the same way.
    proof fn lemma_same_uids_same_get(a: IdentityCache, b: IdentityCache, k: Seq<char>)
        requires
            a.wf(),
            b.wf(),
            a@.len() == b@.len(),
            forall|j: int| 0 <= j < a@.len() ==> a@[j].uid@ == b@[j].uid@,
            forall|j: int| 0 <= j < a@.len() && a@[j].uid@ == k ==> a@[j] == b@[j],
        ensures
            a.spec_get(k) == b.spec_get(k),
    {
        if a.spec_contains(k) {
            let i = a.idx_of(k);
            assert(0 <= i < a@.len() && a@[i].uid@ == k);
            b.lemma_get_at(k, i);
            a.lemma_get_at(k, i);
        } else {
            assert(!b.spec_contains(k)) by {
                if b.spec_contains(k) {
                    let i = b.idx_of(k);
                    assert(0 <= i < b@.len() && b@[i].uid@ == k);
                    assert(a@[i].uid@ == k);
                }
            }
        }
    }

    /// Helper: appending a cell with a different uid from `k` leaves the
    /// lookup of `k` unchanged.
    proof fn lemma_push_other_get(a: IdentityCache, b: IdentityCache, k: Seq<char>)
        requires
            a.wf(),
            b.wf(),
            b@.len() == a@.len() + 1,
            forall|j: int| 0 <= j < a@.len() ==> a@[j] == b@[j],
            b@[a@.len() as int].uid@ != k,
        ensures
            a.spec_get(k) == b.spec_get(k),
    {
        if a.spec_contains(k) {
            let i = a.idx_of(k);
            assert(0 <= i < a@.len() && a@[i].uid@ == k);
            assert(b@[i].uid@ == k);
            a.lemma_get_at(k, i);
            b.lemma_get_at(k, i);
        } else {
            assert(!b.spec_contains(k)) by {
                if b.spec_contains(k) {
                    let i = b.idx_of(k);
                    assert(0 <= i < b@.len() && b@[i].uid@ == k);
                    assert(i < a@.len());
                    assert(a@[i].uid@ == k);
                }
            }
        }
    }
}

/// The user ids a trace of lookups has touched.
pub open spec fn keys_seen(trace: Seq<Seq<char>>) -> Set<Seq<char>>
    decreases trace.len(),
{
    if trace.len() == 0 {
        Set::empty()
    } else {
        keys_seen(trace.drop_last()).insert(trace.last())
    }
}

/// How many underlying fetches a trace of lookups performs for one user
/// id: a lookup fetches exactly when its id was never looked up before,
/// which is how `resolve` decides (`Fetch` iff the id is new).
pub open spec fn fetches_for(trace: Seq<Seq<char>>, uid: Seq<char>) -> int
    decreases trace.len(),
{
    if trace.len() == 0 {
        0
    } else {
        fetches_for(trace.drop_last(), uid) + (
            if trace.last() == uid && !keys_seen(trace.drop_last()).contains(uid) {
                1int
            } else {
                0int
            }
        )
    }
}

/// Single flight: over any sequence of lookups, exactly one underlying
/// fetch is performed for a user id that is looked up at all, and none for
/// one that is not.
pub proof fn lemma_single_flight(trace: Seq<Seq<char>>, uid: Seq<char>)
    ensures
        fetches_for(trace, uid) == if keys_seen(trace).contains(uid) {
            1int
        } else {
            0int
        },
    decreases trace.len(),
{
    if trace.len() > 0 {
        lemma_single_flight(trace.drop_last(), uid);
    }
}

} // verus!
