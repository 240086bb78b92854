//! What the credential store holds for this application, and how the
//! stored item's fields are read. The store itself is reached over the
//! session bus by the front end; the logic that picks the right item and
//! pulls the user name, server and password out of it lives here.

use vstd::prelude::*;

verus! {

/// The one way reading or writing stored credentials fails.
#[derive(Debug, PartialEq)]
pub enum Error {
    SecretServiceError,
}

impl Clone for Error {
    fn clone(&self) -> (r: Self)
        ensures
            r == *self,
    {
        Error::SecretServiceError
    }
}

/// Index of the first attribute with the given key, or the length of the
/// sequence when no attribute has it.
pub open spec fn first_attr_idx(s: Seq<(String, String)>, key: Seq<char>) -> int
    decreases s.len(),
{
    if s.len() == 0 {
        0
    } else if s[0].0@ == key {
        0
    } else {
        1 + first_attr_idx(s.drop_first(), key)
    }
}

/// A scan that found no match before `i`, and a match at `i` unless `i`
/// is the length, has found the first match.
pub proof fn lemma_first_attr_idx(s: Seq<(String, String)>, key: Seq<char>, i: int)
    requires
        0 <= i <= s.len(),
        forall|j: int| 0 <= j < i ==> s[j].0@ != key,
        i < s.len() ==> s[i].0@ == key,
    ensures
        first_attr_idx(s, key) == i,
    decreases s.len(),
{
    if s.len() > 0 && s[0].0@ != key {
        assert(i > 0);
        lemma_first_attr_idx(s.drop_first(), key, i - 1);
    }
}

/// The value of the first attribute with the given key, if any.
pub open spec fn spec_attr(s: Seq<(String, String)>, key: Seq<char>) -> Option<Seq<char>> {
    let i = first_attr_idx(s, key);
    if i < s.len() {
        Some(s[i].1@)
    } else {
        None
    }
}

/// The positions, in ascending order, of exactly the stored items that
/// carry the given label: which items are the application's to read or
/// delete.
pub fn matching_label_indices(labels: &Vec<String>, label: &String) -> (r: Vec<usize>)
    ensures
        forall|j: int|
            0 <= j < r@.len() ==> r@[j] < labels@.len() && labels@[#[trigger] r@[j] as int]@
                == label@,
        forall|j1: int, j2: int| 0 <= j1 < j2 < r@.len() ==> r@[j1] < r@[j2],
        forall|i: int|
            0 <= i < labels@.len() && (#[trigger] labels@[i])@ == label@ ==> exists|j: int|
                0 <= j < r@.len() && r@[j] as int == i,
{
    let mut r: Vec<usize> = Vec::new();
    let n = labels.len();
    let mut i: usize = 0;
    while i < n
        invariant
            n == labels@.len(),
            i <= n,
            forall|j: int|
                0 <= j < r@.len() ==> r@[j] < i && labels@[#[trigger] r@[j] as int]@ == label@,
            forall|j1: int, j2: int| 0 <= j1 < j2 < r@.len() ==> r@[j1] < r@[j2],
            forall|i2: int|
                0 <= i2 < i && (#[trigger] labels@[i2])@ == label@ ==> exists|j: int|
                    0 <= j < r@.len() && r@[j] as int == i2,
        decreases n - i,
    {
        if labels[i].eq(label) {
            let ghost r0 = r@;
            r.push(i);
            proof {
                assert(r@[r0.len() as int] as int == i as int);
                assert forall|i2: int|
                    0 <= i2 < i + 1 && (#[trigger] labels@[i2])@ == label@ implies exists|j: int|
                        0 <= j < r@.len() && r@[j] as int == i2 by {
                    if i2 < i {
                        let j = choose|j: int| 0 <= j < r0.len() && r0[j] as int == i2;
                        assert(r@[j] as int == i2);
                    } else {
                        assert(r@[r0.len() as int] as int == i2);
                    }
                }
            }
        }
        i = i + 1;
    }
    r
}

/// Look an attribute up by key in a stored item's attribute list.
pub fn find_attr(attrs: &Vec<(String, String)>, key: &String) -> (r: Option<String>)
    ensures
        match r {
            Some(v) => spec_attr(attrs@, key@) == Some(v@),
            None => spec_attr(attrs@, key@) is None,
        },
{
    let n = attrs.len();
    let mut i: usize = 0;
    while i < n
        invariant
            n == attrs@.len(),
            i <= n,
            forall|j: int| 0 <= j < i ==> attrs@[j].0@ != key@,
        decreases n - i,
    {
        if attrs[i].0.eq(key) {
            proof {
                lemma_first_attr_idx(attrs@, key@, i as int);
            }
            return Some(attrs[i].1.clone());
        }
        i = i + 1;
    }
    proof {
        lemma_first_attr_idx(attrs@, key@, n as int);
    }
    None
}

/// Read the credentials out of a stored item: the user name and server
/// come from the item's attributes, the password is the item's secret.
/// An item without both attributes is no credential item.
pub fn extract_credentials(attrs: &Vec<(String, String)>, secret: String) -> (r: Result<
    (String, String, String),
    Error,
>)
    ensures
        match r {
            Ok(c) => {
                &&& spec_attr(attrs@, "username"@) == Some(c.0@)
                &&& c.1@ == secret@
                &&& spec_attr(attrs@, "server"@) == Some(c.2@)
            },
            Err(e) => e is SecretServiceError && (spec_attr(attrs@, "username"@) is None
                || spec_attr(attrs@, "server"@) is None),
        },
{
    let username = match find_attr(attrs, &"username".to_owned()) {
        Some(u) => u,
        None => {
            return Err(Error::SecretServiceError);
        },
    };
    let server = match find_attr(attrs, &"server".to_owned()) {
        Some(s) => s,
        None => {
            return Err(Error::SecretServiceError);
        },
    };
    Ok((username, secret, server))
}

} // verus!
