use std::collections::HashMap;
use vstd::prelude::*;
use vstd::std_specs::iter::IteratorSpec;

use crate::user::User;

verus! {

broadcast use vstd::std_specs::hash::group_hash_axioms;

/// `keys` visits every key of `m` exactly once, in some order.
pub open spec fn enumerates(m: Map<u16, User>, keys: Seq<u16>) -> bool {
    &&& keys.no_duplicates()
    &&& keys.to_set() == m.dom()
}

/// `out` holds the records of `m`, one for each key, in the order of `keys`.
pub open spec fn listed_in_order(m: Map<u16, User>, keys: Seq<u16>, out: Seq<User>) -> bool {
    &&& enumerates(m, keys)
    &&& out.len() == keys.len()
    &&& forall|i: int| 0 <= i < out.len() ==> out[i] == m[#[trigger] keys[i]]
}

/// `out` holds the records of `m`, one for each key, in some order.
pub open spec fn is_listing(m: Map<u16, User>, out: Seq<User>) -> bool {
    exists|keys: Seq<u16>| listed_in_order(m, keys, out)
}

/// The collection of user records, keyed by a 16-bit number. Inserting at a
/// key that is already taken replaces the record stored there.
pub struct Store {
    map: HashMap<u16, User>,
}

/// A listing of `m` has one element per key of `m`.
pub proof fn lemma_listing_len(m: Map<u16, User>, out: Seq<User>)
    requires
        is_listing(m, out),
    ensures
        out.len() == m.dom().len(),
{
    let keys = choose|keys: Seq<u16>| listed_in_order(m, keys, out);
    keys.unique_seq_to_set();
}

impl View for Store {
    type V = Map<u16, User>;

    closed spec fn view(&self) -> Map<u16, User> {
        self.map@
    }
}

impl Store {
    /// An empty store.
    pub fn new() -> (s: Store)
        ensures
            s@ == Map::<u16, User>::empty(),
    {
        Store { map: HashMap::new() }
    }

    /// Stores `user` at `key`, replacing whatever was there.
    pub fn insert(&mut self, key: u16, user: User)
        ensures
            final(self)@ == old(self)@.insert(key, user),
    {
        self.map.insert(key, user);
    }

    /// The record stored at `key`, if any.
    pub fn get(&self, key: u16) -> (r: Option<&User>)
        ensures
            r == (if self@.contains_key(key) { Some(&self@[key]) } else { None::<&User> }),
    {
        self.map.get(&key)
    }

    /// A copy of every stored record, one for each key, in no particular order.
    pub fn list(&self) -> (r: Vec<User>)
        ensures
            is_listing(self@, r@),
            r@.len() == self@.dom().len(),
    {
        let mut out: Vec<User> = Vec::new();
        let ghost keys: Seq<u16> = self.map.keys().remaining().unref();
        assert(enumerates(self@, keys));
        for k in it: self.map.keys()
            invariant
                keys == it.seq().unref(),
                out.len() == it.index(),
                forall|i: int| 0 <= i < out.len() ==> out@[i] == self@[#[trigger] keys[i]],
                enumerates(self@, keys),
        {
            let u = self.map.get(k).unwrap();
            out.push(u.clone());
        }
        assert(listed_in_order(self@, keys, out@));
        proof {
            lemma_listing_len(self@, out@);
        }
        out
    }
}

} // verus!
