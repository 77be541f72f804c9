use vstd::prelude::*;

use crate::service::{
    answers_lookup, carries_request, create_outcome, is_not_found, lists_all, success,
    UserResponse, STATUS_CREATED, STATUS_OK,
};
use crate::store::{is_listing, listed_in_order};
use crate::user::{created_user, User, UserRequest};

verus! {

/// What a store holds after the given insertions, made in order on an empty
/// store.
pub open spec fn after_inserts(inserts: Seq<(u16, User)>) -> Map<u16, User>
    decreases inserts.len(),
{
    if inserts.len() == 0 {
        Map::empty()
    } else {
        let last = inserts.last();
        after_inserts(inserts.drop_last()).insert(last.0, last.1)
    }
}

/// After a create, a listing of the store holds a success envelope with the
/// created record, whose name and age are those of the request.
pub proof fn lemma_created_user_is_listed(
    before: Map<u16, User>,
    req: UserRequest,
    after: Map<u16, User>,
    resp: UserResponse,
    listed: Seq<UserResponse>,
)
    requires
        create_outcome(before, req, after, resp),
        lists_all(after, listed),
    ensures
        resp.payload is Some,
        listed.contains(success(resp.payload->0, STATUS_OK)),
        exists|i: int| 0 <= i < listed.len() && carries_request(#[trigger] listed[i], req),
{
    let (key, id) = choose|key: u16, id: String|
        {
            &&& id@.len() == 36
            &&& resp == success(created_user(req, id), STATUS_CREATED)
            &&& after == before.insert(key, created_user(req, id))
        };
    let user = created_user(req, id);
    let users = choose|users: Seq<User>|
        is_listing(after, users) && listed == users.map_values(|u: User| success(u, STATUS_OK));
    let keys = choose|keys: Seq<u16>| listed_in_order(after, keys, users);
    assert(keys.to_set().contains(key));
    let j = choose|j: int| 0 <= j < keys.len() && keys[j] == key;
    assert(users[j] == user);
    assert(listed[j] == success(user, STATUS_OK));
}

/// A key that no insertion targeted is absent from the store, so looking it
/// up answers 404 with the "not found" message and no record.
pub proof fn lemma_never_inserted_not_found(inserts: Seq<(u16, User)>, key: u16, r: UserResponse)
    requires
        forall|i: int| 0 <= i < inserts.len() ==> (#[trigger] inserts[i]).0 != key,
        answers_lookup(after_inserts(inserts), key, r),
    ensures
        !after_inserts(inserts).contains_key(key),
        is_not_found(r),
{
    lemma_not_inserted_absent(inserts, key);
}

/// Helper for `lemma_never_inserted_not_found`: the key stays absent.
proof fn lemma_not_inserted_absent(inserts: Seq<(u16, User)>, key: u16)
    requires
        forall|i: int| 0 <= i < inserts.len() ==> (#[trigger] inserts[i]).0 != key,
    ensures
        !after_inserts(inserts).contains_key(key),
    decreases inserts.len(),
{
    if inserts.len() > 0 {
        let rest = inserts.drop_last();
        assert forall|i: int| 0 <= i < rest.len() implies (#[trigger] rest[i]).0 != key by {
            assert(rest[i] == inserts[i]);
        }
        lemma_not_inserted_absent(rest, key);
    }
}

/// Two creates, one after the other, each answer with their own request's
/// name and age: the first leaves nothing in the second's answer, and the
/// second changes nothing in the first's.
pub proof fn lemma_creates_independent(
    s0: Map<u16, User>,
    req1: UserRequest,
    s1: Map<u16, User>,
    resp1: UserResponse,
    req2: UserRequest,
    s2: Map<u16, User>,
    resp2: UserResponse,
)
    requires
        create_outcome(s0, req1, s1, resp1),
        create_outcome(s1, req2, s2, resp2),
    ensures
        carries_request(resp1, req1),
        carries_request(resp2, req2),
        forall|t1: Map<u16, User>, t2: Map<u16, User>, other: UserResponse|
            #[trigger] create_outcome(t1, req2, t2, other) ==> carries_request(other, req2),
{
}

} // verus!
