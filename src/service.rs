use vstd::prelude::*;

use crate::ids::{fresh_user_id, random_key};
use crate::store::{is_listing, Store};
use crate::user::{created_user, User, UserRequest};

verus! {

/// HTTP status of a successful read.
pub const STATUS_OK: u16 = 200;

/// HTTP status of a successful create.
pub const STATUS_CREATED: u16 = 201;

/// HTTP status of a lookup that found nothing.
pub const STATUS_NOT_FOUND: u16 = 404;

/// The body of a response about one user: exactly one of `payload` and
/// `error` is present, and `status` repeats the HTTP status.
pub struct UserResponse {
    pub payload: Option<User>,
    pub status: u16,
    pub error: Option<String>,
}

/// A success envelope carrying `u`.
pub open spec fn success(u: User, status: u16) -> UserResponse {
    UserResponse { payload: Some(u), status: status, error: None }
}

/// The error envelope of a lookup that found nothing.
pub open spec fn is_not_found(r: UserResponse) -> bool {
    &&& r.payload is None
    &&& r.status == STATUS_NOT_FOUND
    &&& r.error matches Some(e) && e@ == "not found"@
}

/// `r` carries a record with the name and age of `req`.
pub open spec fn carries_request(r: UserResponse, req: UserRequest) -> bool {
    r.payload matches Some(u) && u.name == req.name && u.age == req.age
}

/// `r` is the answer to a lookup of `key` in a store holding `m`.
pub open spec fn answers_lookup(m: Map<u16, User>, key: u16, r: UserResponse) -> bool {
    if m.contains_key(key) {
        r == success(m[key], STATUS_OK)
    } else {
        is_not_found(r)
    }
}

/// `out` wraps each record of `m` in its own success envelope, one per key,
/// in some order.
pub open spec fn lists_all(m: Map<u16, User>, out: Seq<UserResponse>) -> bool {
    exists|users: Seq<User>|
        is_listing(m, users) && out == users.map_values(|u: User| success(u, STATUS_OK))
}

/// A create request `req`, handled on a store holding `before`, left it
/// holding `after` and answered `resp`: the new record, with the request's
/// name and age and a fresh 36-character identifier, was stored at some key
/// and returned with status 201.
pub open spec fn create_outcome(
    before: Map<u16, User>,
    req: UserRequest,
    after: Map<u16, User>,
    resp: UserResponse,
) -> bool {
    exists|key: u16, id: String|
        {
            &&& id@.len() == 36
            &&& resp == success(created_user(req, id), STATUS_CREATED)
            &&& after == before.insert(key, created_user(req, id))
        }
}

/// Creates the user described by `req` with identifier `id`, stores it at
/// `key`, and answers with the new record.
pub fn create_user_with(store: &mut Store, req: UserRequest, id: String, key: u16) -> (r:
    UserResponse)
    ensures
        final(store)@ == old(store)@.insert(key, created_user(req, id)),
        r == success(created_user(req, id), STATUS_CREATED),
{
    let user = User { id: id, name: req.name, age: req.age };
    store.insert(key, user.clone());
    UserResponse { payload: Some(user), status: STATUS_CREATED, error: None }
}

/// Creates the user described by `req` under a fresh time-ordered
/// identifier, stores it at a randomly drawn key, and answers with the new
/// record. A record already at that key is replaced.
pub fn create_user(store: &mut Store, req: UserRequest) -> (r: UserResponse)
    ensures
        create_outcome(old(store)@, req, final(store)@, r),
        r.status == STATUS_CREATED,
        r.error is None,
        carries_request(r, req),
{
    let id = fresh_user_id();
    let key = random_key();
    let ghost before = store@;
    let ghost given_id = id;
    let ghost given_req = req;
    let r = create_user_with(store, req, id, key);
    assert(create_outcome(before, given_req, store@, r)) by {
        assert(given_id@.len() == 36);
    }
    r
}

/// Looks up the record stored at `key`: status 200 with the record, or 404
/// with the message "not found".
pub fn get_user(store: &Store, key: u16) -> (r: UserResponse)
    ensures
        answers_lookup(store@, key, r),
{
    match store.get(key) {
        Some(u) => UserResponse { payload: Some(u.clone()), status: STATUS_OK, error: None },
        None => UserResponse {
            payload: None,
            status: STATUS_NOT_FOUND,
            error: Some("not found".to_string()),
        },
    }
}

/// Every stored record, each in its own success envelope, with status 200.
pub fn all(store: &Store) -> (r: (u16, Vec<UserResponse>))
    ensures
        r.0 == STATUS_OK,
        lists_all(store@, r.1@),
        r.1@.len() == store@.dom().len(),
{
    let users = store.list();
    let mut out: Vec<UserResponse> = Vec::new();
    for i in 0..users.len()
        invariant
            out@ == users@.take(i as int).map_values(|u: User| success(u, STATUS_OK)),
    {
        out.push(UserResponse { payload: Some(users[i].clone()), status: STATUS_OK, error: None });
        assert(users@.take(i + 1) == users@.take(i as int).push(users@[i as int]));
    }
    assert(users@.take(users@.len() as int) == users@);
    (STATUS_OK, out)
}

} // verus!
