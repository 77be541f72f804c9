use vstd::prelude::*;

verus! {

/// A user record. `id` is generated when the record is created; `name` and
/// `age` come from the request that created it.
pub struct User {
    pub id: String,
    pub name: String,
    pub age: u8,
}

impl Clone for User {
    fn clone(&self) -> (r: Self)
        ensures
            r == *self,
    {
        User { id: self.id.clone(), name: self.name.clone(), age: self.age }
    }
}

/// What a client sends to create a user.
pub struct UserRequest {
    pub name: String,
    pub age: u8,
}

/// The record that a create request with identifier `id` produces.
pub open spec fn created_user(req: UserRequest, id: String) -> User {
    User { id: id, name: req.name, age: req.age }
}

} // verus!
