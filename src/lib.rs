//! An in-memory store of user records, addressed by 16-bit keys, together
//! with the request handling logic of a small HTTP user service: create a
//! user, look one up by key, and list them all.

pub mod user;
pub mod store;
pub mod service;
mod ids;
pub mod laws;
