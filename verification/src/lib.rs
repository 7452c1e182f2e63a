//! The authentication core of a small to-do web service: password hashing,
//! bearer tokens, login, registration and the admission of requests. Beside
//! it, a directory of made-up users for trying a client against, and the
//! rules of two games for the terminal.

mod chance;
pub mod error;
pub mod middleware;
pub mod mock;
pub mod password;
pub mod rps;
pub mod service;
pub mod store;
pub mod token;
pub mod ttt;
pub mod user;
pub mod words;

use vstd::prelude::*;

verus! {

/// The state of a router whose handlers share nothing.
#[derive(Clone, Copy, Debug)]
pub struct FakeState {}

} // verus!
