//! Session-backed authentication for a small multi-user web service.
//!
//! - `domain`: emails and passwords that have passed validation.
//! - `hasher`: salted one-way password hashes.
//! - `user`: users, their store, and the check of credentials against it.
//! - `session`: the session store, and the view one request has of its
//!   session.
//! - `reaper`: the background task that deletes expired sessions.
//! - `shutdown`: the orderly end of the service.
//! - `routes`: what registration, login, logout and the protected page answer.
//! - `configuration`, `constants`, `startup`, `utils`, `text`: settings, names,
//!   and helpers.
//!
//! Nothing here reads a socket, a file or a clock. Where a decision needs the
//! time, a random number or the result of work done elsewhere, it is handed
//! in; where a decision asks for such work, it says so and is told the result.

pub mod configuration;
pub mod constants;
pub mod domain;
pub mod hasher;
pub mod reaper;
pub mod routes;
pub mod session;
pub mod shutdown;
pub mod startup;
pub mod text;
pub mod user;
pub mod utils;
