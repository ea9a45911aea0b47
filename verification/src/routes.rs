//! What the service answers to a request, decided apart from how requests
//! arrive and how answers are sent.

pub mod auth;
pub mod protected;
pub mod reply;
