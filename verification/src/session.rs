//! Login sessions: the store that keeps them and the view that one request
//! has of its own.

pub mod error;
pub mod manager;
pub mod store;
pub mod token;

pub use error::SessionError;
pub use manager::SessionManager;
pub use store::{Record, SessionStore};
