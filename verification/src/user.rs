//! Users, the credentials they log in with, and the check of the one against
//! the other.

pub mod backend;
pub mod memory;
pub mod model;

pub use backend::{authenticate, check_credentials, credentials_decision, load_user, Backend};
pub use memory::MemoryUsers;
pub use model::{AuthError, Credentials, User, UserRepository};
