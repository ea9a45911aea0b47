//! Validated value objects: what a registration is made of.

pub mod new_user;
pub mod user_email;
pub mod user_password;
pub mod validation_error;

pub use new_user::NewUser;
pub use user_email::UserEmail;
pub use user_password::UserPassword;
pub use validation_error::ValidationError;
