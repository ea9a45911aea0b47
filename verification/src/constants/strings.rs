//! Texts shown to the user or written to the log.

use vstd::prelude::*;

verus! {

pub const WELCOME_EMAIL_SUBJECT: &'static str = "Welcome to TradeSalsa!";

pub const INTERNAL_SERVER_ERROR: &'static str = "Internal Server Error";

pub const REGISTER_ACCOUNT_SUCCESS: &'static str = "Successfully registered account!";

pub const INVALID_CREDENTIALS: &'static str = "Invalid Credentials";

pub const FAILED_TO_COMPILE_SCSS: &'static str = "Failed to compile SCSS";

pub const FAILED_TO_WRITE_SCSS: &'static str = "Failed to write SCSS";

} // verus!
