//! The paths the service answers on.

use vstd::prelude::*;

verus! {

pub const ROOT: &'static str = "/";

pub const REGISTER: &'static str = "/register";

pub const LOGIN: &'static str = "/login";

pub const LOGOUT: &'static str = "/logout";

pub const HEALTH: &'static str = "/health";

pub const PROTECTED: &'static str = "/protected";

} // verus!
