//! Page templates.

use vstd::prelude::*;

verus! {

pub const REGISTER: &'static str = "register.html";

pub const LOGIN: &'static str = "login.html";

pub const HOMEPAGE: &'static str = "homepage.html";

pub const E500: &'static str = "500.html";

} // verus!
