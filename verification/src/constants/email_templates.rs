//! Mail templates.

use vstd::prelude::*;

verus! {

pub const EMAIL_VERIFICATION: &'static str = "emails/email_verification.html";

} // verus!
