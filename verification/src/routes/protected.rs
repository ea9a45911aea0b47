//! The page for users who are logged in.

use crate::constants::html_templates;
use crate::routes::reply::{Reply, ReplyView};
use vstd::prelude::*;

verus! {

/// The page for a user who is logged in, and a failure for anybody else.
pub fn protected(user: Option<u128>) -> (reply: Reply)
    ensures
        user is Some ==> reply@ == (ReplyView::Page {
            template: html_templates::HOMEPAGE@,
            next: None,
        }),
        user is None ==> reply@ == ReplyView::internal_error(),
{
    match user {
        Some(_) => Reply::Page { template: html_templates::HOMEPAGE, next: None },
        None => Reply::internal_error(),
    }
}

} // verus!
