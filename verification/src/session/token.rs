//! Session tokens.

use vstd::prelude::*;

verus! {

/// `Id::default` of tower-sessions, reached through axum-login: the id of a
/// new session, 128 bits from the thread's random generator. The id is read
/// as an unsigned number, bit for bit. Nothing is known of the value.
#[verifier::external_body]
pub(crate) fn fresh_token() -> (token: u128) {
    axum_login::tower_sessions::session::Id::default().0 as u128
}

/// So many tokens, each drawn afresh.
pub fn draw_tokens(count: usize) -> (tokens: Vec<u128>)
    ensures
        tokens@.len() == count,
{
    let mut tokens: Vec<u128> = Vec::new();
    while tokens.len() < count
        invariant
            tokens@.len() <= count,
        decreases count - tokens@.len(),
    {
        tokens.push(fresh_token());
    }
    tokens
}

} // verus!
