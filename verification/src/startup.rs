//! What the service is built from at its start.

use vstd::prelude::*;

verus! {

/// The address under which the service is reached from outside.
#[derive(Clone, Debug)]
pub struct ApplicationBaseUrl(pub String);

} // verus!
