//! The envelope fields shared by every response of the remote API.

use vstd::prelude::*;

verus! {

/// The identifier the remote API assigns to each request it answers.
#[derive(Debug, Clone)]
pub struct RequestId(pub String);

} // verus!
