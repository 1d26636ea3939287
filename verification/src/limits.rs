//! Limits currently shown by the remote API documentation. Since these
//! limits can change at any time, they are not enforced by the client, but
//! still provided as constants that a caller may choose to use.

use vstd::prelude::*;

verus! {

/// Maximum value for the `limit` field in pagination queries.
pub const PAGINATION_MAX_LIMIT: u32 = 100;

} // verus!
