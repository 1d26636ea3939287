//! Plain data records carried by the remote API's responses, grouped by the
//! endpoint family that returns them. The HTTP transport that fills them in
//! lives outside this crate; here they are ordinary values that the rest of
//! the library can reason about.

pub mod alert;
pub mod on_call;
pub mod response;
pub mod schedule;
pub mod team;
