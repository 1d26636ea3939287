//! Records returned by the on-call endpoints.

pub mod response;
