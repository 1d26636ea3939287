//! Records returned by the team endpoints.

pub mod response;
