//! Records returned by the alert endpoints.

pub mod response;
