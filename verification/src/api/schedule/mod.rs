//! Records returned by the schedule endpoints.

pub mod response;
