use vstd::prelude::*;

verus! {

/// The number of alerts matching a count query.
#[derive(Debug, Clone)]
pub struct Count {
    pub count: u64,
}

/// A party an alert is routed to: a user, team, escalation or schedule.
#[derive(Debug, Clone)]
pub struct Responder {
    pub id: String,
    /// What kind of party the id names (the API's `type` field).
    pub type_: String,
}

/// Acknowledgement and closing bookkeeping of an alert.
#[derive(Debug, Clone)]
pub struct Report {
    pub ack_time: Option<u64>,
    pub close_time: Option<u64>,
    pub acknowledged_by: Option<String>,
    pub closed_by: Option<String>,
}

} // verus!
