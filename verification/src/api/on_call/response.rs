use vstd::prelude::*;

verus! {

/// The people currently on call for a schedule, in the flat form that lists
/// usernames only.
#[derive(Debug, Clone)]
pub struct OnCallRecipients {
    pub on_call_recipients: Vec<String>,
}

} // verus!
