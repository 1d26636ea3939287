use vstd::prelude::*;

use crate::api::team::response as team_response;

verus! {

/// An on-call schedule and the team that owns it.
#[derive(Debug, Clone)]
pub struct Schedule {
    pub id: String,
    pub name: String,
    pub owner_team: team_response::Team,
}

} // verus!
