use vstd::prelude::*;

verus! {

/// A user as referenced from a team membership record.
#[derive(Debug, Clone)]
pub struct User {
    pub id: Option<String>,
    pub username: Option<String>,
}

/// One member of a team, with the role they hold in it.
#[derive(Debug, Clone)]
pub struct TeamMember {
    pub user: User,
    pub role: String,
}

/// The short form of a team, as the team listing returns it.
#[derive(Debug, Clone)]
pub struct TeamDescriptor {
    pub id: String,
    pub description: Option<String>,
    pub name: String,
}

/// A team in full, including its member list when the API provides one.
#[derive(Debug, Clone)]
pub struct Team {
    pub id: String,
    pub description: Option<String>,
    pub name: String,
    pub members: Option<Vec<TeamMember>>,
}

} // verus!
