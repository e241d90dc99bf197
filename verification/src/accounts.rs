//! Users, their sessions and their project memberships.

use vstd::prelude::*;
use crate::ids::{MembershipId, ProjectId, SessionTokenId, UserId};

verus! {

/// What a user may do across the whole application.
#[derive(Clone, Copy, Debug, PartialEq, Eq, Structural)]
pub enum ApplicationRole {
    Admin,
    Member,
}

/// What a member may do within a project.
#[derive(Clone, Copy, Debug, PartialEq, Eq, Structural)]
pub enum ProjectRole {
    Admin,
    Developer,
    Guest,
}

/// A user of the web application.
#[derive(Clone, Debug)]
pub struct User {
    pub id: UserId,
    pub name: String,
    pub email: String,
    pub blocked: bool,
    pub role: ApplicationRole,
    pub memberships: Vec<MembershipId>,
}

/// A live session of a user.
#[derive(Clone, Copy, Debug, PartialEq, Eq, Structural)]
pub struct SessionToken {
    pub id: SessionTokenId,
    pub user_id: UserId,
}

/// A user's role in one project.
#[derive(Clone, Copy, Debug, PartialEq, Eq, Structural)]
pub struct Membership {
    pub id: MembershipId,
    pub project_id: ProjectId,
    pub user_id: UserId,
    pub role: ProjectRole,
}

} // verus!
