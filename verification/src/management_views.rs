//! The records of the management API and the views it answers with: each
//! view copies the fields of its record that a caller may see, and a list
//! view holds its items with their count.

use vstd::prelude::*;
use crate::accounts::{ApplicationRole, ProjectRole, User};
use crate::ids::{
    ConnectionDeploymentId, ConnectionId, DeploymentId, MembershipId, ProjectId,
    ProjectInviteCodeId, UserId, VirtualKeyDeploymentId, VirtualKeyId,
};
use crate::accounts::Membership;

verus! {

/// Who may use a deployment.
#[derive(Clone, Copy, Debug, PartialEq, Eq, Structural)]
pub enum DeploymentAccess {
    Private,
    Public,
}

/// The access of a new deployment: the one asked for, else private.
pub fn deployment_access_or_default(access: Option<DeploymentAccess>) -> (r: DeploymentAccess)
    ensures
        r == match access {
            Some(a) => a,
            None => DeploymentAccess::Private,
        },
{
    match access {
        Some(a) => a,
        None => DeploymentAccess::Private,
    }
}

/// The role an invite code assigns: the one asked for, else guest.
pub fn invite_role_or_default(role: Option<ProjectRole>) -> (r: ProjectRole)
    ensures
        r == match role {
            Some(x) => x,
            None => ProjectRole::Guest,
        },
{
    match role {
        Some(x) => x,
        None => ProjectRole::Guest,
    }
}

/// A link between a connection and a deployment.
#[derive(Clone, Copy, Debug, PartialEq, Eq, Structural)]
pub struct ConnectionDeployment {
    pub id: ConnectionDeploymentId,
    pub connection_id: ConnectionId,
    pub deployment_id: DeploymentId,
    pub weight: i16,
}

/// A deployment: a model name callers ask for, served by a connection.
#[derive(Clone, Debug)]
pub struct Deployment {
    pub id: DeploymentId,
    pub name: String,
    pub access: DeploymentAccess,
    pub connection_id: ConnectionId,
}

/// A project.
#[derive(Clone, Debug)]
pub struct Project {
    pub id: ProjectId,
    pub name: String,
}

/// A code that admits its holder to a project with a role.
#[derive(Clone, Debug)]
pub struct ProjectInviteCode {
    pub id: ProjectInviteCodeId,
    pub project_id: ProjectId,
    pub code: String,
    /// Seconds since the Unix epoch.
    pub valid_until: Option<i64>,
    pub assign_role: ProjectRole,
}

/// A key of a project that callers of the OpenAI routes present.
#[derive(Clone, Debug)]
pub struct VirtualKey {
    pub id: VirtualKeyId,
    pub key: String,
    pub alias: String,
    pub blocked: bool,
    pub project_id: ProjectId,
}

/// A link between a virtual key and a deployment it may use.
#[derive(Clone, Copy, Debug, PartialEq, Eq, Structural)]
pub struct VirtualKeyDeployment {
    pub id: VirtualKeyDeploymentId,
    pub virtual_key_id: VirtualKeyId,
    pub deployment_id: DeploymentId,
}

/// The view of a connection-deployment link.
#[derive(Clone, Copy, Debug, PartialEq, Eq, Structural)]
pub struct GetConnectionDeploymentResult {
    pub id: ConnectionDeploymentId,
    pub connection_id: ConnectionId,
    pub deployment_id: DeploymentId,
}

impl vstd::std_specs::convert::FromSpecImpl<ConnectionDeployment> for GetConnectionDeploymentResult {
    open spec fn obeys_from_spec() -> bool {
        true
    }

    open spec fn from_spec(v: ConnectionDeployment) -> Self {
        GetConnectionDeploymentResult {
            id: v.id,
            connection_id: v.connection_id,
            deployment_id: v.deployment_id,
        }
    }
}

impl From<ConnectionDeployment> for GetConnectionDeploymentResult {
    fn from(value: ConnectionDeployment) -> Self {
        GetConnectionDeploymentResult {
            id: value.id,
            connection_id: value.connection_id,
            deployment_id: value.deployment_id,
        }
    }
}

/// The view of a deployment.
#[derive(Clone, Debug)]
pub struct GetDeploymentResult {
    pub id: DeploymentId,
    pub name: String,
    pub access: DeploymentAccess,
    pub connection_id: ConnectionId,
}

impl vstd::std_specs::convert::FromSpecImpl<Deployment> for GetDeploymentResult {
    open spec fn obeys_from_spec() -> bool {
        true
    }

    open spec fn from_spec(v: Deployment) -> Self {
        GetDeploymentResult {
            id: v.id,
            name: v.name,
            access: v.access,
            connection_id: v.connection_id,
        }
    }
}

impl From<Deployment> for GetDeploymentResult {
    fn from(value: Deployment) -> Self {
        GetDeploymentResult {
            id: value.id,
            name: value.name,
            access: value.access,
            connection_id: value.connection_id,
        }
    }
}

/// The view of a membership.
#[derive(Clone, Copy, Debug, PartialEq, Eq, Structural)]
pub struct GetMembershipResult {
    pub id: MembershipId,
    pub user_id: UserId,
    pub project_id: ProjectId,
    pub role: ProjectRole,
}

impl vstd::std_specs::convert::FromSpecImpl<Membership> for GetMembershipResult {
    open spec fn obeys_from_spec() -> bool {
        true
    }

    open spec fn from_spec(v: Membership) -> Self {
        GetMembershipResult { id: v.id, user_id: v.user_id, project_id: v.project_id, role: v.role }
    }
}

impl From<Membership> for GetMembershipResult {
    fn from(value: Membership) -> Self {
        GetMembershipResult {
            id: value.id,
            user_id: value.user_id,
            project_id: value.project_id,
            role: value.role,
        }
    }
}

/// The view of a project.
#[derive(Clone, Debug)]
pub struct GetProjectResult {
    pub id: ProjectId,
    pub name: String,
}

impl vstd::std_specs::convert::FromSpecImpl<Project> for GetProjectResult {
    open spec fn obeys_from_spec() -> bool {
        true
    }

    open spec fn from_spec(v: Project) -> Self {
        GetProjectResult { id: v.id, name: v.name }
    }
}

impl From<Project> for GetProjectResult {
    fn from(value: Project) -> Self {
        GetProjectResult { id: value.id, name: value.name }
    }
}

/// The view of an invite code.
#[derive(Clone, Debug)]
pub struct GetProjectInviteCodeResult {
    pub id: ProjectInviteCodeId,
    pub project_id: ProjectId,
    pub code: String,
    pub valid: bool,
    pub valid_until: Option<i64>,
    pub role: ProjectRole,
}

/// The view of an invite code at time `now` (seconds since the Unix
/// epoch): `valid` holds without an end, and with one when it lies before
/// `now`.
pub open spec fn spec_invite_code_result(v: ProjectInviteCode, now: i64) -> GetProjectInviteCodeResult {
    GetProjectInviteCodeResult {
        id: v.id,
        project_id: v.project_id,
        code: v.code,
        valid: match v.valid_until {
            Some(vu) => vu < now,
            None => true,
        },
        valid_until: v.valid_until,
        role: v.assign_role,
    }
}

/// The view of an invite code at time `now`.
pub fn invite_code_result(value: ProjectInviteCode, now: i64) -> (r: GetProjectInviteCodeResult)
    ensures
        r == spec_invite_code_result(value, now),
{
    let valid = match value.valid_until {
        Some(vu) => vu < now,
        None => true,
    };
    GetProjectInviteCodeResult {
        id: value.id,
        project_id: value.project_id,
        code: value.code,
        valid,
        valid_until: value.valid_until,
        role: value.assign_role,
    }
}

/// The view of a user.
#[derive(Clone, Debug)]
pub struct GetUserResult {
    pub id: UserId,
    pub name: String,
    pub email: String,
    pub blocked: bool,
    pub role: ApplicationRole,
}

impl vstd::std_specs::convert::FromSpecImpl<User> for GetUserResult {
    open spec fn obeys_from_spec() -> bool {
        true
    }

    open spec fn from_spec(v: User) -> Self {
        GetUserResult { id: v.id, name: v.name, email: v.email, blocked: v.blocked, role: v.role }
    }
}

impl From<User> for GetUserResult {
    fn from(value: User) -> Self {
        GetUserResult {
            id: value.id,
            name: value.name,
            email: value.email,
            blocked: value.blocked,
            role: value.role,
        }
    }
}

/// The view of a virtual key.
#[derive(Clone, Debug)]
pub struct GetVirtualKeyResult {
    pub id: VirtualKeyId,
    pub key: String,
    pub alias: String,
    pub blocked: bool,
    pub project_id: ProjectId,
}

impl vstd::std_specs::convert::FromSpecImpl<VirtualKey> for GetVirtualKeyResult {
    open spec fn obeys_from_spec() -> bool {
        true
    }

    open spec fn from_spec(v: VirtualKey) -> Self {
        GetVirtualKeyResult {
            id: v.id,
            key: v.key,
            alias: v.alias,
            blocked: v.blocked,
            project_id: v.project_id,
        }
    }
}

impl From<VirtualKey> for GetVirtualKeyResult {
    fn from(value: VirtualKey) -> Self {
        GetVirtualKeyResult {
            id: value.id,
            key: value.key,
            alias: value.alias,
            blocked: value.blocked,
            project_id: value.project_id,
        }
    }
}

/// The view of a virtual key-deployment link.
#[derive(Clone, Copy, Debug, PartialEq, Eq, Structural)]
pub struct GetVirtualKeyDeploymentResult {
    pub id: VirtualKeyDeploymentId,
    pub virtual_key_id: VirtualKeyId,
    pub deployment_id: DeploymentId,
}

impl vstd::std_specs::convert::FromSpecImpl<VirtualKeyDeployment> for GetVirtualKeyDeploymentResult {
    open spec fn obeys_from_spec() -> bool {
        true
    }

    open spec fn from_spec(v: VirtualKeyDeployment) -> Self {
        GetVirtualKeyDeploymentResult {
            id: v.id,
            virtual_key_id: v.virtual_key_id,
            deployment_id: v.deployment_id,
        }
    }
}

impl From<VirtualKeyDeployment> for GetVirtualKeyDeploymentResult {
    fn from(value: VirtualKeyDeployment) -> Self {
        GetVirtualKeyDeploymentResult {
            id: value.id,
            virtual_key_id: value.virtual_key_id,
            deployment_id: value.deployment_id,
        }
    }
}

/// A list view: the items and how many there are.
#[derive(Clone, Debug)]
pub struct ListResult<T> {
    pub items: Vec<T>,
    pub total: usize,
}

impl<T> vstd::std_specs::convert::FromSpecImpl<Vec<T>> for ListResult<T> {
    open spec fn obeys_from_spec() -> bool {
        true
    }

    open spec fn from_spec(v: Vec<T>) -> Self {
        ListResult { items: v, total: v.len() }
    }
}

impl<T> From<Vec<T>> for ListResult<T> {
    fn from(value: Vec<T>) -> Self {
        let total = value.len();
        ListResult { items: value, total }
    }
}

} // verus!
