//! Identifiers of persisted records. Each wraps the 128-bit value of a UUID.

use vstd::prelude::*;

verus! {

/// Identifier of a deployment.
#[derive(Clone, Copy, Debug, PartialEq, Eq, Hash, Structural)]
pub struct DeploymentId(pub u128);

/// Identifier of a virtual batch.
#[derive(Clone, Copy, Debug, PartialEq, Eq, Hash, Structural)]
pub struct VirtualBatchId(pub u128);

/// Identifier of a virtual file.
#[derive(Clone, Copy, Debug, PartialEq, Eq, Hash, Structural)]
pub struct VirtualFileId(pub u128);

/// Identifier of a virtual key.
#[derive(Clone, Copy, Debug, PartialEq, Eq, Hash, Structural)]
pub struct VirtualKeyId(pub u128);

/// Identifier of a provider batch record.
#[derive(Clone, Copy, Debug, PartialEq, Eq, Hash, Structural)]
pub struct ProviderBatchId(pub u128);

/// Identifier of a connection.
#[derive(Clone, Copy, Debug, PartialEq, Eq, Hash, Structural)]
pub struct ConnectionId(pub u128);

/// Identifier of a project.
#[derive(Clone, Copy, Debug, PartialEq, Eq, Hash, Structural)]
pub struct ProjectId(pub u128);

/// Identifier of a project membership.
#[derive(Clone, Copy, Debug, PartialEq, Eq, Hash, Structural)]
pub struct MembershipId(pub u128);

/// Identifier of a user.
#[derive(Clone, Copy, Debug, PartialEq, Eq, Hash, Structural)]
pub struct UserId(pub u128);

/// Identifier of a session token: a digest of the token text.
#[derive(Clone, Copy, Debug, PartialEq, Eq, Hash, Structural)]
pub struct SessionTokenId(pub u128);

/// Identifier of a link between a connection and a deployment.
#[derive(Clone, Copy, Debug, PartialEq, Eq, Hash, Structural)]
pub struct ConnectionDeploymentId(pub u128);

/// Identifier of a link between a virtual key and a deployment.
#[derive(Clone, Copy, Debug, PartialEq, Eq, Hash, Structural)]
pub struct VirtualKeyDeploymentId(pub u128);

/// Identifier of a project invite code.
#[derive(Clone, Copy, Debug, PartialEq, Eq, Hash, Structural)]
pub struct ProjectInviteCodeId(pub u128);

} // verus!
