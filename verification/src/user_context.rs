//! Who is calling: the master user, holding a master key, or a web
//! application user with a live session. Failures are authentication
//! errors.

use vstd::prelude::*;
use crate::accounts::{ApplicationRole, Membership, ProjectRole, SessionToken, User};
use crate::auth::{header_text, header_to_str};
use crate::errors::{AuthenticationError, AuthorizationError, LLMurError};
use crate::ids::ProjectId;
use crate::text::seq_eq;

verus! {

/// The caller of a management request.
#[derive(Clone, Debug)]
pub enum UserContext {
    MasterUser,
    WebAppUser { session_token: SessionToken, user: User },
}

/// Whether `key` is one of `keys`.
pub open spec fn is_master_key(keys: Seq<String>, key: Seq<char>) -> bool {
    exists|i: int| 0 <= i < keys.len() && (#[trigger] keys[i])@ == key
}

/// Whether `key` is one of the master keys.
pub fn contains_key(keys: &[String], key: &str) -> (r: bool)
    ensures
        r == is_master_key(keys@, key@),
{
    let mut i: usize = 0;
    while i < keys.len()
        invariant
            i <= keys@.len(),
            forall|j: int| 0 <= j < i ==> (#[trigger] keys@[j])@ != key@,
        decreases keys@.len() - i,
    {
        if seq_eq(keys[i].as_str(), key) {
            return true;
        }
        i = i + 1;
    }
    false
}

/// The membership that decides a user's access to `project`: among the
/// memberships in that project, the one with the least id (of equal ids,
/// the later).
pub open spec fn deciding_membership(ms: Seq<Membership>, project: ProjectId) -> Option<Membership>
    decreases ms.len(),
{
    if ms.len() == 0 {
        None
    } else {
        let best = deciding_membership(ms.drop_last(), project);
        let m = ms.last();
        if m.project_id == project && (best is None || m.id.0 <= best->0.id.0) {
            Some(m)
        } else {
            best
        }
    }
}

/// Whether the caller may act on `project`: the master user and
/// application admins always may; another user may when the deciding
/// membership's role is admin, or developer where `developer_suffices`.
pub open spec fn spec_project_access(
    ctx: UserContext,
    ms: Seq<Membership>,
    project: ProjectId,
    developer_suffices: bool,
) -> bool {
    match ctx {
        UserContext::MasterUser => true,
        UserContext::WebAppUser { user, .. } => {
            user.role == ApplicationRole::Admin || match deciding_membership(ms, project) {
                None => false,
                Some(m) => m.role == ProjectRole::Admin || (developer_suffices && m.role
                    == ProjectRole::Developer),
            }
        },
    }
}

impl UserContext {
    /// The caller named by the `X-LLMur-Key` header: the master user when
    /// the header's text is a master key.
    pub fn resolve_from_key_header(master_keys: &[String], header: &[u8]) -> (r: Result<
        UserContext,
        AuthenticationError,
    >)
        ensures
            match header_text(header@) {
                Some(t) => if is_master_key(master_keys@, t) {
                    r matches Ok(UserContext::MasterUser)
                } else {
                    r == Err::<UserContext, AuthenticationError>(
                        AuthenticationError::InvalidAuthBearer,
                    )
                },
                None => r == Err::<UserContext, AuthenticationError>(
                    AuthenticationError::InvalidAuthBearer,
                ),
            },
    {
        let key_str = match header_to_str(header) {
            Some(k) => k,
            None => {
                return Err(AuthenticationError::InvalidAuthBearer);
            },
        };
        if contains_key(master_keys, key_str) {
            Ok(UserContext::MasterUser)
        } else {
            Err(AuthenticationError::InvalidAuthBearer)
        }
    }

    /// The caller named by a session, from the lookups of its token and of
    /// the token's user (`Err(())` where a lookup failed).
    pub fn resolve_from_session_lookups(
        token: Result<Option<SessionToken>, ()>,
        user: Result<Option<User>, ()>,
    ) -> (r: Result<UserContext, AuthenticationError>)
        ensures
            match (token, user) {
                (Err(_), _) => r == Err::<UserContext, AuthenticationError>(
                    AuthenticationError::UnableToFetchSessionToken,
                ),
                (Ok(None), _) => r == Err::<UserContext, AuthenticationError>(
                    AuthenticationError::InvalidSessionToken,
                ),
                (Ok(Some(_)), Err(_)) => r == Err::<UserContext, AuthenticationError>(
                    AuthenticationError::UnableToFetchTokenUser,
                ),
                (Ok(Some(_)), Ok(None)) => r == Err::<UserContext, AuthenticationError>(
                    AuthenticationError::TokenUserNotFound,
                ),
                (Ok(Some(t)), Ok(Some(u))) => r == Ok::<UserContext, AuthenticationError>(
                    UserContext::WebAppUser { session_token: t, user: u },
                ),
            },
    {
        let session_token = match token {
            Err(_) => {
                return Err(AuthenticationError::UnableToFetchSessionToken);
            },
            Ok(None) => {
                return Err(AuthenticationError::InvalidSessionToken);
            },
            Ok(Some(t)) => t,
        };
        match user {
            Err(_) => Err(AuthenticationError::UnableToFetchTokenUser),
            Ok(None) => Err(AuthenticationError::TokenUserNotFound),
            Ok(Some(user)) => Ok(UserContext::WebAppUser { session_token, user }),
        }
    }

    /// The result for a request without credentials.
    pub fn unauthenticated() -> (r: Result<UserContext, AuthenticationError>)
        ensures
            r == Err::<UserContext, AuthenticationError>(AuthenticationError::Unauthenticated),
    {
        Err(AuthenticationError::Unauthenticated)
    }

    /// Whether the caller may administer `project`, given the caller's
    /// memberships.
    pub fn has_project_admin_access(&self, memberships: &[Membership], project_id: &ProjectId) -> (r:
        bool)
        ensures
            r == spec_project_access(*self, memberships@, *project_id, false),
    {
        project_access(self, memberships, project_id, false)
    }

    /// Whether the caller may develop in `project`, given the caller's
    /// memberships.
    pub fn has_project_developer_access(
        &self,
        memberships: &[Membership],
        project_id: &ProjectId,
    ) -> (r: bool)
        ensures
            r == spec_project_access(*self, memberships@, *project_id, true),
    {
        project_access(self, memberships, project_id, true)
    }
}

fn project_access(
    ctx: &UserContext,
    memberships: &[Membership],
    project_id: &ProjectId,
    developer_suffices: bool,
) -> (r: bool)
    ensures
        r == spec_project_access(*ctx, memberships@, *project_id, developer_suffices),
{
    match ctx {
        UserContext::MasterUser => true,
        UserContext::WebAppUser { user, .. } => {
            if user.role == ApplicationRole::Admin {
                return true;
            }
            let mut best: Option<Membership> = None;
            let mut i: usize = 0;
            while i < memberships.len()
                invariant
                    i <= memberships@.len(),
                    best == deciding_membership(memberships@.subrange(0, i as int), *project_id),
                decreases memberships@.len() - i,
            {
                let m = memberships[i];
                assert(memberships@.subrange(0, i + 1).drop_last() =~= memberships@.subrange(
                    0,
                    i as int,
                ));
                let better = match best {
                    None => true,
                    Some(b) => m.id.0 <= b.id.0,
                };
                if m.project_id.0 == project_id.0 && better {
                    best = Some(m);
                }
                i = i + 1;
            }
            assert(memberships@.subrange(0, memberships@.len() as int) =~= memberships@);
            match best {
                None => false,
                Some(m) => match m.role {
                    ProjectRole::Admin => true,
                    ProjectRole::Developer => developer_suffices,
                    ProjectRole::Guest => false,
                },
            }
        },
    }
}

/// Whoever may administer a project may also develop in it.
pub proof fn law_admin_access_implies_developer_access(
    ctx: UserContext,
    memberships: Seq<Membership>,
    project: ProjectId,
)
    ensures
        spec_project_access(ctx, memberships, project, false) ==> spec_project_access(
            ctx,
            memberships,
            project,
            true,
        ),
{
}

/// What a management route demands of its caller.
pub trait AuthorizationManager {
    /// The caller, if it is the master user.
    fn require_master_user(self) -> Result<UserContext, LLMurError>;

    /// The caller, if it is authenticated.
    fn require_authenticated_user(self) -> Result<UserContext, LLMurError>;
}

impl AuthorizationManager for Result<UserContext, AuthenticationError> {
    fn require_master_user(self) -> (r: Result<UserContext, LLMurError>)
        ensures
            match self {
                Ok(UserContext::MasterUser) => r matches Ok(UserContext::MasterUser),
                _ => r == Err::<UserContext, LLMurError>(
                    LLMurError::Authorization(AuthorizationError::AccessDenied),
                ),
            },
    {
        match self {
            Ok(ctx) => match ctx {
                UserContext::MasterUser => Ok(ctx),
                UserContext::WebAppUser { .. } => Err(
                    LLMurError::Authorization(AuthorizationError::AccessDenied),
                ),
            },
            Err(_) => Err(LLMurError::Authorization(AuthorizationError::AccessDenied)),
        }
    }

    fn require_authenticated_user(self) -> (r: Result<UserContext, LLMurError>)
        ensures
            match self {
                Ok(c) => r == Ok::<UserContext, LLMurError>(c),
                Err(e) => r == Err::<UserContext, LLMurError>(LLMurError::Authentication(e)),
            },
    {
        match self {
            Ok(c) => Ok(c),
            Err(e) => Err(LLMurError::Authentication(e)),
        }
    }
}

} // verus!
