//! Who may read and delete user accounts.

use vstd::prelude::*;
use crate::accounts::{ApplicationRole, User};
use crate::errors::{AuthorizationError, LLMurError};
use crate::ids::UserId;
use crate::text::concat;
use crate::user_context::UserContext;
use crate::uuid_text::{uuid_hyphenated, uuid_to_string};

verus! {

impl UserContext {
    /// Whether the caller is the master user.
    pub fn is_master_user(&self) -> (r: bool)
        ensures
            r == (*self is MasterUser),
    {
        match self {
            UserContext::MasterUser => true,
            UserContext::WebAppUser { .. } => false,
        }
    }
}

/// How a request for a user account is answered.
#[derive(Clone, Debug)]
pub enum UserLookup {
    /// Look the account up in the store.
    Fetch(UserId),
    /// Answer with the caller's own record.
    Caller(User),
}

pub open spec fn access_denied() -> LLMurError {
    LLMurError::Authorization(AuthorizationError::AccessDenied)
}

/// Account `id` as the caller may see it: the master user may see any
/// account; a user may see their own, and an application admin their own
/// record in its place.
pub fn user_lookup(ctx: UserContext, id: UserId) -> (r: Result<UserLookup, LLMurError>)
    ensures
        match ctx {
            UserContext::MasterUser => r matches Ok(UserLookup::Fetch(x)) && x == id,
            UserContext::WebAppUser { user, .. } => if user.id == id || user.role
                == ApplicationRole::Admin {
                r == Ok::<UserLookup, LLMurError>(UserLookup::Caller(user))
            } else {
                r == Err::<UserLookup, LLMurError>(access_denied())
            },
        },
{
    match ctx {
        UserContext::MasterUser => Ok(UserLookup::Fetch(id)),
        UserContext::WebAppUser { user, .. } => {
            if user.id.0 == id.0 || user.role == ApplicationRole::Admin {
                Ok(UserLookup::Caller(user))
            } else {
                Err(LLMurError::Authorization(AuthorizationError::AccessDenied))
            }
        },
    }
}

/// The caller's own account; the master user has none.
pub fn current_user(ctx: UserContext) -> (r: Result<User, LLMurError>)
    ensures
        match ctx {
            UserContext::MasterUser => r == Err::<User, LLMurError>(access_denied()),
            UserContext::WebAppUser { user, .. } => r == Ok::<User, LLMurError>(user),
        },
{
    match ctx {
        UserContext::MasterUser => Err(LLMurError::Authorization(AuthorizationError::AccessDenied)),
        UserContext::WebAppUser { user, .. } => Ok(user),
    }
}

/// Whether the caller may delete account `id`: the master user may delete
/// any; a user only their own.
pub fn may_delete_user(ctx: &UserContext, id: UserId) -> (r: Result<(), LLMurError>)
    ensures
        match *ctx {
            UserContext::MasterUser => r is Ok,
            UserContext::WebAppUser { user, .. } => if user.id == id {
                r is Ok
            } else {
                r == Err::<(), LLMurError>(access_denied())
            },
        },
{
    match ctx {
        UserContext::MasterUser => Ok(()),
        UserContext::WebAppUser { user, .. } => if user.id.0 == id.0 {
            Ok(())
        } else {
            Err(LLMurError::Authorization(AuthorizationError::AccessDenied))
        },
    }
}

/// The answer to a deletion that removed `deleted` records: not found when
/// none was removed, else the message `User <id> deleted successfully`.
pub fn user_deletion_message(id: UserId, deleted: u64) -> (r: Result<String, LLMurError>)
    ensures
        deleted == 0 ==> r == Err::<String, LLMurError>(LLMurError::ResourceNotFound),
        deleted != 0 ==> (r matches Ok(m) && m@ == "User "@ + uuid_hyphenated(id.0)
            + " deleted successfully"@),
{
    if deleted == 0 {
        return Err(LLMurError::ResourceNotFound);
    }
    let text = uuid_to_string(id.0);
    let head = concat("User ", text.as_str());
    Ok(concat(head.as_str(), " deleted successfully"))
}

} // verus!
