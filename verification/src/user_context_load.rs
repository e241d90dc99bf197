//! Who is calling, as the user-context loading middleware resolves it:
//! the master user or a web application user, with failures reported as
//! user-context extraction errors.

use vstd::prelude::*;
use crate::accounts::{SessionToken, User};
use crate::auth::{header_text, header_to_str};
use crate::errors::{LLMurError, UserContextExtractionError};
use crate::user_context::{contains_key, is_master_key};

verus! {

/// The caller of a request.
#[derive(Clone, Debug)]
pub enum UserContext {
    MasterUser,
    WebAppUser { session_token: SessionToken, user: User },
}

/// The caller named by the `X-LLMur-Key` header.
pub open spec fn spec_key_header_context(keys: Seq<String>, h: Seq<u8>) -> Option<
    UserContextExtractionError,
> {
    match header_text(h) {
        Some(t) => if is_master_key(keys, t) {
            None
        } else {
            Some(UserContextExtractionError::AuthInvalidAuthBearer)
        },
        None => Some(UserContextExtractionError::AuthInvalidAuthBearer),
    }
}

impl UserContext {
    /// The caller named by the `X-LLMur-Key` header: the master user when
    /// the header's text is a master key.
    pub fn resolve_from_key_header(master_keys: &[String], header: &[u8]) -> (r: Result<
        UserContext,
        UserContextExtractionError,
    >)
        ensures
            match spec_key_header_context(master_keys@, header@) {
                None => r matches Ok(UserContext::MasterUser),
                Some(e) => r == Err::<UserContext, UserContextExtractionError>(e),
            },
    {
        let key_str = match header_to_str(header) {
            Some(k) => k,
            None => {
                return Err(UserContextExtractionError::AuthInvalidAuthBearer);
            },
        };
        if contains_key(master_keys, key_str) {
            Ok(UserContext::MasterUser)
        } else {
            Err(UserContextExtractionError::AuthInvalidAuthBearer)
        }
    }

    /// The caller named by a session, from the lookups of its token and of
    /// the token's user (`Err(())` where a lookup failed).
    pub fn resolve_from_session_lookups(
        token: Result<Option<SessionToken>, ()>,
        user: Result<Option<User>, ()>,
    ) -> (r: Result<UserContext, UserContextExtractionError>)
        ensures
            match (token, user) {
                (Err(_), _) => r == Err::<UserContext, UserContextExtractionError>(
                    UserContextExtractionError::UnableToFetchSessionToken,
                ),
                (Ok(None), _) => r == Err::<UserContext, UserContextExtractionError>(
                    UserContextExtractionError::SessionTokenNotFound,
                ),
                (Ok(Some(_)), Err(_)) => r == Err::<UserContext, UserContextExtractionError>(
                    UserContextExtractionError::AuthUserNotFound,
                ),
                (Ok(Some(_)), Ok(None)) => r == Err::<UserContext, UserContextExtractionError>(
                    UserContextExtractionError::AuthUserNotFound,
                ),
                (Ok(Some(t)), Ok(Some(u))) => r == Ok::<UserContext, UserContextExtractionError>(
                    UserContext::WebAppUser { session_token: t, user: u },
                ),
            },
    {
        let session_token = match token {
            Err(_) => {
                return Err(UserContextExtractionError::UnableToFetchSessionToken);
            },
            Ok(None) => {
                return Err(UserContextExtractionError::SessionTokenNotFound);
            },
            Ok(Some(t)) => t,
        };
        match user {
            Err(_) => Err(UserContextExtractionError::AuthUserNotFound),
            Ok(None) => Err(UserContextExtractionError::AuthUserNotFound),
            Ok(Some(user)) => Ok(UserContext::WebAppUser { session_token, user }),
        }
    }

    /// The result for a request without credentials.
    pub fn unauthenticated() -> (r: Result<UserContext, UserContextExtractionError>)
        ensures
            r == Err::<UserContext, UserContextExtractionError>(
                UserContextExtractionError::AuthenticationNotProvided,
            ),
    {
        Err(UserContextExtractionError::AuthenticationNotProvided)
    }
}

/// The caller of a request, as the middleware resolves it: a key header
/// wins over a session header; `session` is the session's resolution, which
/// the middleware looks up only when there is a session header and no key
/// header.
pub fn load_user_context(
    master_keys: &[String],
    key_header: Option<&[u8]>,
    session: Option<Result<UserContext, UserContextExtractionError>>,
) -> (r: Result<UserContext, UserContextExtractionError>)
    ensures
        match key_header {
            Some(h) => match spec_key_header_context(master_keys@, h@) {
                None => r matches Ok(UserContext::MasterUser),
                Some(e) => r == Err::<UserContext, UserContextExtractionError>(e),
            },
            None => match session {
                Some(s) => r == s,
                None => r == Err::<UserContext, UserContextExtractionError>(
                    UserContextExtractionError::AuthenticationNotProvided,
                ),
            },
        },
{
    match key_header {
        Some(h) => UserContext::resolve_from_key_header(master_keys, h),
        None => match session {
            Some(s) => s,
            None => UserContext::unauthenticated(),
        },
    }
}

/// What a management route demands of its caller.
pub trait AuthorizationManager {
    /// The caller, if it is the master user.
    fn require_master_user(self) -> Result<UserContext, LLMurError>;

    /// The caller, if it is authenticated.
    fn require_authenticated_user(self) -> Result<UserContext, LLMurError>;
}

impl AuthorizationManager for Result<UserContext, UserContextExtractionError> {
    fn require_master_user(self) -> (r: Result<UserContext, LLMurError>)
        ensures
            match self {
                Ok(UserContext::MasterUser) => r matches Ok(UserContext::MasterUser),
                _ => r == Err::<UserContext, LLMurError>(LLMurError::NotAuthorized),
            },
    {
        match self {
            Ok(ctx) => match ctx {
                UserContext::MasterUser => Ok(ctx),
                UserContext::WebAppUser { .. } => Err(LLMurError::NotAuthorized),
            },
            Err(_) => Err(LLMurError::NotAuthorized),
        }
    }

    fn require_authenticated_user(self) -> (r: Result<UserContext, LLMurError>)
        ensures
            match self {
                Ok(c) => r == Ok::<UserContext, LLMurError>(c),
                Err(_) => r == Err::<UserContext, LLMurError>(LLMurError::NotAuthorized),
            },
    {
        match self {
            Ok(c) => Ok(c),
            Err(_) => Err(LLMurError::NotAuthorized),
        }
    }
}

} // verus!
