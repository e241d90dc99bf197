use llmur::accounts::{ApplicationRole, Membership, ProjectRole, SessionToken, User};
use llmur::auth::{
    authorization_from_header, extract_api_key, extract_bearer_token, header_to_str,
    is_visible_header, AuthorizationHeader,
};
use llmur::errors::{AuthenticationError, AuthorizationError, LLMurError, UserContextExtractionError};
use llmur::ids::{MembershipId, ProjectId, SessionTokenId, UserId};
use llmur::user_context::{contains_key, AuthorizationManager, UserContext};
use llmur::user_context_load::{
    load_user_context, AuthorizationManager as LoadedManager, UserContext as LoadedContext,
};
use llmur::user_routes::{current_user, may_delete_user, user_deletion_message, user_lookup, UserLookup};

fn user(id: u128, role: ApplicationRole) -> User {
    User {
        id: UserId(id),
        name: format!("user {}", id),
        email: format!("u{}@example.com", id),
        blocked: false,
        role,
        memberships: vec![],
    }
}

fn web_user(id: u128, role: ApplicationRole) -> UserContext {
    UserContext::WebAppUser {
        session_token: SessionToken { id: SessionTokenId(99), user_id: UserId(id) },
        user: user(id, role),
    }
}

fn membership(id: u128, project: u128, role: ProjectRole) -> Membership {
    Membership { id: MembershipId(id), project_id: ProjectId(project), user_id: UserId(1), role }
}

#[test]
fn bearer_token_is_taken_from_a_two_word_header() {
    assert_eq!(extract_bearer_token(b"Bearer sk-test-123"), Ok("sk-test-123".to_string()));
    assert_eq!(extract_bearer_token(b"  Bearer \t tok  "), Ok("tok".to_string()));
}

#[test]
fn bearer_token_rejects_other_shapes() {
    assert_eq!(extract_bearer_token(b"Basic abc"), Err(AuthenticationError::InvalidAuthBearer));
    assert_eq!(extract_bearer_token(b"Bearer"), Err(AuthenticationError::InvalidAuthBearer));
    assert_eq!(extract_bearer_token(b"Bearer a b"), Err(AuthenticationError::InvalidAuthBearer));
    assert_eq!(extract_bearer_token(b"bearer abc"), Err(AuthenticationError::InvalidAuthBearer));
    assert_eq!(extract_bearer_token(b""), Err(AuthenticationError::InvalidAuthBearer));
}

#[test]
fn bearer_token_rejects_bytes_outside_visible_ascii() {
    assert_eq!(extract_bearer_token(b"Bearer t\x01k"), Err(AuthenticationError::InvalidAuthBearer));
    assert_eq!(extract_bearer_token(b"Bearer t\xc3\xa9"), Err(AuthenticationError::InvalidAuthBearer));
}

#[test]
fn header_text_needs_visible_ascii_or_tab() {
    assert!(is_visible_header(b"abc\tdef ~"));
    assert!(!is_visible_header(b"abc\n"));
    assert!(!is_visible_header(b"\x7f"));
    assert_eq!(header_to_str(b"key-1"), Some("key-1"));
    assert_eq!(header_to_str(b"key\x00"), None);
}

#[test]
fn authorization_header_missing_or_malformed() {
    assert_eq!(authorization_from_header(None), Err(AuthenticationError::AuthHeaderNotProvided));
    assert_eq!(
        authorization_from_header(Some(&b"Token x"[..])),
        Err(AuthenticationError::InvalidAuthBearer)
    );
    assert_eq!(
        authorization_from_header(Some(&b"Bearer abc"[..])),
        Ok(AuthorizationHeader::Bearer("abc".to_string()))
    );
}

#[test]
fn api_key_from_recorded_authorization() {
    assert_eq!(
        extract_api_key(Ok(AuthorizationHeader::Bearer("k1".to_string()))),
        Ok("k1".to_string())
    );
    assert_eq!(
        extract_api_key(Err(AuthenticationError::AuthHeaderNotProvided)),
        Err(LLMurError::Authentication(AuthenticationError::AuthHeaderNotProvided))
    );
}

#[test]
fn bearer_header_law_on_a_concrete_token() {
    let token = "abc-DEF_123";
    let header = format!("Bearer {}", token);
    assert_eq!(extract_bearer_token(header.as_bytes()), Ok(token.to_string()));
}

#[test]
fn master_key_lookup() {
    let keys = vec!["m1".to_string(), "m2".to_string()];
    assert!(contains_key(&keys, "m2"));
    assert!(!contains_key(&keys, "m3"));
    assert!(!contains_key(&[], "m1"));
}

#[test]
fn key_header_resolves_master_user() {
    let keys = vec!["master".to_string()];
    assert!(matches!(
        UserContext::resolve_from_key_header(&keys, b"master"),
        Ok(UserContext::MasterUser)
    ));
    assert!(matches!(
        UserContext::resolve_from_key_header(&keys, b"other"),
        Err(AuthenticationError::InvalidAuthBearer)
    ));
    assert!(matches!(
        UserContext::resolve_from_key_header(&keys, b"mast\x01er"),
        Err(AuthenticationError::InvalidAuthBearer)
    ));
}

#[test]
fn session_lookups_resolve_in_order() {
    let token = SessionToken { id: SessionTokenId(5), user_id: UserId(7) };
    let u = user(7, ApplicationRole::Member);
    assert!(matches!(
        UserContext::resolve_from_session_lookups(Err(()), Ok(Some(u.clone()))),
        Err(AuthenticationError::UnableToFetchSessionToken)
    ));
    assert!(matches!(
        UserContext::resolve_from_session_lookups(Ok(None), Ok(Some(u.clone()))),
        Err(AuthenticationError::InvalidSessionToken)
    ));
    assert!(matches!(
        UserContext::resolve_from_session_lookups(Ok(Some(token)), Err(())),
        Err(AuthenticationError::UnableToFetchTokenUser)
    ));
    assert!(matches!(
        UserContext::resolve_from_session_lookups(Ok(Some(token)), Ok(None)),
        Err(AuthenticationError::TokenUserNotFound)
    ));
    match UserContext::resolve_from_session_lookups(Ok(Some(token)), Ok(Some(u))) {
        Ok(UserContext::WebAppUser { session_token, user }) => {
            assert_eq!(session_token, token);
            assert_eq!(user.id, UserId(7));
        }
        other => panic!("unexpected {:?}", other),
    }
    assert!(matches!(UserContext::unauthenticated(), Err(AuthenticationError::Unauthenticated)));
}

#[test]
fn project_access_follows_the_least_membership_id() {
    let member = web_user(1, ApplicationRole::Member);
    let project = ProjectId(10);
    let ms = vec![
        membership(5, 10, ProjectRole::Guest),
        membership(3, 10, ProjectRole::Developer),
        membership(1, 11, ProjectRole::Admin),
    ];
    assert!(!member.has_project_admin_access(&ms, &project));
    assert!(member.has_project_developer_access(&ms, &project));
    let ms2 = vec![membership(2, 10, ProjectRole::Admin), membership(4, 10, ProjectRole::Guest)];
    assert!(member.has_project_admin_access(&ms2, &project));
    assert!(member.has_project_developer_access(&ms2, &project));
    assert!(!member.has_project_developer_access(&[], &project));
    assert!(!member.has_project_admin_access(&ms, &ProjectId(12)));
}

#[test]
fn project_access_for_master_and_app_admin() {
    let project = ProjectId(10);
    assert!(UserContext::MasterUser.has_project_admin_access(&[], &project));
    assert!(web_user(2, ApplicationRole::Admin).has_project_admin_access(&[], &project));
}

#[test]
fn authorization_manager_on_authentication_results() {
    let ok: Result<UserContext, AuthenticationError> = Ok(UserContext::MasterUser);
    assert!(matches!(ok.require_master_user(), Ok(UserContext::MasterUser)));
    let web: Result<UserContext, AuthenticationError> = Ok(web_user(1, ApplicationRole::Admin));
    assert_eq!(
        web.require_master_user().err(),
        Some(LLMurError::Authorization(AuthorizationError::AccessDenied))
    );
    let failed: Result<UserContext, AuthenticationError> =
        Err(AuthenticationError::TokenUserNotFound);
    assert_eq!(
        failed.clone().require_master_user().err(),
        Some(LLMurError::Authorization(AuthorizationError::AccessDenied))
    );
    assert_eq!(
        failed.require_authenticated_user().err(),
        Some(LLMurError::Authentication(AuthenticationError::TokenUserNotFound))
    );
    let web2: Result<UserContext, AuthenticationError> = Ok(web_user(3, ApplicationRole::Member));
    assert!(matches!(web2.require_authenticated_user(), Ok(UserContext::WebAppUser { .. })));
}

#[test]
fn loaded_context_prefers_the_key_header() {
    let keys = vec!["mk".to_string()];
    let session: Option<Result<LoadedContext, UserContextExtractionError>> =
        Some(Err(UserContextExtractionError::SessionTokenNotFound));
    assert!(matches!(
        load_user_context(&keys, Some(&b"mk"[..]), session.clone()),
        Ok(LoadedContext::MasterUser)
    ));
    assert!(matches!(
        load_user_context(&keys, Some(&b"nope"[..]), None),
        Err(UserContextExtractionError::AuthInvalidAuthBearer)
    ));
    assert!(matches!(
        load_user_context(&keys, None, session),
        Err(UserContextExtractionError::SessionTokenNotFound)
    ));
    assert!(matches!(
        load_user_context(&keys, None, None),
        Err(UserContextExtractionError::AuthenticationNotProvided)
    ));
}

#[test]
fn loaded_context_authorization() {
    let failed: Result<LoadedContext, UserContextExtractionError> =
        Err(UserContextExtractionError::AuthUserNotFound);
    assert_eq!(LoadedManager::require_master_user(failed.clone()).err(), Some(LLMurError::NotAuthorized));
    assert_eq!(
        LoadedManager::require_authenticated_user(failed).err(),
        Some(LLMurError::NotAuthorized)
    );
    let master: Result<LoadedContext, UserContextExtractionError> = Ok(LoadedContext::MasterUser);
    assert!(matches!(LoadedManager::require_master_user(master), Ok(LoadedContext::MasterUser)));
}

#[test]
fn user_lookup_rules() {
    assert!(matches!(
        user_lookup(UserContext::MasterUser, UserId(4)),
        Ok(UserLookup::Fetch(UserId(4)))
    ));
    match user_lookup(web_user(4, ApplicationRole::Member), UserId(4)) {
        Ok(UserLookup::Caller(u)) => assert_eq!(u.id, UserId(4)),
        other => panic!("unexpected {:?}", other),
    }
    match user_lookup(web_user(2, ApplicationRole::Admin), UserId(4)) {
        Ok(UserLookup::Caller(u)) => assert_eq!(u.id, UserId(2)),
        other => panic!("unexpected {:?}", other),
    }
    assert_eq!(
        user_lookup(web_user(2, ApplicationRole::Member), UserId(4)).err(),
        Some(LLMurError::Authorization(AuthorizationError::AccessDenied))
    );
}

#[test]
fn current_user_and_deletion_rules() {
    assert_eq!(
        current_user(UserContext::MasterUser).err(),
        Some(LLMurError::Authorization(AuthorizationError::AccessDenied))
    );
    assert_eq!(current_user(web_user(6, ApplicationRole::Member)).unwrap().id, UserId(6));
    assert!(UserContext::MasterUser.is_master_user());
    assert!(!web_user(6, ApplicationRole::Admin).is_master_user());
    assert_eq!(may_delete_user(&UserContext::MasterUser, UserId(1)), Ok(()));
    assert_eq!(may_delete_user(&web_user(1, ApplicationRole::Member), UserId(1)), Ok(()));
    assert_eq!(
        may_delete_user(&web_user(1, ApplicationRole::Admin), UserId(2)),
        Err(LLMurError::Authorization(AuthorizationError::AccessDenied))
    );
}

#[test]
fn deletion_message_names_the_user() {
    let id = UserId(0x0123_4567_89ab_cdef_0123_4567_89ab_cdef);
    assert_eq!(
        user_deletion_message(id, 1),
        Ok("User 01234567-89ab-cdef-0123-456789abcdef deleted successfully".to_string())
    );
    assert_eq!(user_deletion_message(id, 0), Err(LLMurError::ResourceNotFound));
}
