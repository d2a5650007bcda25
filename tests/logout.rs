use auth_service::app_state::AppState;
use auth_service::auth::SigningKey;
use auth_service::email::Email;
use auth_service::error::AuthAPIError;
use auth_service::hashmap_two_fa_code_store::HashmapTwoFACodeStore;
use auth_service::hashmap_user_store::HashmapUserStore;
use auth_service::hashset_banned_token_store::HashsetBannedTokenStore;
use auth_service::routes::{logout, verify_token, VerifyTokenRequest};

type InMemoryState = AppState<HashmapUserStore, HashsetBannedTokenStore, HashmapTwoFACodeStore>;

const NOW: u64 = 1_700_000_000;
const JTI: &str = "6f9619ff-8b86-d011-b42d-00c04fc964ff";

fn new_state() -> InMemoryState {
    AppState::new(
        HashmapUserStore::default(),
        HashsetBannedTokenStore::default(),
        HashmapTwoFACodeStore::default(),
        SigningKey::new(b"logout-test-secret".to_vec()).unwrap(),
    )
}

fn valid_token(state: &InMemoryState) -> String {
    let email = Email::parse("random@example.com".to_owned()).unwrap();
    state.signing_key.issue(&JTI.to_owned(), &email, NOW)
}

#[test]
fn should_return_400_if_jwt_cookie_missing() {
    let mut state = new_state();
    let mut jar: Option<String> = None;
    let err = logout(&mut state, &mut jar, NOW).err().unwrap();
    assert_eq!(err, AuthAPIError::MissingToken);
    assert_eq!(err.status_code(), 400);
}

#[test]
fn logout_should_return_401_if_invalid_token() {
    let mut state = new_state();
    let mut jar = Some("invalid".to_owned());
    let err = logout(&mut state, &mut jar, NOW).err().unwrap();
    assert_eq!(err, AuthAPIError::InvalidToken);
    assert_eq!(err.status_code(), 401);
    assert_eq!(jar, Some("invalid".to_owned()));
}

#[test]
fn should_return_200_if_valid_jwt_cookie() {
    let mut state = new_state();
    let mut jar = Some(valid_token(&state));
    assert_eq!(logout(&mut state, &mut jar, NOW + 5), Ok(()));
    assert!(jar.is_none());
}

#[test]
fn should_return_400_if_logout_called_twice() {
    let mut state = new_state();
    let mut jar = Some(valid_token(&state));
    let first = logout(&mut state, &mut jar, NOW + 5);
    let second = logout(&mut state, &mut jar, NOW + 6);
    assert_eq!(first, Ok(()));
    assert_eq!(second.err().unwrap().status_code(), 400);
    assert_eq!(second, Err(AuthAPIError::MissingToken));
}

#[test]
fn logout_then_verify_token_fails() {
    let mut state = new_state();
    let token = valid_token(&state);
    let mut jar = Some(token.clone());
    assert_eq!(verify_token(&state, VerifyTokenRequest { token: token.clone() }, NOW + 1), Ok("random@example.com".to_owned()));
    assert_eq!(logout(&mut state, &mut jar, NOW + 2), Ok(()));
    assert_eq!(verify_token(&state, VerifyTokenRequest { token: token.clone() }, NOW + 3), Err(AuthAPIError::InvalidToken));
    // Logging out the same token again from another jar is still accepted: revocation is idempotent.
    let mut other = Some(token);
    assert_eq!(logout(&mut state, &mut other, NOW + 4), Ok(()));
}

#[test]
fn expired_token_cannot_be_logged_out() {
    let mut state = new_state();
    let mut jar = Some(valid_token(&state));
    assert_eq!(logout(&mut state, &mut jar, NOW + 3600), Err(AuthAPIError::InvalidToken));
    assert!(jar.is_some());
}
