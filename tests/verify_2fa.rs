use auth_service::app_state::AppState;
use auth_service::auth::SigningKey;
use auth_service::data_stores::TwoFACodeStore;
use auth_service::email::Email;
use auth_service::error::AuthAPIError;
use auth_service::hashmap_two_fa_code_store::HashmapTwoFACodeStore;
use auth_service::hashmap_user_store::HashmapUserStore;
use auth_service::hashset_banned_token_store::HashsetBannedTokenStore;
use auth_service::routes::{
    login, signup, verify_2fa, verify_token, LoginRequest, LoginResponse, SignupRequest, Verify2FARequest,
    VerifyTokenRequest,
};

type InMemoryState = AppState<HashmapUserStore, HashsetBannedTokenStore, HashmapTwoFACodeStore>;

const NOW: u64 = 1_700_000_000;

fn new_state() -> InMemoryState {
    AppState::new(
        HashmapUserStore::default(),
        HashsetBannedTokenStore::default(),
        HashmapTwoFACodeStore::default(),
        SigningKey::new(b"2fa-test-secret".to_vec()).unwrap(),
    )
}

/// Signs up `email` with a second factor and logs in; gives the login-attempt id.
fn challenge(state: &mut InMemoryState, email: &str, now: u64) -> String {
    let request = SignupRequest { email: email.to_owned(), password: "password123".to_owned(), requires_2fa: true };
    assert_eq!(signup(state, request), Ok(()));
    let mut jar = None;
    let login_request = LoginRequest { email: email.to_owned(), password: "password123".to_owned() };
    match login(state, &mut jar, login_request, now) {
        Ok(LoginResponse::TwoFactorAuth(r)) => r.login_attempt_id,
        _ => panic!("expected a second-factor challenge"),
    }
}

fn stored_code(state: &InMemoryState, email: &str, now: u64) -> String {
    let e = Email::parse(email.to_owned()).unwrap();
    let pair = state.two_fa_code_store.get_code(&e, now).expect("2FA code not found");
    pair.1.as_ref().to_string()
}

fn request(email: &str, id: &str, code: &str) -> Verify2FARequest {
    Verify2FARequest { email: email.to_owned(), login_attempt_id: id.to_owned(), two_fa_code: code.to_owned() }
}

#[test]
fn verify_2fa_should_return_400_if_invalid_input() {
    let mut state = new_state();
    let mut jar = None;
    let r = verify_2fa(&mut state, &mut jar, request("invalid_email", "invalid_login_attempt_id", "invalid_2fa_code"), NOW);
    let err = r.err().unwrap();
    assert_eq!(err, AuthAPIError::InvalidCredentials);
    assert_eq!(err.status_code(), 400);
}

#[test]
fn verify_2fa_should_return_401_if_incorrect_credentials() {
    let mut state = new_state();
    let email = "random@example.com";
    let id = challenge(&mut state, email, NOW);
    let right = stored_code(&state, email, NOW);
    assert!(right.parse::<u32>().unwrap() >= 100000);
    let wrong = if right == "123456" { "654321" } else { "123456" };
    let mut jar = None;
    let r = verify_2fa(&mut state, &mut jar, request(email, &id, wrong), NOW + 1);
    assert_eq!(r, Err(AuthAPIError::IncorrectCredentials));
    assert_eq!(r.err().unwrap().status_code(), 401);
    assert!(jar.is_none());
}

#[test]
fn should_return_200_if_correct_code() {
    let mut state = new_state();
    let email = "random@example.com";
    let id = challenge(&mut state, email, NOW);
    let code = stored_code(&state, email, NOW);
    let mut jar = None;
    assert_eq!(verify_2fa(&mut state, &mut jar, request(email, &id, &code), NOW + 1), Ok(()));
    let token = jar.expect("No auth cookie found");
    assert!(!token.is_empty());
    assert_eq!(verify_token(&state, VerifyTokenRequest { token }, NOW + 2), Ok(email.to_owned()));
}

#[test]
fn second_login_invalidates_first_challenge() {
    let mut state = new_state();
    let email = "random@example.com";
    let first_id = challenge(&mut state, email, NOW);
    let first_code = stored_code(&state, email, NOW);
    let again = SignupRequest { email: email.to_owned(), password: "password123".to_owned(), requires_2fa: true };
    assert_eq!(signup(&mut state, again), Err(AuthAPIError::UserAlreadyExists));
    let mut jar = None;
    let relogin = LoginRequest { email: email.to_owned(), password: "password123".to_owned() };
    let second_id = match login(&mut state, &mut jar, relogin, NOW + 10) {
        Ok(LoginResponse::TwoFactorAuth(r)) => r.login_attempt_id,
        _ => panic!("expected a second-factor challenge"),
    };
    let second_code = stored_code(&state, email, NOW + 10);
    assert_ne!(first_id, second_id);
    let mut jar = None;
    let r = verify_2fa(&mut state, &mut jar, request(email, &first_id, &first_code), NOW + 20);
    assert_eq!(r, Err(AuthAPIError::IncorrectCredentials));
    assert_eq!(verify_2fa(&mut state, &mut jar, request(email, &second_id, &second_code), NOW + 30), Ok(()));
}

#[test]
fn challenge_is_single_use() {
    let mut state = new_state();
    let email = "random@example.com";
    let id = challenge(&mut state, email, NOW);
    let code = stored_code(&state, email, NOW);
    let mut jar = None;
    assert_eq!(verify_2fa(&mut state, &mut jar, request(email, &id, &code), NOW + 1), Ok(()));
    let mut jar2 = None;
    assert_eq!(verify_2fa(&mut state, &mut jar2, request(email, &id, &code), NOW + 2), Err(AuthAPIError::IncorrectCredentials));
    assert!(jar2.is_none());
}

#[test]
fn expired_challenge_is_refused() {
    let mut state = new_state();
    let email = "random@example.com";
    let id = challenge(&mut state, email, NOW);
    let code = stored_code(&state, email, NOW);
    let mut jar = None;
    assert_eq!(verify_2fa(&mut state, &mut jar, request(email, &id, &code), NOW + 600), Err(AuthAPIError::IncorrectCredentials));
}

#[test]
fn challenge_needs_matching_attempt_id() {
    let mut state = new_state();
    let email = "random@example.com";
    let _id = challenge(&mut state, email, NOW);
    let code = stored_code(&state, email, NOW);
    let mut jar = None;
    let other = "00000000-0000-0000-0000-000000000000";
    assert_eq!(verify_2fa(&mut state, &mut jar, request(email, other, &code), NOW + 1), Err(AuthAPIError::IncorrectCredentials));
}
