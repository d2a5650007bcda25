use auth_service::app_state::AppState;
use auth_service::auth::SigningKey;
use auth_service::data_stores::{UserStore, UserStoreError};
use auth_service::email::Email;
use auth_service::error::AuthAPIError;
use auth_service::hashmap_two_fa_code_store::HashmapTwoFACodeStore;
use auth_service::hashmap_user_store::HashmapUserStore;
use auth_service::hashset_banned_token_store::HashsetBannedTokenStore;
use auth_service::password::Password;
use auth_service::user::User;
use auth_service::routes::{login, signup, verify_token, LoginRequest, LoginResponse, SignupRequest, VerifyTokenRequest};

type InMemoryState = AppState<HashmapUserStore, HashsetBannedTokenStore, HashmapTwoFACodeStore>;

const NOW: u64 = 1_700_000_000;

fn new_state() -> InMemoryState {
    AppState::new(
        HashmapUserStore::default(),
        HashsetBannedTokenStore::default(),
        HashmapTwoFACodeStore::default(),
        SigningKey::new(b"login-test-secret".to_vec()).unwrap(),
    )
}

fn sign_up(state: &mut InMemoryState, email: &str, requires_2fa: bool) {
    let request = SignupRequest { email: email.to_owned(), password: "password123".to_owned(), requires_2fa };
    assert_eq!(signup(state, request), Ok(()));
}

fn login_request(email: &str, password: &str) -> LoginRequest {
    LoginRequest { email: email.to_owned(), password: password.to_owned() }
}

#[test]
fn should_return_200_if_valid_credentials_and_2fa_disabled() {
    let mut state = new_state();
    let mut jar = None;
    sign_up(&mut state, "random@example.com", false);
    let response = login(&mut state, &mut jar, login_request("random@example.com", "password123"), NOW);
    assert!(matches!(response, Ok(LoginResponse::RegularAuth)));
    let token = jar.expect("No auth cookie found");
    assert!(!token.is_empty());
}

#[test]
fn login_should_return_401_if_incorrect_credentials() {
    let mut state = new_state();
    let mut jar = None;
    let response = login(&mut state, &mut jar, login_request("bob@bob.com", "passwordABC"), NOW);
    let err = response.err().unwrap();
    assert_eq!(err, AuthAPIError::IncorrectCredentials);
    assert_eq!(err.status_code(), 401);
    assert!(jar.is_none());
}

#[test]
fn login_wrong_secret_is_incorrect_credentials() {
    let mut state = new_state();
    let mut jar = None;
    sign_up(&mut state, "bob@bob.com", false);
    let response = login(&mut state, &mut jar, login_request("bob@bob.com", "passwordABC"), NOW);
    assert_eq!(response.err(), Some(AuthAPIError::IncorrectCredentials));
    assert!(jar.is_none());
}

#[test]
fn login_should_return_400_if_invalid_input() {
    let mut state = new_state();
    let random_email = "random@example.com";
    sign_up(&mut state, random_email, false);
    let inputs = [
        ("", "password123"),
        (random_email, ""),
        ("", ""),
        ("invalid_email", "password123"),
        (random_email, "invalid"),
    ];
    for (email, password) in inputs.iter() {
        let mut jar = None;
        let err = login(&mut state, &mut jar, login_request(email, password), NOW).err().unwrap();
        assert_eq!(err, AuthAPIError::InvalidCredentials);
        assert_eq!(err.status_code(), 400);
        assert!(jar.is_none());
    }
}

#[test]
fn login_identifier_is_case_insensitive() {
    let mut state = new_state();
    let mut jar = None;
    sign_up(&mut state, "Carol@Example.com", false);
    let response = login(&mut state, &mut jar, login_request("CAROL@example.COM", "password123"), NOW);
    assert!(matches!(response, Ok(LoginResponse::RegularAuth)));
    let token = jar.unwrap();
    let subject = verify_token(&state, VerifyTokenRequest { token }, NOW + 1);
    assert_eq!(subject, Ok("carol@example.com".to_owned()));
}

#[test]
fn login_with_second_factor_gives_no_token() {
    let mut state = new_state();
    let mut jar = None;
    sign_up(&mut state, "dave@example.com", true);
    let response = login(&mut state, &mut jar, login_request("dave@example.com", "password123"), NOW);
    match response {
        Ok(LoginResponse::TwoFactorAuth(r)) => {
            assert_eq!(r.message, "2FA required");
            assert_eq!(r.login_attempt_id.len(), 36);
            let as_token = verify_token(&state, VerifyTokenRequest { token: r.login_attempt_id.clone() }, NOW);
            assert_eq!(as_token, Err(AuthAPIError::InvalidToken));
        }
        _ => panic!("expected a second-factor challenge"),
    }
    assert!(jar.is_none());
}

#[test]
fn signup_twice_is_a_conflict() {
    let mut state = new_state();
    sign_up(&mut state, "erin@example.com", false);
    let again = SignupRequest { email: "ERIN@example.com".to_owned(), password: "password456".to_owned(), requires_2fa: true };
    let err = signup(&mut state, again).err().unwrap();
    assert_eq!(err, AuthAPIError::UserAlreadyExists);
    assert_eq!(err.status_code(), 409);
}

#[test]
fn signup_with_malformed_input_is_refused() {
    let mut state = new_state();
    let bad_email = SignupRequest { email: "invalid_email".to_owned(), password: "password123".to_owned(), requires_2fa: false };
    assert_eq!(signup(&mut state, bad_email), Err(AuthAPIError::InvalidCredentials));
    let short = SignupRequest { email: "x@y.z".to_owned(), password: "short".to_owned(), requires_2fa: false };
    assert_eq!(signup(&mut state, short), Err(AuthAPIError::InvalidCredentials));
}

#[test]
fn stored_hash_is_not_the_secret() {
    let mut store = HashmapUserStore::new();
    let email = Email::parse("frank@example.com".to_owned()).unwrap();
    let user = User::new(email.clone(), Password::parse("password123".to_owned()).unwrap(), true);
    assert_eq!(store.add_user(user), Ok(()));
    let stored = store.get_user(&email).unwrap();
    assert_ne!(stored.password_hash, "password123");
    assert!(stored.password_hash.starts_with("$argon2id$"));
    assert!(stored.requires_2fa);
    assert_eq!(store.validate_user(&email, &Password::parse("password123".to_owned()).unwrap()), Ok(()));
    assert_eq!(
        store.validate_user(&email, &Password::parse("password124".to_owned()).unwrap()),
        Err(UserStoreError::InvalidCredentials)
    );
    let stranger = Email::parse("nobody@example.com".to_owned()).unwrap();
    assert_eq!(
        store.validate_user(&stranger, &Password::parse("password123".to_owned()).unwrap()),
        Err(UserStoreError::UserNotFound)
    );
    assert!(matches!(store.get_user(&stranger), Err(UserStoreError::UserNotFound)));
}

#[test]
fn add_hashed_user_refuses_taken_identifier() {
    let mut store = HashmapUserStore::new();
    let email = Email::parse("grace@example.com".to_owned()).unwrap();
    assert_eq!(store.add_hashed_user(email.clone(), "not-a-phc-string".to_owned(), false), Ok(()));
    assert_eq!(
        store.add_hashed_user(email.clone(), "other".to_owned(), true),
        Err(UserStoreError::UserAlreadyExists)
    );
    assert_eq!(store.get_user(&email).unwrap().password_hash, "not-a-phc-string");
    // A record whose hash is not a PHC string accepts no secret.
    assert_eq!(
        store.validate_user(&email, &Password::parse("not-a-phc-string".to_owned()).unwrap()),
        Err(UserStoreError::InvalidCredentials)
    );
}
