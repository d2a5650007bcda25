//! The authentication flows: signup, login, second-factor verification,
//! logout and token verification.

use vstd::prelude::*;
use crate::app_state::{AppState, AuthState};
use crate::auth::{token_check, token_text, MAX_TOKEN_LEN};
use crate::data_stores::{
    is_code_text, is_hyphenated_uuid, MAX_HASHED_SECRET_LEN, is_uuid_text, new_uuid_text, BannedTokenStore, LoginAttemptId,
    TwoFACode, TwoFACodeStore, UserStore, UserStoreError, MAX_TIMESTAMP, TEN_MINUTES_IN_SECONDS,
    TOKEN_TTL_SECONDS,
};
use crate::email::{is_valid_email, Email};
use crate::error::AuthAPIError;
use crate::hashing::password_verifies;
use crate::password::{is_valid_password, Password};
use crate::table::above;
use crate::text::ascii_lower;
use crate::user::User;

verus! {

pub struct SignupRequest {
    pub email: String,
    pub password: String,
    pub requires_2fa: bool,
}

pub struct LoginRequest {
    pub email: String,
    pub password: String,
}

/// A message and the login-attempt id it concerns.
pub struct TwoFAResponse {
    pub message: String,
    pub login_attempt_id: String,
}

/// The reply to a login that now waits for its second factor.
pub struct TwoFactorAuthResponse {
    pub message: String,
    pub login_attempt_id: String,
}

pub enum LoginResponse {
    /// Authenticated: the session token was put in the jar.
    RegularAuth,
    /// A second factor is required for the attempt named in the response.
    TwoFactorAuth(TwoFactorAuthResponse),
}

pub struct Verify2FARequest {
    pub email: String,
    pub login_attempt_id: String,
    pub two_fa_code: String,
}

pub struct VerifyTokenRequest {
    pub token: String,
}

pub open spec fn two_fa_message() -> Seq<char> {
    seq!['2', 'F', 'A', ' ', 'r', 'e', 'q', 'u', 'i', 'r', 'e', 'd']
}

/// Whether the challenge under `e` is live at `now`.
pub open spec fn challenge_live(s: AuthState, e: Seq<char>, now: nat) -> bool {
    s.codes.contains_key(e) && now < s.codes[e].2
}

/// Whether `t` has a revocation entry live at `now`.
pub open spec fn revoked(s: AuthState, t: Seq<char>, now: nat) -> bool {
    s.banned.contains_key(t) && now < s.banned[t]
}

/// The outcome of a login.
pub enum LoginStep {
    Refused(AuthAPIError),
    /// Authenticated with this session token.
    Authenticated(Seq<char>),
    /// A challenge was issued with this login-attempt id and code.
    Challenged(Seq<char>, Seq<char>),
}

/// What a login with `email` and `password` at `now` gives, where `jti`
/// would name a new session token and `id`, `code` a new challenge.
pub open spec fn login_step(
    s: AuthState,
    email: Seq<char>,
    password: Seq<char>,
    now: nat,
    jti: Seq<char>,
    id: Seq<char>,
    code: Seq<char>,
) -> LoginStep {
    let e = ascii_lower(email);
    if !is_valid_email(e) || !is_valid_password(password) {
        LoginStep::Refused(AuthAPIError::InvalidCredentials)
    } else if !s.users.contains_key(e) || !password_verifies(s.users[e].0, password) {
        LoginStep::Refused(AuthAPIError::IncorrectCredentials)
    } else if !s.users[e].1 {
        LoginStep::Authenticated(token_text(s.key, jti, now, e))
    } else {
        LoginStep::Challenged(id, code)
    }
}

/// The state after a login that took `step`.
pub open spec fn after_login(s: AuthState, email: Seq<char>, now: nat, step: LoginStep) -> AuthState {
    match step {
        LoginStep::Challenged(id, code) => AuthState {
            codes: s.codes.insert(
                ascii_lower(email),
                (id, code, (now + TEN_MINUTES_IN_SECONDS) as u64),
            ),
            ..s
        },
        _ => s,
    }
}

/// How the reply and the jar of a login report `step`.
pub open spec fn login_reply(
    step: LoginStep,
    r: Result<LoginResponse, AuthAPIError>,
    jar_before: Option<String>,
    jar_after: Option<String>,
) -> bool {
    match step {
        LoginStep::Refused(err) => r == Err::<LoginResponse, AuthAPIError>(err) && jar_after
            == jar_before,
        LoginStep::Authenticated(t) => {
            &&& r is Ok
            &&& r->Ok_0 is RegularAuth
            &&& jar_after is Some
            &&& jar_after->Some_0@ == t
            &&& t.len() <= MAX_TOKEN_LEN
        },
        LoginStep::Challenged(id, _code) => {
            &&& r is Ok
            &&& r->Ok_0 is TwoFactorAuth
            &&& r->Ok_0->TwoFactorAuth_0.login_attempt_id@ == id
            &&& r->Ok_0->TwoFactorAuth_0.message@ == two_fa_message()
            &&& jar_after == jar_before
        },
    }
}

/// What verifying a second factor gives: the new session token, or the
/// error.
pub open spec fn verify_2fa_step(
    s: AuthState,
    email: Seq<char>,
    id: Seq<char>,
    code: Seq<char>,
    now: nat,
    jti: Seq<char>,
) -> Result<Seq<char>, AuthAPIError> {
    let e = ascii_lower(email);
    if !is_valid_email(e) || !is_uuid_text(id) || !is_code_text(code) {
        Err(AuthAPIError::InvalidCredentials)
    } else if !challenge_live(s, e, now) || s.codes[e].0 != id || s.codes[e].1 != code {
        Err(AuthAPIError::IncorrectCredentials)
    } else {
        Ok(token_text(s.key, jti, now, e))
    }
}

/// The state after a second-factor verification: a challenge that matched
/// is consumed.
pub open spec fn after_verify_2fa(s: AuthState, email: Seq<char>, step: Result<Seq<char>, AuthAPIError>) -> AuthState {
    if step is Ok {
        AuthState { codes: s.codes.remove(ascii_lower(email)), ..s }
    } else {
        s
    }
}

/// What verifying token `t` at `now` gives: its subject, or `InvalidToken`.
pub open spec fn verify_token_result(s: AuthState, t: Seq<char>, now: nat) -> Result<Seq<char>, AuthAPIError> {
    match token_check(s.key, t, now) {
        Err(_) => Err(AuthAPIError::InvalidToken),
        Ok(sub) => if revoked(s, t, now) {
            Err(AuthAPIError::InvalidToken)
        } else {
            Ok(sub)
        },
    }
}

/// What a logout with the session token `jar` at `now` gives.
pub open spec fn logout_result(s: AuthState, jar: Option<Seq<char>>, now: nat) -> Result<(), AuthAPIError> {
    match jar {
        None => Err(AuthAPIError::MissingToken),
        Some(t) => if token_check(s.key, t, now) is Err {
            Err(AuthAPIError::InvalidToken)
        } else {
            Ok(())
        },
    }
}

pub open spec fn jar_view(jar: Option<String>) -> Option<Seq<char>> {
    match jar {
        Some(t) => Some(t@),
        None => None,
    }
}

/// A login from `before` to `after` that drew `jti`, `id` and `code`.
pub open spec fn login_done(
    before: AuthState,
    after: AuthState,
    jar_before: Option<String>,
    jar_after: Option<String>,
    r: Result<LoginResponse, AuthAPIError>,
    email: Seq<char>,
    password: Seq<char>,
    now: nat,
    jti: Seq<char>,
    id: Seq<char>,
    code: Seq<char>,
) -> bool {
    let step = login_step(before, email, password, now, jti, id, code);
    &&& is_hyphenated_uuid(jti)
    &&& is_hyphenated_uuid(id)
    &&& is_code_text(code)
    &&& after == after_login(before, email, now, step)
    &&& login_reply(step, r, jar_before, jar_after)
}

/// How the reply and the jar of a second-factor verification report `step`.
pub open spec fn verify_2fa_reply(
    step: Result<Seq<char>, AuthAPIError>,
    r: Result<(), AuthAPIError>,
    jar_before: Option<String>,
    jar_after: Option<String>,
) -> bool {
    match step {
        Ok(t) => r is Ok && jar_after is Some && jar_after->Some_0@ == t && t.len() <= MAX_TOKEN_LEN,
        Err(e) => r == Err::<(), AuthAPIError>(e) && jar_after == jar_before,
    }
}

/// A second-factor verification from `before` to `after` that drew `jti`.
pub open spec fn verify_2fa_done(
    before: AuthState,
    after: AuthState,
    jar_before: Option<String>,
    jar_after: Option<String>,
    r: Result<(), AuthAPIError>,
    email: Seq<char>,
    id: Seq<char>,
    code: Seq<char>,
    now: nat,
    jti: Seq<char>,
) -> bool {
    let step = verify_2fa_step(before, email, id, code, now, jti);
    &&& is_hyphenated_uuid(jti)
    &&& after == after_verify_2fa(before, email, step)
    &&& verify_2fa_reply(step, r, jar_before, jar_after)
}

/// Records a new identity.
pub fn signup<U: UserStore, B: BannedTokenStore, T: TwoFACodeStore>(
    state: &mut AppState<U, B, T>, request: SignupRequest) -> (r: Result<(), AuthAPIError>)
    ensures
        ({
            let e = ascii_lower(request.email@);
            let s = old(state)@;
            let well_formed = is_valid_email(e) && is_valid_password(request.password@);
            &&& r == Err::<(), AuthAPIError>(AuthAPIError::InvalidCredentials) <==> !well_formed
            &&& r == Err::<(), AuthAPIError>(AuthAPIError::UserAlreadyExists) <==> well_formed
                && s.users.contains_key(e)
            &&& well_formed && !s.users.contains_key(e) && !old(state).user_store.may_fail()
                && request.password@.len() <= MAX_HASHED_SECRET_LEN ==> r is Ok
            &&& final(state).user_store.may_fail() == old(state).user_store.may_fail()
            &&& r is Ok || r == Err::<(), AuthAPIError>(AuthAPIError::InvalidCredentials) || r == Err::<
                (),
                AuthAPIError,
            >(AuthAPIError::UserAlreadyExists) || r == Err::<(), AuthAPIError>(
                AuthAPIError::UnexpectedError,
            )
            &&& r is Err ==> final(state)@ == s
            &&& r is Ok ==> {
                &&& is_valid_email(e) && is_valid_password(request.password@)
                &&& !s.users.contains_key(e)
                &&& final(state)@ == (AuthState {
                    users: s.users.insert(e, final(state)@.users[e]),
                    ..s
                })
                &&& password_verifies(final(state)@.users[e].0, request.password@)
                &&& final(state)@.users[e].1 == request.requires_2fa
            }
        }),
{
    let email = match Email::parse(request.email) {
        Ok(e) => e,
        Err(_) => return Err(AuthAPIError::InvalidCredentials),
    };
    let password = match Password::parse(request.password) {
        Ok(p) => p,
        Err(_) => return Err(AuthAPIError::InvalidCredentials),
    };
    let user = User::new(email, password, request.requires_2fa);
    match state.user_store.add_user(user) {
        Ok(()) => Ok(()),
        Err(UserStoreError::UserAlreadyExists) => Err(AuthAPIError::UserAlreadyExists),
        Err(_) => Err(AuthAPIError::UnexpectedError),
    }
}

/// Login, given the token id and the challenge that it would issue.
pub fn login_with<U: UserStore, B: BannedTokenStore, T: TwoFACodeStore>(
    state: &mut AppState<U, B, T>,
    jar: &mut Option<String>,
    request: LoginRequest,
    now: u64,
    jti: String,
    login_attempt_id: LoginAttemptId,
    code: TwoFACode,
) -> (r: Result<LoginResponse, AuthAPIError>)
    requires
        now <= MAX_TIMESTAMP,
        is_hyphenated_uuid(jti@),
        is_uuid_text(login_attempt_id@),
        is_code_text(code@),
    ensures
        ({
            let step = login_step(
                old(state)@,
                request.email@,
                request.password@,
                now as nat,
                jti@,
                login_attempt_id@,
                code@,
            );
            &&& final(state)@ == after_login(old(state)@, request.email@, now as nat, step)
            &&& login_reply(step, r, *old(jar), *final(jar))
        }),
{
    let email = match Email::parse(request.email) {
        Ok(e) => e,
        Err(_) => return Err(AuthAPIError::InvalidCredentials),
    };
    let password = match Password::parse(request.password) {
        Ok(p) => p,
        Err(_) => return Err(AuthAPIError::InvalidCredentials),
    };
    if state.user_store.validate_user(&email, &password).is_err() {
        return Err(AuthAPIError::IncorrectCredentials);
    }
    let user = match state.user_store.get_user(&email) {
        Ok(u) => u,
        Err(_) => return Err(AuthAPIError::IncorrectCredentials),
    };
    if user.requires_2fa {
        let id_text = String::from_str(login_attempt_id.as_ref());
        match state.two_fa_code_store.add_code(email, login_attempt_id, code, now) {
            Ok(()) => {},
            Err(_) => return Err(AuthAPIError::UnexpectedError),
        }
        proof {
            reveal_strlit("2FA required");
            assert("2FA required"@ =~= two_fa_message());
        }
        let response = TwoFactorAuthResponse {
            message: String::from_str("2FA required"),
            login_attempt_id: id_text,
        };
        Ok(LoginResponse::TwoFactorAuth(response))
    } else {
        let token = state.signing_key.issue(&jti, &email, now);
        *jar = Some(token);
        Ok(LoginResponse::RegularAuth)
    }
}

/// Login: checks the credentials, then either puts a new session token in
/// the jar or issues a second-factor challenge under a fresh random
/// login-attempt id and code.
pub fn login<U: UserStore, B: BannedTokenStore, T: TwoFACodeStore>(
    state: &mut AppState<U, B, T>, jar: &mut Option<String>, request: LoginRequest, now: u64) -> (r: Result<
    LoginResponse,
    AuthAPIError,
>)
    requires
        now <= MAX_TIMESTAMP,
    ensures
        exists|jti: Seq<char>, id: Seq<char>, code: Seq<char>|
            #[trigger] login_done(
                old(state)@,
                final(state)@,
                *old(jar),
                *final(jar),
                r,
                request.email@,
                request.password@,
                now as nat,
                jti,
                id,
                code,
            ),
{
    let jti = new_uuid_text();
    let login_attempt_id = LoginAttemptId::default();
    let code = TwoFACode::default();
    let ghost (j, i, c) = (jti@, login_attempt_id@, code@);
    let ghost (email, password) = (request.email@, request.password@);
    let r = login_with(state, jar, request, now, jti, login_attempt_id, code);
    assert(login_done(old(state)@, state@, *old(jar), *jar, r, email, password, now as nat, j, i, c));
    r
}

/// Second-factor verification, given the token id that it would issue.
pub fn verify_2fa_with<U: UserStore, B: BannedTokenStore, T: TwoFACodeStore>(
    state: &mut AppState<U, B, T>,
    jar: &mut Option<String>,
    request: Verify2FARequest,
    now: u64,
    jti: String,
) -> (r: Result<(), AuthAPIError>)
    requires
        now <= MAX_TIMESTAMP,
        is_hyphenated_uuid(jti@),
    ensures
        ({
            let step = verify_2fa_step(
                old(state)@,
                request.email@,
                request.login_attempt_id@,
                request.two_fa_code@,
                now as nat,
                jti@,
            );
            &&& final(state)@ == after_verify_2fa(old(state)@, request.email@, step)
            &&& verify_2fa_reply(step, r, *old(jar), *final(jar))
        }),
{
    let email = match Email::parse(request.email) {
        Ok(e) => e,
        Err(_) => return Err(AuthAPIError::InvalidCredentials),
    };
    let login_attempt_id = match LoginAttemptId::parse(request.login_attempt_id) {
        Ok(id) => id,
        Err(_) => return Err(AuthAPIError::InvalidCredentials),
    };
    let two_fa_code = match TwoFACode::parse(request.two_fa_code) {
        Ok(c) => c,
        Err(_) => return Err(AuthAPIError::InvalidCredentials),
    };
    let (expected_id, expected_code) = match state.two_fa_code_store.get_code(&email, now) {
        Ok(pair) => pair,
        Err(_) => return Err(AuthAPIError::IncorrectCredentials),
    };
    if !(expected_id == login_attempt_id) || !(expected_code == two_fa_code) {
        return Err(AuthAPIError::IncorrectCredentials);
    }
    match state.two_fa_code_store.remove_code(&email) {
        Ok(()) => {},
        Err(_) => return Err(AuthAPIError::UnexpectedError),
    }
    let token = state.signing_key.issue(&jti, &email, now);
    *jar = Some(token);
    Ok(())
}

/// Second-factor verification: consumes the live challenge for the
/// identifier if both its login-attempt id and its code match, and then puts a
/// new session token in the jar.
pub fn verify_2fa<U: UserStore, B: BannedTokenStore, T: TwoFACodeStore>(
    state: &mut AppState<U, B, T>, jar: &mut Option<String>, request: Verify2FARequest, now: u64) -> (r:
    Result<(), AuthAPIError>)
    requires
        now <= MAX_TIMESTAMP,
    ensures
        exists|jti: Seq<char>|
            #[trigger] verify_2fa_done(
                old(state)@,
                final(state)@,
                *old(jar),
                *final(jar),
                r,
                request.email@,
                request.login_attempt_id@,
                request.two_fa_code@,
                now as nat,
                jti,
            ),
{
    let jti = new_uuid_text();
    let ghost j = jti@;
    let ghost (email, id, code) = (request.email@, request.login_attempt_id@, request.two_fa_code@);
    let r = verify_2fa_with(state, jar, request, now, jti);
    assert(verify_2fa_done(old(state)@, state@, *old(jar), *jar, r, email, id, code, now as nat, j));
    r
}

/// Token verification: the subject of a well-formed, well-signed, unexpired
/// and unrevoked token.
pub fn verify_token<U: UserStore, B: BannedTokenStore, T: TwoFACodeStore>(
    state: &AppState<U, B, T>, request: VerifyTokenRequest, now: u64) -> (r: Result<String, AuthAPIError>)
    ensures
        match r {
            Ok(sub) => verify_token_result(state@, request.token@, now as nat) == Ok::<
                Seq<char>,
                AuthAPIError,
            >(sub@),
            Err(e) => verify_token_result(state@, request.token@, now as nat) == Err::<
                Seq<char>,
                AuthAPIError,
            >(e),
        },
{
    let sub = match state.signing_key.validate(request.token.as_str(), now) {
        Ok(s) => s,
        Err(_) => return Err(AuthAPIError::InvalidToken),
    };
    match state.banned_token_store.contains_token(&request.token, now) {
        Ok(true) => Err(AuthAPIError::InvalidToken),
        Ok(false) => Ok(sub),
        Err(_) => Err(AuthAPIError::UnexpectedError),
    }
}

/// Logout: revokes the session token in the jar until the token horizon has
/// passed, and empties the jar.
pub fn logout<U: UserStore, B: BannedTokenStore, T: TwoFACodeStore>(
    state: &mut AppState<U, B, T>, jar: &mut Option<String>, now: u64) -> (r: Result<(), AuthAPIError>)
    requires
        now <= MAX_TIMESTAMP,
    ensures
        r == logout_result(old(state)@, jar_view(*old(jar)), now as nat),
        r is Ok ==> {
            &&& final(state)@ == (AuthState {
                banned: above(old(state)@.banned, now).insert(
                    old(jar)->Some_0@,
                    (now + TOKEN_TTL_SECONDS) as u64,
                ),
                ..old(state)@
            })
            &&& *final(jar) is None
        },
        r is Err ==> final(state)@ == old(state)@ && *final(jar) == *old(jar),
{
    let token = match &*jar {
        Some(t) => t.clone(),
        None => return Err(AuthAPIError::MissingToken),
    };
    if state.signing_key.validate(token.as_str(), now).is_err() {
        return Err(AuthAPIError::InvalidToken);
    }
    match state.banned_token_store.add_token(token, now) {
        Ok(()) => {},
        Err(_) => return Err(AuthAPIError::UnexpectedError),
    }
    *jar = None;
    Ok(())
}

} // verus!
