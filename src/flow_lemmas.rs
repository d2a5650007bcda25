//! What the authentication flows guarantee taken together, proved over the
//! step functions that the flows' contracts are stated with.

use vstd::prelude::*;
use crate::app_state::AuthState;
use crate::auth::{decode_token, lemma_issued_token_checks, token_text, MAX_TOKEN_LEN};
use crate::data_stores::{
    is_code_text, is_hyphenated_uuid, is_uuid_text, MAX_TIMESTAMP, TEN_MINUTES_IN_SECONDS,
    TOKEN_TTL_SECONDS,
};
use crate::email::is_valid_email;
use crate::error::AuthAPIError;
use crate::hashing::password_verifies;
use crate::password::is_valid_password;
use crate::routes::{
    after_login, after_verify_2fa, login_step, logout_result, revoked, verify_2fa_step,
    verify_token_result, LoginStep,
};
use crate::table::above;
use crate::text::{ascii_lower, first_dot_at, has_no_dot, split_dot};

verus! {

/// The credentials that login accepts for an identity registered with the
/// given second-factor setting.
pub open spec fn accepted(s: AuthState, email: Seq<char>, password: Seq<char>, second_factor: bool) -> bool {
    let e = ascii_lower(email);
    &&& is_valid_email(e)
    &&& is_valid_password(password)
    &&& s.users.contains_key(e)
    &&& password_verifies(s.users[e].0, password)
    &&& s.users[e].1 == second_factor
}

/// Malformed input is refused as such, and no store changes: a login with a
/// malformed identifier or secret, and a second-factor verification with a
/// malformed identifier, login-attempt id or code.
pub proof fn lemma_malformed_input_changes_nothing(
    s: AuthState,
    email: Seq<char>,
    password: Seq<char>,
    id: Seq<char>,
    code: Seq<char>,
    now: nat,
    jti: Seq<char>,
    new_id: Seq<char>,
    new_code: Seq<char>,
)
    ensures
        !is_valid_email(ascii_lower(email)) || !is_valid_password(password) ==> {
            let step = login_step(s, email, password, now, jti, new_id, new_code);
            &&& step == LoginStep::Refused(AuthAPIError::InvalidCredentials)
            &&& after_login(s, email, now, step) == s
        },
        !is_valid_email(ascii_lower(email)) || !is_uuid_text(id) || !is_code_text(code) ==> {
            let step = verify_2fa_step(s, email, id, code, now, jti);
            &&& step == Err::<Seq<char>, AuthAPIError>(AuthAPIError::InvalidCredentials)
            &&& after_verify_2fa(s, email, step) == s
        },
{
}

/// Login of an identity without a second factor gives a session token, and
/// verifying that token before it expires gives back the identifier, unless
/// that very token string has a live revocation entry.
pub proof fn lemma_login_token_verifies(
    s: AuthState,
    email: Seq<char>,
    password: Seq<char>,
    now: nat,
    later: nat,
    jti: Seq<char>,
    id: Seq<char>,
    code: Seq<char>,
)
    requires
        accepted(s, email, password, false),
        is_hyphenated_uuid(jti),
        now <= MAX_TIMESTAMP,
        later < now + TOKEN_TTL_SECONDS,
        token_text(s.key, jti, now, ascii_lower(email)).len() <= MAX_TOKEN_LEN,
        !revoked(s, token_text(s.key, jti, now, ascii_lower(email)), later),
    ensures
        ({
            let step = login_step(s, email, password, now, jti, id, code);
            let t = token_text(s.key, jti, now, ascii_lower(email));
            &&& step == LoginStep::Authenticated(t)
            &&& verify_token_result(after_login(s, email, now, step), t, later) == Ok::<
                Seq<char>,
                AuthAPIError,
            >(ascii_lower(email))
        }),
{
    lemma_issued_token_checks(s.key, jti, now, ascii_lower(email), later);
}

proof fn lemma_no_dot_no_token(t: Seq<char>)
    requires
        has_no_dot(t),
    ensures
        decode_token(t) is None,
{
    assert(!exists|k: int| first_dot_at(t, k));
    assert(split_dot(t) is None);
}

/// Login of an identity with a second factor gives no session token but a
/// challenge, and the challenge's login-attempt id is never accepted as a
/// token, nor is any other text without a `.`.
pub proof fn lemma_challenge_is_no_token(
    s: AuthState,
    other: AuthState,
    email: Seq<char>,
    password: Seq<char>,
    now: nat,
    later: nat,
    jti: Seq<char>,
    id: Seq<char>,
    code: Seq<char>,
)
    requires
        accepted(s, email, password, true),
        is_hyphenated_uuid(id),
    ensures
        login_step(s, email, password, now, jti, id, code) == LoginStep::Challenged(id, code),
        verify_token_result(other, id, later) == Err::<Seq<char>, AuthAPIError>(
            AuthAPIError::InvalidToken,
        ),
        forall|t: Seq<char>|
            has_no_dot(t) ==> #[trigger] verify_token_result(other, t, later) == Err::<
                Seq<char>,
                AuthAPIError,
            >(AuthAPIError::InvalidToken),
{
    assert forall|t: Seq<char>| has_no_dot(t) implies #[trigger] verify_token_result(other, t, later)
        == Err::<Seq<char>, AuthAPIError>(AuthAPIError::InvalidToken) by {
        lemma_no_dot_no_token(t);
    }
    assert forall|j: int| 0 <= j < id.len() implies id[j] != '.' by {
        if j == 8 || j == 13 || j == 18 || j == 23 {
            assert(id[j] == '-');
        } else {
            assert(crate::text::is_hex_digit(id[j]));
        }
    }
    lemma_no_dot_no_token(id);
}

/// A second login of an identity with a second factor replaces the first
/// challenge: where the second drew another login-attempt id or code, the
/// first pair is refused as incorrect.
pub proof fn lemma_second_login_replaces_challenge(
    s: AuthState,
    email: Seq<char>,
    password: Seq<char>,
    now1: nat,
    now2: nat,
    now3: nat,
    jti1: Seq<char>,
    jti2: Seq<char>,
    jti3: Seq<char>,
    id1: Seq<char>,
    code1: Seq<char>,
    id2: Seq<char>,
    code2: Seq<char>,
)
    requires
        accepted(s, email, password, true),
        is_hyphenated_uuid(id1),
        is_code_text(code1),
        id1 != id2 || code1 != code2,
    ensures
        ({
            let s1 = after_login(s, email, now1, login_step(s, email, password, now1, jti1, id1, code1));
            let s2 = after_login(s1, email, now2, login_step(s1, email, password, now2, jti2, id2, code2));
            verify_2fa_step(s2, email, id1, code1, now3, jti3) == Err::<Seq<char>, AuthAPIError>(
                AuthAPIError::IncorrectCredentials,
            )
        }),
{
    let s1 = after_login(s, email, now1, login_step(s, email, password, now1, jti1, id1, code1));
    assert(accepted(s1, email, password, true));
}

/// A challenge is accepted once: verifying it while live succeeds and
/// consumes it, and the same pair is then refused as incorrect.
pub proof fn lemma_challenge_accepted_once(
    s: AuthState,
    email: Seq<char>,
    password: Seq<char>,
    now1: nat,
    now2: nat,
    now3: nat,
    jti1: Seq<char>,
    jti2: Seq<char>,
    jti3: Seq<char>,
    id: Seq<char>,
    code: Seq<char>,
)
    requires
        accepted(s, email, password, true),
        is_hyphenated_uuid(id),
        is_code_text(code),
        now1 <= MAX_TIMESTAMP,
        now2 < now1 + TEN_MINUTES_IN_SECONDS,
    ensures
        ({
            let s1 = after_login(s, email, now1, login_step(s, email, password, now1, jti1, id, code));
            let v1 = verify_2fa_step(s1, email, id, code, now2, jti2);
            let s2 = after_verify_2fa(s1, email, v1);
            &&& v1 is Ok
            &&& verify_2fa_step(s2, email, id, code, now3, jti3) == Err::<Seq<char>, AuthAPIError>(
                AuthAPIError::IncorrectCredentials,
            )
        }),
{
}

/// After a logout the token is refused until the revocation entry expires,
/// and the jar is empty, so a second logout finds no token.
pub proof fn lemma_logout_revokes(s: AuthState, t: Seq<char>, now: nat, later: nat)
    requires
        now <= MAX_TIMESTAMP,
        logout_result(s, Some(t), now) is Ok,
        later < now + TOKEN_TTL_SECONDS,
    ensures
        ({
            let s1 = AuthState {
                banned: above(s.banned, now as u64).insert(t, (now + TOKEN_TTL_SECONDS) as u64),
                ..s
            };
            &&& verify_token_result(s1, t, later) == Err::<Seq<char>, AuthAPIError>(
                AuthAPIError::InvalidToken,
            )
            &&& logout_result(s1, None, later) == Err::<(), AuthAPIError>(AuthAPIError::MissingToken)
        }),
{
}

} // verus!
