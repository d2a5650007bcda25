//! Login-attempt identifiers, one-time codes, the store errors, and the
//! interface of each store role.

use vstd::prelude::*;
use crate::email::Email;
use crate::hashing::password_verifies;
use crate::password::Password;
use crate::table::above;
use crate::text::{all_digits, ascii_lower, dec_text, is_hex_digit, lemma_dec_text_shape, render_dec};
use crate::user::{StoredUser, User};

verus! {

/// How long a second-factor challenge stays live, in seconds.
pub const TEN_MINUTES_IN_SECONDS: u64 = 600;

/// Longest secret, in characters, that hashing is sure to accept.
pub const MAX_HASHED_SECRET_LEN: usize = 0x3FFF_FFFF;

/// How long a revocation entry is kept, in seconds: the session-token
/// validity horizon.
pub const TOKEN_TTL_SECONDS: u64 = 3600;

/// Largest instant, in seconds, that the stores and tokens accept.
pub const MAX_TIMESTAMP: u64 = 0xFFFF_FFFF_FFFF_0000;

/// A UUID in its canonical 36-character form: five groups of hexadecimal
/// digits separated by `-` at positions 8, 13, 18 and 23.
pub open spec fn is_hyphenated_uuid(s: Seq<char>) -> bool {
    &&& s.len() == 36
    &&& forall|i: int|
        0 <= i < 36 ==> if i == 8 || i == 13 || i == 18 || i == 23 {
            #[trigger] s[i] == '-'
        } else {
            is_hex_digit(s[i])
        }
}

/// The `urn:uuid:` prefix.
pub open spec fn urn_prefix() -> Seq<char> {
    seq!['u', 'r', 'n', ':', 'u', 'u', 'i', 'd', ':']
}

/// The textual forms of a UUID: 32 bare hexadecimal digits, hyphenated,
/// hyphenated in braces, or hyphenated after a `urn:uuid:` prefix in any case.
pub open spec fn is_uuid_text(s: Seq<char>) -> bool {
    ||| (s.len() == 32 && forall|i: int| 0 <= i < 32 ==> is_hex_digit(#[trigger] s[i]))
    ||| is_hyphenated_uuid(s)
    ||| (s.len() == 38 && s[0] == '{' && s[37] == '}' && is_hyphenated_uuid(s.subrange(1, 37)))
    ||| (s.len() == 45 && ascii_lower(s.take(9)) == urn_prefix() && is_hyphenated_uuid(s.skip(9)))
}

/// Six decimal digits.
pub open spec fn is_code_text(s: Seq<char>) -> bool {
    s.len() == 6 && all_digits(s)
}

/// Relies on `uuid::Uuid::parse_str`, which accepts exactly the simple,
/// hyphenated, braced and URN forms (hexadecimal digits in either case).
#[verifier::external_body]
fn uuid_accepts(s: &str) -> (r: bool)
    ensures
        r == is_uuid_text(s@),
{
    uuid::Uuid::parse_str(s).is_ok()
}

/// Relies on `uuid::Uuid::new_v4` and its `Display`, which writes the
/// lower-case hyphenated form.
#[verifier::external_body]
pub(crate) fn new_uuid_text() -> (r: String)
    ensures
        is_hyphenated_uuid(r@),
{
    uuid::Uuid::new_v4().to_string()
}

/// Relies on `rand::Rng::gen_range` over the thread-local generator: a value
/// of the inclusive range.
#[verifier::external_body]
fn random_six_digit_number() -> (r: u32)
    ensures
        100000 <= r <= 999999,
{
    rand::Rng::gen_range(&mut rand::thread_rng(), 100000..=999999)
}

#[derive(Debug, Clone, Copy, PartialEq, Eq, Structural)]
pub enum TwoFACodeStoreError {
    LoginAttemptIdNotFound,
    UnexpectedError,
}

#[derive(Debug, Clone, Copy, PartialEq, Eq, Structural)]
pub enum UserStoreError {
    UserAlreadyExists,
    UserNotFound,
    InvalidCredentials,
    UnexpectedError,
}

#[derive(Debug, Clone, Copy, PartialEq, Eq, Structural)]
pub enum BannedTokenError {
    MissingToken,
    UnexpectedError,
}

/// Names one login attempt that waits for its second factor.
#[derive(Debug)]
pub struct LoginAttemptId {
    value: String,
}

impl View for LoginAttemptId {
    type V = Seq<char>;

    closed spec fn view(&self) -> Seq<char> {
        self.value@
    }
}

impl LoginAttemptId {
    #[verifier::type_invariant]
    spec fn inv(&self) -> bool {
        is_uuid_text(self.value@)
    }

    pub fn parse(id: String) -> (r: Result<LoginAttemptId, String>)
        ensures
            r is Ok <==> is_uuid_text(id@),
            r is Ok ==> r->Ok_0@ == id@,
            r is Err ==> r->Err_0@ == "Invalid login attempt ID"@,
    {
        if !uuid_accepts(id.as_str()) {
            return Err(String::from_str("Invalid login attempt ID"));
        }
        Ok(LoginAttemptId { value: id })
    }

    pub fn as_ref(&self) -> (r: &str)
        ensures
            r@ == self@,
    {
        self.value.as_str()
    }
}

impl Default for LoginAttemptId {
    /// A fresh random identifier.
    fn default() -> (r: Self)
        ensures
            is_hyphenated_uuid(r@),
    {
        LoginAttemptId { value: new_uuid_text() }
    }
}

impl Clone for LoginAttemptId {
    fn clone(&self) -> (r: Self)
        ensures
            r@ == self@,
    {
        proof {
            use_type_invariant(self);
        }
        LoginAttemptId { value: self.value.clone() }
    }
}

impl PartialEq for LoginAttemptId {
    fn eq(&self, o: &LoginAttemptId) -> (r: bool) {
        self.value == o.value
    }
}

impl vstd::std_specs::cmp::PartialEqSpecImpl for LoginAttemptId {
    open spec fn obeys_eq_spec() -> bool {
        true
    }

    open spec fn eq_spec(&self, o: &LoginAttemptId) -> bool {
        self@ == o@
    }
}

/// A one-time code of six decimal digits.
#[derive(Debug)]
pub struct TwoFACode {
    value: String,
}

impl View for TwoFACode {
    type V = Seq<char>;

    closed spec fn view(&self) -> Seq<char> {
        self.value@
    }
}

proof fn lemma_six_digits(n: nat)
    requires
        100000 <= n <= 999999,
    ensures
        is_code_text(dec_text(n)),
{
    lemma_dec_text_shape(n);
    assert(dec_text(n / 100000).len() == 1);
    assert(n / 10000 / 10 == n / 100000);
    assert(dec_text(n / 10000).len() == 2);
    assert(n / 1000 / 10 == n / 10000);
    assert(dec_text(n / 1000).len() == 3);
    assert(n / 100 / 10 == n / 1000);
    assert(dec_text(n / 100).len() == 4);
    assert(n / 10 / 10 == n / 100);
    assert(dec_text(n / 10).len() == 5);
    assert(dec_text(n).len() == 6);
}

impl TwoFACode {
    #[verifier::type_invariant]
    spec fn inv(&self) -> bool {
        is_code_text(self.value@)
    }

    pub fn parse(code: String) -> (r: Result<TwoFACode, String>)
        ensures
            r is Ok <==> is_code_text(code@),
            r is Ok ==> r->Ok_0@ == code@,
            r is Err ==> r->Err_0@ == "Invalid 2FA code"@,
    {
        let s = code.as_str();
        let n = s.unicode_len();
        if n != 6 {
            return Err(String::from_str("Invalid 2FA code"));
        }
        let mut i: usize = 0;
        while i < n
            invariant
                n == s@.len(),
                s@ == code@,
                i <= n,
                forall|j: int| 0 <= j < i ==> crate::text::is_digit(#[trigger] s@[j]),
            decreases n - i,
        {
            let c = s.get_char(i);
            if !('0' <= c && c <= '9') {
                return Err(String::from_str("Invalid 2FA code"));
            }
            i = i + 1;
        }
        Ok(TwoFACode { value: code })
    }

    /// The code that spells `n` in decimal.
    pub fn from_number(n: u32) -> (r: TwoFACode)
        requires
            100000 <= n <= 999999,
        ensures
            r@ == dec_text(n as nat),
            is_code_text(r@),
    {
        let value = render_dec(n as u64);
        proof {
            lemma_six_digits(n as nat);
        }
        TwoFACode { value }
    }

    pub fn as_ref(&self) -> (r: &str)
        ensures
            r@ == self@,
    {
        self.value.as_str()
    }
}

impl Default for TwoFACode {
    /// A fresh random code between `100000` and `999999`.
    fn default() -> (r: Self)
        ensures
            is_code_text(r@),
            exists|n: nat| 100000 <= n <= 999999 && r@ == #[trigger] dec_text(n),
    {
        let n = random_six_digit_number();
        let r = TwoFACode::from_number(n);
        assert(r@ == dec_text(n as nat));
        r
    }
}

impl Clone for TwoFACode {
    fn clone(&self) -> (r: Self)
        ensures
            r@ == self@,
    {
        proof {
            use_type_invariant(self);
        }
        TwoFACode { value: self.value.clone() }
    }
}

impl PartialEq for TwoFACode {
    fn eq(&self, o: &TwoFACode) -> (r: bool) {
        self.value == o.value
    }
}

impl vstd::std_specs::cmp::PartialEqSpecImpl for TwoFACode {
    open spec fn obeys_eq_spec() -> bool {
        true
    }

    open spec fn eq_spec(&self, o: &TwoFACode) -> bool {
        self@ == o@
    }
}

/// The identity records: identifier to (secret hash, second factor required).
pub trait UserStore {
    spec fn users(&self) -> Map<Seq<char>, (Seq<char>, bool)>;

    /// Whether recording an identity may fail for reasons of the store's
    /// own (a backend that is out of reach); `false` for a store held in
    /// memory.
    spec fn may_fail(&self) -> bool;

    /// Records `user` with a hash of its secret, unless its identifier is
    /// taken. A store that cannot fail records every new identity whose
    /// secret fits the hasher's limit.
    fn add_user(&mut self, user: User) -> (r: Result<(), UserStoreError>)
        ensures
            r == Err::<(), UserStoreError>(UserStoreError::UserAlreadyExists) <==> old(
                self,
            ).users().contains_key(user.email@),
            !old(self).may_fail() && !old(self).users().contains_key(user.email@) && user.password@.len()
                <= MAX_HASHED_SECRET_LEN ==> r is Ok,
            final(self).may_fail() == old(self).may_fail(),
            r is Ok || r == Err::<(), UserStoreError>(UserStoreError::UserAlreadyExists) || r
                == Err::<(), UserStoreError>(UserStoreError::UnexpectedError),
            r is Ok ==> {
                &&& final(self).users() == old(self).users().insert(
                    user.email@,
                    final(self).users()[user.email@],
                )
                &&& password_verifies(final(self).users()[user.email@].0, user.password@)
                &&& final(self).users()[user.email@].1 == user.requires_2fa
            },
            r is Err ==> final(self).users() == old(self).users(),
    ;

    fn get_user(&self, email: &Email) -> (r: Result<StoredUser, UserStoreError>)
        ensures
            match r {
                Ok(u) => {
                    &&& self.users().contains_key(email@)
                    &&& u.email@ == email@
                    &&& self.users()[email@] == (u.password_hash@, u.requires_2fa)
                },
                Err(e) => !self.users().contains_key(email@) && e == UserStoreError::UserNotFound,
            },
    ;

    /// Checks `password` against the recorded hash.
    fn validate_user(&self, email: &Email, password: &Password) -> (r: Result<(), UserStoreError>)
        ensures
            r == (if !self.users().contains_key(email@) {
                Err(UserStoreError::UserNotFound)
            } else if !password_verifies(self.users()[email@].0, password@) {
                Err(UserStoreError::InvalidCredentials)
            } else {
                Ok(())
            }),
    ;
}

/// The live and expired challenges: identifier to (login-attempt id, code,
/// instant of expiry).
pub trait TwoFACodeStore {
    spec fn codes(&self) -> Map<Seq<char>, (Seq<char>, Seq<char>, u64)>;

    /// Puts a challenge under `email` that expires ten minutes after `now`,
    /// replacing the one that was there.
    fn add_code(&mut self, email: Email, login_attempt_id: LoginAttemptId, code: TwoFACode, now: u64) -> (r:
        Result<(), TwoFACodeStoreError>)
        requires
            now <= MAX_TIMESTAMP,
        ensures
            r is Ok,
            final(self).codes() == old(self).codes().insert(
                email@,
                (login_attempt_id@, code@, (now + TEN_MINUTES_IN_SECONDS) as u64),
            ),
    ;

    fn remove_code(&mut self, email: &Email) -> (r: Result<(), TwoFACodeStoreError>)
        ensures
            r is Ok <==> old(self).codes().contains_key(email@),
            r is Err ==> r == Err::<(), TwoFACodeStoreError>(TwoFACodeStoreError::LoginAttemptIdNotFound),
            final(self).codes() == old(self).codes().remove(email@),
    ;

    /// The challenge under `email`, if it is live at `now`.
    fn get_code(&self, email: &Email, now: u64) -> (r: Result<(LoginAttemptId, TwoFACode), TwoFACodeStoreError>)
        ensures
            match r {
                Ok((id, code)) => {
                    &&& self.codes().contains_key(email@)
                    &&& now < self.codes()[email@].2
                    &&& id@ == self.codes()[email@].0
                    &&& code@ == self.codes()[email@].1
                },
                Err(e) => {
                    &&& e == TwoFACodeStoreError::LoginAttemptIdNotFound
                    &&& !(self.codes().contains_key(email@) && now < self.codes()[email@].2)
                },
            },
    ;
}

/// Revoked session tokens: token to the instant its entry expires.
pub trait BannedTokenStore {
    spec fn tokens(&self) -> Map<Seq<char>, u64>;

    /// Revokes `token` until the token horizon has passed; entries that
    /// are no longer live at `now` are dropped.
    fn add_token(&mut self, token: String, now: u64) -> (r: Result<(), BannedTokenError>)
        requires
            now <= MAX_TIMESTAMP,
        ensures
            r is Ok,
            final(self).tokens() == above(old(self).tokens(), now).insert(
                token@,
                (now + TOKEN_TTL_SECONDS) as u64,
            ),
    ;

    /// Whether `token` has an entry that is live at `now`.
    fn contains_token(&self, token: &String, now: u64) -> (r: Result<bool, BannedTokenError>)
        ensures
            r == Ok::<bool, BannedTokenError>(
                self.tokens().contains_key(token@) && now < self.tokens()[token@],
            ),
    ;
}

} // verus!
