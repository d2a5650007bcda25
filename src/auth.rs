//! Session tokens: issued with a keyed digest over their claims, checked for
//! shape, signature and expiry.
//!
//! A token reads `<signature>.<token id>.<issued at>.<expires at>.<subject>`:
//! the signature is the lower-case hexadecimal of the keyed digest of all that
//! follows its dot, the instants are decimal seconds, the subject is the
//! identifier.

use vstd::prelude::*;
use crate::data_stores::{is_hyphenated_uuid, MAX_TIMESTAMP, TOKEN_TTL_SECONDS};
use crate::email::{check_email, is_valid_email, Email};
use crate::hashing::{keyed_digest, session_mac};
use crate::text::{
    dec_text, dec_value, has_no_dot, hex_text, is_dec_text, lemma_dec_text_shape,
    lemma_split_dot_join, parse_dec, render_dec, render_hex, split_at_dot, split_dot,
};

verus! {

/// Longest token accepted, in characters.
pub const MAX_TOKEN_LEN: usize = 1024;

/// Name of the cookie that carries the session token.
pub const JWT_COOKIE_NAME: &'static str = "jwt";

#[derive(Debug, Clone, Copy, PartialEq, Eq, Structural)]
pub enum TokenError {
    Malformed,
    Expired,
    BadSignature,
}

/// The process-wide secret that tokens are signed with.
pub struct SigningKey {
    bytes: Vec<u8>,
}

impl View for SigningKey {
    type V = Seq<u8>;

    closed spec fn view(&self) -> Seq<u8> {
        self.bytes@
    }
}

impl SigningKey {
    #[verifier::type_invariant]
    spec fn inv(&self) -> bool {
        self.bytes@.len() <= 0xFFFF_FFFF
    }

    /// Accepts a secret of at most `u32::MAX` bytes.
    pub fn new(bytes: Vec<u8>) -> (r: Option<SigningKey>)
        ensures
            r is Some <==> bytes@.len() <= 0xFFFF_FFFF,
            r is Some ==> r->Some_0@ == bytes@,
    {
        if bytes.len() <= 0xFFFF_FFFF {
            Some(SigningKey { bytes })
        } else {
            None
        }
    }

    /// Issues the token for `sub` at `now` with token id `jti`.
    pub fn issue(&self, jti: &String, sub: &Email, now: u64) -> (r: String)
        requires
            is_hyphenated_uuid(jti@),
            is_valid_email(sub@),
            now <= MAX_TIMESTAMP,
        ensures
            r@ == token_text(self@, jti@, now as nat, sub@),
            r@.len() <= MAX_TOKEN_LEN,
    {
        proof {
            use_type_invariant(self);
        }
        generate_token(&self.bytes, jti, sub, now)
    }

    /// Checks `token` at `now`.
    pub fn validate(&self, token: &str, now: u64) -> (r: Result<String, TokenError>)
        ensures
            match r {
                Ok(s) => token_check(self@, token@, now as nat) == Ok::<Seq<char>, TokenError>(s@),
                Err(e) => token_check(self@, token@, now as nat) == Err::<Seq<char>, TokenError>(e),
            },
    {
        proof {
            use_type_invariant(self);
        }
        validate_token(&self.bytes, token, now)
    }
}

/// Salt under which token claims are digested.
pub open spec fn token_salt() -> Seq<char> {
    seq!['s', 'e', 's', 's', 'i', 'o', 'n', '-', 't', 'o', 'k', 'e', 'n']
}

fn salt_str() -> (r: &'static str)
    ensures
        r@ == token_salt(),
{
    proof {
        reveal_strlit("session-token");
    }
    "session-token"
}

pub open spec fn dot() -> Seq<char> {
    seq!['.']
}

/// The signed part of a token.
pub open spec fn token_body(jti: Seq<char>, iat: nat, exp: nat, sub: Seq<char>) -> Seq<char> {
    jti + dot() + dec_text(iat) + dot() + dec_text(exp) + dot() + sub
}

/// The signature of a token body under `key`.
pub open spec fn signature_of(key: Seq<u8>, body: Seq<char>) -> Seq<char> {
    hex_text(session_mac(key, token_salt(), body))
}

/// The token issued at `iat` for `sub` with token id `jti`.
pub open spec fn token_text(key: Seq<u8>, jti: Seq<char>, iat: nat, sub: Seq<char>) -> Seq<char> {
    let body = token_body(jti, iat, (iat + TOKEN_TTL_SECONDS) as nat, sub);
    signature_of(key, body) + dot() + body
}

/// The parts of a well-shaped token: signature, signed body, issued-at,
/// expires-at and subject.
pub struct TokenParts {
    pub sig: Seq<char>,
    pub body: Seq<char>,
    pub iat: nat,
    pub exp: nat,
    pub sub: Seq<char>,
}

pub open spec fn dec_field_ok(s: Seq<char>) -> bool {
    is_dec_text(s) && dec_value(s) <= u64::MAX
}

/// Splits a token into its parts, if it has the shape of one.
pub open spec fn decode_token(t: Seq<char>) -> Option<TokenParts> {
    if t.len() > MAX_TOKEN_LEN {
        None
    } else {
        match split_dot(t) {
            None => None,
            Some((sig, body)) => match split_dot(body) {
                None => None,
                Some((_jti, r1)) => match split_dot(r1) {
                    None => None,
                    Some((iat_s, r2)) => match split_dot(r2) {
                        None => None,
                        Some((exp_s, sub)) => {
                            if dec_field_ok(iat_s) && dec_field_ok(exp_s) && is_valid_email(sub) {
                                Some(
                                    TokenParts {
                                        sig,
                                        body,
                                        iat: dec_value(iat_s),
                                        exp: dec_value(exp_s),
                                        sub,
                                    },
                                )
                            } else {
                                None
                            }
                        },
                    },
                },
            },
        }
    }
}

/// What checking token `t` at instant `now` under `key` gives: its subject,
/// or why it is refused. Shape is checked first, then the signature, then
/// expiry.
pub open spec fn token_check(key: Seq<u8>, t: Seq<char>, now: nat) -> Result<Seq<char>, TokenError> {
    match decode_token(t) {
        None => Err(TokenError::Malformed),
        Some(p) => if p.sig != signature_of(key, p.body) {
            Err(TokenError::BadSignature)
        } else if now >= p.exp {
            Err(TokenError::Expired)
        } else {
            Ok(p.sub)
        },
    }
}

pub open spec fn pow10(k: nat) -> nat
    decreases k,
{
    if k == 0 {
        1
    } else {
        10 * pow10((k - 1) as nat)
    }
}

proof fn lemma_dec_len(n: nat, k: nat)
    requires
        k >= 1,
        n < pow10(k),
    ensures
        dec_text(n).len() <= k,
    decreases n,
{
    if n >= 10 {
        if k == 1 {
            assert(pow10(1) == 10 * pow10(0));
            assert(pow10(0) == 1);
        }
        assert(pow10(k) == 10 * pow10((k - 1) as nat));
        lemma_dec_len(n / 10, (k - 1) as nat);
        assert(dec_text(n).len() == dec_text(n / 10).len() + 1);
    }
}

proof fn lemma_dec_len_u64(n: nat)
    requires
        n <= u64::MAX,
    ensures
        dec_text(n).len() <= 20,
{
    reveal_with_fuel(pow10, 21);
    assert(pow10(20) == 100000000000000000000nat);
    lemma_dec_len(n, 20);
}

proof fn lemma_hex_text_shape(b: Seq<u8>)
    ensures
        hex_text(b).len() == 2 * b.len(),
        has_no_dot(hex_text(b)),
    decreases b.len(),
{
    if b.len() > 0 {
        lemma_hex_text_shape(b.drop_last());
        let p = hex_text(b.drop_last());
        let t = hex_text(b);
        assert forall|j: int| 0 <= j < t.len() implies t[j] != '.' by {
            if j < p.len() {
                assert(t[j] == p[j]);
            }
        }
    }
}

proof fn lemma_uuid_no_dot(s: Seq<char>)
    requires
        is_hyphenated_uuid(s),
    ensures
        has_no_dot(s),
{
    assert forall|j: int| 0 <= j < s.len() implies s[j] != '.' by {
        if j == 8 || j == 13 || j == 18 || j == 23 {
            assert(s[j] == '-');
        } else {
            assert(crate::text::is_hex_digit(s[j]));
        }
    }
}

/// A token issued at `iat` checks, until it expires, to its subject.
pub proof fn lemma_issued_token_checks(key: Seq<u8>, jti: Seq<char>, iat: nat, sub: Seq<char>, now: nat)
    requires
        is_hyphenated_uuid(jti),
        is_valid_email(sub),
        iat <= MAX_TIMESTAMP,
        token_text(key, jti, iat, sub).len() <= MAX_TOKEN_LEN,
    ensures
        token_check(key, token_text(key, jti, iat, sub), now) == (if now < iat + TOKEN_TTL_SECONDS {
            Ok::<Seq<char>, TokenError>(sub)
        } else {
            Err(TokenError::Expired)
        }),
{
    let exp = (iat + TOKEN_TTL_SECONDS) as nat;
    let body = token_body(jti, iat, exp, sub);
    let sig = signature_of(key, body);
    let t = token_text(key, jti, iat, sub);
    lemma_hex_text_shape(session_mac(key, token_salt(), body));
    lemma_uuid_no_dot(jti);
    lemma_dec_text_shape(iat);
    lemma_dec_text_shape(exp);
    lemma_split_dot_join(sig, body);
    assert(split_dot(t) == Some((sig, body)));
    let r1 = dec_text(iat) + dot() + dec_text(exp) + dot() + sub;
    assert(body =~= jti + dot() + r1);
    lemma_split_dot_join(jti, r1);
    assert(split_dot(body) == Some((jti, r1)));
    let r2 = dec_text(exp) + dot() + sub;
    assert(r1 =~= dec_text(iat) + dot() + r2);
    lemma_split_dot_join(dec_text(iat), r2);
    assert(split_dot(r1) == Some((dec_text(iat), r2)));
    lemma_split_dot_join(dec_text(exp), sub);
    assert(split_dot(r2) == Some((dec_text(exp), sub)));
    assert(exp <= u64::MAX);
    assert(dec_field_ok(dec_text(iat)));
    assert(dec_field_ok(dec_text(exp)));
    assert(decode_token(t) == Some(TokenParts { sig, body, iat, exp, sub }));
}

/// Issues the token for `sub` at `now` with token id `jti`.
pub fn generate_token(key: &Vec<u8>, jti: &String, sub: &Email, now: u64) -> (r: String)
    requires
        key@.len() <= 0xFFFF_FFFF,
        is_hyphenated_uuid(jti@),
        is_valid_email(sub@),
        now <= MAX_TIMESTAMP,
    ensures
        r@ == token_text(key@, jti@, now as nat, sub@),
        r@.len() <= MAX_TOKEN_LEN,
{
    let exp = now + TOKEN_TTL_SECONDS;
    let mut body = jti.clone();
    body.append(".");
    body.append(render_dec(now).as_str());
    body.append(".");
    body.append(render_dec(exp).as_str());
    body.append(".");
    body.append(sub.as_ref());
    proof {
        reveal_strlit(".");
        lemma_dec_len_u64(now as nat);
        lemma_dec_len_u64(exp as nat);
        assert(body@ =~= token_body(jti@, now as nat, exp as nat, sub@));
    }
    let digest = match keyed_digest(key, salt_str(), body.as_str()) {
        Ok(d) => d,
        Err(_) => {
            proof {
                assert(false);
            }
            Vec::new()
        },
    };
    let mut token = render_hex(&digest);
    proof {
        lemma_hex_text_shape(digest@);
    }
    token.append(".");
    token.append(body.as_str());
    assert(token@ =~= token_text(key@, jti@, now as nat, sub@));
    token
}

/// Checks `token` at `now`: its shape, its signature under `key`, its expiry.
pub fn validate_token(key: &Vec<u8>, token: &str, now: u64) -> (r: Result<String, TokenError>)
    requires
        key@.len() <= 0xFFFF_FFFF,
    ensures
        match r {
            Ok(s) => token_check(key@, token@, now as nat) == Ok::<Seq<char>, TokenError>(s@),
            Err(e) => token_check(key@, token@, now as nat) == Err::<Seq<char>, TokenError>(e),
        },
{
    if token.unicode_len() > MAX_TOKEN_LEN {
        return Err(TokenError::Malformed);
    }
    let (sig, body) = match split_at_dot(token) {
        Some(p) => p,
        None => return Err(TokenError::Malformed),
    };
    let (_jti, r1) = match split_at_dot(body) {
        Some(p) => p,
        None => return Err(TokenError::Malformed),
    };
    let (iat_s, r2) = match split_at_dot(r1) {
        Some(p) => p,
        None => return Err(TokenError::Malformed),
    };
    let (exp_s, sub) = match split_at_dot(r2) {
        Some(p) => p,
        None => return Err(TokenError::Malformed),
    };
    let _iat = match parse_dec(iat_s) {
        Some(v) => v,
        None => return Err(TokenError::Malformed),
    };
    let exp = match parse_dec(exp_s) {
        Some(v) => v,
        None => return Err(TokenError::Malformed),
    };
    if !check_email(sub) {
        return Err(TokenError::Malformed);
    }
    let digest = match keyed_digest(key, salt_str(), body) {
        Ok(d) => d,
        Err(_) => {
            proof {
                assert(false);
            }
            return Err(TokenError::Malformed);
        },
    };
    let expected = render_hex(&digest);
    if String::from_str(sig) != expected {
        return Err(TokenError::BadSignature);
    }
    if now >= exp {
        return Err(TokenError::Expired);
    }
    Ok(String::from_str(sub))
}

} // verus!
