//! The stores and the signing key that the authentication flows share.

use vstd::prelude::*;
use crate::auth::SigningKey;
use crate::data_stores::{BannedTokenStore, TwoFACodeStore, UserStore};

verus! {

/// What the flows read and change: the identity records, the challenges,
/// the revocation entries, and the signing key.
pub struct AuthState {
    pub users: Map<Seq<char>, (Seq<char>, bool)>,
    pub codes: Map<Seq<char>, (Seq<char>, Seq<char>, u64)>,
    pub banned: Map<Seq<char>, u64>,
    pub key: Seq<u8>,
}

/// The stores, one per role, and the signing key.
pub struct AppState<U: UserStore, B: BannedTokenStore, T: TwoFACodeStore> {
    pub user_store: U,
    pub banned_token_store: B,
    pub two_fa_code_store: T,
    pub signing_key: SigningKey,
}

impl<U: UserStore, B: BannedTokenStore, T: TwoFACodeStore> View for AppState<U, B, T> {
    type V = AuthState;

    open spec fn view(&self) -> AuthState {
        AuthState {
            users: self.user_store.users(),
            codes: self.two_fa_code_store.codes(),
            banned: self.banned_token_store.tokens(),
            key: self.signing_key@,
        }
    }
}

impl<U: UserStore, B: BannedTokenStore, T: TwoFACodeStore> AppState<U, B, T> {
    pub fn new(user_store: U, banned_token_store: B, two_fa_code_store: T, signing_key: SigningKey) -> (r:
        AppState<U, B, T>)
        ensures
            r@ == (AuthState {
                users: user_store.users(),
                codes: two_fa_code_store.codes(),
                banned: banned_token_store.tokens(),
                key: signing_key@,
            }),
    {
        AppState { user_store, banned_token_store, two_fa_code_store, signing_key }
    }
}

} // verus!
