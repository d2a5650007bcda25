//! Identities as signed up, and as held by a store.

use vstd::prelude::*;
use crate::email::Email;
use crate::password::Password;

verus! {

/// An identity as supplied at signup.
pub struct User {
    pub email: Email,
    pub password: Password,
    pub requires_2fa: bool,
}

impl User {
    pub fn new(email: Email, password: Password, requires_2fa: bool) -> (r: User)
        ensures
            r.email@ == email@,
            r.password@ == password@,
            r.requires_2fa == requires_2fa,
    {
        User { email, password, requires_2fa }
    }
}

/// An identity as recorded: the secret is kept only as its hash.
pub struct StoredUser {
    pub email: Email,
    pub password_hash: String,
    pub requires_2fa: bool,
}

impl StoredUser {
    pub fn duplicate(&self) -> (r: StoredUser)
        ensures
            r.email@ == self.email@,
            r.password_hash@ == self.password_hash@,
            r.requires_2fa == self.requires_2fa,
    {
        StoredUser {
            email: self.email.clone(),
            password_hash: self.password_hash.clone(),
            requires_2fa: self.requires_2fa,
        }
    }
}

} // verus!
