//! Identity records held in memory.

use vstd::prelude::*;
use crate::data_stores::{UserStore, UserStoreError};
use crate::email::Email;
use crate::hashing::{compute_password_hash, verify_password_hash};
use crate::password::Password;
use crate::table::KeyedTable;
use crate::user::{StoredUser, User};

verus! {

pub struct HashmapUserStore {
    users: KeyedTable<StoredUser>,
}

impl HashmapUserStore {
    #[verifier::type_invariant]
    spec fn inv(&self) -> bool {
        &&& self.users.wf()
        &&& forall|k: Seq<char>| #[trigger]
            self.users.view().contains_key(k) ==> self.users.view()[k].email@ == k
    }

    pub fn new() -> (r: HashmapUserStore)
        ensures
            r.users() == Map::<Seq<char>, (Seq<char>, bool)>::empty(),
    {
        let r = HashmapUserStore { users: KeyedTable::new() };
        assert(r.users() =~= Map::<Seq<char>, (Seq<char>, bool)>::empty());
        r
    }

    /// Records `email` with an already computed secret hash, unless the
    /// identifier is taken.
    pub fn add_hashed_user(&mut self, email: Email, password_hash: String, requires_2fa: bool) -> (r: Result<
        (),
        UserStoreError,
    >)
        ensures
            old(self).users().contains_key(email@) ==> {
                &&& r == Err::<(), UserStoreError>(UserStoreError::UserAlreadyExists)
                &&& final(self).users() == old(self).users()
            },
            !old(self).users().contains_key(email@) ==> {
                &&& r is Ok
                &&& final(self).users() == old(self).users().insert(email@, (password_hash@, requires_2fa))
            },
    {
        proof {
            use_type_invariant(&*self);
        }
        if self.users.get(email.as_string()).is_some() {
            return Err(UserStoreError::UserAlreadyExists);
        }
        let key = email.as_string().clone();
        let record = StoredUser { email, password_hash, requires_2fa };
        let mut table = KeyedTable::new();
        std::mem::swap(&mut self.users, &mut table);
        table.insert(key, record);
        std::mem::swap(&mut self.users, &mut table);
        assert(self.users() =~= old(self).users().insert(key@, (record.password_hash@, requires_2fa)));
        Ok(())
    }
}

impl Default for HashmapUserStore {
    fn default() -> (r: Self)
        ensures
            r.users() == Map::<Seq<char>, (Seq<char>, bool)>::empty(),
    {
        HashmapUserStore::new()
    }
}

impl UserStore for HashmapUserStore {
    closed spec fn users(&self) -> Map<Seq<char>, (Seq<char>, bool)> {
        self.users.view().map_values(|u: StoredUser| (u.password_hash@, u.requires_2fa))
    }

    open spec fn may_fail(&self) -> bool {
        false
    }

    fn add_user(&mut self, user: User) -> (r: Result<(), UserStoreError>) {
        proof {
            use_type_invariant(&*self);
        }
        if self.users.get(user.email.as_string()).is_some() {
            return Err(UserStoreError::UserAlreadyExists);
        }
        let password_hash = match compute_password_hash(user.password.as_ref()) {
            Ok(h) => h,
            Err(_) => return Err(UserStoreError::UnexpectedError),
        };
        self.add_hashed_user(user.email, password_hash, user.requires_2fa)
    }

    fn get_user(&self, email: &Email) -> (r: Result<StoredUser, UserStoreError>) {
        proof {
            use_type_invariant(self);
        }
        match self.users.get(email.as_string()) {
            Some(u) => Ok(u.duplicate()),
            None => Err(UserStoreError::UserNotFound),
        }
    }

    fn validate_user(&self, email: &Email, password: &Password) -> (r: Result<(), UserStoreError>) {
        proof {
            use_type_invariant(self);
        }
        match self.users.get(email.as_string()) {
            Some(u) => {
                if verify_password_hash(u.password_hash.as_str(), password.as_ref()) {
                    Ok(())
                } else {
                    Err(UserStoreError::InvalidCredentials)
                }
            },
            None => Err(UserStoreError::UserNotFound),
        }
    }
}

} // verus!
