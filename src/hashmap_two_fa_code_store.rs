//! Second-factor challenges held in memory, one per identifier.

use vstd::prelude::*;
use crate::data_stores::{
    LoginAttemptId, TwoFACode, TwoFACodeStore, TwoFACodeStoreError, TEN_MINUTES_IN_SECONDS,
};
use crate::email::Email;
use crate::table::KeyedTable;

verus! {

/// One challenge as held: its login-attempt id, its code and its expiry.
pub struct CodeEntry {
    pub login_attempt_id: LoginAttemptId,
    pub code: TwoFACode,
    pub expires_at: u64,
}

pub open spec fn entry_view(e: CodeEntry) -> (Seq<char>, Seq<char>, u64) {
    (e.login_attempt_id@, e.code@, e.expires_at)
}

pub struct HashmapTwoFACodeStore {
    codes: KeyedTable<CodeEntry>,
}

impl HashmapTwoFACodeStore {
    #[verifier::type_invariant]
    spec fn inv(&self) -> bool {
        self.codes.wf()
    }

    pub fn new() -> (r: HashmapTwoFACodeStore)
        ensures
            r.codes() == Map::<Seq<char>, (Seq<char>, Seq<char>, u64)>::empty(),
    {
        let r = HashmapTwoFACodeStore { codes: KeyedTable::new() };
        assert(r.codes() =~= Map::<Seq<char>, (Seq<char>, Seq<char>, u64)>::empty());
        r
    }
}

impl Default for HashmapTwoFACodeStore {
    fn default() -> (r: Self)
        ensures
            r.codes() == Map::<Seq<char>, (Seq<char>, Seq<char>, u64)>::empty(),
    {
        HashmapTwoFACodeStore::new()
    }
}

impl TwoFACodeStore for HashmapTwoFACodeStore {
    closed spec fn codes(&self) -> Map<Seq<char>, (Seq<char>, Seq<char>, u64)> {
        self.codes.view().map_values(|e: CodeEntry| entry_view(e))
    }

    fn add_code(&mut self, email: Email, login_attempt_id: LoginAttemptId, code: TwoFACode, now: u64) -> (r:
        Result<(), TwoFACodeStoreError>) {
        proof {
            use_type_invariant(&*self);
        }
        let entry = CodeEntry { login_attempt_id, code, expires_at: now + TEN_MINUTES_IN_SECONDS };
        let ghost ev = entry_view(entry);
        let mut table = KeyedTable::new();
        std::mem::swap(&mut self.codes, &mut table);
        table.insert(email.as_string().clone(), entry);
        std::mem::swap(&mut self.codes, &mut table);
        assert(self.codes() =~= old(self).codes().insert(email@, ev));
        Ok(())
    }

    fn remove_code(&mut self, email: &Email) -> (r: Result<(), TwoFACodeStoreError>) {
        proof {
            use_type_invariant(&*self);
        }
        let mut table = KeyedTable::new();
        std::mem::swap(&mut self.codes, &mut table);
        let found = table.remove(email.as_string());
        std::mem::swap(&mut self.codes, &mut table);
        assert(self.codes() =~= old(self).codes().remove(email@));
        if found {
            Ok(())
        } else {
            Err(TwoFACodeStoreError::LoginAttemptIdNotFound)
        }
    }

    fn get_code(&self, email: &Email, now: u64) -> (r: Result<(LoginAttemptId, TwoFACode), TwoFACodeStoreError>) {
        proof {
            use_type_invariant(self);
        }
        match self.codes.get(email.as_string()) {
            Some(e) => {
                if now < e.expires_at {
                    Ok((e.login_attempt_id.clone(), e.code.clone()))
                } else {
                    Err(TwoFACodeStoreError::LoginAttemptIdNotFound)
                }
            },
            None => Err(TwoFACodeStoreError::LoginAttemptIdNotFound),
        }
    }
}

} // verus!
