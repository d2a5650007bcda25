//! Revoked session tokens held in memory.

use vstd::prelude::*;
use crate::data_stores::{BannedTokenError, BannedTokenStore, TOKEN_TTL_SECONDS};
use crate::table::KeyedTable;

verus! {

pub struct HashsetBannedTokenStore {
    tokens: KeyedTable<u64>,
}

impl HashsetBannedTokenStore {
    #[verifier::type_invariant]
    spec fn inv(&self) -> bool {
        self.tokens.wf()
    }

    pub fn new() -> (r: HashsetBannedTokenStore)
        ensures
            r.tokens() == Map::<Seq<char>, u64>::empty(),
    {
        HashsetBannedTokenStore { tokens: KeyedTable::new() }
    }
}

impl Default for HashsetBannedTokenStore {
    fn default() -> (r: Self)
        ensures
            r.tokens() == Map::<Seq<char>, u64>::empty(),
    {
        HashsetBannedTokenStore::new()
    }
}

impl BannedTokenStore for HashsetBannedTokenStore {
    closed spec fn tokens(&self) -> Map<Seq<char>, u64> {
        self.tokens.view()
    }

    fn add_token(&mut self, token: String, now: u64) -> (r: Result<(), BannedTokenError>) {
        proof {
            use_type_invariant(&*self);
        }
        let mut table = KeyedTable::new();
        std::mem::swap(&mut self.tokens, &mut table);
        table.retain_above(now);
        table.insert(token, now + TOKEN_TTL_SECONDS);
        std::mem::swap(&mut self.tokens, &mut table);
        Ok(())
    }

    fn contains_token(&self, token: &String, now: u64) -> (r: Result<bool, BannedTokenError>) {
        proof {
            use_type_invariant(self);
        }
        match self.tokens.get(token) {
            Some(expires_at) => Ok(now < *expires_at),
            None => Ok(false),
        }
    }
}

} // verus!
