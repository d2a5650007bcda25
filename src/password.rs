//! Plain-text secrets as supplied by a user.

use vstd::prelude::*;

verus! {

/// Shortest secret accepted, in characters.
pub const MIN_PASSWORD_LEN: usize = 8;

pub open spec fn is_valid_password(s: Seq<char>) -> bool {
    s.len() >= MIN_PASSWORD_LEN
}

pub struct Password {
    value: String,
}

impl View for Password {
    type V = Seq<char>;

    closed spec fn view(&self) -> Seq<char> {
        self.value@
    }
}

impl Password {
    #[verifier::type_invariant]
    spec fn inv(&self) -> bool {
        is_valid_password(self.value@)
    }

    /// Accepts secrets of at least `MIN_PASSWORD_LEN` characters.
    pub fn parse(s: String) -> (r: Result<Password, String>)
        ensures
            r is Ok <==> is_valid_password(s@),
            r is Ok ==> r->Ok_0@ == s@,
            r is Err ==> r->Err_0@ == "Invalid password"@,
    {
        if s.as_str().unicode_len() >= MIN_PASSWORD_LEN {
            Ok(Password { value: s })
        } else {
            Err(String::from_str("Invalid password"))
        }
    }

    pub fn as_ref(&self) -> (r: &str)
        ensures
            r@ == self@,
    {
        self.value.as_str()
    }
}

impl Clone for Password {
    fn clone(&self) -> (r: Self)
        ensures
            r@ == self@,
    {
        proof {
            use_type_invariant(self);
        }
        Password { value: self.value.clone() }
    }
}

} // verus!
