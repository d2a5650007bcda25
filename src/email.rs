//! User identifiers: e-mail shaped, ASCII lower-cased.

use vstd::prelude::*;
use crate::text::{ascii_lower, to_ascii_lower};

verus! {

/// Longest identifier accepted, in characters.
pub const MAX_EMAIL_LEN: usize = 254;

/// Number of `@` characters in `s`.
pub open spec fn at_count(s: Seq<char>) -> nat
    decreases s.len(),
{
    if s.len() == 0 {
        0
    } else {
        at_count(s.drop_last()) + if s.last() == '@' { 1nat } else { 0nat }
    }
}

/// A non-empty local part, one `@`, a non-empty domain, at most
/// `MAX_EMAIL_LEN` characters.
pub open spec fn is_valid_email(s: Seq<char>) -> bool {
    &&& 0 < s.len() <= MAX_EMAIL_LEN
    &&& at_count(s) == 1
    &&& s[0] != '@'
    &&& s.last() != '@'
}

pub struct Email {
    value: String,
}

impl View for Email {
    type V = Seq<char>;

    closed spec fn view(&self) -> Seq<char> {
        self.value@
    }
}

impl Email {
    #[verifier::type_invariant]
    spec fn inv(&self) -> bool {
        is_valid_email(self.value@)
    }

    /// Lower-cases the ASCII letters of `s` and accepts the result if it is
    /// e-mail shaped.
    pub fn parse(s: String) -> (r: Result<Email, String>)
        ensures
            r is Ok <==> is_valid_email(ascii_lower(s@)),
            r is Ok ==> r->Ok_0@ == ascii_lower(s@),
            r is Err ==> r->Err_0@ == "Invalid email"@,
    {
        let lowered = to_ascii_lower(s.as_str());
        if check_email(lowered.as_str()) {
            Ok(Email { value: lowered })
        } else {
            Err(String::from_str("Invalid email"))
        }
    }

    pub fn as_ref(&self) -> (r: &str)
        ensures
            r@ == self@,
    {
        self.value.as_str()
    }

    pub fn as_string(&self) -> (r: &String)
        ensures
            r@ == self@,
    {
        &self.value
    }
}

impl Clone for Email {
    fn clone(&self) -> (r: Self)
        ensures
            r@ == self@,
    {
        proof {
            use_type_invariant(self);
        }
        Email { value: self.value.clone() }
    }
}

impl PartialEq for Email {
    fn eq(&self, o: &Email) -> (r: bool) {
        self.value == o.value
    }
}

impl vstd::std_specs::cmp::PartialEqSpecImpl for Email {
    open spec fn obeys_eq_spec() -> bool {
        true
    }

    open spec fn eq_spec(&self, o: &Email) -> bool {
        self@ == o@
    }
}

/// Whether `s` is e-mail shaped.
pub fn check_email(s: &str) -> (r: bool)
    ensures
        r == is_valid_email(s@),
{
    let n = s.unicode_len();
    if n == 0 || n > MAX_EMAIL_LEN {
        return false;
    }
    let mut count: usize = 0;
    let mut i: usize = 0;
    while i < n
        invariant
            n == s@.len(),
            i <= n,
            count == at_count(s@.take(i as int)),
            count <= i,
        decreases n - i,
    {
        proof {
            assert(s@.take(i + 1).drop_last() =~= s@.take(i as int));
        }
        if s.get_char(i) == '@' {
            count = count + 1;
        }
        i = i + 1;
    }
    proof {
        assert(s@.take(n as int) =~= s@);
    }
    count == 1 && s.get_char(0) != '@' && s.get_char(n - 1) != '@'
}

} // verus!
