use vstd::prelude::*;
use crate::domain::error::AuthAPIError;

verus! {

/// The least number of characters a password may have.
pub const MIN_PASSWORD_LENGTH: u64 = 8;

/// Calls `validator::validate_length` with a lower bound only.
///
/// That function counts the characters of the text and compares the count
/// with the bound, so the contract states the comparison itself.
#[verifier::external_body]
fn has_min_length(text: &str, min: u64) -> (ok: bool)
    ensures
        ok == (text@.len() >= min),
{
    validator::validate_length(text, Some(min), None, None)
}

/// A password candidate of acceptable length. It lives in memory only.
#[derive(Debug, PartialEq, Eq)]
pub struct Password(String);

impl View for Password {
    type V = Seq<char>;

    closed spec fn view(&self) -> Seq<char> {
        self.0@
    }
}

impl Password {
    #[verifier::type_invariant]
    closed spec fn long_enough(&self) -> bool {
        self.0@.len() >= MIN_PASSWORD_LENGTH
    }

    /// Accepts exactly the texts of eight characters or more, unchanged.
    pub fn parse(pass: String) -> (r: Result<Password, AuthAPIError>)
        ensures
            pass@.len() >= MIN_PASSWORD_LENGTH ==> r is Ok && r->Ok_0@ == pass@,
            pass@.len() < MIN_PASSWORD_LENGTH ==> r == Err::<Password, AuthAPIError>(
                AuthAPIError::InvalidCredentials,
            ),
    {
        if has_min_length(pass.as_str(), MIN_PASSWORD_LENGTH) {
            Ok(Password(pass))
        } else {
            Err(AuthAPIError::InvalidCredentials)
        }
    }

    /// The password text, which always has eight characters or more.
    pub fn as_ref(&self) -> (text: &str)
        ensures
            text@ == self@,
            self@.len() >= MIN_PASSWORD_LENGTH,
    {
        proof {
            use_type_invariant(self);
        }
        self.0.as_str()
    }

    /// Whether two passwords hold the same text.
    pub fn same_as(&self, other: &Password) -> (same: bool)
        ensures
            same == (self@ == other@),
    {
        self.0 == other.0
    }
}

impl Clone for Password {
    fn clone(&self) -> (copy: Self)
        ensures
            copy@ == self@,
    {
        proof {
            use_type_invariant(self);
        }
        Password(self.0.clone())
    }
}

} // verus!
