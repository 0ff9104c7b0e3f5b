use vstd::prelude::*;
use crate::domain::error::AuthAPIError;

verus! {

/// Whether `validator::validate_email` accepts the text: the address syntax
/// of the HTML5 specification, with length limits on both parts.
pub uninterp spec fn valid_email_syntax(text: Seq<char>) -> bool;

/// Calls `validator::validate_email`.
///
/// The result is named `valid_email_syntax`. Beyond the name, the contract
/// claims what the first lines of that function show: an accepted text is
/// not empty, holds an `@`, and does not begin with one (the part before
/// the last `@` must match a pattern of one or more characters that
/// excludes `@`).
#[verifier::external_body]
fn email_syntax_accepted(text: &str) -> (ok: bool)
    ensures
        ok == valid_email_syntax(text@),
        ok ==> text@.len() > 0 && text@.contains('@') && text@[0] != '@',
{
    validator::validate_email(text)
}

/// An email address that passed syntax validation.
#[derive(Debug, PartialEq, Eq, Hash)]
pub struct Email(String);

impl View for Email {
    type V = Seq<char>;

    closed spec fn view(&self) -> Seq<char> {
        self.0@
    }
}

impl Email {
    #[verifier::type_invariant]
    closed spec fn valid(&self) -> bool {
        valid_email_syntax(self.0@)
    }

    /// Accepts exactly the syntactically valid addresses and keeps the text
    /// as it was given. A text that is empty, holds no `@`, or begins with
    /// `@` (no local part) is always rejected.
    pub fn parse(email: String) -> (r: Result<Email, AuthAPIError>)
        ensures
            valid_email_syntax(email@) ==> r is Ok && r->Ok_0@ == email@,
            !valid_email_syntax(email@) ==> r == Err::<Email, AuthAPIError>(
                AuthAPIError::InvalidCredentials,
            ),
            email@.len() == 0 || !email@.contains('@') || email@[0] == '@' ==> r is Err,
    {
        if email_syntax_accepted(email.as_str()) {
            Ok(Email(email))
        } else {
            Err(AuthAPIError::InvalidCredentials)
        }
    }

    /// The address text, which is always a syntactically valid address.
    pub fn as_ref(&self) -> (text: &str)
        ensures
            text@ == self@,
            valid_email_syntax(self@),
    {
        proof {
            use_type_invariant(self);
        }
        self.0.as_str()
    }

    /// Whether two addresses hold the same text.
    pub fn same_as(&self, other: &Email) -> (same: bool)
        ensures
            same == (self@ == other@),
    {
        self.0 == other.0
    }
}

impl Clone for Email {
    fn clone(&self) -> (copy: Self)
        ensures
            copy@ == self@,
    {
        proof {
            use_type_invariant(self);
        }
        Email(self.0.clone())
    }
}

} // verus!
