use vstd::prelude::*;
use vstd::string::StringExecFns;

verus! {

/// The error kinds that the authentication flows report to their caller.
///
/// A wrong password and a failed second factor are both
/// `IncorrectCredentials`; a token that is malformed, badly signed, expired
/// or revoked is `InvalidToken`.
#[derive(Debug, Clone, Copy, PartialEq, Eq, Structural)]
pub enum AuthAPIError {
    UserAlreadyExists,
    InvalidCredentials,
    IncorrectCredentials,
    UnexpectedError,
    MissingToken,
    InvalidToken,
}

/// The HTTP status that stands for each error kind.
pub open spec fn status_of(e: AuthAPIError) -> u16 {
    match e {
        AuthAPIError::UserAlreadyExists => 409,
        AuthAPIError::InvalidCredentials => 400,
        AuthAPIError::IncorrectCredentials => 401,
        AuthAPIError::MissingToken => 400,
        AuthAPIError::InvalidToken => 401,
        AuthAPIError::UnexpectedError => 500,
    }
}

/// The message shown to a client for each error kind.
pub open spec fn message_of(e: AuthAPIError) -> Seq<char> {
    match e {
        AuthAPIError::UserAlreadyExists => "User already exists"@,
        AuthAPIError::InvalidCredentials => "Invalid credentials"@,
        AuthAPIError::IncorrectCredentials => "Incorrect credentials"@,
        AuthAPIError::MissingToken => "Missing token"@,
        AuthAPIError::InvalidToken => "Invalid token"@,
        AuthAPIError::UnexpectedError => "Unexpected error"@,
    }
}

impl AuthAPIError {
    /// The HTTP status code a boundary layer answers with.
    pub fn status_code(&self) -> (code: u16)
        ensures
            code == status_of(*self),
    {
        match self {
            AuthAPIError::UserAlreadyExists => 409,
            AuthAPIError::InvalidCredentials => 400,
            AuthAPIError::IncorrectCredentials => 401,
            AuthAPIError::MissingToken => 400,
            AuthAPIError::InvalidToken => 401,
            AuthAPIError::UnexpectedError => 500,
        }
    }

    /// The client-facing message. It never carries internal detail.
    pub fn message(&self) -> (text: String)
        ensures
            text@ == message_of(*self),
    {
        match self {
            AuthAPIError::UserAlreadyExists => "User already exists".to_owned(),
            AuthAPIError::InvalidCredentials => "Invalid credentials".to_owned(),
            AuthAPIError::IncorrectCredentials => "Incorrect credentials".to_owned(),
            AuthAPIError::MissingToken => "Missing token".to_owned(),
            AuthAPIError::InvalidToken => "Invalid token".to_owned(),
            AuthAPIError::UnexpectedError => "Unexpected error".to_owned(),
        }
    }

    /// The status and body with which a boundary layer answers this error.
    pub fn into_response(self) -> (out: (u16, ErrorResponse))
        ensures
            out.0 == status_of(self),
            out.1.error@ == message_of(self),
    {
        (self.status_code(), ErrorResponse { error: self.message() })
    }
}

/// The body of an error answer.
#[derive(Debug, PartialEq, Eq)]
pub struct ErrorResponse {
    pub error: String,
}

/// The line that opens and closes the report of an error.
pub const REPORT_SEPARATOR: &'static str =
    "\n-----------------------------------------------------------------------------------\n";

/// The part of a report that names the causes, outermost first: for each
/// cause a line break, the heading `Caused by:`, an empty line and the cause.
pub open spec fn causes_report(causes: Seq<Seq<char>>) -> Seq<char>
    decreases causes.len(),
{
    if causes.len() == 0 {
        Seq::empty()
    } else {
        causes_report(causes.drop_last()) + "\n"@ + "Caused by:\n\n"@ + causes.last()
    }
}

/// The report of an error and the chain of its causes: the separator, the
/// error and a line break, the causes, a line break and the separator.
pub open spec fn error_chain_report(error: Seq<char>, causes: Seq<Seq<char>>) -> Seq<char> {
    REPORT_SEPARATOR@ + error + "\n"@ + causes_report(causes) + "\n"@ + REPORT_SEPARATOR@
}

/// The causes as plain values.
pub open spec fn texts(causes: Seq<String>) -> Seq<Seq<char>> {
    Seq::new(causes.len(), |i: int| causes[i]@)
}

/// Builds the report that is written to the log for an error: the error
/// itself, then each of its causes, outermost first. The report is for the
/// log only and never part of an answer to a client.
pub fn log_error_chain(error: &str, causes: &Vec<String>) -> (report: String)
    ensures
        report@ == error_chain_report(error@, texts(causes@)),
{
    let mut report = String::from_str(REPORT_SEPARATOR).concat(error).concat("\n");
    let mut i: usize = 0;
    proof {
        assert(texts(causes@).take(0) =~= Seq::<Seq<char>>::empty());
    }
    while i < causes.len()
        invariant
            i <= causes.len(),
            report@ == REPORT_SEPARATOR@ + error@ + "\n"@ + causes_report(
                texts(causes@).take(i as int),
            ),
        decreases causes.len() - i,
    {
        proof {
            let next = texts(causes@).take(i + 1);
            assert(next.drop_last() =~= texts(causes@).take(i as int));
            assert(next.last() == causes@[i as int]@);
        }
        report = report.concat("\n").concat("Caused by:\n\n").concat(causes[i].as_str());
        i = i + 1;
    }
    proof {
        assert(texts(causes@).take(i as int) =~= texts(causes@));
    }
    report.concat("\n").concat(REPORT_SEPARATOR)
}

} // verus!
