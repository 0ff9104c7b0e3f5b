use vstd::prelude::*;
use vstd::string::StringExecFns;
use crate::domain::data_stores::add_code_model;
use crate::domain::data_stores::is_two_fa_code;
use crate::domain::data_stores::uuid_canonical;
use crate::domain::data_stores::validate_user_model;
use crate::domain::data_stores::LoginAttemptId;
use crate::domain::data_stores::TwoFACode;
use crate::domain::data_stores::TwoFACodeStore;
use crate::domain::data_stores::TwoFACodeStoreError;
use crate::domain::data_stores::UserStore;
use crate::domain::data_stores::UserStoreError;
use crate::domain::email::valid_email_syntax;
use crate::domain::email::Email;
use crate::domain::email_client::EmailClient;
use crate::domain::email_client::MailView;
use crate::domain::error::AuthAPIError;
use crate::domain::password::Password;
use crate::domain::password::MIN_PASSWORD_LENGTH;
use crate::domain::user::User;
use crate::domain::user::UserView;
use crate::utils::auth::generate_claims;
use crate::utils::auth::session_claims_model;
use crate::utils::auth::Claims;

verus! {

/// What a client sends to log in.
#[derive(Debug, PartialEq, Eq)]
pub struct LoginRequest {
    pub email: String,
    pub password: String,
}

/// The body that tells a client that a second factor is required.
#[derive(Debug, PartialEq, Eq)]
pub struct TwoFactorAuthResponse {
    pub message: String,
    pub login_attempt_id: String,
}

/// The two bodies with which a login can succeed.
#[derive(Debug, PartialEq, Eq)]
pub enum LoginResponse {
    RegularAuth,
    TwoFactorAuth(TwoFactorAuthResponse),
}

/// How a login succeeded: with a session, whose claims the caller signs
/// into the session cookie, or with a challenge that awaits its code.
#[derive(Debug, PartialEq, Eq)]
pub enum LoginOutcome {
    RegularAuth(Claims),
    TwoFactorAuth(TwoFactorAuthResponse),
}

impl LoginOutcome {
    /// The HTTP status of the answer: 200 with a session, 206 where a
    /// second factor is still required.
    pub fn status_code(&self) -> (code: u16)
        ensures
            code == if self is RegularAuth {
                200u16
            } else {
                206u16
            },
    {
        match self {
            LoginOutcome::RegularAuth(_) => 200,
            LoginOutcome::TwoFactorAuth(_) => 206,
        }
    }

    /// The body of the answer. The claims of a session are not part of it.
    pub fn response(self) -> (body: LoginResponse)
        ensures
            body == match self {
                LoginOutcome::RegularAuth(_) => LoginResponse::RegularAuth,
                LoginOutcome::TwoFactorAuth(challenge) => LoginResponse::TwoFactorAuth(challenge),
            },
    {
        match self {
            LoginOutcome::RegularAuth(_) => LoginResponse::RegularAuth,
            LoginOutcome::TwoFactorAuth(challenge) => LoginResponse::TwoFactorAuth(challenge),
        }
    }
}

/// The subject of the mail that carries a second-factor code.
pub const TWO_FA_MAIL_SUBJECT: &'static str = "2FA Code";

/// The text of the mail that carries the code.
pub open spec fn two_fa_mail_content(code: Seq<char>) -> Seq<char> {
    "Here is your 2FA code: "@ + code + ", don't share it with anyone."@
}

/// The mail that carries the code to the address.
pub open spec fn two_fa_mail(email: Seq<char>, code: Seq<char>) -> MailView {
    MailView { recipient: email, subject: TWO_FA_MAIL_SUBJECT@, content: two_fa_mail_content(code) }
}

/// Which way a login goes, before anything is issued.
pub enum LoginPath {
    /// The login is refused with this error.
    Refused(AuthAPIError),
    /// The credentials are right and no second factor is required.
    Session,
    /// The credentials are right and a second factor is required.
    Challenge,
}

/// The way a login goes against the records of a reliable store, given
/// whether the stored record accepts the password: input that does not
/// parse is invalid, an unknown address and a wrong password are both
/// incorrect credentials, and the second-factor flag of the record decides
/// the rest.
pub open spec fn login_path(
    users: Map<Seq<char>, UserView>,
    accepted: bool,
    email: Seq<char>,
    password: Seq<char>,
) -> LoginPath {
    if !valid_email_syntax(email) || password.len() < MIN_PASSWORD_LENGTH {
        LoginPath::Refused(AuthAPIError::InvalidCredentials)
    } else if validate_user_model(users, email, accepted) is Err {
        LoginPath::Refused(AuthAPIError::IncorrectCredentials)
    } else if users[email].requires_2fa {
        LoginPath::Challenge
    } else {
        LoginPath::Session
    }
}

/// What it means that a fresh challenge was issued to the address: its slot
/// holds a pair of the identifier given back and a six-digit code, no other
/// slot changed, and exactly one mail went out, which carries that code to
/// that address.
pub open spec fn challenge_issued(
    before: Map<Seq<char>, (Seq<char>, Seq<char>)>,
    after: Map<Seq<char>, (Seq<char>, Seq<char>)>,
    sent_before: Seq<MailView>,
    sent_after: Seq<MailView>,
    email: Seq<char>,
    login_attempt_id: Seq<char>,
) -> bool {
    &&& after.contains_key(email)
    &&& after == before.insert(email, after[email])
    &&& after[email].0 == login_attempt_id
    &&& uuid_canonical(login_attempt_id) == Some(login_attempt_id)
    &&& is_two_fa_code(after[email].1)
    &&& sent_after == sent_before.push(two_fa_mail(email, after[email].1))
}

/// What issuing a challenge does once the store was asked to file it: where
/// filing failed, nothing is mailed and the error is unexpected; where it
/// succeeded, the text that comes back is mailed to the address.
pub fn challenge_after_add_code(filed: Result<(), TwoFACodeStoreError>, code: &TwoFACode) -> (r:
    Result<String, AuthAPIError>)
    ensures
        match filed {
            Ok(()) => r matches Ok(content) && content@ == two_fa_mail_content(code@),
            Err(_) => r == Err::<String, AuthAPIError>(AuthAPIError::UnexpectedError),
        },
{
    match filed {
        Ok(()) => Ok(
            String::from_str("Here is your 2FA code: ").concat(code.as_ref()).concat(
                ", don't share it with anyone.",
            ),
        ),
        Err(_) => Err(AuthAPIError::UnexpectedError),
    }
}

/// What issuing a challenge answers once the mail client was asked to send
/// the code: the identifier, and never the code, where the mail was
/// accepted; an unexpected error where it was not.
pub fn challenge_after_send_email(sent: Result<(), String>, login_attempt_id: String) -> (r:
    Result<TwoFactorAuthResponse, AuthAPIError>)
    ensures
        match sent {
            Ok(()) => r matches Ok(response) && response.message@ == "2FA required"@
                && response.login_attempt_id@ == login_attempt_id@,
            Err(_) => r == Err::<TwoFactorAuthResponse, AuthAPIError>(
                AuthAPIError::UnexpectedError,
            ),
        },
{
    match sent {
        Ok(()) => Ok(
            TwoFactorAuthResponse { message: "2FA required".to_owned(), login_attempt_id },
        ),
        Err(_) => Err(AuthAPIError::UnexpectedError),
    }
}

/// Files the challenge for the address, then mails the code to it, and
/// answers with the identifier only: the code leaves out of band.
///
/// The challenge is filed first, and `challenge_after_add_code` decides on
/// the store's answer: where filing fails, no mail goes out. A mail that
/// fails leaves the challenge in place; `challenge_after_send_email` decides
/// on the mail client's answer.
pub fn issue_challenge<C: TwoFACodeStore, E: EmailClient>(
    email: &Email,
    login_attempt_id: LoginAttemptId,
    code: TwoFACode,
    two_fa_code_store: &mut C,
    email_client: &mut E,
) -> (r: Result<TwoFactorAuthResponse, AuthAPIError>)
    ensures
        final(two_fa_code_store).reliable() == old(two_fa_code_store).reliable(),
        final(email_client).reliable() == old(email_client).reliable(),
        old(two_fa_code_store).reliable() ==> final(two_fa_code_store).challenges()
            == add_code_model(
            old(two_fa_code_store).challenges(),
            email@,
            login_attempt_id@,
            code@,
        ),
        old(two_fa_code_store).reliable() && old(email_client).reliable() ==> r is Ok
            && final(email_client).outbox() == old(email_client).outbox().push(
            two_fa_mail(email@, code@),
        ),
        r is Err && old(email_client).reliable() ==> *final(email_client) == *old(email_client),
        r matches Ok(response) ==> response.message@ == "2FA required"@
            && response.login_attempt_id@ == login_attempt_id@,
        r matches Err(e) ==> e == AuthAPIError::UnexpectedError,
{
    let id_text = login_attempt_id.as_ref().to_owned();
    let mailed_code = code.clone();
    let filed = two_fa_code_store.add_code(email.clone(), login_attempt_id, code);
    let content = match challenge_after_add_code(filed, &mailed_code) {
        Ok(content) => content,
        Err(e) => {
            return Err(e);
        },
    };
    let sent = email_client.send_email(email, TWO_FA_MAIL_SUBJECT, content.as_str());
    challenge_after_send_email(sent, id_text)
}

/// Starts the second factor for the address: draws a fresh login-attempt
/// identifier and a fresh code, and issues the challenge. The challenge is
/// filed before the code is mailed, and where filing fails no mail goes out.
pub fn handle_2fa<C: TwoFACodeStore, E: EmailClient>(
    email: &Email,
    two_fa_code_store: &mut C,
    email_client: &mut E,
) -> (r: Result<LoginOutcome, AuthAPIError>)
    ensures
        final(two_fa_code_store).reliable() == old(two_fa_code_store).reliable(),
        final(email_client).reliable() == old(email_client).reliable(),
        old(two_fa_code_store).reliable() && old(email_client).reliable() ==> r is Ok,
        r is Err && old(email_client).reliable() ==> *final(email_client) == *old(email_client),
        r matches Ok(outcome) ==> outcome matches LoginOutcome::TwoFactorAuth(response)
            && response.message@ == "2FA required"@ && (old(two_fa_code_store).reliable()
            && old(email_client).reliable() ==> challenge_issued(
            old(two_fa_code_store).challenges(),
            final(two_fa_code_store).challenges(),
            old(email_client).outbox(),
            final(email_client).outbox(),
            email@,
            response.login_attempt_id@,
        )),
        r matches Err(e) ==> e == AuthAPIError::UnexpectedError,
{
    let login_attempt_id = LoginAttemptId::generate();
    let two_fa_code = TwoFACode::generate();
    match issue_challenge(email, login_attempt_id, two_fa_code, two_fa_code_store, email_client) {
        Ok(response) => Ok(LoginOutcome::TwoFactorAuth(response)),
        Err(e) => Err(e),
    }
}

/// Issues a session for the address at `now`.
pub fn handle_no_2fa(email: &Email, now: u64) -> (r: Result<LoginOutcome, AuthAPIError>)
    ensures
        match session_claims_model(email@, now) {
            Some(claims) => r matches Ok(LoginOutcome::RegularAuth(issued)) && issued@ == claims,
            None => r == Err::<LoginOutcome, AuthAPIError>(AuthAPIError::UnexpectedError),
        },
{
    match generate_claims(email, now) {
        Ok(claims) => Ok(LoginOutcome::RegularAuth(claims)),
        Err(e) => Err(e),
    }
}

/// What login does once the store has checked the credentials: any failure
/// is incorrect credentials, so that an unknown address cannot be told from
/// a wrong password; on success the user is looked up.
pub fn login_after_validate_user(validated: Result<(), UserStoreError>) -> (r: Result<
    (),
    AuthAPIError,
>)
    ensures
        r == match validated {
            Ok(()) => Ok::<(), AuthAPIError>(()),
            Err(_) => Err::<(), AuthAPIError>(AuthAPIError::IncorrectCredentials),
        },
{
    match validated {
        Ok(()) => Ok(()),
        Err(_) => Err(AuthAPIError::IncorrectCredentials),
    }
}

/// What login does once the store was asked for the user: a failed lookup
/// is incorrect credentials; a user that was found decides by its flag
/// whether a second factor is required.
pub fn login_after_get_user(fetched: Result<User, UserStoreError>) -> (r: Result<
    bool,
    AuthAPIError,
>)
    ensures
        r == match fetched {
            Ok(user) => Ok::<bool, AuthAPIError>(user.requires_2fa),
            Err(_) => Err::<bool, AuthAPIError>(AuthAPIError::IncorrectCredentials),
        },
{
    match fetched {
        Ok(user) => Ok(user.requires_2fa),
        Err(_) => Err(AuthAPIError::IncorrectCredentials),
    }
}

/// Logs a user in.
///
/// Input that does not parse is `InvalidCredentials`; an unknown address
/// and a wrong password are both `IncorrectCredentials`. A user without
/// second factor gets a session at once. For a user with second factor a
/// fresh challenge is filed and its code mailed, and only the login-attempt
/// identifier is given back.
///
/// The identity store is asked to check the credentials and then for the
/// user; `login_after_validate_user` and `login_after_get_user` decide on
/// its answers. With a reliable identity store the login goes the way of
/// `login_path`. A login that is refused, or that ends in a session, touches
/// neither the challenge store nor the mail client; where filing the
/// challenge fails, no mail goes out.
pub fn login<U: UserStore, C: TwoFACodeStore, E: EmailClient>(
    user_store: &U,
    two_fa_code_store: &mut C,
    email_client: &mut E,
    request: LoginRequest,
    now: u64,
) -> (r: Result<LoginOutcome, AuthAPIError>)
    ensures
        final(two_fa_code_store).reliable() == old(two_fa_code_store).reliable(),
        final(email_client).reliable() == old(email_client).reliable(),
        !valid_email_syntax(request.email@) || request.password@.len() < MIN_PASSWORD_LENGTH ==> r
            == Err::<LoginOutcome, AuthAPIError>(AuthAPIError::InvalidCredentials),
        r matches Ok(LoginOutcome::RegularAuth(_)) || (r matches Err(e) && e
            != AuthAPIError::UnexpectedError) ==> *final(two_fa_code_store)
            == *old(two_fa_code_store) && *final(email_client) == *old(email_client),
        r matches Ok(LoginOutcome::RegularAuth(issued)) ==> session_claims_model(
            request.email@,
            now,
        ) == Some(issued@),
        r matches Ok(LoginOutcome::TwoFactorAuth(response)) ==> response.message@
            == "2FA required"@ && (old(two_fa_code_store).reliable()
            && old(email_client).reliable() ==> challenge_issued(
            old(two_fa_code_store).challenges(),
            final(two_fa_code_store).challenges(),
            old(email_client).outbox(),
            final(email_client).outbox(),
            request.email@,
            response.login_attempt_id@,
        )),
        r matches Err(e) ==> e == AuthAPIError::InvalidCredentials || e
            == AuthAPIError::IncorrectCredentials || e == AuthAPIError::UnexpectedError,
        r is Err && old(email_client).reliable() ==> *final(email_client) == *old(email_client),
        user_store.reliable() ==> match login_path(
            user_store.users(),
            user_store.accepts(user_store.users()[request.email@], request.password@),
            request.email@,
            request.password@,
        ) {
            LoginPath::Refused(e) => r == Err::<LoginOutcome, AuthAPIError>(e),
            LoginPath::Session => match session_claims_model(request.email@, now) {
                Some(_) => r matches Ok(LoginOutcome::RegularAuth(_)),
                None => r == Err::<LoginOutcome, AuthAPIError>(AuthAPIError::UnexpectedError),
            },
            LoginPath::Challenge => r matches Ok(LoginOutcome::TwoFactorAuth(_)) || (r == Err::<
                LoginOutcome,
                AuthAPIError,
            >(AuthAPIError::UnexpectedError) && !(old(two_fa_code_store).reliable()
                && old(email_client).reliable())),
        },
{
    let email = match Email::parse(request.email) {
        Ok(email) => email,
        Err(_) => {
            return Err(AuthAPIError::InvalidCredentials);
        },
    };
    let password = match Password::parse(request.password) {
        Ok(password) => password,
        Err(_) => {
            return Err(AuthAPIError::InvalidCredentials);
        },
    };
    match login_after_validate_user(user_store.validate_user(&email, &password)) {
        Ok(()) => (),
        Err(e) => {
            return Err(e);
        },
    }
    let requires_2fa = match login_after_get_user(user_store.get_user(&email)) {
        Ok(requires_2fa) => requires_2fa,
        Err(e) => {
            return Err(e);
        },
    };
    if requires_2fa {
        handle_2fa(&email, two_fa_code_store, email_client)
    } else {
        handle_no_2fa(&email, now)
    }
}

} // verus!
