use vstd::prelude::*;
use crate::domain::data_stores::get_code_model;
use crate::domain::data_stores::is_two_fa_code;
use crate::domain::data_stores::uuid_canonical;
use crate::domain::data_stores::LoginAttemptId;
use crate::domain::data_stores::TwoFACode;
use crate::domain::data_stores::TwoFACodeStore;
use crate::domain::data_stores::TwoFACodeStoreError;
use crate::domain::email::valid_email_syntax;
use crate::domain::email::Email;
use crate::domain::error::AuthAPIError;
use crate::utils::auth::claims_result_view;
use crate::utils::auth::generate_claims;
use crate::utils::auth::session_claims_model;
use crate::utils::auth::Claims;
use crate::utils::auth::ClaimsView;

verus! {

/// What a client sends to pass the second factor.
#[derive(Debug, PartialEq, Eq)]
pub struct Verify2FARequest {
    pub email: String,
    pub login_attempt_id: String,
    pub two_fa_code: String,
}

/// Whether the three inputs of a verification parse.
pub open spec fn verify_2fa_input_valid(
    email: Seq<char>,
    login_attempt_id: Seq<char>,
    code: Seq<char>,
) -> bool {
    valid_email_syntax(email) && uuid_canonical(login_attempt_id) is Some && is_two_fa_code(code)
}

/// Whether the presented pair is exactly the live challenge of the address.
/// The identifier is compared in its hyphenated lower-case form.
pub open spec fn challenge_matches(
    challenges: Map<Seq<char>, (Seq<char>, Seq<char>)>,
    email: Seq<char>,
    login_attempt_id: Seq<char>,
    code: Seq<char>,
) -> bool {
    uuid_canonical(login_attempt_id) matches Some(id) && get_code_model(challenges, email) == Ok::<
        (Seq<char>, Seq<char>),
        TwoFACodeStoreError,
    >((id, code))
}

/// What a verification answers and leaves in a reliable challenge store.
///
/// Input that does not parse is invalid. A pair that is not exactly the
/// live challenge is refused and the challenge stays. A pair that matches
/// consumes the challenge, whether or not the session can then be issued.
pub open spec fn verify_2fa_model(
    challenges: Map<Seq<char>, (Seq<char>, Seq<char>)>,
    email: Seq<char>,
    login_attempt_id: Seq<char>,
    code: Seq<char>,
    now: u64,
) -> (Result<ClaimsView, AuthAPIError>, Map<Seq<char>, (Seq<char>, Seq<char>)>) {
    if !verify_2fa_input_valid(email, login_attempt_id, code) {
        (Err(AuthAPIError::InvalidCredentials), challenges)
    } else if !challenge_matches(challenges, email, login_attempt_id, code) {
        (Err(AuthAPIError::IncorrectCredentials), challenges)
    } else {
        (
            match session_claims_model(email, now) {
                Some(claims) => Ok(claims),
                None => Err(AuthAPIError::UnexpectedError),
            },
            challenges.remove(email),
        )
    }
}

/// What a verification does once the store was asked for the challenge of
/// the address: a store that failed is an unexpected error; no challenge,
/// or one whose identifier or code differs from the presented pair, is
/// incorrect credentials; on a full match the challenge is removed next.
pub fn verify_2fa_after_get_code(
    fetched: Result<(LoginAttemptId, TwoFACode), TwoFACodeStoreError>,
    login_attempt_id: &LoginAttemptId,
    two_fa_code: &TwoFACode,
) -> (r: Result<(), AuthAPIError>)
    ensures
        r == match fetched {
            Ok((id, code)) => if id@ == login_attempt_id@ && code@ == two_fa_code@ {
                Ok::<(), AuthAPIError>(())
            } else {
                Err::<(), AuthAPIError>(AuthAPIError::IncorrectCredentials)
            },
            Err(TwoFACodeStoreError::LoginAttemptIdNotFound) => Err::<(), AuthAPIError>(
                AuthAPIError::IncorrectCredentials,
            ),
            Err(TwoFACodeStoreError::UnexpectedError) => Err::<(), AuthAPIError>(
                AuthAPIError::UnexpectedError,
            ),
        },
{
    match fetched {
        Ok(code_tuple) => {
            if code_tuple.0.same_as(login_attempt_id) && code_tuple.1.same_as(two_fa_code) {
                Ok(())
            } else {
                Err(AuthAPIError::IncorrectCredentials)
            }
        },
        Err(TwoFACodeStoreError::LoginAttemptIdNotFound) => Err(AuthAPIError::IncorrectCredentials),
        Err(TwoFACodeStoreError::UnexpectedError) => Err(AuthAPIError::UnexpectedError),
    }
}

/// What a verification answers once the store was asked to remove the
/// challenge: where it was removed, the session for the address; where the
/// store failed, an unexpected error and no session.
pub fn verify_2fa_after_remove_code(
    removed: Result<(), TwoFACodeStoreError>,
    email: &Email,
    now: u64,
) -> (r: Result<Claims, AuthAPIError>)
    ensures
        claims_result_view(r) == match removed {
            Ok(()) => match session_claims_model(email@, now) {
                Some(claims) => Ok::<ClaimsView, AuthAPIError>(claims),
                None => Err::<ClaimsView, AuthAPIError>(AuthAPIError::UnexpectedError),
            },
            Err(_) => Err::<ClaimsView, AuthAPIError>(AuthAPIError::UnexpectedError),
        },
{
    match removed {
        Ok(()) => generate_claims(email, now),
        Err(_) => Err(AuthAPIError::UnexpectedError),
    }
}

/// Verifies a second factor and, on a full match, issues a session.
///
/// The store is asked for the challenge, and `verify_2fa_after_get_code`
/// decides on its answer; on a full match the store is asked to remove the
/// challenge, and `verify_2fa_after_remove_code` decides on that answer. So
/// the challenge is removed before the session is issued, and it cannot be
/// used twice even where issuing fails. The claims that come back are for
/// the caller to sign into the session cookie.
pub fn verify_2fa<C: TwoFACodeStore>(
    two_fa_code_store: &mut C,
    request: Verify2FARequest,
    now: u64,
) -> (r: Result<Claims, AuthAPIError>)
    ensures
        final(two_fa_code_store).reliable() == old(two_fa_code_store).reliable(),
        !verify_2fa_input_valid(request.email@, request.login_attempt_id@, request.two_fa_code@)
            ==> r == Err::<Claims, AuthAPIError>(AuthAPIError::InvalidCredentials)
            && *final(two_fa_code_store) == *old(two_fa_code_store),
        old(two_fa_code_store).reliable() ==> (
            claims_result_view(r),
            final(two_fa_code_store).challenges(),
        ) == verify_2fa_model(
            old(two_fa_code_store).challenges(),
            request.email@,
            request.login_attempt_id@,
            request.two_fa_code@,
            now,
        ),
        r matches Ok(claims) ==> session_claims_model(request.email@, now) == Some(claims@),
        r matches Err(e) ==> e == AuthAPIError::InvalidCredentials || e
            == AuthAPIError::IncorrectCredentials || e == AuthAPIError::UnexpectedError,
        r matches Err(e) && e != AuthAPIError::UnexpectedError ==> *final(two_fa_code_store)
            == *old(two_fa_code_store),
{
    let email = match Email::parse(request.email) {
        Ok(email) => email,
        Err(_) => {
            return Err(AuthAPIError::InvalidCredentials);
        },
    };
    let login_attempt_id = match LoginAttemptId::parse(request.login_attempt_id) {
        Ok(id) => id,
        Err(_) => {
            return Err(AuthAPIError::InvalidCredentials);
        },
    };
    let two_fa_code = match TwoFACode::parse(request.two_fa_code) {
        Ok(code) => code,
        Err(_) => {
            return Err(AuthAPIError::InvalidCredentials);
        },
    };
    let fetched = two_fa_code_store.get_code(&email);
    match verify_2fa_after_get_code(fetched, &login_attempt_id, &two_fa_code) {
        Ok(()) => (),
        Err(e) => {
            return Err(e);
        },
    }
    verify_2fa_after_remove_code(two_fa_code_store.remove_code(&email), &email, now)
}

/// A challenge is single-use: once a verification has matched, the same
/// pair is refused with `IncorrectCredentials` at any later time, and the
/// store is left as the first verification left it.
pub proof fn lemma_challenge_is_single_use(
    challenges: Map<Seq<char>, (Seq<char>, Seq<char>)>,
    email: Seq<char>,
    login_attempt_id: Seq<char>,
    code: Seq<char>,
    now: u64,
    later: u64,
)
    requires
        verify_2fa_input_valid(email, login_attempt_id, code),
        challenge_matches(challenges, email, login_attempt_id, code),
    ensures
        ({
            let first = verify_2fa_model(challenges, email, login_attempt_id, code, now);
            let second = verify_2fa_model(first.1, email, login_attempt_id, code, later);
            &&& session_claims_model(email, now) is Some ==> first.0 is Ok
            &&& !first.1.contains_key(email)
            &&& second == (
                Err::<ClaimsView, AuthAPIError>(AuthAPIError::IncorrectCredentials),
                first.1,
            )
        }),
{
}

/// A wrong pair is refused and leaves the challenge in place, so that the
/// right pair still passes afterwards.
pub proof fn lemma_wrong_code_keeps_challenge(
    challenges: Map<Seq<char>, (Seq<char>, Seq<char>)>,
    email: Seq<char>,
    login_attempt_id: Seq<char>,
    wrong_code: Seq<char>,
    now: u64,
)
    requires
        verify_2fa_input_valid(email, login_attempt_id, wrong_code),
        !challenge_matches(challenges, email, login_attempt_id, wrong_code),
    ensures
        verify_2fa_model(challenges, email, login_attempt_id, wrong_code, now) == (
            Err::<ClaimsView, AuthAPIError>(AuthAPIError::IncorrectCredentials),
            challenges,
        ),
{
}

} // verus!
