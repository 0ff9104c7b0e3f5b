use vstd::prelude::*;
use crate::domain::data_stores::BannedTokenStore;
use crate::domain::error::AuthAPIError;
use crate::utils::auth::check_token_model;
use crate::utils::auth::validate_token;
use crate::utils::auth::validate_token_model;
use crate::utils::auth::Claims;
use crate::utils::auth::PresentedToken;
use crate::utils::auth::TokenReading;

verus! {

/// What another service sends to have a token checked.
#[derive(Debug, PartialEq, Eq)]
pub struct VerifytokenRequest {
    pub token: String,
}

/// What it is told where the token is valid.
#[derive(Debug, PartialEq, Eq)]
pub struct VerifytokenResponse {
    pub valid: bool,
}

/// What the check answers once the token was validated: a token that
/// validated is reported as valid, and a failure is passed on as it is.
pub fn verify_token_after_validate(validated: Result<Claims, AuthAPIError>) -> (r: Result<
    VerifytokenResponse,
    AuthAPIError,
>)
    ensures
        r == match validated {
            Ok(_) => Ok::<VerifytokenResponse, AuthAPIError>(VerifytokenResponse { valid: true }),
            Err(e) => Err::<VerifytokenResponse, AuthAPIError>(e),
        },
{
    match validated {
        Ok(_) => Ok(VerifytokenResponse { valid: true }),
        Err(e) => Err(e),
    }
}

/// Checks a token out of band: it must be well formed, signed, unexpired
/// and not revoked. `reading` is what the codec reports of the token text in
/// the request. A token that fails its own check is invalid whatever the
/// revocation store would say.
pub fn verify_token<B: BannedTokenStore>(
    banned_token_store: &B,
    request: VerifytokenRequest,
    reading: TokenReading,
    now: u64,
) -> (r: Result<VerifytokenResponse, AuthAPIError>)
    ensures
        check_token_model(reading, now) is Err ==> r == Err::<VerifytokenResponse, AuthAPIError>(
            AuthAPIError::InvalidToken,
        ),
        banned_token_store.reliable() ==> r == if validate_token_model(
            banned_token_store.banned(),
            request.token@,
            reading,
            now,
        ) is Ok {
            Ok::<VerifytokenResponse, AuthAPIError>(VerifytokenResponse { valid: true })
        } else {
            Err::<VerifytokenResponse, AuthAPIError>(AuthAPIError::InvalidToken)
        },
        r matches Ok(response) ==> response.valid && check_token_model(reading, now) is Ok,
        r matches Err(e) ==> e == AuthAPIError::InvalidToken || (e == AuthAPIError::UnexpectedError
            && !banned_token_store.reliable()),
{
    let presented = PresentedToken { text: request.token, reading };
    verify_token_after_validate(validate_token(presented, now, banned_token_store))
}

} // verus!
