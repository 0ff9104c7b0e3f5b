use vstd::prelude::*;
use crate::domain::data_stores::BannedTokenStore;
use crate::domain::data_stores::BannedTokenStoreError;
use crate::domain::email::Email;
use crate::domain::error::AuthAPIError;
use crate::utils::constants::TOKEN_TTL_SECONDS;

verus! {

/// The payload of a session token: the subject's address and the time, in
/// seconds, from which the token is no longer valid.
#[derive(Debug, PartialEq, Eq)]
pub struct Claims {
    pub sub: String,
    pub exp: u64,
}

/// What `Claims` hold, as plain values.
pub struct ClaimsView {
    pub sub: Seq<char>,
    pub exp: u64,
}

impl View for Claims {
    type V = ClaimsView;

    open spec fn view(&self) -> ClaimsView {
        ClaimsView { sub: self.sub@, exp: self.exp }
    }
}

/// What the token codec reports of a token text. The codec checks the
/// structure first and the signature second; it does not look at the clock.
#[derive(Debug, PartialEq, Eq)]
pub enum TokenReading {
    /// The text is not a well-formed token.
    Malformed,
    /// The text is well formed, but its signature does not verify.
    BadSignature,
    /// The text is well formed and signed by this service.
    Signed(Claims),
}

/// Why a token is not accepted.
#[derive(Debug, Clone, Copy, PartialEq, Eq, Structural)]
pub enum TokenError {
    Malformed,
    SignatureInvalid,
    Expired,
}

/// A token as a request presents it: its text, and what the codec reports.
#[derive(Debug, PartialEq, Eq)]
pub struct PresentedToken {
    pub text: String,
    pub reading: TokenReading,
}

/// The claims of a session issued at `now`, where the expiry fits a `u64`.
pub open spec fn session_claims_model(subject: Seq<char>, now: u64) -> Option<ClaimsView> {
    if now + TOKEN_TTL_SECONDS <= u64::MAX {
        Some(ClaimsView { sub: subject, exp: (now + TOKEN_TTL_SECONDS) as u64 })
    } else {
        None
    }
}

/// What checking a token at `now` answers: structure, signature and expiry
/// are judged in that order, and a token is expired from its expiry time on.
pub open spec fn check_token_model(reading: TokenReading, now: u64) -> Result<
    ClaimsView,
    TokenError,
> {
    match reading {
        TokenReading::Malformed => Err(TokenError::Malformed),
        TokenReading::BadSignature => Err(TokenError::SignatureInvalid),
        TokenReading::Signed(claims) => if now < claims.exp {
            Ok(claims@)
        } else {
            Err(TokenError::Expired)
        },
    }
}

/// What validating a token against the revocation store answers: a token
/// that fails its own check, or that is revoked, is invalid.
pub open spec fn validate_token_model(
    banned: Set<Seq<char>>,
    token: Seq<char>,
    reading: TokenReading,
    now: u64,
) -> Result<ClaimsView, AuthAPIError> {
    match check_token_model(reading, now) {
        Err(_) => Err(AuthAPIError::InvalidToken),
        Ok(claims) => if banned.contains(token) {
            Err(AuthAPIError::InvalidToken)
        } else {
            Ok(claims)
        },
    }
}

/// What a claims result holds, as plain values.
pub open spec fn claims_result_view<E>(r: Result<Claims, E>) -> Result<ClaimsView, E> {
    match r {
        Ok(claims) => Ok(claims@),
        Err(e) => Err(e),
    }
}

/// The claims of a session for the address, issued at `now` and valid for
/// `TOKEN_TTL_SECONDS`. A clock so late that the expiry does not fit is an
/// unexpected error.
pub fn generate_claims(email: &Email, now: u64) -> (r: Result<Claims, AuthAPIError>)
    ensures
        claims_result_view(r) == match session_claims_model(email@, now) {
            Some(claims) => Ok::<ClaimsView, AuthAPIError>(claims),
            None => Err::<ClaimsView, AuthAPIError>(AuthAPIError::UnexpectedError),
        },
{
    match now.checked_add(TOKEN_TTL_SECONDS) {
        Some(exp) => Ok(Claims { sub: email.as_ref().to_owned(), exp }),
        None => Err(AuthAPIError::UnexpectedError),
    }
}

/// Judges a token by what the codec reports of it and by the clock.
pub fn check_token(reading: TokenReading, now: u64) -> (r: Result<Claims, TokenError>)
    ensures
        claims_result_view(r) == check_token_model(reading, now),
{
    match reading {
        TokenReading::Malformed => Err(TokenError::Malformed),
        TokenReading::BadSignature => Err(TokenError::SignatureInvalid),
        TokenReading::Signed(claims) => {
            if now < claims.exp {
                Ok(claims)
            } else {
                Err(TokenError::Expired)
            }
        },
    }
}

/// What validation answers once the revocation store was asked about a
/// token that passed its own check: a revoked token is invalid, a token not
/// on record is accepted with its claims, and a store that failed to answer
/// is an unexpected error.
pub fn validate_after_lookup(claims: Claims, banned: Result<bool, BannedTokenStoreError>) -> (r:
    Result<Claims, AuthAPIError>)
    ensures
        r == match banned {
            Ok(true) => Err::<Claims, AuthAPIError>(AuthAPIError::InvalidToken),
            Ok(false) => Ok::<Claims, AuthAPIError>(claims),
            Err(_) => Err::<Claims, AuthAPIError>(AuthAPIError::UnexpectedError),
        },
{
    match banned {
        Ok(true) => Err(AuthAPIError::InvalidToken),
        Ok(false) => Ok(claims),
        Err(_) => Err(AuthAPIError::UnexpectedError),
    }
}

/// Validates a presented token: its own check first, the revocation store
/// second. The store is asked only about a token that passed its own check,
/// and `validate_after_lookup` decides on its answer.
pub fn validate_token<B: BannedTokenStore>(token: PresentedToken, now: u64, banned_token_store: &B)
    -> (r: Result<Claims, AuthAPIError>)
    ensures
        check_token_model(token.reading, now) is Err ==> r == Err::<Claims, AuthAPIError>(
            AuthAPIError::InvalidToken,
        ),
        banned_token_store.reliable() ==> claims_result_view(r) == validate_token_model(
            banned_token_store.banned(),
            token.text@,
            token.reading,
            now,
        ),
        r matches Ok(claims) ==> check_token_model(token.reading, now) == Ok::<
            ClaimsView,
            TokenError,
        >(claims@),
        r matches Err(e) ==> e == AuthAPIError::InvalidToken || (e == AuthAPIError::UnexpectedError
            && !banned_token_store.reliable()),
{
    let claims = match check_token(token.reading, now) {
        Ok(claims) => claims,
        Err(_) => {
            return Err(AuthAPIError::InvalidToken);
        },
    };
    validate_after_lookup(claims, banned_token_store.is_token_banned(&token.text))
}

/// A signed token that is neither expired nor revoked validates, and gives
/// back its claims.
pub proof fn lemma_live_token_validates(
    banned: Set<Seq<char>>,
    token: Seq<char>,
    claims: Claims,
    now: u64,
)
    requires
        now < claims.exp,
        !banned.contains(token),
    ensures
        validate_token_model(banned, token, TokenReading::Signed(claims), now) == Ok::<
            ClaimsView,
            AuthAPIError,
        >(claims@),
{
}

/// An expired token fails validation whether or not it is revoked.
pub proof fn lemma_expired_token_is_invalid(
    banned: Set<Seq<char>>,
    token: Seq<char>,
    claims: Claims,
    now: u64,
)
    requires
        now >= claims.exp,
    ensures
        check_token_model(TokenReading::Signed(claims), now) == Err::<ClaimsView, TokenError>(
            TokenError::Expired,
        ),
        validate_token_model(banned, token, TokenReading::Signed(claims), now) == Err::<
            ClaimsView,
            AuthAPIError,
        >(AuthAPIError::InvalidToken),
{
}

/// A revoked token fails validation whatever the codec and the clock say.
pub proof fn lemma_revoked_token_is_invalid(
    banned: Set<Seq<char>>,
    token: Seq<char>,
    reading: TokenReading,
    now: u64,
)
    requires
        banned.contains(token),
    ensures
        validate_token_model(banned, token, reading, now) == Err::<ClaimsView, AuthAPIError>(
            AuthAPIError::InvalidToken,
        ),
{
}

/// A session issued at `now` is valid from then until `TOKEN_TTL_SECONDS`
/// later, and not from then on.
pub proof fn lemma_session_lifetime(subject: Seq<char>, issued_at: u64, claims: Claims, now: u64)
    requires
        session_claims_model(subject, issued_at) == Some(claims@),
    ensures
        check_token_model(TokenReading::Signed(claims), now) is Ok <==> now < issued_at
            + TOKEN_TTL_SECONDS,
{
}

} // verus!
