use vstd::prelude::*;
use crate::domain::data_stores::BannedTokenStore;
use crate::domain::data_stores::BannedTokenStoreError;
use crate::domain::error::AuthAPIError;
use crate::utils::auth::check_token_model;
use crate::utils::auth::validate_token;
use crate::utils::auth::validate_token_model;
use crate::utils::auth::ClaimsView;
use crate::utils::auth::PresentedToken;
use crate::utils::auth::TokenReading;

verus! {

/// What logout answers and leaves in a reliable revocation store: a request
/// without a token is refused, an invalid or revoked token is refused, and
/// a valid one is revoked.
pub open spec fn logout_model(
    banned: Set<Seq<char>>,
    token: Option<(Seq<char>, TokenReading)>,
    now: u64,
) -> (Result<(), AuthAPIError>, Set<Seq<char>>) {
    match token {
        None => (Err(AuthAPIError::MissingToken), banned),
        Some((text, reading)) => match validate_token_model(banned, text, reading, now) {
            Err(e) => (Err(e), banned),
            Ok(_) => (Ok(()), banned.insert(text)),
        },
    }
}

/// The text and reading of a presented token, as plain values.
pub open spec fn presented_view(token: Option<PresentedToken>) -> Option<
    (Seq<char>, TokenReading),
> {
    match token {
        Some(presented) => Some((presented.text@, presented.reading)),
        None => None,
    }
}

/// What logout answers once the store was asked to revoke the token:
/// success where it did, an unexpected error where it did not.
pub fn logout_after_store_token(stored: Result<(), BannedTokenStoreError>) -> (r: Result<
    (),
    AuthAPIError,
>)
    ensures
        r == match stored {
            Ok(()) => Ok::<(), AuthAPIError>(()),
            Err(_) => Err::<(), AuthAPIError>(AuthAPIError::UnexpectedError),
        },
{
    match stored {
        Ok(()) => Ok(()),
        Err(_) => Err(AuthAPIError::UnexpectedError),
    }
}

/// Ends a session: validates the presented token and revokes it. On
/// success the caller clears the token from the client.
///
/// Without a token, and with a token that fails its own check, the store is
/// not touched. The store is asked to revoke only a token that validated,
/// and `logout_after_store_token` decides on its answer. With a reliable
/// store the answer and the revoked set are those of `logout_model`.
pub fn logout<B: BannedTokenStore>(
    banned_token_store: &mut B,
    token: Option<PresentedToken>,
    now: u64,
) -> (r: Result<(), AuthAPIError>)
    ensures
        final(banned_token_store).reliable() == old(banned_token_store).reliable(),
        token is None ==> r == Err::<(), AuthAPIError>(AuthAPIError::MissingToken)
            && *final(banned_token_store) == *old(banned_token_store),
        token matches Some(presented) && check_token_model(presented.reading, now) is Err ==> r
            == Err::<(), AuthAPIError>(AuthAPIError::InvalidToken) && *final(banned_token_store)
            == *old(banned_token_store),
        old(banned_token_store).reliable() ==> (r, final(banned_token_store).banned())
            == logout_model(old(banned_token_store).banned(), presented_view(token), now),
        r is Ok ==> (token matches Some(presented) && check_token_model(presented.reading, now)
            is Ok),
        r matches Err(e) ==> e == AuthAPIError::MissingToken || e == AuthAPIError::InvalidToken
            || (e == AuthAPIError::UnexpectedError && !old(banned_token_store).reliable()),
        r matches Err(e) && e != AuthAPIError::UnexpectedError ==> *final(banned_token_store)
            == *old(banned_token_store),
{
    let presented = match token {
        Some(presented) => presented,
        None => {
            return Err(AuthAPIError::MissingToken);
        },
    };
    let text = presented.text.clone();
    match validate_token(presented, now, &*banned_token_store) {
        Ok(_) => (),
        Err(e) => {
            return Err(e);
        },
    }
    logout_after_store_token(banned_token_store.store_token(text))
}

/// After a logout that succeeded, the same token is invalid at any later
/// time, whatever the codec reports of it: verifying it fails, and so does a
/// second logout.
pub proof fn lemma_logged_out_token_is_invalid(
    banned: Set<Seq<char>>,
    token: Seq<char>,
    reading: TokenReading,
    now: u64,
    later_reading: TokenReading,
    later: u64,
)
    requires
        logout_model(banned, Some((token, reading)), now).0 is Ok,
    ensures
        ({
            let after = logout_model(banned, Some((token, reading)), now).1;
            &&& validate_token_model(after, token, later_reading, later) == Err::<
                ClaimsView,
                AuthAPIError,
            >(AuthAPIError::InvalidToken)
            &&& logout_model(after, Some((token, later_reading)), later) == (
                Err::<(), AuthAPIError>(AuthAPIError::InvalidToken),
                after,
            )
        }),
{
}

} // verus!
