use vstd::prelude::*;
use vstd::string::StringExecFns;
use crate::domain::data_stores::BannedTokenStoreError;
use crate::utils::constants::TOKEN_TTL_SECONDS;

verus! {

/// The prefix of every key under which a revoked token is filed.
pub const BANNED_TOKEN_KEY_PREFIX: &'static str = "banned_token:";

/// What a key-value backend is asked to write when a token is revoked: a
/// marker under `key` that lapses after `ttl_seconds`.
#[derive(Debug, PartialEq, Eq)]
pub struct BannedTokenRecord {
    pub key: String,
    pub marker: bool,
    pub ttl_seconds: u64,
}

/// The key under which the token is filed: the prefix, then the token.
pub fn get_key(token: &str) -> (key: String)
    ensures
        key@ == BANNED_TOKEN_KEY_PREFIX@ + token@,
{
    String::from_str(BANNED_TOKEN_KEY_PREFIX).concat(token)
}

/// The record that revokes the token. It is kept for the whole life of a
/// session token, which is never less than what is left of this one.
pub fn banned_token_record(token: &str) -> (record: BannedTokenRecord)
    ensures
        record.key@ == BANNED_TOKEN_KEY_PREFIX@ + token@,
        record.marker,
        record.ttl_seconds == TOKEN_TTL_SECONDS,
{
    BannedTokenRecord { key: get_key(token), marker: true, ttl_seconds: TOKEN_TTL_SECONDS }
}

/// What `is_token_banned` answers for the outcome of asking the backend
/// whether it holds the key, `None` standing for a backend that failed.
pub fn is_token_banned_outcome(found: Option<bool>) -> (r: Result<bool, BannedTokenStoreError>)
    ensures
        match found {
            Some(banned) => r == Ok::<bool, BannedTokenStoreError>(banned),
            None => r == Err::<bool, BannedTokenStoreError>(BannedTokenStoreError::UnexpectedError),
        },
{
    match found {
        Some(banned) => Ok(banned),
        None => Err(BannedTokenStoreError::UnexpectedError),
    }
}

/// What `store_token` does once it knows whether the token is on record: a
/// token that is already revoked is a conflict and nothing is written, a
/// lookup that failed is passed on, and otherwise this record is written.
pub fn store_token_decision(token: &str, banned: Result<bool, BannedTokenStoreError>) -> (r:
    Result<BannedTokenRecord, BannedTokenStoreError>)
    ensures
        match banned {
            Ok(true) => r == Err::<BannedTokenRecord, BannedTokenStoreError>(
                BannedTokenStoreError::TokenAlreadyExists,
            ),
            Ok(false) => r matches Ok(record) && record.key@ == BANNED_TOKEN_KEY_PREFIX@ + token@
                && record.marker && record.ttl_seconds == TOKEN_TTL_SECONDS,
            Err(e) => r == Err::<BannedTokenRecord, BannedTokenStoreError>(e),
        },
{
    match banned {
        Ok(true) => Err(BannedTokenStoreError::TokenAlreadyExists),
        Ok(false) => Ok(banned_token_record(token)),
        Err(e) => Err(e),
    }
}

/// What `store_token` answers once the backend was asked to write the
/// record: a backend that failed is unexpected.
pub fn store_token_outcome(written: bool) -> (r: Result<(), BannedTokenStoreError>)
    ensures
        r == if written {
            Ok::<(), BannedTokenStoreError>(())
        } else {
            Err::<(), BannedTokenStoreError>(BannedTokenStoreError::UnexpectedError)
        },
{
    if written {
        Ok(())
    } else {
        Err(BannedTokenStoreError::UnexpectedError)
    }
}

} // verus!
