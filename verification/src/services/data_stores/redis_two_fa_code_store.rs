use vstd::prelude::*;
use vstd::string::StringExecFns;
use crate::domain::data_stores::is_two_fa_code;
use crate::domain::data_stores::uuid_canonical;
use crate::domain::data_stores::LoginAttemptId;
use crate::domain::data_stores::TwoFACode;
use crate::domain::data_stores::TwoFACodeStoreError;
use crate::domain::email::Email;
use crate::utils::constants::TEN_MINUTES_IN_SECONDS;

verus! {

/// The prefix of every key under which a challenge is filed.
pub const TWO_FA_CODE_PREFIX: &'static str = "two_fa_code:";

/// The JSON text that `serde_json::to_string` writes for a pair of strings.
pub uninterp spec fn json_pair_text(first: Seq<char>, second: Seq<char>) -> Seq<char>;

/// The pair of strings that `serde_json::from_str` reads from the text, or
/// `None` where it reads none.
pub uninterp spec fn json_pair_read(text: Seq<char>) -> Option<(Seq<char>, Seq<char>)>;

/// The error of `serde_json`.
#[verifier::external_type_specification]
#[verifier::external_body]
pub struct ExJsonError(serde_json::Error);

/// Calls `serde_json::to_string` on a pair of strings, which it writes as a
/// JSON array of two string literals.
///
/// The text is named `json_pair_text`. Beyond the name, the contract claims
/// that the call succeeds (the writer fills a buffer in memory, and writing
/// a string or a tuple has no failing path), and that
/// `serde_json::from_str` reads the text back as the same two strings: the
/// writer escapes what a JSON string literal must escape, and the reader
/// undoes exactly that.
#[verifier::external_body]
fn write_json_pair(first: &str, second: &str) -> (r: Result<String, serde_json::Error>)
    ensures
        r is Ok,
        r matches Ok(text) ==> text@ == json_pair_text(first@, second@) && json_pair_read(text@)
            == Some((first@, second@)),
{
    serde_json::to_string(&(first, second))
}

/// Calls `serde_json::from_str` for a pair of strings. The outcome is named
/// `json_pair_read`.
#[verifier::external_body]
fn read_json_pair(text: &str) -> (r: Result<(String, String), serde_json::Error>)
    ensures
        match r {
            Ok(pair) => json_pair_read(text@) == Some((pair.0@, pair.1@)),
            Err(_) => json_pair_read(text@) is None,
        },
{
    serde_json::from_str::<(String, String)>(text)
}

/// What a key-value backend is asked to write for a challenge: `value`
/// under `key`, to lapse after `ttl_seconds`.
#[derive(Debug, PartialEq, Eq)]
pub struct ChallengeRecord {
    pub key: String,
    pub value: String,
    pub ttl_seconds: u64,
}

/// The key under which the challenge of the address is filed: the prefix,
/// then the address.
pub fn get_key(email: &Email) -> (key: String)
    ensures
        key@ == TWO_FA_CODE_PREFIX@ + email@,
{
    String::from_str(TWO_FA_CODE_PREFIX).concat(email.as_ref())
}

/// The record for a new challenge: the pair of identifier and code as JSON,
/// filed under the key of the address for ten minutes. A record comes back
/// for every challenge, and `read_challenge` reads its value as the same
/// challenge.
pub fn challenge_record(email: &Email, login_attempt_id: &LoginAttemptId, code: &TwoFACode) -> (r:
    Result<ChallengeRecord, TwoFACodeStoreError>)
    ensures
        r is Ok,
        r matches Ok(record) ==> record.key@ == TWO_FA_CODE_PREFIX@ + email@ && record.value@
            == json_pair_text(login_attempt_id@, code@) && record.ttl_seconds
            == TEN_MINUTES_IN_SECONDS && json_pair_read(record.value@) == Some(
            (login_attempt_id@, code@),
        ),
{
    match write_json_pair(login_attempt_id.as_ref(), code.as_ref()) {
        Ok(value) => Ok(
            ChallengeRecord { key: get_key(email), value, ttl_seconds: TEN_MINUTES_IN_SECONDS },
        ),
        Err(_) => Err(TwoFACodeStoreError::UnexpectedError),
    }
}

/// The challenge that a pair of strings stands for: the first must read as a
/// UUID and the second must be six digits, else the stored value is
/// unexpected.
pub fn challenge_from_pair(login_attempt_id: String, code: String) -> (r: Result<
    (LoginAttemptId, TwoFACode),
    TwoFACodeStoreError,
>)
    ensures
        match r {
            Ok((id, two_fa_code)) => uuid_canonical(login_attempt_id@) == Some(id@)
                && is_two_fa_code(code@) && two_fa_code@ == code@,
            Err(e) => e == TwoFACodeStoreError::UnexpectedError && (uuid_canonical(
                login_attempt_id@,
            ) is None || !is_two_fa_code(code@)),
        },
{
    let id = match LoginAttemptId::parse(login_attempt_id) {
        Ok(id) => id,
        Err(_) => {
            return Err(TwoFACodeStoreError::UnexpectedError);
        },
    };
    let two_fa_code = match TwoFACode::parse(code) {
        Ok(two_fa_code) => two_fa_code,
        Err(_) => {
            return Err(TwoFACodeStoreError::UnexpectedError);
        },
    };
    Ok((id, two_fa_code))
}

/// How reading the value under a challenge key ended.
#[derive(Debug, PartialEq, Eq)]
pub enum StoredChallenge {
    /// The backend holds this value under the key.
    Value(String),
    /// The backend holds nothing under the key.
    Absent,
    /// The backend could not be read.
    ReadFailed,
}

/// What `get_code` answers for the outcome of the read: no value means that
/// no challenge is live; a read that failed, and a value that is not a JSON
/// pair of a UUID and six digits, are unexpected.
pub fn read_challenge(stored: StoredChallenge) -> (r: Result<
    (LoginAttemptId, TwoFACode),
    TwoFACodeStoreError,
>)
    ensures
        match stored {
            StoredChallenge::Absent => r == Err::<(LoginAttemptId, TwoFACode), TwoFACodeStoreError>(
                TwoFACodeStoreError::LoginAttemptIdNotFound,
            ),
            StoredChallenge::ReadFailed => r == Err::<
                (LoginAttemptId, TwoFACode),
                TwoFACodeStoreError,
            >(TwoFACodeStoreError::UnexpectedError),
            StoredChallenge::Value(value) => match json_pair_read(value@) {
                Some((first, second)) => match r {
                    Ok((id, code)) => uuid_canonical(first) == Some(id@) && is_two_fa_code(second)
                        && code@ == second,
                    Err(e) => e == TwoFACodeStoreError::UnexpectedError && (uuid_canonical(first)
                        is None || !is_two_fa_code(second)),
                },
                None => r == Err::<(LoginAttemptId, TwoFACode), TwoFACodeStoreError>(
                    TwoFACodeStoreError::UnexpectedError,
                ),
            },
        },
{
    match stored {
        StoredChallenge::Absent => Err(TwoFACodeStoreError::LoginAttemptIdNotFound),
        StoredChallenge::ReadFailed => Err(TwoFACodeStoreError::UnexpectedError),
        StoredChallenge::Value(value) => match read_json_pair(value.as_str()) {
            Ok(pair) => challenge_from_pair(pair.0, pair.1),
            Err(_) => Err(TwoFACodeStoreError::UnexpectedError),
        },
    }
}

/// What `add_code` and `remove_code` answer once the backend was asked to
/// write or delete: a backend that failed is unexpected.
pub fn write_outcome(done: bool) -> (r: Result<(), TwoFACodeStoreError>)
    ensures
        r == if done {
            Ok::<(), TwoFACodeStoreError>(())
        } else {
            Err::<(), TwoFACodeStoreError>(TwoFACodeStoreError::UnexpectedError)
        },
{
    if done {
        Ok(())
    } else {
        Err(TwoFACodeStoreError::UnexpectedError)
    }
}

} // verus!
