use vstd::prelude::*;
use argon2::password_hash::SaltString;
use argon2::Algorithm;
use argon2::Argon2;
use argon2::Params;
use argon2::PasswordHash;
use argon2::PasswordHasher;
use argon2::PasswordVerifier;
use argon2::Version;
use crate::domain::data_stores::UserStoreError;
use crate::domain::email::valid_email_syntax;
use crate::domain::email::Email;
use crate::domain::password::Password;
use crate::domain::password::MIN_PASSWORD_LENGTH;
use crate::domain::user::User;

verus! {

/// Memory cost of the credential hash, in blocks of 1 KiB.
pub const HASH_MEMORY_KIB: u32 = 15000;

/// Number of passes of the credential hash.
pub const HASH_ITERATIONS: u32 = 2;

/// Degree of parallelism of the credential hash.
pub const HASH_PARALLELISM: u32 = 1;

/// The SQLSTATE code with which the database reports a violated unique
/// constraint.
pub const UNIQUE_VIOLATION: &'static str = "23505";

/// The greatest degree of parallelism that Argon2 admits.
pub const MAX_PARALLELISM: u32 = 0xFF_FFFF;

/// The greatest length of a password, in bytes, that Argon2 hashes.
pub const MAX_PASSWORD_BYTES: u64 = 0xFFFF_FFFF;

/// The name under which a PHC string holds the algorithm of this library.
pub const HASH_ALGORITHM: &'static str = "argon2id";

/// The version of the algorithm, as a PHC string holds it.
pub const HASH_VERSION: u32 = 19;

/// Whether `argon2`'s `verify_password` accepts the candidate for the hash
/// text: the text parses as a PHC string, and hashing the candidate with the
/// parameters and salt named in it gives the output named in it.
pub uninterp spec fn argon2_accepts(hash: Seq<char>, candidate: Seq<char>) -> bool;

/// What `PasswordHash::new` reads at the head of a hash text, or `None`
/// where the text is no PHC string: the name of the algorithm, the version
/// where there is one, and the parameters in their order, each with its
/// name and with its value where that value is a decimal number.
pub uninterp spec fn phc_header(hash: Seq<char>) -> Option<
    (Seq<char>, Option<u32>, Seq<(Seq<char>, Option<u32>)>),
>;

/// The error of the `password-hash` crate, which `argon2` reports.
#[verifier::external_type_specification]
#[verifier::external_body]
pub struct ExPasswordHashError(argon2::password_hash::Error);

/// The head of a PHC string as plain values.
#[derive(Debug, PartialEq, Eq)]
pub struct PhcHeader {
    pub algorithm: String,
    pub version: Option<u32>,
    pub params: Vec<(String, Option<u32>)>,
}

/// The parameters of a header as plain values.
pub open spec fn params_view(params: Seq<(String, Option<u32>)>) -> Seq<(Seq<char>, Option<u32>)> {
    Seq::new(params.len(), |i: int| (params[i].0@, params[i].1))
}

impl View for PhcHeader {
    type V = (Seq<char>, Option<u32>, Seq<(Seq<char>, Option<u32>)>);

    open spec fn view(&self) -> Self::V {
        (self.algorithm@, self.version, params_view(self.params@))
    }
}

/// Whether the cost parameters are ones that Argon2 admits: at least eight
/// blocks of memory for each lane, at least one pass, and between one lane
/// and `MAX_PARALLELISM`.
pub open spec fn valid_cost(memory_kib: u32, iterations: u32, parallelism: u32) -> bool {
    &&& 1 <= parallelism <= MAX_PARALLELISM
    &&& memory_kib >= 8 * parallelism
    &&& iterations >= 1
}

/// The parameters that a hash made with these costs names, in their order.
pub open spec fn cost_params(memory_kib: u32, iterations: u32, parallelism: u32) -> Seq<
    (Seq<char>, Option<u32>),
> {
    seq![("m"@, Some(memory_kib)), ("t"@, Some(iterations)), ("p"@, Some(parallelism))]
}

/// Whether the degree of parallelism that the parameters name is one that
/// verification can be asked about. The last parameter named `p` counts; it
/// is in range where its value is no number (which verification refuses by
/// itself) or a number up to `MAX_PARALLELISM`. Parameters that name none
/// are in range.
pub open spec fn parallelism_in_range(params: Seq<(Seq<char>, Option<u32>)>) -> bool
    decreases params.len(),
{
    if params.len() == 0 {
        true
    } else if params.last().0 == "p"@ {
        match params.last().1 {
            Some(parallelism) => parallelism <= MAX_PARALLELISM,
            None => true,
        }
    } else {
        parallelism_in_range(params.drop_last())
    }
}

/// Whether the stored hash accepts the candidate: the hash text is a PHC
/// string whose degree of parallelism is in range, and Argon2 accepts the
/// candidate for it.
pub open spec fn hash_accepts(hash: Seq<char>, candidate: Seq<char>) -> bool {
    match phc_header(hash) {
        Some(header) => parallelism_in_range(header.2) && argon2_accepts(hash, candidate),
        None => false,
    }
}

/// The length of the text in bytes, as UTF-8.
pub open spec fn utf8_len(text: Seq<char>) -> nat {
    vstd::utf8::encode_utf8(text).len()
}

/// Calls `SaltString::generate`, `Params::new`, `Argon2::new` and
/// `PasswordHasher::hash_password`, and renders the hash as a PHC string.
///
/// `Params::new` multiplies the parallelism by eight before it checks its
/// range, so the precondition keeps the product within `u32`. The contract
/// claims that the call succeeds on cost parameters that `Params::new`
/// admits and a password of at most `MAX_PASSWORD_BYTES` bytes: the salt has
/// the recommended length and the output the default one, so no other check
/// of the hasher can fail.
///
/// The salt is random, so of the hash the contract claims only what holds
/// whatever the salt: verification recomputes the hash from the parameters
/// and the salt that the PHC string names, so it accepts the password that
/// was hashed; and the string names the algorithm `argon2id`, version 19 and
/// the three cost parameters `m`, `t` and `p` it was made with, in that
/// order and nothing else.
#[verifier::external_body]
fn argon2id_hash(password: &str, memory_kib: u32, iterations: u32, parallelism: u32) -> (r: Result<
    String,
    argon2::password_hash::Error,
>)
    requires
        parallelism <= MAX_PARALLELISM,
    ensures
        valid_cost(memory_kib, iterations, parallelism) && utf8_len(password@)
            <= MAX_PASSWORD_BYTES ==> r is Ok,
        r matches Ok(hash) ==> argon2_accepts(hash@, password@) && phc_header(hash@) == Some(
            (HASH_ALGORITHM@, Some(HASH_VERSION), cost_params(memory_kib, iterations, parallelism)),
        ),
{
    let salt = SaltString::generate(&mut rand::thread_rng());
    let params = Params::new(memory_kib, iterations, parallelism, None)?;
    let hasher = Argon2::new(Algorithm::Argon2id, Version::V0x13, params);
    Ok(hasher.hash_password(password.as_bytes(), &salt)?.to_string())
}

/// Calls `PasswordHash::new` and hands out what it read at the head of the
/// text: the algorithm's name, the version, and for each parameter its name
/// and what `Value::decimal` makes of its value. The outcome is named
/// `phc_header`.
#[verifier::external_body]
fn read_phc_header(hash: &str) -> (r: Option<PhcHeader>)
    ensures
        match r {
            Some(header) => phc_header(hash@) == Some(header@),
            None => phc_header(hash@) is None,
        },
{
    match PasswordHash::new(hash) {
        Ok(parsed) => Some(
            PhcHeader {
                algorithm: parsed.algorithm.as_str().to_owned(),
                version: parsed.version,
                params: parsed.params.iter().map(
                    |(name, value)| (name.as_str().to_owned(), value.decimal().ok()),
                ).collect(),
            },
        ),
        Err(_) => None,
    }
}

/// Calls `PasswordHash::new` on the hash text and
/// `PasswordVerifier::verify_password` of the default `Argon2` on the
/// candidate. The outcome is named `argon2_accepts`.
///
/// Verification rebuilds the cost parameters from the hash text and
/// multiplies the parallelism by eight before it checks its range, so the
/// precondition asks that the parallelism named in the text be in range.
#[verifier::external_body]
fn argon2_verify(expected_hash: &str, candidate: &str) -> (r: Result<
    (),
    argon2::password_hash::Error,
>)
    requires
        phc_header(expected_hash@) matches Some(header) ==> parallelism_in_range(header.2),
    ensures
        (r is Ok) == argon2_accepts(expected_hash@, candidate@),
{
    let parsed = PasswordHash::new(expected_hash)?;
    Argon2::default().verify_password(candidate.as_bytes(), &parsed)
}

/// Decides `parallelism_in_range` for the parameters read from a hash text.
pub fn parallelism_fits(params: &Vec<(String, Option<u32>)>) -> (fits: bool)
    ensures
        fits == parallelism_in_range(params_view(params@)),
{
    let mut fits = true;
    let mut i: usize = 0;
    proof {
        assert(params_view(params@).take(0) =~= Seq::<(Seq<char>, Option<u32>)>::empty());
    }
    while i < params.len()
        invariant
            i <= params.len(),
            fits == parallelism_in_range(params_view(params@).take(i as int)),
        decreases params.len() - i,
    {
        proof {
            let next = params_view(params@).take(i + 1);
            assert(next.drop_last() =~= params_view(params@).take(i as int));
            assert(next.last() == (params@[i as int].0@, params@[i as int].1));
        }
        if params[i].0 == "p".to_owned() {
            fits = match params[i].1 {
                Some(parallelism) => parallelism <= MAX_PARALLELISM,
                None => true,
            };
        }
        i = i + 1;
    }
    proof {
        assert(params_view(params@).take(i as int) =~= params_view(params@));
    }
    fits
}

/// The cost parameters of this library are ones that Argon2 admits, and a
/// hash made with them names a degree of parallelism that is in range.
pub proof fn lemma_reference_cost_is_valid()
    ensures
        valid_cost(HASH_MEMORY_KIB, HASH_ITERATIONS, HASH_PARALLELISM),
        parallelism_in_range(cost_params(HASH_MEMORY_KIB, HASH_ITERATIONS, HASH_PARALLELISM)),
{
    let params = cost_params(HASH_MEMORY_KIB, HASH_ITERATIONS, HASH_PARALLELISM);
    assert(params.last() == ("p"@, Some(HASH_PARALLELISM)));
}

/// Hashes a password with Argon2id, version 19, under a fresh random salt
/// and with the cost parameters of this library.
///
/// A hash comes back for every password of at most `MAX_PASSWORD_BYTES`
/// bytes. It names the algorithm, the version and the cost parameters, and
/// it accepts the password it was made from. A longer password is an
/// unexpected error.
pub fn compute_password_hash(password: String) -> (r: Result<String, UserStoreError>)
    ensures
        utf8_len(password@) <= MAX_PASSWORD_BYTES ==> r is Ok,
        match r {
            Ok(hash) => hash_accepts(hash@, password@) && phc_header(hash@) == Some(
                (
                    HASH_ALGORITHM@,
                    Some(HASH_VERSION),
                    cost_params(HASH_MEMORY_KIB, HASH_ITERATIONS, HASH_PARALLELISM),
                ),
            ),
            Err(e) => e == UserStoreError::UnexpectedError,
        },
{
    proof {
        lemma_reference_cost_is_valid();
    }
    match argon2id_hash(password.as_str(), HASH_MEMORY_KIB, HASH_ITERATIONS, HASH_PARALLELISM) {
        Ok(hash) => Ok(hash),
        Err(_) => Err(UserStoreError::UnexpectedError),
    }
}

/// Checks a candidate password against a stored hash.
///
/// A text that is no PHC string, or that names a degree of parallelism out
/// of range, accepts nothing and is never handed to the hasher.
pub fn verify_password_hash(expected_password_hash: String, password_candidate: String) -> (r:
    Result<(), UserStoreError>)
    ensures
        r == if hash_accepts(expected_password_hash@, password_candidate@) {
            Ok::<(), UserStoreError>(())
        } else {
            Err::<(), UserStoreError>(UserStoreError::InvalidCredentials)
        },
{
    let header = match read_phc_header(expected_password_hash.as_str()) {
        Some(header) => header,
        None => {
            return Err(UserStoreError::InvalidCredentials);
        },
    };
    if !parallelism_fits(&header.params) {
        return Err(UserStoreError::InvalidCredentials);
    }
    match argon2_verify(expected_password_hash.as_str(), password_candidate.as_str()) {
        Ok(()) => Ok(()),
        Err(_) => Err(UserStoreError::InvalidCredentials),
    }
}

/// One row of the users table: the unique address, the credential hash and
/// the second-factor flag.
#[derive(Debug, PartialEq, Eq)]
pub struct UserRow {
    pub email: String,
    pub password_hash: String,
    pub requires_2fa: bool,
}

/// How an insert into the users table ended.
#[derive(Debug, PartialEq, Eq)]
pub enum InsertOutcome {
    Inserted,
    /// The database refused the row; the SQLSTATE code, where it gave one.
    DatabaseError(Option<String>),
    /// Any other failure.
    OtherError,
}

/// How a lookup in the users table ended.
#[derive(Debug, PartialEq, Eq)]
pub enum FetchOutcome {
    Found(UserRow),
    RowNotFound,
    OtherError,
}

/// The row to insert for a new user: the password is replaced by its hash.
///
/// A row comes back for every user whose password has at most
/// `MAX_PASSWORD_BYTES` bytes. Its hash is made with the algorithm, version
/// and cost parameters of this library.
pub fn new_user_row(user: &User) -> (r: Result<UserRow, UserStoreError>)
    ensures
        utf8_len(user.password@) <= MAX_PASSWORD_BYTES ==> r is Ok,
        match r {
            Ok(row) => row.email@ == user.email@ && row.requires_2fa == user.requires_2fa
                && hash_accepts(row.password_hash@, user.password@) && phc_header(
                row.password_hash@,
            ) == Some(
                (
                    HASH_ALGORITHM@,
                    Some(HASH_VERSION),
                    cost_params(HASH_MEMORY_KIB, HASH_ITERATIONS, HASH_PARALLELISM),
                ),
            ),
            Err(e) => e == UserStoreError::UnexpectedError,
        },
{
    match compute_password_hash(user.password.as_ref().to_owned()) {
        Ok(password_hash) => Ok(
            UserRow {
                email: user.email.as_ref().to_owned(),
                password_hash,
                requires_2fa: user.requires_2fa,
            },
        ),
        Err(e) => Err(e),
    }
}

/// Whether the outcome is the database's report of a violated unique
/// constraint.
pub open spec fn is_unique_violation(outcome: InsertOutcome) -> bool {
    outcome matches InsertOutcome::DatabaseError(Some(code)) && code@ == UNIQUE_VIOLATION@
}

/// What `add_user` answers for the outcome of the insert: a violated unique
/// constraint means that the address is taken, any other failure is
/// unexpected.
pub fn add_user_outcome(outcome: InsertOutcome) -> (r: Result<(), UserStoreError>)
    ensures
        r == if outcome is Inserted {
            Ok::<(), UserStoreError>(())
        } else if is_unique_violation(outcome) {
            Err::<(), UserStoreError>(UserStoreError::UserAlreadyExists)
        } else {
            Err::<(), UserStoreError>(UserStoreError::UnexpectedError)
        },
{
    match outcome {
        InsertOutcome::Inserted => Ok(()),
        InsertOutcome::DatabaseError(Some(code)) => {
            if code == UNIQUE_VIOLATION.to_owned() {
                Err(UserStoreError::UserAlreadyExists)
            } else {
                Err(UserStoreError::UnexpectedError)
            }
        },
        _ => Err(UserStoreError::UnexpectedError),
    }
}

/// What `get_user` answers for the outcome of the lookup. The user that
/// comes back carries the stored hash in place of a password; a row whose
/// address or hash does not parse is unexpected.
pub fn get_user_outcome(outcome: FetchOutcome) -> (r: Result<User, UserStoreError>)
    ensures
        match outcome {
            FetchOutcome::Found(row) => if valid_email_syntax(row.email@)
                && row.password_hash@.len() >= MIN_PASSWORD_LENGTH {
                r is Ok && r->Ok_0.email@ == row.email@ && r->Ok_0.password@ == row.password_hash@
                    && r->Ok_0.requires_2fa == row.requires_2fa
            } else {
                r == Err::<User, UserStoreError>(UserStoreError::UnexpectedError)
            },
            FetchOutcome::RowNotFound => r == Err::<User, UserStoreError>(
                UserStoreError::UserNotFound,
            ),
            FetchOutcome::OtherError => r == Err::<User, UserStoreError>(
                UserStoreError::UnexpectedError,
            ),
        },
{
    match outcome {
        FetchOutcome::Found(row) => {
            let email = match Email::parse(row.email) {
                Ok(email) => email,
                Err(_) => {
                    return Err(UserStoreError::UnexpectedError);
                },
            };
            let password = match Password::parse(row.password_hash) {
                Ok(password) => password,
                Err(_) => {
                    return Err(UserStoreError::UnexpectedError);
                },
            };
            Ok(User { email, password, requires_2fa: row.requires_2fa })
        },
        FetchOutcome::RowNotFound => Err(UserStoreError::UserNotFound),
        FetchOutcome::OtherError => Err(UserStoreError::UnexpectedError),
    }
}

/// What `validate_user` answers once the lookup has ended: a failed lookup
/// is passed on, and a user that was found is accepted exactly if the stored
/// hash accepts the candidate.
pub fn validate_user_outcome(fetched: Result<User, UserStoreError>, password: &Password) -> (r:
    Result<(), UserStoreError>)
    ensures
        r == match fetched {
            Ok(user) => if hash_accepts(user.password@, password@) {
                Ok::<(), UserStoreError>(())
            } else {
                Err::<(), UserStoreError>(UserStoreError::InvalidCredentials)
            },
            Err(e) => Err::<(), UserStoreError>(e),
        },
{
    match fetched {
        Ok(user) => verify_password_hash(
            user.password.as_ref().to_owned(),
            password.as_ref().to_owned(),
        ),
        Err(e) => Err(e),
    }
}

} // verus!
