use vstd::prelude::*;
use vstd::string::StringExecFns;
use vstd::string::StrSliceExecFns;
use rand::Rng;
use crate::domain::email::Email;
use crate::domain::password::Password;
use crate::domain::user::User;
use crate::domain::user::UserView;

verus! {

/// How an identity store can fail.
#[derive(Debug, Clone, Copy, PartialEq, Eq, Structural)]
pub enum UserStoreError {
    UserAlreadyExists,
    UserNotFound,
    InvalidCredentials,
    UnexpectedError,
}

/// How a revocation store can fail.
#[derive(Debug, Clone, Copy, PartialEq, Eq, Structural)]
pub enum BannedTokenStoreError {
    TokenAlreadyExists,
    UnexpectedError,
}

/// How a challenge store can fail.
#[derive(Debug, Clone, Copy, PartialEq, Eq, Structural)]
pub enum TwoFACodeStoreError {
    LoginAttemptIdNotFound,
    UnexpectedError,
}

/// What `add_user` answers and leaves behind: a taken address is refused
/// and nothing changes, a free one is filled.
pub open spec fn add_user_model(users: Map<Seq<char>, UserView>, user: UserView) -> (
    Result<(), UserStoreError>,
    Map<Seq<char>, UserView>,
) {
    if users.contains_key(user.email) {
        (Err(UserStoreError::UserAlreadyExists), users)
    } else {
        (Ok(()), users.insert(user.email, user))
    }
}

/// What `get_user` answers: the record filed under exactly this address.
pub open spec fn get_user_model(users: Map<Seq<char>, UserView>, email: Seq<char>) -> Result<
    UserView,
    UserStoreError,
> {
    if users.contains_key(email) {
        Ok(users[email])
    } else {
        Err(UserStoreError::UserNotFound)
    }
}

/// What `validate_user` answers, given whether the stored record accepts
/// the candidate: an unknown address is told apart from a wrong password.
pub open spec fn validate_user_model(
    users: Map<Seq<char>, UserView>,
    email: Seq<char>,
    accepted: bool,
) -> Result<(), UserStoreError> {
    if !users.contains_key(email) {
        Err(UserStoreError::UserNotFound)
    } else if accepted {
        Ok(())
    } else {
        Err(UserStoreError::InvalidCredentials)
    }
}

/// What a `User` result holds, as plain values.
pub open spec fn user_result_view(r: Result<User, UserStoreError>) -> Result<
    UserView,
    UserStoreError,
> {
    match r {
        Ok(user) => Ok(user@),
        Err(e) => Err(e),
    }
}

/// An identity store: at most one `User` per email address.
///
/// `users` is what the store holds, keyed by address text. A store that is
/// `reliable` answers each call as its contents dictate and never with
/// `UnexpectedError`. Of a backend that can fail for reasons of its own (a
/// network, a disk) the contracts claim nothing: such a backend keeps the
/// defaults below and need not describe its contents.
pub trait UserStore {
    /// The records held, keyed by the text of their address.
    open spec fn users(&self) -> Map<Seq<char>, UserView> {
        Map::empty()
    }

    /// Whether this store answers as its contents dictate.
    open spec fn reliable(&self) -> bool {
        false
    }

    /// Whether the stored record accepts the candidate password.
    open spec fn accepts(&self, stored: UserView, candidate: Seq<char>) -> bool {
        false
    }

    /// Inserts the user unless the address is already taken.
    fn add_user(&mut self, user: User) -> (r: Result<(), UserStoreError>)
        ensures
            final(self).reliable() == old(self).reliable(),
            old(self).reliable() ==> (r, final(self).users()) == add_user_model(
                old(self).users(),
                user@,
            ),
    ;

    /// Looks the user up by exact address.
    fn get_user(&self, email: &Email) -> (r: Result<User, UserStoreError>)
        ensures
            self.reliable() ==> user_result_view(r) == get_user_model(self.users(), email@),
    ;

    /// Checks a candidate password against the record of the address.
    fn validate_user(&self, email: &Email, password: &Password) -> (r: Result<
        (),
        UserStoreError,
    >)
        ensures
            self.reliable() ==> r == validate_user_model(
                self.users(),
                email@,
                self.accepts(self.users()[email@], password@),
            ),
    ;
}

/// What `store_token` answers and leaves behind: revoking a token that is
/// already revoked is a conflict and changes nothing.
pub open spec fn store_token_model(banned: Set<Seq<char>>, token: Seq<char>) -> (
    Result<(), BannedTokenStoreError>,
    Set<Seq<char>>,
) {
    if banned.contains(token) {
        (Err(BannedTokenStoreError::TokenAlreadyExists), banned)
    } else {
        (Ok(()), banned.insert(token))
    }
}

/// A revocation store: the session tokens that were revoked and whose
/// record has not yet lapsed.
///
/// Revoking a token that is already revoked is a conflict
/// (`TokenAlreadyExists`) and changes nothing. The lookup can fail, but only
/// on a store that is not `reliable`; of such a store the contracts claim
/// nothing.
pub trait BannedTokenStore {
    /// The tokens currently reported as revoked.
    open spec fn banned(&self) -> Set<Seq<char>> {
        Set::empty()
    }

    /// Whether this store answers as its contents dictate.
    open spec fn reliable(&self) -> bool {
        false
    }

    /// Records the token as revoked.
    fn store_token(&mut self, token: String) -> (r: Result<(), BannedTokenStoreError>)
        ensures
            final(self).reliable() == old(self).reliable(),
            old(self).reliable() ==> (r, final(self).banned()) == store_token_model(
                old(self).banned(),
                token@,
            ),
    ;

    /// Whether the token is currently revoked.
    fn is_token_banned(&self, token: &String) -> (r: Result<bool, BannedTokenStoreError>)
        ensures
            self.reliable() ==> r == Ok::<bool, BannedTokenStoreError>(
                self.banned().contains(token@),
            ),
    ;
}

/// What `add_code` leaves behind: the slot of the address holds the new
/// pair, whatever it held before.
pub open spec fn add_code_model(
    challenges: Map<Seq<char>, (Seq<char>, Seq<char>)>,
    email: Seq<char>,
    login_attempt_id: Seq<char>,
    code: Seq<char>,
) -> Map<Seq<char>, (Seq<char>, Seq<char>)> {
    challenges.insert(email, (login_attempt_id, code))
}

/// What `remove_code` leaves behind: the slot of the address is empty.
pub open spec fn remove_code_model(
    challenges: Map<Seq<char>, (Seq<char>, Seq<char>)>,
    email: Seq<char>,
) -> Map<Seq<char>, (Seq<char>, Seq<char>)> {
    challenges.remove(email)
}

/// What `get_code` answers: the live challenge of the address.
pub open spec fn get_code_model(
    challenges: Map<Seq<char>, (Seq<char>, Seq<char>)>,
    email: Seq<char>,
) -> Result<(Seq<char>, Seq<char>), TwoFACodeStoreError> {
    if challenges.contains_key(email) {
        Ok(challenges[email])
    } else {
        Err(TwoFACodeStoreError::LoginAttemptIdNotFound)
    }
}

/// What a challenge result holds, as plain values.
pub open spec fn challenge_result_view(
    r: Result<(LoginAttemptId, TwoFACode), TwoFACodeStoreError>,
) -> Result<(Seq<char>, Seq<char>), TwoFACodeStoreError> {
    match r {
        Ok((id, code)) => Ok((id@, code@)),
        Err(e) => Err(e),
    }
}

/// A challenge store: at most one pending second-factor challenge per email
/// address, as a pair of login-attempt identifier and code.
///
/// Of a store that is not `reliable` the contracts claim nothing.
pub trait TwoFACodeStore {
    /// The live challenges, keyed by address text.
    open spec fn challenges(&self) -> Map<Seq<char>, (Seq<char>, Seq<char>)> {
        Map::empty()
    }

    /// Whether this store answers as its contents dictate.
    open spec fn reliable(&self) -> bool {
        false
    }

    /// Stores the challenge for the address, replacing any earlier one.
    fn add_code(&mut self, email: Email, login_attempt_id: LoginAttemptId, code: TwoFACode) -> (r:
        Result<(), TwoFACodeStoreError>)
        ensures
            final(self).reliable() == old(self).reliable(),
            old(self).reliable() ==> r is Ok && final(self).challenges() == add_code_model(
                old(self).challenges(),
                email@,
                login_attempt_id@,
                code@,
            ),
    ;

    /// Deletes the challenge of the address. Deleting where there is none
    /// succeeds and changes nothing.
    fn remove_code(&mut self, email: &Email) -> (r: Result<(), TwoFACodeStoreError>)
        ensures
            final(self).reliable() == old(self).reliable(),
            old(self).reliable() ==> r is Ok && final(self).challenges() == remove_code_model(
                old(self).challenges(),
                email@,
            ),
    ;

    /// The live challenge of the address.
    fn get_code(&self, email: &Email) -> (r: Result<
        (LoginAttemptId, TwoFACode),
        TwoFACodeStoreError,
    >)
        ensures
            self.reliable() ==> challenge_result_view(r) == get_code_model(
                self.challenges(),
                email@,
            ),
    ;
}

/// A user that was added is found again under its address, unchanged.
pub proof fn lemma_add_user_then_get_user(users: Map<Seq<char>, UserView>, user: UserView)
    ensures
        add_user_model(users, user).0 is Ok ==> get_user_model(
            add_user_model(users, user).1,
            user.email,
        ) == Ok::<UserView, UserStoreError>(user),
{
}

/// A second user under an address that was just added is refused with
/// `UserAlreadyExists`, and the first stays as it is.
pub proof fn lemma_add_user_twice(
    users: Map<Seq<char>, UserView>,
    first: UserView,
    second: UserView,
)
    requires
        first.email == second.email,
    ensures
        add_user_model(add_user_model(users, first).1, second) == (
            Err::<(), UserStoreError>(UserStoreError::UserAlreadyExists),
            add_user_model(users, first).1,
        ),
{
}

/// Validation tells an unknown address (`UserNotFound`) from a wrong
/// password (`InvalidCredentials`), and succeeds on a known address whose
/// record accepts the candidate.
pub proof fn lemma_validate_user_outcomes(
    users: Map<Seq<char>, UserView>,
    email: Seq<char>,
    accepted: bool,
)
    ensures
        !users.contains_key(email) ==> validate_user_model(users, email, accepted) == Err::<
            (),
            UserStoreError,
        >(UserStoreError::UserNotFound),
        users.contains_key(email) && !accepted ==> validate_user_model(users, email, accepted)
            == Err::<(), UserStoreError>(UserStoreError::InvalidCredentials),
        users.contains_key(email) && accepted ==> validate_user_model(users, email, accepted)
            == Ok::<(), UserStoreError>(()),
{
}

/// A token that was just revoked is reported as revoked, whether the call
/// recorded it or found it on record.
pub proof fn lemma_revoked_token_is_reported(banned: Set<Seq<char>>, token: Seq<char>)
    ensures
        store_token_model(banned, token).1.contains(token),
{
}

/// A challenge that was added is read back exactly, whatever the slot held
/// before.
pub proof fn lemma_add_code_then_get_code(
    challenges: Map<Seq<char>, (Seq<char>, Seq<char>)>,
    email: Seq<char>,
    login_attempt_id: Seq<char>,
    code: Seq<char>,
)
    ensures
        get_code_model(add_code_model(challenges, email, login_attempt_id, code), email) == Ok::<
            (Seq<char>, Seq<char>),
            TwoFACodeStoreError,
        >((login_attempt_id, code)),
{
}

/// After a challenge was removed, none is found for the address; removing
/// once more changes nothing.
pub proof fn lemma_remove_code_then_get_code(
    challenges: Map<Seq<char>, (Seq<char>, Seq<char>)>,
    email: Seq<char>,
)
    ensures
        get_code_model(remove_code_model(challenges, email), email) == Err::<
            (Seq<char>, Seq<char>),
            TwoFACodeStoreError,
        >(TwoFACodeStoreError::LoginAttemptIdNotFound),
        remove_code_model(remove_code_model(challenges, email), email) == remove_code_model(
            challenges,
            email,
        ),
{
    assert(remove_code_model(remove_code_model(challenges, email), email) =~= remove_code_model(
        challenges,
        email,
    ));
}

/// The hyphenated lower-case rendering of the UUID that `uuid::Uuid::parse_str`
/// reads from the text, or `None` where it reads none.
pub uninterp spec fn uuid_canonical(text: Seq<char>) -> Option<Seq<char>>;

/// Calls `uuid::Uuid::parse_str` and renders the identifier it returns with
/// its `Display` impl, which writes the hyphenated lower-case form.
///
/// The result is named `uuid_canonical`. Beyond the name, the contract claims
/// that the rendering is itself read back as the same identifier: the parser
/// accepts the hyphenated form of 36 characters, and rendering the sixteen
/// bytes it decodes gives the same text again.
#[verifier::external_body]
fn canonical_uuid_text(text: &str) -> (r: Option<String>)
    ensures
        (r is Some) == (uuid_canonical(text@) is Some),
        r matches Some(t) ==> uuid_canonical(text@) == Some(t@) && uuid_canonical(t@) == Some(
            t@,
        ),
{
    match uuid::Uuid::parse_str(text) {
        Ok(id) => Some(id.to_string()),
        Err(_) => None,
    }
}

/// Calls `uuid::Uuid::new_v4` and renders the identifier with its `Display`
/// impl.
///
/// The identifier is random, so the contract claims only what holds of every
/// outcome: the text is in the hyphenated lower-case form, which the parser
/// reads back unchanged.
#[verifier::external_body]
fn fresh_uuid_text() -> (t: String)
    ensures
        uuid_canonical(t@) == Some(t@),
{
    uuid::Uuid::new_v4().to_string()
}

/// The identifier of one login attempt that awaits its second factor: a UUID
/// in hyphenated lower-case text.
#[derive(Debug, PartialEq, Eq)]
pub struct LoginAttemptId(String);

impl View for LoginAttemptId {
    type V = Seq<char>;

    closed spec fn view(&self) -> Seq<char> {
        self.0@
    }
}

impl LoginAttemptId {
    #[verifier::type_invariant]
    closed spec fn canonical(&self) -> bool {
        uuid_canonical(self.0@) == Some(self.0@)
    }

    /// Accepts exactly the texts that read as a UUID, and holds the
    /// identifier in its hyphenated lower-case form.
    pub fn parse(id: String) -> (r: Result<LoginAttemptId, String>)
        ensures
            match uuid_canonical(id@) {
                Some(text) => r is Ok && r->Ok_0@ == text,
                None => r is Err && r->Err_0@ == "Invalid LoginAttemptId format"@,
            },
    {
        match canonical_uuid_text(id.as_str()) {
            Some(text) => Ok(LoginAttemptId(text)),
            None => Err("Invalid LoginAttemptId format".to_owned()),
        }
    }

    /// A fresh random identifier (UUID version 4).
    pub fn generate() -> (id: LoginAttemptId)
        ensures
            uuid_canonical(id@) == Some(id@),
    {
        LoginAttemptId(fresh_uuid_text())
    }

    /// The identifier text, which reads back as itself.
    pub fn as_ref(&self) -> (text: &str)
        ensures
            text@ == self@,
            uuid_canonical(self@) == Some(self@),
    {
        proof {
            use_type_invariant(self);
        }
        self.0.as_str()
    }

    /// Whether two identifiers hold the same text.
    pub fn same_as(&self, other: &LoginAttemptId) -> (same: bool)
        ensures
            same == (self@ == other@),
    {
        self.0 == other.0
    }
}

impl Default for LoginAttemptId {
    fn default() -> (id: Self)
        ensures
            uuid_canonical(id@) == Some(id@),
    {
        LoginAttemptId::generate()
    }
}

impl Clone for LoginAttemptId {
    fn clone(&self) -> (copy: Self)
        ensures
            copy@ == self@,
    {
        proof {
            use_type_invariant(self);
        }
        LoginAttemptId(self.0.clone())
    }
}

/// The number of digits of a second-factor code.
pub const TWO_FA_CODE_LENGTH: usize = 6;

/// Whether the character is one of the ten ASCII digits.
pub open spec fn is_ascii_digit(c: char) -> bool {
    '0' <= c && c <= '9'
}

/// Whether the text is a second-factor code: exactly six ASCII digits.
pub open spec fn is_two_fa_code(text: Seq<char>) -> bool {
    &&& text.len() == TWO_FA_CODE_LENGTH
    &&& forall|i: int| 0 <= i < text.len() ==> is_ascii_digit(#[trigger] text[i])
}

/// The random number generator of the current thread, from `rand`.
#[verifier::external_type_specification]
#[verifier::external_body]
pub struct ExThreadRng(rand::rngs::ThreadRng);

/// `rand::thread_rng` hands out the generator of the current thread; nothing
/// is claimed of it.
pub assume_specification[ rand::thread_rng ]() -> (rng: rand::rngs::ThreadRng);

/// Calls `rand::Rng::gen_range` on the half-open range from 0 to `bound`.
///
/// The number is random, so the contract claims only that it lies in the
/// range. The call panics on an empty range, which the precondition rules
/// out.
#[verifier::external_body]
fn random_below(rng: &mut rand::rngs::ThreadRng, bound: u32) -> (n: u32)
    requires
        bound > 0,
    ensures
        n < bound,
{
    rng.gen_range(0..bound)
}

/// The decimal digit as a text of one character.
fn digit_text(d: u32) -> (text: &'static str)
    requires
        d < 10,
    ensures
        text@.len() == 1,
        is_ascii_digit(text@[0]),
        text@[0] as int == '0' as int + d,
{
    proof {
        reveal_strlit("0");
        reveal_strlit("1");
        reveal_strlit("2");
        reveal_strlit("3");
        reveal_strlit("4");
        reveal_strlit("5");
        reveal_strlit("6");
        reveal_strlit("7");
        reveal_strlit("8");
        reveal_strlit("9");
    }
    match d {
        0 => "0",
        1 => "1",
        2 => "2",
        3 => "3",
        4 => "4",
        5 => "5",
        6 => "6",
        7 => "7",
        8 => "8",
        _ => "9",
    }
}

/// A second-factor code: six ASCII digits.
#[derive(Debug, PartialEq, Eq)]
pub struct TwoFACode(String);

impl View for TwoFACode {
    type V = Seq<char>;

    closed spec fn view(&self) -> Seq<char> {
        self.0@
    }
}

impl TwoFACode {
    #[verifier::type_invariant]
    closed spec fn six_digits(&self) -> bool {
        is_two_fa_code(self.0@)
    }

    /// Accepts exactly the texts of six ASCII digits, unchanged.
    pub fn parse(code: String) -> (r: Result<TwoFACode, String>)
        ensures
            is_two_fa_code(code@) ==> r is Ok && r->Ok_0@ == code@,
            !is_two_fa_code(code@) ==> r is Err && r->Err_0@ == "Invalid TwoFACode format"@,
    {
        let n: usize = code.as_str().unicode_len();
        if n != TWO_FA_CODE_LENGTH {
            return Err("Invalid TwoFACode format".to_owned());
        }
        let mut i: usize = 0;
        while i < n
            invariant
                n == code@.len(),
                i <= n,
                forall|j: int| 0 <= j < i ==> is_ascii_digit(#[trigger] code@[j]),
            decreases n - i,
        {
            let c: char = code.as_str().get_char(i);
            if !('0' <= c && c <= '9') {
                return Err("Invalid TwoFACode format".to_owned());
            }
            i = i + 1;
        }
        Ok(TwoFACode(code))
    }

    /// A fresh code of six digits, each drawn from the ten digits.
    pub fn generate() -> (code: TwoFACode)
        ensures
            is_two_fa_code(code@),
    {
        let mut rng = rand::thread_rng();
        let mut text = String::new();
        let mut i: usize = 0;
        while i < TWO_FA_CODE_LENGTH
            invariant
                i <= TWO_FA_CODE_LENGTH,
                text@.len() == i,
                forall|j: int| 0 <= j < i ==> is_ascii_digit(#[trigger] text@[j]),
            decreases TWO_FA_CODE_LENGTH - i,
        {
            let d: u32 = random_below(&mut rng, 10);
            text.append(digit_text(d));
            i = i + 1;
        }
        TwoFACode(text)
    }

    /// The code text, which is always six ASCII digits.
    pub fn as_ref(&self) -> (text: &str)
        ensures
            text@ == self@,
            is_two_fa_code(self@),
    {
        proof {
            use_type_invariant(self);
        }
        self.0.as_str()
    }

    /// Whether two codes hold the same digits.
    pub fn same_as(&self, other: &TwoFACode) -> (same: bool)
        ensures
            same == (self@ == other@),
    {
        self.0 == other.0
    }
}

impl Default for TwoFACode {
    fn default() -> (code: Self)
        ensures
            is_two_fa_code(code@),
    {
        TwoFACode::generate()
    }
}

impl Clone for TwoFACode {
    fn clone(&self) -> (copy: Self)
        ensures
            copy@ == self@,
    {
        proof {
            use_type_invariant(self);
        }
        TwoFACode(self.0.clone())
    }
}

} // verus!
