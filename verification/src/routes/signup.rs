use vstd::prelude::*;
use crate::domain::data_stores::UserStore;
use crate::domain::data_stores::UserStoreError;
use crate::domain::email::valid_email_syntax;
use crate::domain::email::Email;
use crate::domain::error::AuthAPIError;
use crate::domain::password::Password;
use crate::domain::password::MIN_PASSWORD_LENGTH;
use crate::domain::user::User;
use crate::domain::user::UserView;

verus! {

/// What a client sends to register.
#[derive(Debug, PartialEq, Eq)]
pub struct SignupRequest {
    pub email: String,
    pub password: String,
    pub requires_2fa: bool,
}

/// What a client is told after it was registered.
#[derive(Debug, PartialEq, Eq)]
pub struct SignupResponse {
    pub message: String,
}

/// What signup answers and leaves in a reliable store: malformed input is
/// refused before the store is touched, a taken address is a conflict, and
/// a new user is filed under its address.
pub open spec fn signup_model(
    users: Map<Seq<char>, UserView>,
    email: Seq<char>,
    password: Seq<char>,
    requires_2fa: bool,
) -> (Result<(), AuthAPIError>, Map<Seq<char>, UserView>) {
    if !valid_email_syntax(email) || password.len() < MIN_PASSWORD_LENGTH {
        (Err(AuthAPIError::InvalidCredentials), users)
    } else if users.contains_key(email) {
        (Err(AuthAPIError::UserAlreadyExists), users)
    } else {
        (Ok(()), users.insert(email, UserView { email, password, requires_2fa }))
    }
}

/// What signup does once the store was asked for the address: a user that
/// was found is a conflict; on any other answer the new user is added.
pub fn signup_after_get_user(found: &Result<User, UserStoreError>) -> (r: Result<
    (),
    AuthAPIError,
>)
    ensures
        r == if found is Ok {
            Err::<(), AuthAPIError>(AuthAPIError::UserAlreadyExists)
        } else {
            Ok::<(), AuthAPIError>(())
        },
{
    if found.is_ok() {
        Err(AuthAPIError::UserAlreadyExists)
    } else {
        Ok(())
    }
}

/// What signup answers once the store was asked to add the user: success
/// where it did, an unexpected error where it did not.
pub fn signup_after_add_user(added: Result<(), UserStoreError>) -> (r: Result<
    SignupResponse,
    AuthAPIError,
>)
    ensures
        match added {
            Ok(()) => r matches Ok(response) && response.message@
                == "User created successfully!"@,
            Err(_) => r == Err::<SignupResponse, AuthAPIError>(AuthAPIError::UnexpectedError),
        },
{
    match added {
        Ok(()) => Ok(SignupResponse { message: "User created successfully!".to_owned() }),
        Err(_) => Err(AuthAPIError::UnexpectedError),
    }
}

/// Registers a new user.
///
/// Input that does not parse never reaches the store. The store is asked
/// for the address first, and `signup_after_get_user` decides on its answer;
/// then it is asked to add the user, and `signup_after_add_user` decides on
/// that answer. With a reliable store the answer and the store's contents
/// are those of `signup_model`.
pub fn signup<U: UserStore>(user_store: &mut U, request: SignupRequest) -> (r: Result<
    SignupResponse,
    AuthAPIError,
>)
    ensures
        final(user_store).reliable() == old(user_store).reliable(),
        !valid_email_syntax(request.email@) || request.password@.len() < MIN_PASSWORD_LENGTH ==> r
            == Err::<SignupResponse, AuthAPIError>(AuthAPIError::InvalidCredentials)
            && *final(user_store) == *old(user_store),
        old(user_store).reliable() ==> (
            match r {
                Ok(_) => Ok::<(), AuthAPIError>(()),
                Err(e) => Err::<(), AuthAPIError>(e),
            },
            final(user_store).users(),
        ) == signup_model(
            old(user_store).users(),
            request.email@,
            request.password@,
            request.requires_2fa,
        ),
        r matches Ok(response) ==> response.message@ == "User created successfully!"@,
        r matches Err(e) ==> e == AuthAPIError::InvalidCredentials || e
            == AuthAPIError::UserAlreadyExists || e == AuthAPIError::UnexpectedError,
        r matches Err(e) && e != AuthAPIError::UnexpectedError ==> *final(user_store)
            == *old(user_store),
{
    let email = match Email::parse(request.email) {
        Ok(email) => email,
        Err(e) => {
            return Err(e);
        },
    };
    let password = match Password::parse(request.password) {
        Ok(password) => password,
        Err(e) => {
            return Err(e);
        },
    };
    let user = User::new(email, password, request.requires_2fa);
    let found = user_store.get_user(&user.email);
    match signup_after_get_user(&found) {
        Ok(()) => (),
        Err(e) => {
            return Err(e);
        },
    }
    signup_after_add_user(user_store.add_user(user))
}

} // verus!
