use vstd::prelude::*;
use vstd::hash_map::StringHashMap;
use crate::domain::data_stores::add_user_model;
use crate::domain::data_stores::validate_user_model;
use crate::domain::data_stores::UserStore;
use crate::domain::data_stores::UserStoreError;
use crate::domain::email::Email;
use crate::domain::password::Password;
use crate::domain::user::User;
use crate::domain::user::UserView;

verus! {

/// An identity store in memory: a hash map from address text to `User`.
///
/// It keeps each user as given and accepts a candidate password that equals
/// the stored one. It never fails unexpectedly.
pub struct HashmapUserStore {
    users: StringHashMap<User>,
}

impl HashmapUserStore {
    /// The records held, keyed by address text. Each record carries the
    /// address under which it is filed.
    pub closed spec fn records(&self) -> Map<Seq<char>, UserView> {
        Map::new(
            |k: Seq<char>| self.users@.contains_key(k),
            |k: Seq<char>|
                UserView {
                    email: k,
                    password: self.users@[k].password@,
                    requires_2fa: self.users@[k].requires_2fa,
                },
        )
    }

    /// An empty store.
    pub fn new() -> (store: HashmapUserStore)
        ensures
            store.records() == Map::<Seq<char>, UserView>::empty(),
    {
        let store = HashmapUserStore { users: StringHashMap::new() };
        assert(store.records() =~= Map::<Seq<char>, UserView>::empty());
        store
    }
}

impl Default for HashmapUserStore {
    fn default() -> (store: Self)
        ensures
            store.records() == Map::<Seq<char>, UserView>::empty(),
    {
        HashmapUserStore::new()
    }
}

impl UserStore for HashmapUserStore {
    open spec fn users(&self) -> Map<Seq<char>, UserView> {
        self.records()
    }

    open spec fn reliable(&self) -> bool {
        true
    }

    open spec fn accepts(&self, stored: UserView, candidate: Seq<char>) -> bool {
        stored.password == candidate
    }

    fn add_user(&mut self, user: User) -> (r: Result<(), UserStoreError>) {
        if self.users.contains_key(user.email.as_ref()) {
            Err(UserStoreError::UserAlreadyExists)
        } else {
            let key = user.email.as_ref().to_owned();
            let ghost added = user@;
            self.users.insert(key, user);
            assert(self.records() =~= old(self).records().insert(added.email, added));
            Ok(())
        }
    }

    fn get_user(&self, email: &Email) -> (r: Result<User, UserStoreError>) {
        match self.users.get(email.as_ref()) {
            Some(user) => Ok(
                User {
                    email: email.clone(),
                    password: user.password.clone(),
                    requires_2fa: user.requires_2fa,
                },
            ),
            None => Err(UserStoreError::UserNotFound),
        }
    }

    fn validate_user(&self, email: &Email, password: &Password) -> (r: Result<
        (),
        UserStoreError,
    >) {
        match self.users.get(email.as_ref()) {
            Some(user) => {
                if user.password.same_as(password) {
                    Ok(())
                } else {
                    Err(UserStoreError::InvalidCredentials)
                }
            },
            None => Err(UserStoreError::UserNotFound),
        }
    }
}

/// In this store a user that was just added validates with the password
/// it was added with, and with no other.
pub proof fn lemma_validate_after_add(
    store: HashmapUserStore,
    users: Map<Seq<char>, UserView>,
    user: UserView,
    candidate: Seq<char>,
)
    requires
        !users.contains_key(user.email),
    ensures
        ({
            let after = add_user_model(users, user).1;
            validate_user_model(after, user.email, store.accepts(after[user.email], candidate))
                == if candidate == user.password {
                Ok::<(), UserStoreError>(())
            } else {
                Err::<(), UserStoreError>(UserStoreError::InvalidCredentials)
            }
        }),
{
}

} // verus!
