use vstd::prelude::*;
use vstd::hash_map::StringHashMap;
use crate::domain::data_stores::LoginAttemptId;
use crate::domain::data_stores::TwoFACode;
use crate::domain::data_stores::TwoFACodeStore;
use crate::domain::data_stores::TwoFACodeStoreError;
use crate::domain::email::Email;
use crate::utils::constants::is_record_live;
use crate::utils::constants::record_live;
use crate::utils::constants::TEN_MINUTES_IN_SECONDS;

verus! {

/// One pending challenge and the clock reading at which it was filed.
pub struct PendingChallenge {
    pub login_attempt_id: LoginAttemptId,
    pub code: TwoFACode,
    pub stored_at: u64,
}

/// A challenge store in memory: one slot per email address.
///
/// A challenge is live for `TEN_MINUTES_IN_SECONDS` from the clock reading
/// at which it was filed. The clock only moves when `advance_clock` is
/// called, and never backwards. The store never fails unexpectedly.
pub struct HashmapTwoFACodeStore {
    codes: StringHashMap<PendingChallenge>,
    now: u64,
}

impl HashmapTwoFACodeStore {
    /// The reading of the store's clock, in seconds.
    pub closed spec fn clock(&self) -> u64 {
        self.now
    }

    /// The slots on file, live or not, keyed by address text.
    pub closed spec fn slots(&self) -> Map<Seq<char>, PendingChallenge> {
        self.codes@
    }

    /// An empty store whose clock reads zero.
    pub fn new() -> (store: HashmapTwoFACodeStore)
        ensures
            store.clock() == 0,
            store.slots() == Map::<Seq<char>, PendingChallenge>::empty(),
    {
        HashmapTwoFACodeStore { codes: StringHashMap::new(), now: 0 }
    }

    /// Moves the clock forward to `now`; an earlier reading is ignored.
    /// Challenges whose time has run out are no longer live.
    pub fn advance_clock(&mut self, now: u64)
        ensures
            final(self).clock() == if now > old(self).clock() {
                now
            } else {
                old(self).clock()
            },
            final(self).slots() == old(self).slots(),
    {
        if now > self.now {
            self.now = now;
        }
    }
}

impl Default for HashmapTwoFACodeStore {
    fn default() -> (store: Self)
        ensures
            store.clock() == 0,
            store.slots() == Map::<Seq<char>, PendingChallenge>::empty(),
    {
        HashmapTwoFACodeStore::new()
    }
}

impl TwoFACodeStore for HashmapTwoFACodeStore {
    open spec fn challenges(&self) -> Map<Seq<char>, (Seq<char>, Seq<char>)> {
        Map::new(
            |k: Seq<char>|
                self.slots().contains_key(k) && record_live(
                    self.slots()[k].stored_at,
                    self.clock(),
                    TEN_MINUTES_IN_SECONDS,
                ),
            |k: Seq<char>| (self.slots()[k].login_attempt_id@, self.slots()[k].code@),
        )
    }

    open spec fn reliable(&self) -> bool {
        true
    }

    fn add_code(&mut self, email: Email, login_attempt_id: LoginAttemptId, code: TwoFACode) -> (r:
        Result<(), TwoFACodeStoreError>)
        ensures
            final(self).clock() == old(self).clock(),
            final(self).slots() == old(self).slots().insert(
                email@,
                PendingChallenge { login_attempt_id, code, stored_at: old(self).clock() },
            ),
    {
        let key = email.as_ref().to_owned();
        self.codes.insert(key, PendingChallenge { login_attempt_id, code, stored_at: self.now });
        assert(self.challenges() =~= old(self).challenges().insert(
            email@,
            (login_attempt_id@, code@),
        ));
        Ok(())
    }

    fn remove_code(&mut self, email: &Email) -> (r: Result<(), TwoFACodeStoreError>)
        ensures
            final(self).clock() == old(self).clock(),
            final(self).slots() == old(self).slots().remove(email@),
    {
        self.codes.remove(email.as_ref());
        assert(self.challenges() =~= old(self).challenges().remove(email@));
        Ok(())
    }

    fn get_code(&self, email: &Email) -> (r: Result<
        (LoginAttemptId, TwoFACode),
        TwoFACodeStoreError,
    >) {
        match self.codes.get(email.as_ref()) {
            Some(slot) => {
                if is_record_live(slot.stored_at, self.now, TEN_MINUTES_IN_SECONDS) {
                    Ok((slot.login_attempt_id.clone(), slot.code.clone()))
                } else {
                    Err(TwoFACodeStoreError::LoginAttemptIdNotFound)
                }
            },
            None => Err(TwoFACodeStoreError::LoginAttemptIdNotFound),
        }
    }
}

/// A challenge is live for ten minutes from the clock reading at which it
/// was filed, and not a second longer.
pub proof fn lemma_challenge_expires(store: HashmapTwoFACodeStore, email: Seq<char>)
    requires
        store.slots().contains_key(email),
        store.slots()[email].stored_at <= store.clock(),
    ensures
        store.challenges().contains_key(email) <==> store.clock() < store.slots()[email].stored_at
            + TEN_MINUTES_IN_SECONDS,
{
}

} // verus!
