use vstd::prelude::*;
use vstd::hash_map::StringHashMap;
use crate::domain::data_stores::BannedTokenStore;
use crate::domain::data_stores::BannedTokenStoreError;
use crate::utils::auth::session_claims_model;
use crate::utils::auth::ClaimsView;
use crate::utils::constants::is_record_live;
use crate::utils::constants::record_live;
use crate::utils::constants::TOKEN_TTL_SECONDS;

verus! {

/// A revocation store in memory.
///
/// It files each revoked token under the reading of its clock and reports
/// the token as revoked for `TOKEN_TTL_SECONDS` from then on. The clock only
/// moves when `advance_clock` is called, and never backwards. The store
/// never fails unexpectedly.
pub struct HashsetBannedTokenStore {
    tokens: StringHashMap<u64>,
    now: u64,
}

impl HashsetBannedTokenStore {
    /// The reading of the store's clock, in seconds.
    pub closed spec fn clock(&self) -> u64 {
        self.now
    }

    /// For each token on file, the clock reading at which it was revoked.
    pub closed spec fn revoked_at(&self) -> Map<Seq<char>, u64> {
        self.tokens@
    }

    /// An empty store whose clock reads zero.
    pub fn new() -> (store: HashsetBannedTokenStore)
        ensures
            store.clock() == 0,
            store.revoked_at() == Map::<Seq<char>, u64>::empty(),
    {
        HashsetBannedTokenStore { tokens: StringHashMap::new(), now: 0 }
    }

    /// Moves the clock forward to `now`; an earlier reading is ignored.
    /// Records whose time has run out are no longer reported.
    pub fn advance_clock(&mut self, now: u64)
        ensures
            final(self).clock() == if now > old(self).clock() {
                now
            } else {
                old(self).clock()
            },
            final(self).revoked_at() == old(self).revoked_at(),
    {
        if now > self.now {
            self.now = now;
        }
    }
}

impl Default for HashsetBannedTokenStore {
    fn default() -> (store: Self)
        ensures
            store.clock() == 0,
            store.revoked_at() == Map::<Seq<char>, u64>::empty(),
    {
        HashsetBannedTokenStore::new()
    }
}

impl BannedTokenStore for HashsetBannedTokenStore {
    open spec fn banned(&self) -> Set<Seq<char>> {
        Set::new(
            |t: Seq<char>|
                self.revoked_at().contains_key(t) && record_live(
                    self.revoked_at()[t],
                    self.clock(),
                    TOKEN_TTL_SECONDS,
                ),
        )
    }

    open spec fn reliable(&self) -> bool {
        true
    }

    fn store_token(&mut self, token: String) -> (r: Result<(), BannedTokenStoreError>)
        ensures
            final(self).clock() == old(self).clock(),
            r is Ok ==> final(self).revoked_at() == old(self).revoked_at().insert(
                token@,
                old(self).clock(),
            ),
            r is Err ==> final(self).revoked_at() == old(self).revoked_at(),
    {
        let live = match self.tokens.get(token.as_str()) {
            Some(stored_at) => is_record_live(*stored_at, self.now, TOKEN_TTL_SECONDS),
            None => false,
        };
        if live {
            Err(BannedTokenStoreError::TokenAlreadyExists)
        } else {
            let ghost text = token@;
            self.tokens.insert(token, self.now);
            assert(self.banned() =~= old(self).banned().insert(text));
            Ok(())
        }
    }

    fn is_token_banned(&self, token: &String) -> (r: Result<bool, BannedTokenStoreError>) {
        match self.tokens.get(token.as_str()) {
            Some(stored_at) => Ok(is_record_live(*stored_at, self.now, TOKEN_TTL_SECONDS)),
            None => Ok(false),
        }
    }
}

/// A revocation is never dropped too early: a token that was issued before
/// it was revoked is reported as revoked at every clock reading at which it
/// has not yet expired.
pub proof fn lemma_revoked_while_token_lives(
    store: HashsetBannedTokenStore,
    token: Seq<char>,
    claims: ClaimsView,
    issued_at: u64,
)
    requires
        session_claims_model(claims.sub, issued_at) == Some(claims),
        store.revoked_at().contains_key(token),
        issued_at <= store.revoked_at()[token] <= store.clock() < claims.exp,
    ensures
        store.banned().contains(token),
{
}

/// A revocation record does not outlast its time: once `TOKEN_TTL_SECONDS`
/// have passed since the token was revoked, it is no longer reported.
pub proof fn lemma_revocation_lapses(store: HashsetBannedTokenStore, token: Seq<char>)
    requires
        store.revoked_at().contains_key(token),
        store.clock() >= store.revoked_at()[token] + TOKEN_TTL_SECONDS,
    ensures
        !store.banned().contains(token),
{
}

} // verus!
