use vstd::prelude::*;
use crate::auth_error::AuthError;

verus! {

/// One refresh credential: an opaque token value, the user it was minted
/// for, its expiry in epoch seconds, and whether it is still active.
#[derive(Debug)]
pub struct RefreshEntry {
    pub token: u64,
    pub user_id: String,
    pub expiry: u64,
    pub active: bool,
}

/// The entry with its validity flag cleared.
pub open spec fn deactivated(e: RefreshEntry) -> RefreshEntry {
    RefreshEntry { token: e.token, user_id: e.user_id, expiry: e.expiry, active: false }
}

/// The ledger after the entry with the given token is retired.
pub open spec fn retire_seq(s: Seq<RefreshEntry>, token: u64) -> Seq<RefreshEntry> {
    s.map(|i: int, e: RefreshEntry| if e.token == token { deactivated(e) } else { e })
}

/// The token is recorded somewhere in the ledger.
pub open spec fn has_token(s: Seq<RefreshEntry>, token: u64) -> bool {
    exists|i: int| 0 <= i < s.len() && s[i].token == token
}

pub open spec fn token_index(s: Seq<RefreshEntry>, token: u64) -> int {
    choose|i: int| 0 <= i < s.len() && s[i].token == token
}

/// The token is recorded and has not been retired; expiry is not consulted.
pub open spec fn active_any(s: Seq<RefreshEntry>, token: u64) -> bool {
    exists|i: int| 0 <= i < s.len() && s[i].token == token && s[i].active
}

/// The token is recorded, not retired, and unexpired at `now`: exactly the
/// tokens the validator honors.
pub open spec fn active_at(s: Seq<RefreshEntry>, token: u64, now: u64) -> bool {
    exists|i: int| 0 <= i < s.len() && s[i].token == token && s[i].active && now < s[i].expiry
}

/// The user the recorded token belongs to (meaningful only when `has_token`
/// holds; unique under the registry invariant).
pub open spec fn token_user(s: Seq<RefreshEntry>, token: u64) -> Seq<char> {
    s[token_index(s, token)].user_id@
}

/// Every recorded token was minted from the counter, so all are below it and
/// no two entries share a token.
pub open spec fn entries_wf(s: Seq<RefreshEntry>, next_token: u64) -> bool {
    &&& forall|i: int| 0 <= i < s.len() ==> s[i].token < next_token
    &&& forall|i: int, j: int| 0 <= i < j < s.len() ==> s[i].token != s[j].token
}

pub proof fn lemma_token_index_of(s: Seq<RefreshEntry>, next_token: u64, i: int)
    requires
        entries_wf(s, next_token),
        0 <= i < s.len(),
    ensures
        token_index(s, s[i].token) == i,
{
    let t = s[i].token;
    assert(0 <= i < s.len() && s[i].token == t);
    let k = token_index(s, t);
    if k != i {
        if k < i {
            assert(s[k].token != s[i].token);
        } else {
            assert(s[i].token != s[k].token);
        }
    }
}

/// Retiring a token leaves it inactive, whatever the ledger held: a second
/// logout with the same refresh token is rejected.
pub proof fn lemma_second_logout_rejected(s: Seq<RefreshEntry>, token: u64)
    ensures
        !active_any(retire_seq(s, token), token),
{
    let after = retire_seq(s, token);
    assert forall|i: int| 0 <= i < after.len() implies !(after[i].token == token
        && after[i].active) by {
        if s[i].token == token {
            assert(after[i] == deactivated(s[i]));
        } else {
            assert(after[i] == s[i]);
        }
    }
}

/// After a rotation — the old token retired, a fresh one appended — the old
/// token is inactive at every instant: of two racing refresh calls on one
/// token, the one applied second finds it retired and fails.
pub proof fn lemma_rotated_token_rejected(
    s: Seq<RefreshEntry>,
    token: u64,
    fresh: RefreshEntry,
    now: u64,
)
    requires
        fresh.token != token,
    ensures
        !active_at(retire_seq(s, token).push(fresh), token, now),
        !active_any(retire_seq(s, token).push(fresh), token),
{
    let after = retire_seq(s, token).push(fresh);
    assert forall|i: int| 0 <= i < after.len() implies !(after[i].token == token
        && after[i].active) by {
        if i < s.len() {
            if s[i].token == token {
                assert(after[i] == deactivated(s[i]));
            } else {
                assert(after[i] == s[i]);
            }
        } else {
            assert(after[i] == fresh);
        }
    }
}

/// The source of truth for which refresh tokens are active.  Tokens are
/// minted from a counter, so every fresh token differs from every token ever
/// recorded.
pub struct RevocationRegistry {
    pub next_token: u64,
    pub entries: Vec<RefreshEntry>,
}

impl RevocationRegistry {
    pub open spec fn wf(self) -> bool {
        entries_wf(self.entries@, self.next_token)
    }

    pub fn new() -> (r: RevocationRegistry)
        ensures
            r.wf(),
            r.entries@ === Seq::<RefreshEntry>::empty(),
            r.next_token == 1u64,
    {
        let r = RevocationRegistry { next_token: 1, entries: Vec::new() };
        proof {
            assert(r.entries@ =~= Seq::<RefreshEntry>::empty());
        }
        r
    }

    /// Mints and records a fresh active token for the user.
    pub fn activate(&mut self, user_id: String, expiry: u64) -> (t: u64)
        requires
            old(self).wf(),
            old(self).next_token < u64::MAX,
        ensures
            final(self).wf(),
            t == old(self).next_token,
            !has_token(old(self).entries@, t),
            final(self).entries@ == old(self).entries@.push(
                RefreshEntry { token: t, user_id: user_id, expiry: expiry, active: true },
            ),
            final(self).next_token == t + 1,
    {
        let t = self.next_token;
        self.next_token = t + 1;
        let ghost prev = self.entries@;
        self.entries.push(RefreshEntry { token: t, user_id, expiry, active: true });
        proof {
            assert forall|i: int| 0 <= i < self.entries@.len() implies self.entries@[i].token
                < self.next_token by {
                if i < prev.len() {
                    assert(self.entries@[i] == prev[i]);
                }
            }
            assert forall|i: int, j: int| 0 <= i < j < self.entries@.len()
                implies self.entries@[i].token != self.entries@[j].token by {
                if j < prev.len() {
                    assert(self.entries@[i] == prev[i] && self.entries@[j] == prev[j]);
                } else {
                    assert(self.entries@[i] == prev[i] && self.entries@[j].token == t);
                }
            }
        }
        t
    }

    /// Clears the token's validity flag.  Retiring an unknown or already
    /// retired token changes nothing; the report says whether this call
    /// retired it.
    pub fn retire(&mut self, token: u64) -> (was_active: bool)
        requires
            old(self).wf(),
        ensures
            final(self).wf(),
            final(self).entries@ == retire_seq(old(self).entries@, token),
            final(self).next_token == old(self).next_token,
            was_active == active_any(old(self).entries@, token),
    {
        let n = self.entries.len();
        let mut i: usize = 0;
        while i < n
            invariant
                self.wf(),
                self == old(self),
                n == self.entries.len(),
                0 <= i <= n,
                forall|j: int| 0 <= j < i ==> self.entries@[j].token != token,
            decreases n - i,
        {
            if self.entries[i].token == token {
                let was = self.entries[i].active;
                let mut e = self.entries.remove(i);
                e.active = false;
                let ghost prev = old(self).entries@;
                self.entries.insert(i, e);
                proof {
                    lemma_token_index_of(prev, self.next_token, i as int);
                    assert(self.entries@ =~= prev.update(i as int, deactivated(prev[i as int])));
                    let after = retire_seq(prev, token);
                    assert forall|k: int| 0 <= k < prev.len() implies after[k]
                        == self.entries@[k] by {
                        if k != i as int {
                            assert(prev[k].token != token);
                        }
                    }
                    assert(self.entries@ =~= after);
                    assert forall|p: int, q: int| 0 <= p < q < self.entries@.len()
                        implies self.entries@[p].token != self.entries@[q].token by {
                        assert(self.entries@[p].token == prev[p].token);
                        assert(self.entries@[q].token == prev[q].token);
                    }
                    assert forall|p: int| 0 <= p < self.entries@.len()
                        implies self.entries@[p].token < self.next_token by {
                        assert(self.entries@[p].token == prev[p].token);
                    }
                    if was {
                        assert(active_any(prev, token));
                    }
                }
                return was;
            }
            i += 1;
        }
        proof {
            let s = self.entries@;
            let after = retire_seq(s, token);
            assert forall|k: int| 0 <= k < s.len() implies after[k] == s[k] by {
                assert(s[k].token != token);
            }
            assert(s =~= after);
        }
        false
    }

    /// Whether the token would be honored at `now`: recorded, not retired,
    /// unexpired.
    pub fn is_active(&self, token: u64, now: u64) -> (r: bool)
        requires
            self.wf(),
        ensures
            r == active_at(self.entries@, token, now),
    {
        let n = self.entries.len();
        let mut i: usize = 0;
        while i < n
            invariant
                self.wf(),
                n == self.entries.len(),
                0 <= i <= n,
                forall|j: int| 0 <= j < i
                    ==> !(self.entries@[j].token == token && self.entries@[j].active
                        && now < self.entries@[j].expiry),
            decreases n - i,
        {
            if self.entries[i].token == token && self.entries[i].active
                && now < self.entries[i].expiry {
                return true;
            }
            i += 1;
        }
        false
    }

    /// Looks the token up as the validator does: the owning user comes back
    /// exactly when the token is recorded, not retired, and unexpired;
    /// everything else is the unauthorized class.
    pub fn validate_refresh(&self, token: u64, now: u64) -> (r: Result<String, AuthError>)
        requires
            self.wf(),
        ensures
            r is Ok <==> active_at(self.entries@, token, now),
            r matches Ok(uid) ==> uid@ == token_user(self.entries@, token),
            r matches Err(e) ==> e == AuthError::WrongCredentials,
    {
        let n = self.entries.len();
        let mut i: usize = 0;
        while i < n
            invariant
                self.wf(),
                n == self.entries.len(),
                0 <= i <= n,
                forall|j: int| 0 <= j < i
                    ==> !(self.entries@[j].token == token && self.entries@[j].active
                        && now < self.entries@[j].expiry),
            decreases n - i,
        {
            if self.entries[i].token == token && self.entries[i].active
                && now < self.entries[i].expiry {
                proof {
                    lemma_token_index_of(self.entries@, self.next_token, i as int);
                }
                return Ok(self.entries[i].user_id.clone());
            }
            i += 1;
        }
        Err(AuthError::WrongCredentials)
    }
}

} // verus!
