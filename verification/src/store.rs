use vstd::prelude::*;
use crate::user::User;

verus! {

/// No two records share an id, and no two share a username.
pub open spec fn users_wf(s: Seq<User>) -> bool {
    forall|i: int, j: int|
        0 <= i < j < s.len() ==> s[i].id@ != s[j].id@ && s[i].username@ != s[j].username@
}

pub open spec fn has_id(s: Seq<User>, id: Seq<char>) -> bool {
    exists|i: int| 0 <= i < s.len() && s[i].id@ == id
}

pub open spec fn has_username(s: Seq<User>, name: Seq<char>) -> bool {
    exists|i: int| 0 <= i < s.len() && s[i].username@ == name
}

/// The index of the record with the given id (meaningful only when
/// `has_id` holds; unique when `users_wf` holds).
pub open spec fn id_index(s: Seq<User>, id: Seq<char>) -> int {
    choose|i: int| 0 <= i < s.len() && s[i].id@ == id
}

pub open spec fn username_index(s: Seq<User>, name: Seq<char>) -> int {
    choose|i: int| 0 <= i < s.len() && s[i].username@ == name
}

/// Some other record than the one at `keep` already uses the id or the
/// username of `u`, so storing `u` at `keep` would break uniqueness.
pub open spec fn conflicts_elsewhere(s: Seq<User>, keep: int, u: User) -> bool {
    exists|j: int|
        0 <= j < s.len() && j != keep && (s[j].id@ == u.id@ || s[j].username@ == u.username@)
}

/// The record as `add_user` stores it: both timestamps set to `now`.
pub open spec fn stamped(u: User, now: u64) -> User {
    User {
        id: u.id,
        username: u.username,
        email: u.email,
        pswd_hash: u.pswd_hash,
        pswd_salt: u.pswd_salt,
        created_at: now,
        updated_at: now,
    }
}

/// The record as `update_user` rewrites it: the incoming fields, the old
/// creation time, and `now` as the update time.
pub open spec fn updated_row(old_row: User, u: User, now: u64) -> User {
    User {
        id: u.id,
        username: u.username,
        email: u.email,
        pswd_hash: u.pswd_hash,
        pswd_salt: u.pswd_salt,
        created_at: old_row.created_at,
        updated_at: now,
    }
}

pub proof fn lemma_id_index_of(s: Seq<User>, i: int)
    requires
        users_wf(s),
        0 <= i < s.len(),
    ensures
        id_index(s, s[i].id@) == i,
{
    let id = s[i].id@;
    assert(0 <= i < s.len() && s[i].id@ == id);
    let k = id_index(s, id);
    if k != i {
        if k < i {
            assert(s[k].id@ != s[i].id@);
        } else {
            assert(s[i].id@ != s[k].id@);
        }
    }
}

pub proof fn lemma_username_index_of(s: Seq<User>, i: int)
    requires
        users_wf(s),
        0 <= i < s.len(),
    ensures
        username_index(s, s[i].username@) == i,
{
    let name = s[i].username@;
    assert(0 <= i < s.len() && s[i].username@ == name);
    let k = username_index(s, name);
    if k != i {
        if k < i {
            assert(s[k].username@ != s[i].username@);
        } else {
            assert(s[i].username@ != s[k].username@);
        }
    }
}

/// The credential store: the table of user records, held in memory and
/// injected into every component that reads or changes it.
pub struct CredentialStore {
    pub users: Vec<User>,
}

impl View for CredentialStore {
    type V = Seq<User>;

    open spec fn view(&self) -> Seq<User> {
        self.users@
    }
}

impl CredentialStore {
    pub open spec fn wf(self) -> bool {
        users_wf(self.users@)
    }

    pub fn new() -> (r: CredentialStore)
        ensures
            r.wf(),
            r@ === Seq::<User>::empty(),
    {
        let r = CredentialStore { users: Vec::new() };
        proof {
            assert(r.users@ =~= Seq::<User>::empty());
        }
        r
    }

    /// The index of the record with the given id, if there is one.
    pub fn find_id_index(&self, id: &String) -> (r: Option<usize>)
        requires
            self.wf(),
        ensures
            r is Some <==> has_id(self@, id@),
            r matches Some(i) ==> i < self@.len() && self@[i as int].id@ == id@
                && id_index(self@, id@) == i as int,
    {
        let n = self.users.len();
        let mut i: usize = 0;
        while i < n
            invariant
                self.wf(),
                n == self.users.len(),
                0 <= i <= n,
                forall|j: int| 0 <= j < i ==> self.users@[j].id@ != id@,
            decreases n - i,
        {
            if self.users[i].id == *id {
                proof {
                    lemma_id_index_of(self@, i as int);
                }
                return Some(i);
            }
            i += 1;
        }
        None
    }

    /// The record with the given username, if there is one.
    pub fn get_user_by_username(&self, name: &String) -> (r: Option<User>)
        requires
            self.wf(),
        ensures
            r is Some <==> has_username(self@, name@),
            r matches Some(u) ==> u == self@[username_index(self@, name@)],
    {
        let n = self.users.len();
        let mut i: usize = 0;
        while i < n
            invariant
                self.wf(),
                n == self.users.len(),
                0 <= i <= n,
                forall|j: int| 0 <= j < i ==> self.users@[j].username@ != name@,
            decreases n - i,
        {
            if self.users[i].username == *name {
                proof {
                    lemma_username_index_of(self@, i as int);
                }
                return Some(self.users[i].duplicate());
            }
            i += 1;
        }
        None
    }

    /// The record with the given id, if there is one.
    pub fn get_user(&self, id: &String) -> (r: Option<User>)
        requires
            self.wf(),
        ensures
            r is Some <==> has_id(self@, id@),
            r matches Some(u) ==> u == self@[id_index(self@, id@)],
    {
        match self.find_id_index(id) {
            Some(i) => Some(self.users[i].duplicate()),
            None => None,
        }
    }

    /// A copy of every record, in storage order.
    pub fn all_users(&self) -> (r: Option<Vec<User>>)
        ensures
            r matches Some(v) && v@ == self@,
    {
        let n = self.users.len();
        let mut out: Vec<User> = Vec::new();
        let mut i: usize = 0;
        while i < n
            invariant
                n == self.users.len(),
                0 <= i <= n,
                out@ =~= self.users@.subrange(0, i as int),
            decreases n - i,
        {
            out.push(self.users[i].duplicate());
            i += 1;
        }
        proof {
            assert(out@ =~= self@);
        }
        Some(out)
    }

    /// Inserts a fresh record with both timestamps set to `now`.  Fails, and
    /// leaves the store unchanged, exactly when the id or the username is
    /// already taken.
    pub fn add_user(&mut self, user: User, now: u64) -> (r: Option<User>)
        requires
            old(self).wf(),
        ensures
            final(self).wf(),
            r is Some <==> !has_id(old(self)@, user.id@) && !has_username(old(self)@, user.username@),
            r matches Some(u) ==> u == stamped(user, now)
                && final(self)@ == old(self)@.push(stamped(user, now)),
            r is None ==> final(self)@ == old(self)@,
    {
        let n = self.users.len();
        let mut i: usize = 0;
        while i < n
            invariant
                self.wf(),
                self@ == old(self)@,
                n == self.users.len(),
                0 <= i <= n,
                forall|j: int| 0 <= j < i
                    ==> self.users@[j].id@ != user.id@ && self.users@[j].username@ != user.username@,
            decreases n - i,
        {
            if self.users[i].id == user.id || self.users[i].username == user.username {
                proof {
                    assert(0 <= i < self@.len()
                        && (self@[i as int].id@ == user.id@
                            || self@[i as int].username@ == user.username@));
                }
                return None;
            }
            i += 1;
        }
        let row = User {
            id: user.id,
            username: user.username,
            email: user.email,
            pswd_hash: user.pswd_hash,
            pswd_salt: user.pswd_salt,
            created_at: now,
            updated_at: now,
        };
        let result = row.duplicate();
        let ghost prev = self.users@;
        self.users.push(row);
        proof {
            assert forall|p: int, q: int| 0 <= p < q < self@.len()
                implies self@[p].id@ != self@[q].id@ && self@[p].username@ != self@[q].username@ by {
                if q < prev.len() {
                    assert(self@[p] == prev[p] && self@[q] == prev[q]);
                } else {
                    assert(self@[p] == prev[p] && self@[q] == stamped(user, now));
                }
            }
        }
        Some(result)
    }

    /// Rewrites the record with the given id from the incoming fields,
    /// keeping its creation time and setting its update time to `now`.
    /// Fails, and leaves the store unchanged, when the id is unknown or the
    /// incoming id or username collides with another record.
    pub fn update_user(&mut self, id: &String, user: User, now: u64) -> (r: Option<User>)
        requires
            old(self).wf(),
        ensures
            final(self).wf(),
            r is Some <==> has_id(old(self)@, id@)
                && !conflicts_elsewhere(old(self)@, id_index(old(self)@, id@), user),
            r matches Some(u) ==> {
                let idx = id_index(old(self)@, id@);
                u == updated_row(old(self)@[idx], user, now)
                    && final(self)@ == old(self)@.update(idx, updated_row(old(self)@[idx], user, now))
            },
            r is None ==> final(self)@ == old(self)@,
    {
        let n = self.users.len();
        let i: usize = match self.find_id_index(id) {
            Some(i) => i,
            None => {
                return None;
            },
        };
        let mut j: usize = 0;
        while j < n
            invariant
                self.wf(),
                self@ == old(self)@,
                n == self.users.len(),
                0 <= j <= n,
                i < n,
                self@[i as int].id@ == id@,
                id_index(self@, id@) == i as int,
                forall|k: int| 0 <= k < j && k != i as int
                    ==> self.users@[k].id@ != user.id@ && self.users@[k].username@ != user.username@,
            decreases n - j,
        {
            if j != i {
                if self.users[j].id == user.id || self.users[j].username == user.username {
                    proof {
                        assert(0 <= j < self@.len() && j != i as int
                            && (self@[j as int].id@ == user.id@
                                || self@[j as int].username@ == user.username@));
                    }
                    return None;
                }
            }
            j += 1;
        }
        let kept_created: u64 = self.users[i].created_at;
        let row = User {
            id: user.id,
            username: user.username,
            email: user.email,
            pswd_hash: user.pswd_hash,
            pswd_salt: user.pswd_salt,
            created_at: kept_created,
            updated_at: now,
        };
        let result = row.duplicate();
        let ghost prev = self.users@;
        let ghost new_row = row;
        self.users.remove(i);
        self.users.insert(i, row);
        proof {
            assert(self@ =~= prev.update(i as int, new_row));
            assert forall|p: int, q: int| 0 <= p < q < self@.len()
                implies self@[p].id@ != self@[q].id@ && self@[p].username@ != self@[q].username@ by {
                if p != i as int && q != i as int {
                    assert(self@[p] == prev[p] && self@[q] == prev[q]);
                } else if p == i as int {
                    assert(self@[p] == new_row && self@[q] == prev[q]);
                } else {
                    assert(self@[p] == prev[p] && self@[q] == new_row);
                }
            }
        }
        Some(result)
    }

    /// Removes the record with the given id.  Reports how many records went:
    /// one when the id was present, zero when it was not.
    pub fn delete_user(&mut self, id: &String) -> (r: Option<u64>)
        requires
            old(self).wf(),
        ensures
            final(self).wf(),
            has_id(old(self)@, id@) ==> r == Some(1u64)
                && final(self)@ == old(self)@.remove(id_index(old(self)@, id@)),
            !has_id(old(self)@, id@) ==> r == Some(0u64) && final(self)@ == old(self)@,
    {
        let i: usize = match self.find_id_index(id) {
            Some(i) => i,
            None => {
                return Some(0);
            },
        };
        let ghost prev = self.users@;
        self.users.remove(i);
        proof {
            assert forall|p: int, q: int| 0 <= p < q < self@.len()
                implies self@[p].id@ != self@[q].id@ && self@[p].username@ != self@[q].username@ by {
                let p0: int = if p < i as int { p } else { p + 1 };
                let q0: int = if q < i as int { q } else { q + 1 };
                assert(self@[p] == prev[p0] && self@[q] == prev[q0]);
            }
        }
        Some(1)
    }
}

} // verus!
