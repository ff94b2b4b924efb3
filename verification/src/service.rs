use vstd::prelude::*;
use crate::auth_error::AuthError;
use crate::clock::unix_now;
use crate::jwt::{
    access_subject, access_valid, issue_access_token, jwt_decoding, validate_access_token,
    JwtClaims,
};
use crate::registry::{
    active_any, active_at, has_token, lemma_rotated_token_rejected, lemma_second_logout_rejected,
    lemma_token_index_of, retire_seq, token_user, RefreshEntry, RevocationRegistry,
};
use crate::store::{has_username, username_index, CredentialStore};
use crate::user::User;

verus! {

/// Lifetime of an access token, in seconds.
pub const ACCESS_TOKEN_TTL_SECS: u64 = 3600;

/// Lifetime of a refresh token, in seconds: thirty days.
pub const REFRESH_TOKEN_TTL_SECS: u64 = 2592000;

/// What a successful login or refresh hands back: a signed access token and
/// the opaque refresh credential that can mint the next pair.
#[derive(Debug)]
pub struct IssuedTokens {
    pub access_token: String,
    pub refresh_token: u64,
}

/// The username is on record and the presented password hash matches the
/// stored one.
pub open spec fn creds_match(s: Seq<User>, username: Seq<char>, hash: Seq<char>) -> bool {
    has_username(s, username) && s[username_index(s, username)].pswd_hash@ == hash
}

/// The id of the user a matching login speaks for.
pub open spec fn creds_user(s: Seq<User>, username: Seq<char>) -> Seq<char> {
    s[username_index(s, username)].id@
}

/// The token decodes under the secret to the subject `uid` with issued-at
/// `at` and the fixed one-hour expiry: the shape every freshly issued access
/// token has.
pub open spec fn decodes_issue(token: Seq<char>, secret: Seq<u8>, uid: Seq<char>, at: int) -> bool {
    jwt_decoding(token, secret) == Some((uid, at, at + ACCESS_TOKEN_TTL_SECS))
}

/// Rotation mints a fresh access token: two tokens issued to one user at
/// different instants decode to different claim sets, so they cannot be the
/// same string.
pub proof fn lemma_rotation_fresh_access(
    t1: Seq<char>,
    t2: Seq<char>,
    secret: Seq<u8>,
    uid: Seq<char>,
    at1: int,
    at2: int,
)
    ensures
        decodes_issue(t1, secret, uid, at1) && decodes_issue(t2, secret, uid, at2) && at1 != at2
            ==> t1 != t2,
{
}

/// The authentication service: the credential store, the revocation
/// registry, and the signing secret, handed in rather than ambient.
pub struct AuthService {
    pub store: CredentialStore,
    pub registry: RevocationRegistry,
    pub jwt_secret: Vec<u8>,
}

impl AuthService {
    pub open spec fn wf(self) -> bool {
        self.store.wf() && self.registry.wf()
    }

    pub fn new(store: CredentialStore, jwt_secret: Vec<u8>) -> (r: AuthService)
        requires
            store.wf(),
        ensures
            r.wf(),
            r.store == store,
            r.jwt_secret == jwt_secret,
            r.registry.entries@ === Seq::<RefreshEntry>::empty(),
    {
        AuthService { store, registry: RevocationRegistry::new(), jwt_secret }
    }

    /// Checks the credentials and, on a match, issues a signed access token
    /// for the user (issued at `now`, expiring an hour later) and a fresh
    /// active refresh token.  A mismatch or an unknown username is
    /// `WrongCredentials` and issues nothing.  Signing cannot fail, so on a
    /// match success is owed; the one other outcome, an exhausted token
    /// counter, leaves the registry untouched.
    pub fn login(&mut self, username: &String, password_hash: &String, now: u64) -> (r: Result<
        IssuedTokens,
        AuthError,
    >)
        requires
            old(self).wf(),
            now + REFRESH_TOKEN_TTL_SECS <= u64::MAX,
        ensures
            final(self).wf(),
            final(self).store == old(self).store,
            final(self).jwt_secret == old(self).jwt_secret,
            r is Err ==> final(self).registry == old(self).registry,
            !creds_match(old(self).store@, username@, password_hash@) <==> (r matches Err(e)
                && e == AuthError::WrongCredentials),
            (r matches Err(e) && e == AuthError::InternalServerError) <==> (creds_match(
                old(self).store@,
                username@,
                password_hash@,
            ) && old(self).registry.next_token == u64::MAX),
            creds_match(old(self).store@, username@, password_hash@)
                && old(self).registry.next_token < u64::MAX ==> r is Ok,
            r matches Err(e) ==> e == AuthError::WrongCredentials
                || e == AuthError::InternalServerError,
            r matches Ok(tok) ==> {
                let uid = creds_user(old(self).store@, username@);
                let ledger = final(self).registry.entries@;
                &&& creds_match(old(self).store@, username@, password_hash@)
                &&& jwt_decoding(tok.access_token@, old(self).jwt_secret@) == Some(
                    (uid, now as int, now + ACCESS_TOKEN_TTL_SECS),
                )
                &&& tok.refresh_token == old(self).registry.next_token
                &&& !has_token(old(self).registry.entries@, tok.refresh_token)
                &&& ledger.drop_last() == old(self).registry.entries@
                &&& ledger.last().token == tok.refresh_token
                &&& ledger.last().user_id@ == uid
                &&& ledger.last().expiry == now + REFRESH_TOKEN_TTL_SECS
                &&& ledger.last().active
                &&& active_at(ledger, tok.refresh_token, now)
                &&& active_any(ledger, tok.refresh_token)
                &&& token_user(ledger, tok.refresh_token) == uid
            },
    {
        let user = match self.store.get_user_by_username(username) {
            Some(u) => u,
            None => {
                return Err(AuthError::WrongCredentials);
            },
        };
        let hash_matches = user.pswd_hash == *password_hash;
        if !hash_matches {
            return Err(AuthError::WrongCredentials);
        }
        if self.registry.next_token == u64::MAX {
            return Err(AuthError::InternalServerError);
        }
        let claims = JwtClaims { sub: user.id.clone(), iat: now, exp: now + ACCESS_TOKEN_TTL_SECS };
        let access_token = match issue_access_token(&claims, &self.jwt_secret) {
            Ok(t) => t,
            Err(e) => {
                return Err(e);
            },
        };
        let refresh_token = self.registry.activate(user.id, now + REFRESH_TOKEN_TTL_SECS);
        proof {
            let ledger = self.registry.entries@;
            assert(ledger.drop_last() =~= old(self).registry.entries@);
            lemma_token_index_of(ledger, self.registry.next_token, ledger.len() - 1);
            assert(active_at(ledger, refresh_token, now));
        }
        Ok(IssuedTokens { access_token, refresh_token })
    }

    /// Verifies a bearer access token against the signing secret and the
    /// clock; stateless, no registry lookup.
    pub fn validate_access(&self, token: &String, now: u64) -> (r: Result<String, AuthError>)
        ensures
            r is Ok <==> access_valid(token@, self.jwt_secret@, now),
            r matches Ok(sub) ==> sub@ == access_subject(token@, self.jwt_secret@),
            r matches Err(e) ==> e == AuthError::InvalidToken || e == AuthError::WrongCredentials,
            r matches Err(e) ==> (e == AuthError::InvalidToken <==> jwt_decoding(
                token@,
                self.jwt_secret@,
            ) is None),
    {
        validate_access_token(token, &self.jwt_secret, now)
    }

    /// Rotation: an active, unexpired refresh token is retired and a fresh
    /// pair is minted for its user, as one atomic step of the registry; the
    /// presented token is inactive from then on, whatever instant a later
    /// call measures.  Anything else — unknown, retired or expired — is
    /// `WrongCredentials`, and the registry is untouched.  Signing cannot
    /// fail, so on an active token success is owed unless the token counter
    /// is exhausted.
    pub fn refresh(&mut self, refresh_token: u64, now: u64) -> (r: Result<IssuedTokens, AuthError>)
        requires
            old(self).wf(),
            now + REFRESH_TOKEN_TTL_SECS <= u64::MAX,
        ensures
            final(self).wf(),
            final(self).store == old(self).store,
            final(self).jwt_secret == old(self).jwt_secret,
            r is Err ==> final(self).registry == old(self).registry,
            !active_at(old(self).registry.entries@, refresh_token, now) <==> (r matches Err(e)
                && e == AuthError::WrongCredentials),
            (r matches Err(e) && e == AuthError::InternalServerError) <==> (active_at(
                old(self).registry.entries@,
                refresh_token,
                now,
            ) && old(self).registry.next_token == u64::MAX),
            active_at(old(self).registry.entries@, refresh_token, now)
                && old(self).registry.next_token < u64::MAX ==> r is Ok,
            r matches Err(e) ==> e == AuthError::WrongCredentials
                || e == AuthError::InternalServerError,
            r matches Ok(tok) ==> {
                let uid = token_user(old(self).registry.entries@, refresh_token);
                let ledger = final(self).registry.entries@;
                &&& active_at(old(self).registry.entries@, refresh_token, now)
                &&& jwt_decoding(tok.access_token@, old(self).jwt_secret@) == Some(
                    (uid, now as int, now + ACCESS_TOKEN_TTL_SECS),
                )
                &&& tok.refresh_token == old(self).registry.next_token
                &&& tok.refresh_token != refresh_token
                &&& !has_token(old(self).registry.entries@, tok.refresh_token)
                &&& ledger.drop_last() == retire_seq(old(self).registry.entries@, refresh_token)
                &&& ledger.last().token == tok.refresh_token
                &&& ledger.last().user_id@ == uid
                &&& ledger.last().expiry == now + REFRESH_TOKEN_TTL_SECS
                &&& ledger.last().active
                &&& active_at(ledger, tok.refresh_token, now)
                &&& active_any(ledger, tok.refresh_token)
                &&& token_user(ledger, tok.refresh_token) == uid
                &&& forall|at: u64| !active_at(ledger, refresh_token, at)
                &&& !active_any(ledger, refresh_token)
            },
    {
        let uid = match self.registry.validate_refresh(refresh_token, now) {
            Ok(u) => u,
            Err(e) => {
                return Err(e);
            },
        };
        if self.registry.next_token == u64::MAX {
            return Err(AuthError::InternalServerError);
        }
        let claims = JwtClaims { sub: uid.clone(), iat: now, exp: now + ACCESS_TOKEN_TTL_SECS };
        let access_token = match issue_access_token(&claims, &self.jwt_secret) {
            Ok(t) => t,
            Err(e) => {
                return Err(e);
            },
        };
        let ghost before = self.registry.entries@;
        self.registry.retire(refresh_token);
        let new_refresh = self.registry.activate(uid, now + REFRESH_TOKEN_TTL_SECS);
        proof {
            let ledger = self.registry.entries@;
            let fresh = ledger.last();
            assert(ledger.drop_last() =~= retire_seq(before, refresh_token));
            lemma_token_index_of(ledger, self.registry.next_token, ledger.len() - 1);
            assert(active_at(ledger, new_refresh, now));
            assert(fresh.token != refresh_token);
            assert forall|at: u64| !active_at(ledger, refresh_token, at) by {
                lemma_rotated_token_rejected(before, refresh_token, fresh, at);
                assert(ledger =~= retire_seq(before, refresh_token).push(fresh));
            }
            lemma_rotated_token_rejected(before, refresh_token, fresh, now);
            assert(ledger =~= retire_seq(before, refresh_token).push(fresh));
        }
        Ok(IssuedTokens { access_token, refresh_token: new_refresh })
    }

    /// Retires the presented refresh token.  Succeeds exactly once per
    /// token: a token already retired, or never issued, is the unauthorized
    /// class, and the ledger is unchanged in that case.
    pub fn logout(&mut self, refresh_token: u64) -> (r: Result<(), AuthError>)
        requires
            old(self).wf(),
        ensures
            final(self).wf(),
            final(self).store == old(self).store,
            final(self).jwt_secret == old(self).jwt_secret,
            final(self).registry.next_token == old(self).registry.next_token,
            final(self).registry.entries@ == retire_seq(
                old(self).registry.entries@,
                refresh_token,
            ),
            r is Ok <==> active_any(old(self).registry.entries@, refresh_token),
            r matches Err(e) ==> e == AuthError::WrongCredentials,
            r is Ok ==> !active_any(final(self).registry.entries@, refresh_token),
    {
        let was_active = self.registry.retire(refresh_token);
        proof {
            lemma_second_logout_rejected(old(self).registry.entries@, refresh_token);
        }
        if was_active {
            Ok(())
        } else {
            Err(AuthError::WrongCredentials)
        }
    }

    /// `login` against the machine's clock.  Every clock reading meets
    /// `login`'s bounds, so matching credentials are owed success whatever
    /// the instant; only the issuing instant itself is left open here.
    pub fn login_now(&mut self, username: &String, password_hash: &String) -> (r: Result<
        IssuedTokens,
        AuthError,
    >)
        requires
            old(self).wf(),
        ensures
            final(self).wf(),
            final(self).store == old(self).store,
            final(self).jwt_secret == old(self).jwt_secret,
            r is Err ==> final(self).registry == old(self).registry,
            !creds_match(old(self).store@, username@, password_hash@) <==> (r matches Err(e)
                && e == AuthError::WrongCredentials),
            (r matches Err(e) && e == AuthError::InternalServerError) <==> (creds_match(
                old(self).store@,
                username@,
                password_hash@,
            ) && old(self).registry.next_token == u64::MAX),
            creds_match(old(self).store@, username@, password_hash@)
                && old(self).registry.next_token < u64::MAX ==> r is Ok,
            r matches Err(e) ==> e == AuthError::WrongCredentials
                || e == AuthError::InternalServerError,
            r matches Ok(tok) ==> {
                let uid = creds_user(old(self).store@, username@);
                let ledger = final(self).registry.entries@;
                &&& creds_match(old(self).store@, username@, password_hash@)
                &&& tok.refresh_token == old(self).registry.next_token
                &&& !has_token(old(self).registry.entries@, tok.refresh_token)
                &&& ledger.drop_last() == old(self).registry.entries@
                &&& ledger.last().token == tok.refresh_token
                &&& ledger.last().user_id@ == uid
                &&& ledger.last().active
                &&& active_any(ledger, tok.refresh_token)
                &&& token_user(ledger, tok.refresh_token) == uid
                &&& exists|at: int| decodes_issue(tok.access_token@, old(self).jwt_secret@, uid, at)
            },
    {
        let now = clock_reading();
        let r = self.login(username, password_hash, now);
        proof {
            if r is Ok {
                let tok = r->Ok_0;
                assert(decodes_issue(
                    tok.access_token@,
                    old(self).jwt_secret@,
                    creds_user(old(self).store@, username@),
                    now as int,
                ));
            }
        }
        r
    }

    /// `refresh` against the machine's clock.  A token that is retired or
    /// was never issued is rejected whatever the clock reads; an active one
    /// succeeds exactly when it is unexpired at the reading, which only the
    /// explicit-instant `refresh` can promise.
    pub fn refresh_now(&mut self, refresh_token: u64) -> (r: Result<IssuedTokens, AuthError>)
        requires
            old(self).wf(),
        ensures
            final(self).wf(),
            final(self).store == old(self).store,
            final(self).jwt_secret == old(self).jwt_secret,
            r is Err ==> final(self).registry == old(self).registry,
            !active_any(old(self).registry.entries@, refresh_token) ==> (r matches Err(e) && e
                == AuthError::WrongCredentials),
            r matches Err(e) ==> e == AuthError::WrongCredentials
                || e == AuthError::InternalServerError,
            r matches Ok(tok) ==> {
                let uid = token_user(old(self).registry.entries@, refresh_token);
                let ledger = final(self).registry.entries@;
                &&& active_any(old(self).registry.entries@, refresh_token)
                &&& tok.refresh_token == old(self).registry.next_token
                &&& tok.refresh_token != refresh_token
                &&& !has_token(old(self).registry.entries@, tok.refresh_token)
                &&& ledger.drop_last() == retire_seq(old(self).registry.entries@, refresh_token)
                &&& ledger.last().token == tok.refresh_token
                &&& ledger.last().user_id@ == uid
                &&& ledger.last().active
                &&& active_any(ledger, tok.refresh_token)
                &&& token_user(ledger, tok.refresh_token) == uid
                &&& forall|at: u64| !active_at(ledger, refresh_token, at)
                &&& !active_any(ledger, refresh_token)
                &&& exists|at: int| decodes_issue(tok.access_token@, old(self).jwt_secret@, uid, at)
            },
    {
        let now = clock_reading();
        let ghost before = self.registry.entries@;
        let r = self.refresh(refresh_token, now);
        proof {
            if !active_any(before, refresh_token) {
                assert(!active_at(before, refresh_token, now));
            }
            if r is Ok {
                assert(active_at(before, refresh_token, now));
                assert(active_any(before, refresh_token));
                let tok = r->Ok_0;
                assert(decodes_issue(
                    tok.access_token@,
                    old(self).jwt_secret@,
                    token_user(before, refresh_token),
                    now as int,
                ));
            }
        }
        r
    }

    /// `validate_access` against the machine's clock.
    pub fn validate_access_now(&self, token: &String) -> (r: Result<String, AuthError>)
        ensures
            r is Ok ==> jwt_decoding(token@, self.jwt_secret@) is Some,
            r matches Ok(sub) ==> sub@ == access_subject(token@, self.jwt_secret@),
            r matches Err(e) ==> e == AuthError::InvalidToken || e == AuthError::WrongCredentials,
            jwt_decoding(token@, self.jwt_secret@) is None ==> (r matches Err(e) && e
                == AuthError::InvalidToken),
    {
        let now = clock_reading();
        self.validate_access(token, now)
    }
}

/// One clock reading, clamped into the range every issuing function accepts:
/// epochs before 1970 read as the epoch, and any 63-bit epoch second leaves
/// room for the longest token lifetime.
fn clock_reading() -> (r: u64)
    ensures
        r + REFRESH_TOKEN_TTL_SECS <= u64::MAX,
{
    let ts = unix_now();
    if ts < 0 {
        0
    } else {
        ts as u64
    }
}

} // verus!
