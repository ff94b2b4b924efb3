use vstd::prelude::*;

verus! {

/// A user record as the credential store holds it: unique id, unique
/// username, and the password hash checked at login.  Timestamps are epoch
/// seconds.
#[derive(Debug)]
pub struct User {
    pub id: String,
    pub username: String,
    pub email: String,
    pub pswd_hash: String,
    pub pswd_salt: String,
    pub created_at: u64,
    pub updated_at: u64,
}

impl User {
    /// A field-for-field copy of this record.
    pub fn duplicate(&self) -> (r: User)
        ensures
            r == *self,
    {
        User {
            id: self.id.clone(),
            username: self.username.clone(),
            email: self.email.clone(),
            pswd_hash: self.pswd_hash.clone(),
            pswd_salt: self.pswd_salt.clone(),
            created_at: self.created_at,
            updated_at: self.updated_at,
        }
    }
}

} // verus!
