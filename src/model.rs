//! Users as the store keeps them, and the credentials a request carries.

use vstd::prelude::*;

verus! {

pub struct User {
    /// Assigned by the store; absent before insertion.
    pub user_id: Option<i32>,
    pub username: String,
    /// Always the hashed form.
    pub password: String,
    /// Creation time, in seconds since the Unix epoch.
    pub created_at: u64,
}

impl User {
    /// A field-by-field copy.
    pub fn duplicate(&self) -> (r: User)
        ensures
            r == *self,
    {
        User {
            user_id: self.user_id,
            username: self.username.clone(),
            password: self.password.clone(),
            created_at: self.created_at,
        }
    }
}

/// Credentials taken from a request body.
pub struct Login {
    pub username: String,
    /// Plain text; never stored.
    pub password: String,
}

} // verus!
