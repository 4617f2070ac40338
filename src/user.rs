//! Users of the planner.

use vstd::prelude::*;

use crate::clock::{new_id, now_rfc3339};

verus! {

/// A user.
#[derive(Debug)]
pub struct User {
    pub id: String,
    pub name: String,
    pub created_at: String,
}

impl User {
    /// A new user under a fresh identifier.
    pub fn new(name: String) -> (r: Self)
        ensures
            r.name == name,
            r.id@.len() == 36,
    {
        User { id: new_id(), name, created_at: now_rfc3339() }
    }
}

impl Clone for User {
    fn clone(&self) -> (r: Self)
        ensures
            r == *self,
    {
        User { id: self.id.clone(), name: self.name.clone(), created_at: self.created_at.clone() }
    }
}

/// Form: a new user.
#[derive(Debug)]
pub struct CreateUserForm {
    pub name: String,
}

} // verus!
