//! User accounts and how a fresh one is built.

use vstd::prelude::*;

verus! {

/// An account: whether it is active, who owns it, and how often they signed in.
#[derive(Debug)]
pub struct User {
    pub active: bool,
    pub username: String,
    pub email: String,
    pub sign_in_count: u64,
}

/// Builds a fresh, active account for the given address and name, with a
/// single sign-in on record.
pub fn build_user(email: String, username: String) -> (u: User)
    ensures
        u.active == true,
        u.username@ == username@,
        u.email@ == email@,
        u.sign_in_count == 1,
{
    User { active: true, username, email, sign_in_count: 1 }
}

} // verus!
