//! A user record and its constructor.

use vstd::prelude::*;

verus! {

/// A point in space, as a tuple struct.
pub struct Location(pub i32, pub i32, pub i32);

/// An account, owning all of its data.
pub struct User {
    pub active: bool,
    pub username: String,
    pub email: String,
    pub sign_in_count: u64,
    pub location: Location,
}

/// Builds a fresh, active user at the origin with no sign-ins yet.
pub fn create_user(email: String, username: String) -> (r: User)
    ensures
        r.active,
        r.sign_in_count == 0,
        r.location == (Location(0, 0, 0)),
        r.email@ == email@,
        r.username@ == username@,
{
    User {
        active: true,
        sign_in_count: 0,
        location: Location(0, 0, 0),
        email,
        username,
    }
}

} // verus!
