//! An account record and small tuple-struct shapes.

use vstd::prelude::*;

verus! {

/// An account holder.
pub struct User {
    pub username: String,
    pub email: String,
    pub sign_in_count: u64,
    pub active: bool,
}

/// Builds an active account with a single recorded sign-in.
pub fn build_user(email: String, username: String) -> (user: User)
    ensures
        user.email == email,
        user.username == username,
        user.active == true,
        user.sign_in_count == 1,
{
    User { email, username, active: true, sign_in_count: 1 }
}

/// An RGB colour triple.
#[derive(Clone, Copy, Debug, PartialEq, Eq, Structural)]
pub struct Color(pub i32, pub i32, pub i32);

/// A point in three-dimensional space.
#[derive(Clone, Copy, Debug, PartialEq, Eq, Structural)]
pub struct Point(pub i32, pub i32, pub i32);

/// Builds one value of each tuple-struct shape, both at the origin.
pub fn create_tuple_structs() -> (r: (Color, Point))
    ensures
        r.0 == (Color(0, 0, 0)),
        r.1 == (Point(0, 0, 0)),
{
    (Color(0, 0, 0), Point(0, 0, 0))
}

} // verus!
