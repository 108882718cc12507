//! Structs and how they are built.

use vstd::prelude::*;
use vstd::string::*;

verus! {

/// A struct with named fields.
#[derive(Debug)]
pub struct User {
    pub username: String,
    pub email: String,
    pub sign_in_count: u64,
    pub active: bool,
}

/// A `User` as plain values: the two texts as sequences of characters.
pub struct UserView {
    pub username: Seq<char>,
    pub email: Seq<char>,
    pub sign_in_count: u64,
    pub active: bool,
}

impl View for User {
    type V = UserView;

    open spec fn view(&self) -> UserView {
        UserView {
            username: self.username@,
            email: self.email@,
            sign_in_count: self.sign_in_count,
            active: self.active,
        }
    }
}

/// A tuple struct names the type but not its fields. Two tuple structs with
/// the same field types are still two types.
#[derive(Debug, PartialEq, Eq, Structural)]
pub struct Color(pub i32, pub i32, pub i32);

/// A unit-like struct has no fields and behaves much like `()`.
#[derive(Debug)]
pub struct UnitLike();

/// What the walk through structs arrives at.
pub struct Structs {
    /// A user written out field by field.
    pub u: User,
    /// A user from [`chapter05_build_user`].
    pub u2: User,
    /// A user with texts of its own that takes the rest from `u2`.
    pub u3: User,
    /// An instance of the tuple struct.
    pub t: Color,
}

/// Builds users in three ways, and a tuple struct.
///
/// A struct literal may name its fields in any order. An instance is mutable
/// or not as a whole. Struct update syntax, `..u2`, fills the fields that the
/// literal leaves out from another instance.
pub fn chapter05() -> (shown: Structs)
    ensures
        shown.u@ == (UserView {
            username: "someusername123"@,
            email: "someone@example.com"@,
            sign_in_count: 1,
            active: true,
        }),
        shown.u2@ == (UserView {
            username: "foo"@,
            email: "a@b.net"@,
            sign_in_count: 1,
            active: true,
        }),
        shown.u3@ == (UserView {
            username: "anotherusername567"@,
            email: "another@example.com"@,
            sign_in_count: shown.u2.sign_in_count,
            active: shown.u2.active,
        }),
        shown.t == Color(0, 0, 0),
{
    let u = User {
        email: String::from_str("someone@example.com"),
        username: String::from_str("someusername123"),
        active: true,
        sign_in_count: 1,
    };

    let u2 = chapter05_build_user(String::from_str("a@b.net"), String::from_str("foo"));

    // Only the two fields that are copied are taken from `u2`, which stays
    // whole.
    let u3 = User {
        email: String::from_str("another@example.com"),
        username: String::from_str("anotherusername567"),
        ..u2
    };

    let t = Color(0, 0, 0);

    Structs { u, u2, u3, t }
}

/// Builds a user who is active and has signed in once.
///
/// Where a variable has the name of the field it fills, the field init
/// shorthand lets the name stand alone: `email` for `email: email`.
pub fn chapter05_build_user(email: String, username: String) -> (user: User)
    ensures
        user@ == (UserView { username: username@, email: email@, sign_in_count: 1, active: true }),
{
    User { email, username, active: true, sign_in_count: 1 }
}

} // verus!
