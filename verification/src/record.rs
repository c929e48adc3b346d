//! The authentication record and the names of its fields in the stored object.

use vstd::prelude::*;

verus! {

/// One of the three members of the stored object, in the order in which they
/// are validated.
#[derive(Clone, Copy, Debug, PartialEq, Eq, Structural)]
pub enum Field {
    Email,
    HashedPassword,
    Token,
}

impl Field {
    /// The member name under which the field is stored.
    pub open spec fn name(self) -> Seq<char> {
        match self {
            Field::Email => "email"@,
            Field::HashedPassword => "hashed_password"@,
            Field::Token => "token"@,
        }
    }

    /// The member name under which the field is stored.
    pub fn key(self) -> (k: &'static str)
        ensures
            k@ == self.name(),
    {
        match self {
            Field::Email => "email",
            Field::HashedPassword => "hashed_password",
            Field::Token => "token",
        }
    }
}

/// The authentication record: who is signed in, the hash of their password
/// and the session token. All three are opaque text here.
#[derive(Clone, Debug, PartialEq, Eq)]
pub struct AuthData {
    pub email: String,
    pub hashed_password: String,
    pub token: String,
}

/// The text of the three fields of an [`AuthData`].
pub struct AuthRecord {
    pub email: Seq<char>,
    pub hashed_password: Seq<char>,
    pub token: Seq<char>,
}

impl View for AuthData {
    type V = AuthRecord;

    open spec fn view(&self) -> AuthRecord {
        AuthRecord {
            email: self.email@,
            hashed_password: self.hashed_password@,
            token: self.token@,
        }
    }
}

impl AuthData {
    /// A record of the three given texts.
    pub fn new(email: String, hashed_password: String, token: String) -> (auth: AuthData)
        ensures
            auth@ == (AuthRecord { email: email@, hashed_password: hashed_password@, token: token@ }),
    {
        AuthData { email, hashed_password, token }
    }
}

} // verus!
