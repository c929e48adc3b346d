//! What can go wrong with a command, and the message each failure carries to
//! the caller.

use crate::record::Field;
use vstd::prelude::*;

verus! {

/// The ways a command can fail.
#[derive(Clone, Debug, PartialEq, Eq)]
pub enum AuthError {
    /// The store could not be opened; the text is the cause as the store
    /// described it.
    StoreOpenFailed(String),
    /// The store could not be written to disk; the text is the cause as the
    /// store described it.
    StoreSaveFailed(String),
    /// Nothing is stored under the record's key.
    NotFound,
    /// What is stored under the record's key is not an object.
    InvalidFormat,
    /// The stored object has no member for the field.
    MissingField(Field),
    /// The stored object has a member for the field that is not a string.
    InvalidField(Field),
}

impl AuthError {
    /// The message that the caller is given for the failure. A failure of the
    /// store carries the store's own words.
    pub open spec fn text(self) -> Seq<char> {
        match self {
            AuthError::StoreOpenFailed(cause) => cause@,
            AuthError::StoreSaveFailed(cause) => cause@,
            AuthError::NotFound => "Auth data not found"@,
            AuthError::InvalidFormat => "Invalid auth data format"@,
            AuthError::MissingField(Field::Email) => "Email not found"@,
            AuthError::MissingField(Field::HashedPassword) => "Hashed password not found"@,
            AuthError::MissingField(Field::Token) => "Token not found"@,
            AuthError::InvalidField(Field::Email) => "Invalid email format"@,
            AuthError::InvalidField(Field::HashedPassword) => "Invalid hashed password format"@,
            AuthError::InvalidField(Field::Token) => "Invalid token format"@,
        }
    }

    /// The message that the caller is given for the failure.
    pub fn message(&self) -> (message: String)
        ensures
            message@ == self.text(),
    {
        match self {
            AuthError::StoreOpenFailed(cause) => cause.clone(),
            AuthError::StoreSaveFailed(cause) => cause.clone(),
            AuthError::NotFound => "Auth data not found".to_owned(),
            AuthError::InvalidFormat => "Invalid auth data format".to_owned(),
            AuthError::MissingField(Field::Email) => "Email not found".to_owned(),
            AuthError::MissingField(Field::HashedPassword) => "Hashed password not found".to_owned(),
            AuthError::MissingField(Field::Token) => "Token not found".to_owned(),
            AuthError::InvalidField(Field::Email) => "Invalid email format".to_owned(),
            AuthError::InvalidField(Field::HashedPassword) => "Invalid hashed password format".to_owned(),
            AuthError::InvalidField(Field::Token) => "Invalid token format".to_owned(),
        }
    }
}

} // verus!
