//! The stored form of the record: an object with one string member per
//! field, and the validation that turns a stored value back into a record.

use crate::error::AuthError;
use crate::json::{json_of, member, members_of, object_value, text_value, Json};
use crate::record::{AuthData, AuthRecord, Field};
use vstd::prelude::*;

verus! {

/// The stored form of a record: an object whose members are exactly the three
/// fields, each a string.
pub open spec fn encoded(record: AuthRecord) -> Json {
    Json::Object(
        Map::empty().insert(Field::Email.name(), Json::Text(record.email)).insert(
            Field::HashedPassword.name(),
            Json::Text(record.hashed_password),
        ).insert(Field::Token.name(), Json::Text(record.token)),
    )
}

/// What the members of a stored object give for one field: its text, or the
/// failure that the field causes.
pub open spec fn field_text(members: Map<Seq<char>, Json>, field: Field) -> Result<
    Seq<char>,
    AuthError,
> {
    if !members.contains_key(field.name()) {
        Err(AuthError::MissingField(field))
    } else {
        match members[field.name()] {
            Json::Text(text) => Ok(text),
            _ => Err(AuthError::InvalidField(field)),
        }
    }
}

/// The record that a stored value holds. Anything but an object is rejected
/// as a whole; in an object the fields are looked at in the order email,
/// hashed password, token, and the first one that is missing or not a string
/// decides the failure. Members besides the three are ignored.
pub open spec fn decoded(stored: Json) -> Result<AuthRecord, AuthError> {
    match stored {
        Json::Object(members) => {
            let email = field_text(members, Field::Email);
            let hashed_password = field_text(members, Field::HashedPassword);
            let token = field_text(members, Field::Token);
            if email is Err {
                Err(email->Err_0)
            } else if hashed_password is Err {
                Err(hashed_password->Err_0)
            } else if token is Err {
                Err(token->Err_0)
            } else {
                Ok(
                    AuthRecord {
                        email: email->Ok_0,
                        hashed_password: hashed_password->Ok_0,
                        token: token->Ok_0,
                    },
                )
            }
        },
        _ => Err(AuthError::InvalidFormat),
    }
}

/// What a store's answer to a lookup holds, where it is `None` if nothing was
/// stored under the key.
pub open spec fn content_of(found: Option<&serde_json::Value>) -> Option<Json> {
    match found {
        Some(value) => Some(json_of(*value)),
        None => None,
    }
}

/// The outcome of reading the record, given what the lookup of its key found:
/// nothing found is a failure of its own, and a value found is validated.
pub open spec fn outcome_of(found: Option<Json>) -> Result<AuthRecord, AuthError> {
    match found {
        None => Err(AuthError::NotFound),
        Some(stored) => decoded(stored),
    }
}

/// The three member names differ from one another.
pub proof fn lemma_field_names_differ()
    ensures
        Field::Email.name() != Field::HashedPassword.name(),
        Field::Email.name() != Field::Token.name(),
        Field::HashedPassword.name() != Field::Token.name(),
{
    reveal_strlit("email");
    reveal_strlit("hashed_password");
    reveal_strlit("token");
    assert("email"@[0] != "token"@[0]);
}

/// Builds the stored form of a record.
pub fn encode_auth(auth: &AuthData) -> (stored: serde_json::Value)
    ensures
        json_of(stored) == encoded(auth@),
{
    let mut members = serde_json::Map::new();
    members.insert(Field::Email.key().to_owned(), text_value(auth.email.clone()));
    members.insert(
        Field::HashedPassword.key().to_owned(),
        text_value(auth.hashed_password.clone()),
    );
    members.insert(Field::Token.key().to_owned(), text_value(auth.token.clone()));
    object_value(members)
}

/// Reads one field from the members of a stored object.
fn read_field(members: &serde_json::Map<String, serde_json::Value>, field: Field) -> (read: Result<
    String,
    AuthError,
>)
    ensures
        match read {
            Ok(text) => field_text(members_of(*members), field) == Ok::<_, AuthError>(text@),
            Err(failure) => field_text(members_of(*members), field) == Err::<Seq<char>, _>(failure),
        },
{
    match member(members, field.key()) {
        None => Err(AuthError::MissingField(field)),
        Some(value) => match value.as_str() {
            None => Err(AuthError::InvalidField(field)),
            Some(text) => Ok(text.to_owned()),
        },
    }
}

/// Validates a stored value and returns the record it holds.
pub fn decode_auth(stored: &serde_json::Value) -> (read: Result<AuthData, AuthError>)
    ensures
        match read {
            Ok(auth) => decoded(json_of(*stored)) == Ok::<_, AuthError>(auth@),
            Err(failure) => decoded(json_of(*stored)) == Err::<AuthRecord, _>(failure),
        },
{
    let members = match stored.as_object() {
        Some(members) => members,
        None => {
            return Err(AuthError::InvalidFormat);
        },
    };
    let email = match read_field(members, Field::Email) {
        Ok(text) => text,
        Err(failure) => {
            return Err(failure);
        },
    };
    let hashed_password = match read_field(members, Field::HashedPassword) {
        Ok(text) => text,
        Err(failure) => {
            return Err(failure);
        },
    };
    let token = match read_field(members, Field::Token) {
        Ok(text) => text,
        Err(failure) => {
            return Err(failure);
        },
    };
    Ok(AuthData { email, hashed_password, token })
}

/// Turns what the store returned for the record's key into the record or the
/// failure to report.
pub fn read_auth(found: Option<&serde_json::Value>) -> (read: Result<AuthData, AuthError>)
    ensures
        match read {
            Ok(auth) => outcome_of(content_of(found)) == Ok::<_, AuthError>(auth@),
            Err(failure) => outcome_of(content_of(found)) == Err::<AuthRecord, _>(failure),
        },
{
    match found {
        None => Err(AuthError::NotFound),
        Some(stored) => decode_auth(stored),
    }
}

/// Reading back the stored form of a record gives that record.
pub proof fn lemma_decode_inverts_encode(record: AuthRecord)
    ensures
        decoded(encoded(record)) == Ok::<_, AuthError>(record),
{
    lemma_field_names_differ();
}

/// A stored value that is not an object is rejected for its format, whatever
/// it is.
pub proof fn lemma_only_objects_are_read(stored: Json)
    requires
        !(stored is Object),
    ensures
        decoded(stored) == Err::<AuthRecord, _>(AuthError::InvalidFormat),
{
}

/// An object without an email member is rejected for the missing email,
/// whatever its other members are.
pub proof fn lemma_missing_email_is_reported(members: Map<Seq<char>, Json>)
    requires
        !members.contains_key(Field::Email.name()),
    ensures
        decoded(Json::Object(members)) == Err::<AuthRecord, _>(
            AuthError::MissingField(Field::Email),
        ),
{
}

/// An object whose email member is not a string is rejected for the email's
/// format, whatever its other members are.
pub proof fn lemma_malformed_email_is_reported(members: Map<Seq<char>, Json>)
    requires
        members.contains_key(Field::Email.name()),
        !(members[Field::Email.name()] is Text),
    ensures
        decoded(Json::Object(members)) == Err::<AuthRecord, _>(
            AuthError::InvalidField(Field::Email),
        ),
{
}

} // verus!
