//! The commands as they act on the store's document: the JSON object that
//! maps each key of the store to its value. The record lives under one key;
//! the other members of the document are never touched.

use crate::codec::{encode_auth, encoded, lemma_decode_inverts_encode, outcome_of, read_auth};
use crate::error::AuthError;
use crate::json::{json_of, member, members_of, remove_member, Json};
use crate::protocol::{outcome_view, read_outcome, Action, Command, Event, Session, AUTH_KEY};
use crate::record::{AuthData, AuthRecord};
use vstd::prelude::*;

verus! {

/// What a lookup of the record's key in a document finds.
pub open spec fn lookup(document: Map<Seq<char>, Json>) -> Option<Json> {
    if document.contains_key(AUTH_KEY@) {
        Some(document[AUTH_KEY@])
    } else {
        None
    }
}

/// The outcome of reading the record from a document.
pub open spec fn stored_auth(document: Map<Seq<char>, Json>) -> Result<AuthRecord, AuthError> {
    outcome_of(lookup(document))
}

/// The document after a record was saved: the whole record replaces whatever
/// was under the key.
pub open spec fn after_save(document: Map<Seq<char>, Json>, record: AuthRecord) -> Map<
    Seq<char>,
    Json,
> {
    document.insert(AUTH_KEY@, encoded(record))
}

/// The document after logging out: nothing is under the key.
pub open spec fn after_log_out(document: Map<Seq<char>, Json>) -> Map<Seq<char>, Json> {
    document.remove(AUTH_KEY@)
}

/// The document that a command leaves behind.
pub open spec fn document_after(command: Command, document: Map<Seq<char>, Json>) -> Map<
    Seq<char>,
    Json,
> {
    match command {
        Command::SaveAuth(auth) => after_save(document, auth@),
        Command::GetAuth => document,
        Command::LogOut => after_log_out(document),
    }
}

/// The outcome of a command on a document that can always be opened and
/// saved.
pub open spec fn outcome_on(command: Command, document: Map<Seq<char>, Json>) -> Result<
    Option<AuthRecord>,
    AuthError,
> {
    match command {
        Command::GetAuth => read_outcome(stored_auth(document)),
        _ => Ok(None),
    }
}

/// Writes the whole record under its key, replacing an earlier one.
pub fn save_auth(document: &mut serde_json::Map<String, serde_json::Value>, auth: AuthData)
    ensures
        members_of(*final(document)) == after_save(members_of(*old(document)), auth@),
{
    document.insert(AUTH_KEY.to_owned(), encode_auth(&auth));
}

/// Reads the record from under its key.
pub fn get_auth(document: &serde_json::Map<String, serde_json::Value>) -> (read: Result<
    AuthData,
    AuthError,
>)
    ensures
        match read {
            Ok(auth) => stored_auth(members_of(*document)) == Ok::<_, AuthError>(auth@),
            Err(failure) => stored_auth(members_of(*document)) == Err::<AuthRecord, _>(failure),
        },
{
    read_auth(member(document, AUTH_KEY))
}

/// Removes the record. A document without one stays as it is.
pub fn log_out(document: &mut serde_json::Map<String, serde_json::Value>)
    ensures
        members_of(*final(document)) == after_log_out(members_of(*old(document))),
{
    remove_member(document, AUTH_KEY);
}

/// Whether a session for `command`, begun on the document `start`, is where
/// it should be when it has just asked for `action` and the document has
/// become `document`.
spec fn on_course(
    command: Command,
    start: Map<Seq<char>, Json>,
    session: Session,
    action: Action,
    document: Map<Seq<char>, Json>,
) -> bool {
    match session {
        Session::Opening(asked) => asked == command && action == Action::Open && document == start,
        Session::Reading => command is GetAuth && action == Action::Get && document == start,
        Session::Changing => {
            &&& document == start
            &&& match command {
                Command::SaveAuth(auth) => action matches Action::Put(value) && json_of(value)
                    == encoded(auth@),
                Command::GetAuth => false,
                Command::LogOut => action == Action::Delete,
            }
        },
        Session::Saving => {
            &&& !(command is GetAuth)
            &&& action == Action::Save
            &&& document == document_after(command, start)
        },
        Session::Closing(outcome) => {
            &&& action == Action::Close
            &&& document == document_after(command, start)
            &&& outcome_view(outcome) == outcome_on(command, start)
        },
        Session::Finished => {
            &&& action matches Action::Finish(outcome)
            &&& document == document_after(command, start)
            &&& outcome_view(outcome) == outcome_on(command, start)
        },
    }
}

/// Carries out a command on a document held in memory, which can always be
/// opened and saved: plays the store's part in the session until the outcome
/// is handed out.
pub fn execute(
    document: &mut serde_json::Map<String, serde_json::Value>,
    command: Command,
) -> (outcome: Result<Option<AuthData>, AuthError>)
    ensures
        members_of(*final(document)) == document_after(command, members_of(*old(document))),
        outcome_view(outcome) == outcome_on(command, members_of(*old(document))),
{
    let ghost asked = command;
    let ghost start = members_of(*document);
    let (mut session, mut action) = Session::start(command);
    loop
        invariant
            asked == command,
            start == members_of(*old(document)),
            on_course(asked, start, session, action, members_of(*document)),
        decreases session.remaining(),
    {
        let event = match action {
            Action::Open => Event::Opened,
            Action::Put(value) => {
                document.insert(AUTH_KEY.to_owned(), value);
                Event::Changed
            },
            Action::Get => Event::Found(member(document, AUTH_KEY)),
            Action::Delete => {
                remove_member(document, AUTH_KEY);
                Event::Changed
            },
            Action::Save => Event::Saved,
            Action::Close => Event::Closed,
            Action::Finish(outcome) => {
                return outcome;
            },
        };
        let (next, asked_next) = session.step(event);
        session = next;
        action =
        match asked_next {
            Some(next_action) => next_action,
            None => unreached(),
        };
    }
}

/// A record that was saved is the record that is read, whatever the document
/// held before.
pub proof fn lemma_save_then_get(document: Map<Seq<char>, Json>, record: AuthRecord)
    ensures
        stored_auth(after_save(document, record)) == Ok::<_, AuthError>(record),
{
    lemma_decode_inverts_encode(record);
}

/// A later save replaces an earlier one as a whole.
pub proof fn lemma_save_overwrites(
    document: Map<Seq<char>, Json>,
    first: AuthRecord,
    second: AuthRecord,
)
    ensures
        after_save(after_save(document, first), second) == after_save(document, second),
{
    assert(after_save(after_save(document, first), second) =~= after_save(document, second));
}

/// A document that holds nothing gives no record.
pub proof fn lemma_nothing_stored_is_not_found()
    ensures
        stored_auth(Map::empty()) == Err::<AuthRecord, _>(AuthError::NotFound),
{
}

/// Logging out a second time changes nothing.
pub proof fn lemma_log_out_is_idempotent(document: Map<Seq<char>, Json>)
    ensures
        after_log_out(after_log_out(document)) == after_log_out(document),
{
    assert(after_log_out(after_log_out(document)) =~= after_log_out(document));
}

/// After logging out no record is found, whatever the document held before.
pub proof fn lemma_log_out_then_get(document: Map<Seq<char>, Json>)
    ensures
        stored_auth(after_log_out(document)) == Err::<AuthRecord, _>(AuthError::NotFound),
{
}

/// Saving and logging out leave every other key of the document as it was.
pub proof fn lemma_other_keys_are_kept(
    document: Map<Seq<char>, Json>,
    record: AuthRecord,
    key: Seq<char>,
)
    requires
        key != AUTH_KEY@,
    ensures
        after_save(document, record).contains_key(key) == document.contains_key(key),
        after_log_out(document).contains_key(key) == document.contains_key(key),
        document.contains_key(key) ==> after_save(document, record)[key] == document[key]
            && after_log_out(document)[key] == document[key],
{
}

} // verus!
