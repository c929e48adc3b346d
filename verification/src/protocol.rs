//! The conversation between a command and the store.
//!
//! The store lives outside this crate: a shell opens it, reads and changes
//! it, saves it to disk and closes it again. A [`Session`] decides what the
//! shell does next. It hands out one [`Action`] at a time and takes back the
//! store's answer as an [`Event`], until it hands out the command's outcome.
//! A store that was opened is closed before the outcome is handed out, also
//! when saving failed.

use crate::codec::{content_of, encode_auth, encoded, outcome_of, read_auth};
use crate::error::AuthError;
use crate::json::json_of;
use crate::record::{AuthData, AuthRecord};
use vstd::prelude::*;

verus! {

/// The file that holds the store, relative to the application's data
/// directory.
pub const STORE_FILE: &'static str = "store.json";

/// The key of the store under which the record is kept.
pub const AUTH_KEY: &'static str = "auth";

/// A request of the caller.
#[derive(Clone, Debug, PartialEq, Eq)]
pub enum Command {
    /// Store the record, replacing an earlier one as a whole.
    SaveAuth(AuthData),
    /// Read the record.
    GetAuth,
    /// Remove the record.
    LogOut,
}

/// What the shell is asked to do next.
#[derive(Debug, PartialEq, Eq)]
pub enum Action {
    /// Open the store in [`STORE_FILE`]; answered by [`Event::Opened`] or
    /// [`Event::OpenFailed`].
    Open,
    /// Put the value under [`AUTH_KEY`]; answered by [`Event::Changed`].
    Put(serde_json::Value),
    /// Look up [`AUTH_KEY`]; answered by [`Event::Found`].
    Get,
    /// Delete [`AUTH_KEY`], which need not be there; answered by
    /// [`Event::Changed`].
    Delete,
    /// Write the store to disk; answered by [`Event::Saved`] or
    /// [`Event::SaveFailed`].
    Save,
    /// Release the handle of the store; answered by [`Event::Closed`].
    Close,
    /// Hand the outcome to the caller: the record for a read, nothing for
    /// the other commands, or the failure. The session is over.
    Finish(Result<Option<AuthData>, AuthError>),
}

/// The store's answer to an action.
#[derive(Debug, PartialEq, Eq)]
pub enum Event<'a> {
    Opened,
    /// The store could not be opened, with the cause in the store's words.
    OpenFailed(String),
    /// What is stored under the key, if anything.
    Found(Option<&'a serde_json::Value>),
    Changed,
    Saved,
    /// The store could not be written to disk, with the cause in the store's
    /// words.
    SaveFailed(String),
    Closed,
}

/// How far a command has come.
#[derive(Debug, PartialEq, Eq)]
pub enum Session {
    /// The store is being opened for the command.
    Opening(Command),
    /// The store is open and was asked for the record.
    Reading,
    /// The store is open and was asked to set or delete the record.
    Changing,
    /// The store is open and was asked to save itself.
    Saving,
    /// The store was asked to close; the outcome waits until it has.
    Closing(Result<Option<AuthData>, AuthError>),
    /// The outcome was handed out.
    Finished,
}

/// The outcome of a command by the text of the record it carries.
pub open spec fn outcome_view(outcome: Result<Option<AuthData>, AuthError>) -> Result<
    Option<AuthRecord>,
    AuthError,
> {
    match outcome {
        Ok(Some(auth)) => Ok(Some(auth@)),
        Ok(None) => Ok(None),
        Err(failure) => Err(failure),
    }
}

/// The outcome of a read as the outcome of its command.
pub open spec fn read_outcome(read: Result<AuthRecord, AuthError>) -> Result<
    Option<AuthRecord>,
    AuthError,
> {
    match read {
        Ok(record) => Ok(Some(record)),
        Err(failure) => Err(failure),
    }
}

impl Session {
    /// Whether the session holds the store open.
    pub open spec fn holds_store(self) -> bool {
        self is Reading || self is Changing || self is Saving || self is Closing
    }

    /// The most events that the session still takes before it is over.
    pub open spec fn remaining(self) -> nat {
        match self {
            Session::Opening(_) => 4,
            Session::Changing => 3,
            Session::Reading => 2,
            Session::Saving => 2,
            Session::Closing(_) => 1,
            Session::Finished => 0,
        }
    }

    /// Whether the event answers the action that the session asked for last.
    pub open spec fn awaits(self, event: Event) -> bool {
        match self {
            Session::Opening(_) => event is Opened || event is OpenFailed,
            Session::Reading => event is Found,
            Session::Changing => event is Changed,
            Session::Saving => event is Saved || event is SaveFailed,
            Session::Closing(_) => event is Closed,
            Session::Finished => false,
        }
    }

    /// Whether `after` and `action` are what follows `self` on `event`.
    ///
    /// An event that the session does not await changes nothing and asks for
    /// nothing. Otherwise: a failure to open ends the session with that
    /// failure; an opened store is asked for what the command needs; a change
    /// is followed by saving; a read or a save, failed or not, is followed by
    /// closing; and closing by the outcome.
    pub open spec fn follows(
        self,
        event: Event,
        after: Session,
        action: Option<Action>,
    ) -> bool {
        match (self, event) {
            (Session::Opening(Command::SaveAuth(auth)), Event::Opened) => {
                &&& after == Session::Changing
                &&& action matches Some(Action::Put(value))
                &&& json_of(value) == encoded(auth@)
            },
            (Session::Opening(Command::GetAuth), Event::Opened) => {
                &&& after == Session::Reading
                &&& action == Some(Action::Get)
            },
            (Session::Opening(Command::LogOut), Event::Opened) => {
                &&& after == Session::Changing
                &&& action == Some(Action::Delete)
            },
            (Session::Opening(_), Event::OpenFailed(cause)) => {
                &&& after == Session::Finished
                &&& action == Some(Action::Finish(Err(AuthError::StoreOpenFailed(cause))))
            },
            (Session::Reading, Event::Found(found)) => {
                &&& after matches Session::Closing(outcome)
                &&& outcome_view(outcome) == read_outcome(outcome_of(content_of(found)))
                &&& action == Some(Action::Close)
            },
            (Session::Changing, Event::Changed) => {
                &&& after == Session::Saving
                &&& action == Some(Action::Save)
            },
            (Session::Saving, Event::Saved) => {
                &&& after == Session::Closing(Ok(None))
                &&& action == Some(Action::Close)
            },
            (Session::Saving, Event::SaveFailed(cause)) => {
                &&& after == Session::Closing(Err(AuthError::StoreSaveFailed(cause)))
                &&& action == Some(Action::Close)
            },
            (Session::Closing(outcome), Event::Closed) => {
                &&& after == Session::Finished
                &&& action == Some(Action::Finish(outcome))
            },
            _ => after == self && action is None,
        }
    }

    /// Begins a command: the store is to be opened.
    pub fn start(command: Command) -> (begun: (Session, Action))
        ensures
            begun.0 == Session::Opening(command),
            begun.1 == Action::Open,
    {
        (Session::Opening(command), Action::Open)
    }

    /// Takes the store's answer and says what to do next.
    pub fn step(self, event: Event) -> (next: (Session, Option<Action>))
        ensures
            self.follows(event, next.0, next.1),
    {
        match (self, event) {
            (Session::Opening(Command::SaveAuth(auth)), Event::Opened) => (
                Session::Changing,
                Some(Action::Put(encode_auth(&auth))),
            ),
            (Session::Opening(Command::GetAuth), Event::Opened) => (
                Session::Reading,
                Some(Action::Get),
            ),
            (Session::Opening(Command::LogOut), Event::Opened) => (
                Session::Changing,
                Some(Action::Delete),
            ),
            (Session::Opening(_), Event::OpenFailed(cause)) => (
                Session::Finished,
                Some(Action::Finish(Err(AuthError::StoreOpenFailed(cause)))),
            ),
            (Session::Reading, Event::Found(found)) => {
                let outcome = match read_auth(found) {
                    Ok(auth) => Ok(Some(auth)),
                    Err(failure) => Err(failure),
                };
                (Session::Closing(outcome), Some(Action::Close))
            },
            (Session::Changing, Event::Changed) => (Session::Saving, Some(Action::Save)),
            (Session::Saving, Event::Saved) => (Session::Closing(Ok(None)), Some(Action::Close)),
            (Session::Saving, Event::SaveFailed(cause)) => (
                Session::Closing(Err(AuthError::StoreSaveFailed(cause))),
                Some(Action::Close),
            ),
            (Session::Closing(outcome), Event::Closed) => (
                Session::Finished,
                Some(Action::Finish(outcome)),
            ),
            (session, _) => (session, None),
        }
    }
}

/// An event that the session awaits brings it nearer to its end and is
/// answered by an action; any other event changes nothing and asks for
/// nothing. So a session is over after four awaited events at most.
pub proof fn lemma_awaited_events_advance(
    before: Session,
    event: Event,
    after: Session,
    action: Option<Action>,
)
    requires
        before.follows(event, after, action),
    ensures
        before.awaits(event) <==> action is Some,
        before.awaits(event) ==> after.remaining() < before.remaining(),
        !before.awaits(event) ==> after == before,
{
}

/// A store that was opened is closed before the outcome is handed out: while
/// the session holds the store it goes on holding it until the store reports
/// that it has closed, and the outcome is handed out only then, or when the
/// store could not be opened in the first place.
pub proof fn lemma_open_store_is_closed(
    before: Session,
    event: Event,
    after: Session,
    action: Option<Action>,
)
    requires
        before.follows(event, after, action),
    ensures
        before.holds_store() && !(before is Closing && event is Closed) ==> after.holds_store(),
        action matches Some(Action::Finish(_)) ==> (before is Opening && event is OpenFailed) || (
        before is Closing && event is Closed),
        action == Some(Action::Close) <==> after is Closing && !(before is Closing),
        action != Some(Action::Open),
{
}

/// A save that failed is reported as such, with the store's words for the
/// cause, and only after the store was closed.
pub proof fn lemma_failed_save_is_reported_after_closing(
    cause: String,
    closing: Session,
    first: Option<Action>,
    over: Session,
    second: Option<Action>,
)
    requires
        Session::Saving.follows(Event::SaveFailed(cause), closing, first),
        closing.follows(Event::Closed, over, second),
    ensures
        first == Some(Action::Close),
        second == Some(Action::Finish(Err(AuthError::StoreSaveFailed(cause)))),
        over == Session::Finished,
{
}

} // verus!
