use auth_store::{encode_auth, Action, AuthData, AuthError, Command, Event, Field, Session};
use serde_json::Value;

fn record(email: &str, hashed_password: &str, token: &str) -> AuthData {
    AuthData::new(email.to_string(), hashed_password.to_string(), token.to_string())
}

fn parse(text: &str) -> Value {
    serde_json::from_str(text).expect("the test's JSON text is well formed")
}

fn opened(command: Command) -> (Session, Option<Action>) {
    let (session, action) = Session::start(command);
    assert_eq!(action, Action::Open);
    session.step(Event::Opened)
}

#[test]
fn every_command_begins_by_opening_the_store() {
    let commands = [
        Command::SaveAuth(record("a@b.com", "h1", "t1")),
        Command::GetAuth,
        Command::LogOut,
    ];
    for command in commands {
        let (session, action) = Session::start(command.clone());
        assert_eq!(session, Session::Opening(command));
        assert_eq!(action, Action::Open);
    }
}

#[test]
fn a_store_that_does_not_open_ends_the_command() {
    let commands = [
        Command::SaveAuth(record("a@b.com", "h1", "t1")),
        Command::GetAuth,
        Command::LogOut,
    ];
    for command in commands {
        let (session, _) = Session::start(command);
        let (session, action) = session.step(Event::OpenFailed("no such directory".to_string()));
        assert_eq!(session, Session::Finished);
        assert_eq!(
            action,
            Some(Action::Finish(Err(AuthError::StoreOpenFailed("no such directory".to_string()))))
        );
    }
}

#[test]
fn saving_sets_saves_closes_and_succeeds() {
    let auth = record("a@b.com", "h1", "t1");
    let (session, action) = opened(Command::SaveAuth(auth.clone()));
    assert_eq!(session, Session::Changing);
    assert_eq!(action, Some(Action::Put(encode_auth(&auth))));
    assert_eq!(
        action,
        Some(Action::Put(parse(r#"{"email":"a@b.com","hashed_password":"h1","token":"t1"}"#)))
    );
    let (session, action) = session.step(Event::Changed);
    assert_eq!(session, Session::Saving);
    assert_eq!(action, Some(Action::Save));
    let (session, action) = session.step(Event::Saved);
    assert_eq!(session, Session::Closing(Ok(None)));
    assert_eq!(action, Some(Action::Close));
    let (session, action) = session.step(Event::Closed);
    assert_eq!(session, Session::Finished);
    assert_eq!(action, Some(Action::Finish(Ok(None))));
}

#[test]
fn logging_out_deletes_saves_closes_and_succeeds() {
    let (session, action) = opened(Command::LogOut);
    assert_eq!(session, Session::Changing);
    assert_eq!(action, Some(Action::Delete));
    let (session, action) = session.step(Event::Changed);
    assert_eq!(session, Session::Saving);
    assert_eq!(action, Some(Action::Save));
    let (session, action) = session.step(Event::Saved);
    assert_eq!(session, Session::Closing(Ok(None)));
    assert_eq!(action, Some(Action::Close));
    let (session, action) = session.step(Event::Closed);
    assert_eq!(session, Session::Finished);
    assert_eq!(action, Some(Action::Finish(Ok(None))));
}

#[test]
fn a_failed_save_is_reported_after_closing() {
    let commands = [Command::SaveAuth(record("a@b.com", "h1", "t1")), Command::LogOut];
    for command in commands {
        let (session, _) = opened(command);
        let (session, _) = session.step(Event::Changed);
        let (session, action) = session.step(Event::SaveFailed("disk full".to_string()));
        assert_eq!(
            session,
            Session::Closing(Err(AuthError::StoreSaveFailed("disk full".to_string())))
        );
        assert_eq!(action, Some(Action::Close));
        let (session, action) = session.step(Event::Closed);
        assert_eq!(session, Session::Finished);
        assert_eq!(
            action,
            Some(Action::Finish(Err(AuthError::StoreSaveFailed("disk full".to_string()))))
        );
    }
}

#[test]
fn reading_gets_closes_and_returns_the_record() {
    let stored = encode_auth(&record("a@b.com", "h1", "t1"));
    let (session, action) = opened(Command::GetAuth);
    assert_eq!(session, Session::Reading);
    assert_eq!(action, Some(Action::Get));
    let (session, action) = session.step(Event::Found(Some(&stored)));
    assert_eq!(session, Session::Closing(Ok(Some(record("a@b.com", "h1", "t1")))));
    assert_eq!(action, Some(Action::Close));
    let (session, action) = session.step(Event::Closed);
    assert_eq!(session, Session::Finished);
    assert_eq!(action, Some(Action::Finish(Ok(Some(record("a@b.com", "h1", "t1"))))));
}

#[test]
fn reading_nothing_closes_and_reports_not_found() {
    let (session, _) = opened(Command::GetAuth);
    let (session, action) = session.step(Event::Found(None));
    assert_eq!(session, Session::Closing(Err(AuthError::NotFound)));
    assert_eq!(action, Some(Action::Close));
    let (session, action) = session.step(Event::Closed);
    assert_eq!(session, Session::Finished);
    assert_eq!(action, Some(Action::Finish(Err(AuthError::NotFound))));
}

#[test]
fn reading_a_malformed_value_closes_and_reports_it() {
    let cases = [
        (parse("[1,2]"), AuthError::InvalidFormat),
        (parse(r#"{"email":1,"hashed_password":2,"token":3}"#), AuthError::InvalidField(Field::Email)),
        (parse(r#"{"email":"a@b.com"}"#), AuthError::MissingField(Field::HashedPassword)),
        (
            parse(r#"{"email":"a@b.com","hashed_password":"h1","token":3}"#),
            AuthError::InvalidField(Field::Token),
        ),
    ];
    for (stored, failure) in cases {
        let (session, _) = opened(Command::GetAuth);
        let (session, action) = session.step(Event::Found(Some(&stored)));
        assert_eq!(session, Session::Closing(Err(failure.clone())));
        assert_eq!(action, Some(Action::Close));
        let (_, action) = session.step(Event::Closed);
        assert_eq!(action, Some(Action::Finish(Err(failure))));
    }
}

#[test]
fn an_event_that_is_not_awaited_changes_nothing() {
    let stored = parse("{}");
    let events = || {
        vec![
            Event::Opened,
            Event::OpenFailed("x".to_string()),
            Event::Found(Some(&stored)),
            Event::Found(None),
            Event::Changed,
            Event::Saved,
            Event::SaveFailed("x".to_string()),
            Event::Closed,
        ]
    };
    let awaited = |session: &Session, event: &Event| match session {
        Session::Opening(_) => matches!(event, Event::Opened | Event::OpenFailed(_)),
        Session::Reading => matches!(event, Event::Found(_)),
        Session::Changing => matches!(event, Event::Changed),
        Session::Saving => matches!(event, Event::Saved | Event::SaveFailed(_)),
        Session::Closing(_) => matches!(event, Event::Closed),
        Session::Finished => false,
    };
    let sessions = || {
        vec![
            Session::Opening(Command::GetAuth),
            Session::Opening(Command::LogOut),
            Session::Opening(Command::SaveAuth(record("a@b.com", "h1", "t1"))),
            Session::Reading,
            Session::Changing,
            Session::Saving,
            Session::Closing(Ok(None)),
            Session::Closing(Err(AuthError::NotFound)),
            Session::Finished,
        ]
    };
    for (at, before) in sessions().into_iter().enumerate() {
        for event in events() {
            let session = sessions().remove(at);
            let expected = awaited(&session, &event);
            let (after, action) = session.step(event);
            assert_eq!(action.is_some(), expected);
            if !expected {
                assert_eq!(after, before);
            } else {
                assert_ne!(after, before);
            }
        }
    }
}

#[test]
fn the_outcome_is_handed_out_only_once_the_store_is_closed() {
    let stored = parse("{}");
    let sessions = || {
        vec![
            Session::Reading,
            Session::Changing,
            Session::Saving,
            Session::Closing(Ok(None)),
        ]
    };
    let events = || {
        vec![
            Event::Opened,
            Event::OpenFailed("x".to_string()),
            Event::Found(Some(&stored)),
            Event::Changed,
            Event::Saved,
            Event::SaveFailed("x".to_string()),
            Event::Closed,
        ]
    };
    for at in 0..sessions().len() {
        for event in events() {
            let before = sessions().remove(at);
            let closing = matches!(before, Session::Closing(_)) && matches!(event, Event::Closed);
            let (after, action) = before.step(event);
            let finished = matches!(action, Some(Action::Finish(_)));
            assert_eq!(finished, closing);
            assert_eq!(after == Session::Finished, closing);
        }
    }
}
