use rpush::aes::{derive_key, encrypt_with_key, VaultError};
use rpush::config::ServerSpace;
use rpush::session::{
    address, artifact, confirmed, extract_command, get_ssh_session, is_confirmation, wipe_command,
    Action, ActionKind, Event, Failure, FailureClass, Field, Outcome, SessionState,
};

#[test]
fn address_names_the_port_of_the_remote_shell() {
    assert_eq!(address("10.0.0.1"), "10.0.0.1:22");
    assert_eq!(address("example.org"), "example.org:22");
}

#[test]
fn artifact_stands_beside_the_directory() {
    assert_eq!(artifact("/work/site"), "/work/site.tar.gz");
}

#[test]
fn extract_command_unpacks_in_place_and_deletes_the_archive() {
    assert_eq!(
        extract_command("/srv/app", "site.tar.gz"),
        "cd /srv/app;tar zxf site.tar.gz;rm -rf site.tar.gz"
    );
}

#[test]
fn wipe_command_clears_the_contents_and_keeps_the_directory() {
    assert_eq!(wipe_command("/srv/app"), "rm -rf /srv/app/*");
}

#[test]
fn only_yes_confirms() {
    assert!(confirmed("yes"));
    assert!(confirmed("YES"));
    assert!(confirmed("Yes\n"));
    assert!(confirmed("  yEs \r\n"));
    assert!(!confirmed("no"));
    assert!(!confirmed(""));
    assert!(!confirmed("y"));
    assert!(!confirmed("yes please"));
    assert!(!confirmed("y e s"));
    assert!(!confirmed("yess"));
    assert!(is_confirmation(" yes "));
    assert!(!is_confirmation("YES"));
}

#[test]
fn session_states_follow_the_protocol() {
    let start = SessionState::Disconnected;
    assert_eq!(start.dial(), SessionState::Authenticating);
    assert_eq!(start.dial().answer(true), SessionState::Connected);
    assert_eq!(start.dial().answer(false), SessionState::Disconnected);
    assert_eq!(start.dial().answer(true).close(), SessionState::Closed);
    assert_eq!(SessionState::Closed.close(), SessionState::Closed);
    assert_eq!(SessionState::Disconnected.close(), SessionState::Closed);
    // Only a disconnected session dials, and only a dialing one is answered.
    assert_eq!(SessionState::Connected.dial(), SessionState::Connected);
    assert_eq!(SessionState::Closed.dial(), SessionState::Closed);
    assert_eq!(SessionState::Connected.answer(false), SessionState::Connected);
    assert_eq!(SessionState::Disconnected.answer(true), SessionState::Disconnected);
}

#[test]
fn events_tell_success_from_failure() {
    assert!(Event::Done.is_good());
    assert!(Event::Directory(true).is_good());
    assert!(Event::Exited(0).is_good());
    assert!(!Event::Directory(false).is_good());
    assert!(!Event::Exited(1).is_good());
    assert!(!Event::Failed.is_good());
    assert!(!Event::Line("yes".to_string()).is_good());
    assert!(Event::Exited(2).has_run());
    assert!(Event::Done.has_run());
    assert!(!Event::Failed.has_run());
    assert_eq!(Event::Line("abc".to_string()).line(), "abc");
    assert_eq!(Event::Done.line(), "");
}

#[test]
fn actions_know_their_kind() {
    assert_eq!(Action::Prompt(Field::Host).kind(), ActionKind::Prompt);
    assert_eq!(Action::Confirm.kind(), ActionKind::Confirm);
    assert_eq!(Action::Store.kind(), ActionKind::Store);
    assert_eq!(Action::CheckDirectory { path: "p".into() }.kind(), ActionKind::CheckDirectory);
    assert_eq!(
        Action::Archive { source: "s".into(), artifact: "a".into() }.kind(),
        ActionKind::Archive
    );
    assert_eq!(
        Action::Connect { address: "a".into(), user: "u".into(), password: "p".into() }.kind(),
        ActionKind::Connect
    );
    assert_eq!(
        Action::Upload { local: "l".into(), remote_dir: "r".into() }.kind(),
        ActionKind::Upload
    );
    assert_eq!(Action::Execute { command: "c".into() }.kind(), ActionKind::Execute);
    assert_eq!(Action::Close.kind(), ActionKind::Close);
    assert_eq!(Action::RemoveFile { path: "p".into() }.kind(), ActionKind::RemoveFile);
    assert_eq!(Action::Finish(Outcome::Added).kind(), ActionKind::Finish);
}

#[test]
fn a_password_that_cannot_be_opened_is_told_like_a_host_that_cannot_be_reached() {
    assert_eq!(Failure::Decryption.class(), FailureClass::Remote);
    assert_eq!(Failure::Connection.class(), FailureClass::Remote);
    assert_eq!(Failure::Upload.class(), FailureClass::Remote);
    assert_eq!(Failure::RemoteExtract.class(), FailureClass::Remote);
    assert_eq!(Failure::RemoteExec.class(), FailureClass::Remote);
    assert_eq!(Failure::EmptyField(Field::Name).class(), FailureClass::Validation);
    assert_eq!(Failure::DuplicateName.class(), FailureClass::Validation);
    assert_eq!(Failure::InvalidArgument.class(), FailureClass::Validation);
    assert_eq!(Failure::SpaceNotFound.class(), FailureClass::NotFound);
    assert_eq!(Failure::Archive.class(), FailureClass::Local);
    assert_eq!(Failure::Storage.class(), FailureClass::Local);
    assert_eq!(Failure::Encryption.class(), FailureClass::Local);
    assert_eq!(Failure::Cleanup.class(), FailureClass::Local);
}

#[test]
fn only_failures_are_no_success() {
    assert!(Outcome::Added.is_success());
    assert!(Outcome::Listed(vec![]).is_success());
    assert!(Outcome::Aborted.is_success());
    assert!(Outcome::Wiped.is_success());
    assert!(!Outcome::Failed(Failure::SpaceNotFound).is_success());
}

#[test]
fn session_request_carries_the_opened_password() {
    let key = derive_key(&[1, 2, 3, 4, 5, 6]);
    let token = encrypt_with_key(&key, "secret");
    let space = ServerSpace::new("prod", "10.0.0.1", "/srv/app", "deploy", &token);
    assert_eq!(
        get_ssh_session(&Ok(key), &space),
        Ok(Action::Connect {
            address: "10.0.0.1:22".to_string(),
            user: "deploy".to_string(),
            password: "secret".to_string(),
        })
    );
}

#[test]
fn session_request_fails_where_the_password_cannot_be_opened() {
    let key = derive_key(&[1, 2, 3, 4, 5, 6]);
    let space = ServerSpace::new("prod", "10.0.0.1", "/srv/app", "deploy", "secret");
    assert_eq!(get_ssh_session(&Ok(key), &space), Err(VaultError::Encoding));
    assert_eq!(
        get_ssh_session(&Err(VaultError::KeyUnavailable), &space),
        Err(VaultError::KeyUnavailable)
    );
}
