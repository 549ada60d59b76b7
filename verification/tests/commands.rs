use rpush::aes::{derive_key, VaultError};
use rpush::config::{Config, ServerSpace};
use rpush::context::WorkingContext;
use rpush::manage::{
    handle_command_detail, handle_command_list, handle_command_remove, RemovalStage,
};
use rpush::session::{Action, ActionKind, Event, Failure, Field, Outcome};
use rpush::{run, Command, Task};

fn two_spaces() -> Config {
    let mut config = Config::new();
    config.add_server_space(ServerSpace::new("prod", "10.0.0.1", "/srv/app", "deploy", "t1")).unwrap();
    config.add_server_space(ServerSpace::new("test", "10.0.0.2", "/srv/test", "deploy", "t2")).unwrap();
    config
}

fn here() -> WorkingContext {
    WorkingContext::new("/work", "/home/me")
}

#[test]
fn an_empty_registry_lists_no_name_and_that_is_no_failure() {
    let action = handle_command_list(&Config::new());
    assert_eq!(action, Action::Finish(Outcome::Listed(vec![])));
    assert!(matches!(action, Action::Finish(ref outcome) if outcome.is_success()));
}

#[test]
fn listing_reports_the_names_in_order() {
    assert_eq!(
        handle_command_list(&two_spaces()),
        Action::Finish(Outcome::Listed(vec!["prod".to_string(), "test".to_string()]))
    );
}

#[test]
fn detail_reports_the_record_or_that_there_is_none() {
    assert_eq!(
        handle_command_detail(&two_spaces(), "test"),
        Action::Finish(Outcome::Detail(ServerSpace::new(
            "test",
            "10.0.0.2",
            "/srv/test",
            "deploy",
            "t2"
        )))
    );
    assert_eq!(
        handle_command_detail(&two_spaces(), "staging"),
        Action::Finish(Outcome::Failed(Failure::SpaceNotFound))
    );
}

#[test]
fn removing_drops_the_space_and_stores_the_registry() {
    let mut registry = two_spaces();
    let (mut removal, action) = handle_command_remove(&mut registry, "prod");
    assert_eq!(action, Action::Store);
    assert_eq!(removal.stage(), RemovalStage::Storing);
    assert_eq!(registry.list_server_space(), vec!["test".to_string()]);
    assert_eq!(removal.step(&mut registry, &Event::Done), Action::Finish(Outcome::Removed));
    assert_eq!(removal.stage(), RemovalStage::Finished);
    assert_eq!(removal.step(&mut registry, &Event::Failed), Action::Finish(Outcome::Removed));
    assert_eq!(registry.list_server_space(), vec!["test".to_string()]);
}

#[test]
fn removing_an_unknown_space_only_reports_that() {
    let mut registry = two_spaces();
    let (mut removal, action) = handle_command_remove(&mut registry, "staging");
    assert_eq!(action, Action::Finish(Outcome::Failed(Failure::SpaceNotFound)));
    assert_eq!(registry.list_server_space().len(), 2);
    assert_eq!(
        removal.step(&mut registry, &Event::Done),
        Action::Finish(Outcome::Failed(Failure::SpaceNotFound))
    );
    assert_eq!(registry.list_server_space().len(), 2);
}

#[test]
fn a_removal_that_cannot_be_stored_puts_the_record_back() {
    let mut registry = two_spaces();
    let (mut removal, _) = handle_command_remove(&mut registry, "prod");
    assert!(registry.server_space_detail("prod").is_none());
    assert_eq!(
        removal.step(&mut registry, &Event::Failed),
        Action::Finish(Outcome::Failed(Failure::Storage))
    );
    assert_eq!(
        registry.server_space_detail("prod"),
        Some(ServerSpace::new("prod", "10.0.0.1", "/srv/app", "deploy", "t1"))
    );
    assert_eq!(registry.list_server_space().len(), 2);
}

#[test]
fn run_begins_the_operation_that_the_command_names() {
    let mut registry = two_spaces();
    let (task, action) = run(&Command::Add, &here(), &mut registry);
    assert!(matches!(task, Some(Task::Add(_))));
    assert_eq!(action, Action::Prompt(Field::Name));

    let (task, action) = run(&Command::List, &here(), &mut registry);
    assert!(task.is_none());
    assert_eq!(action.kind(), ActionKind::Finish);

    let (task, action) =
        run(&Command::Detail { space_name: "prod".to_string() }, &here(), &mut registry);
    assert!(task.is_none());
    assert!(matches!(action, Action::Finish(Outcome::Detail(_))));

    let (task, action) = run(
        &Command::Push { pushed_dir: "/site".to_string(), space_name: "prod".to_string() },
        &here(),
        &mut registry,
    );
    assert!(matches!(task, Some(Task::Push(_))));
    assert_eq!(action, Action::CheckDirectory { path: "/work/site".to_string() });

    let (task, action) =
        run(&Command::Rmrf { space_name: "prod".to_string() }, &here(), &mut registry);
    assert!(matches!(task, Some(Task::Wipe(_))));
    assert_eq!(action, Action::Confirm);

    let (task, action) =
        run(&Command::Remove { space_name: "prod".to_string() }, &here(), &mut registry);
    assert!(matches!(task, Some(Task::Remove(_))));
    assert_eq!(action, Action::Store);
    assert_eq!(registry.list_server_space(), vec!["test".to_string()]);
}

#[test]
fn a_task_steps_the_operation_it_holds() {
    let key: Result<[u8; 32], VaultError> = Ok(derive_key(&[1, 2, 3, 4, 5, 6]));
    let mut registry = two_spaces();
    let (task, _) = run(
        &Command::Push { pushed_dir: "site".to_string(), space_name: "prod".to_string() },
        &here(),
        &mut registry,
    );
    let mut task = task.unwrap();
    assert!(!task.needs_key());
    assert_eq!(
        task.step_with_key(&mut registry, &Event::Directory(false), &key),
        Action::Finish(Outcome::Failed(Failure::InvalidArgument))
    );

    let (task, _) = run(&Command::Rmrf { space_name: "prod".to_string() }, &here(), &mut registry);
    let mut task = task.unwrap();
    assert!(task.needs_key());
    assert_eq!(
        task.step(&mut registry, &Event::Line("no".to_string())),
        Action::Finish(Outcome::Aborted)
    );

    let (task, _) = run(&Command::Add, &here(), &mut registry);
    let mut task = task.unwrap();
    assert_eq!(
        task.step(&mut registry, &Event::Line("prod".to_string())),
        Action::Finish(Outcome::Failed(Failure::DuplicateName))
    );

    let (task, _) =
        run(&Command::Remove { space_name: "test".to_string() }, &here(), &mut registry);
    let mut task = task.unwrap();
    assert_eq!(task.step(&mut registry, &Event::Failed),
        Action::Finish(Outcome::Failed(Failure::Storage)));
    assert_eq!(registry.list_server_space().len(), 2);
}

#[test]
fn an_empty_registry_is_listed_through_run() {
    let mut registry = Config::new();
    let (task, action) = run(&Command::List, &here(), &mut registry);
    assert!(task.is_none());
    assert_eq!(action, Action::Finish(Outcome::Listed(vec![])));
}
