use db_bootstrap::{
    Action, Database, Event, InitError, Initializer, PoolSettings, MAX_CONNECTIONS,
};

/// Stands in for a pool handle: the machine only carries it along.
#[derive(Debug, PartialEq, Eq)]
struct Handle(u32);

fn url() -> String {
    "postgres://db.internal:5432/app".to_string()
}

fn act(
    machine: Initializer<Handle>,
    event: Event<Handle>,
) -> (Initializer<Handle>, Action<Handle>) {
    let (machine, action) = machine.step(event);
    (machine, action.expect("the awaited event is answered with an action"))
}

fn connecting() -> Initializer<Handle> {
    let (machine, _) = Initializer::<Handle>::begin();
    act(machine, Event::Setting(Some(url()))).0
}

fn migrating(handle: u32) -> Initializer<Handle> {
    act(connecting(), Event::Connected(Ok(Handle(handle)))).0
}

#[test]
fn begin_asks_for_the_database_url() {
    let (machine, action) = Initializer::<Handle>::begin();
    assert_eq!(machine, Initializer::AwaitingSetting);
    assert_eq!(action, Action::ReadSetting { name: "DATABASE_URL".to_string() });
}

#[test]
fn the_ceiling_is_ten_connections() {
    assert_eq!(MAX_CONNECTIONS, 10);
}

#[test]
fn missing_url_is_a_configuration_error() {
    let (machine, _) = Initializer::<Handle>::begin();
    let (machine, action) = act(machine, Event::Setting(None));
    assert_eq!(action, Action::Fail(InitError::Configuration));
    assert_eq!(machine, Initializer::Failed);
    assert!(machine.pool().is_none());
}

#[test]
fn missing_url_never_opens_a_pool() {
    let (machine, _) = Initializer::<Handle>::begin();
    let (machine, _) = act(machine, Event::Setting(None));
    let (machine, action) = machine.step(Event::Setting(Some(url())));
    assert_eq!(action, None);
    let (machine, action) = machine.step(Event::Connected(Ok(Handle(1))));
    assert_eq!(action, None);
    assert_eq!(machine, Initializer::Failed);
    assert!(machine.pool().is_none());
}

#[test]
fn url_leads_to_a_capped_connect() {
    let (machine, _) = Initializer::<Handle>::begin();
    let (machine, action) = act(machine, Event::Setting(Some(url())));
    assert_eq!(machine, Initializer::Connecting);
    assert_eq!(
        action,
        Action::Connect { url: url(), settings: PoolSettings { max_connections: 10 } }
    );
}

#[test]
fn empty_url_is_still_handed_to_connect() {
    let (machine, _) = Initializer::<Handle>::begin();
    let (_, action) = act(machine, Event::Setting(Some(String::new())));
    assert_eq!(
        action,
        Action::Connect { url: String::new(), settings: PoolSettings { max_connections: 10 } }
    );
}

#[test]
fn unreachable_database_is_a_connection_error() {
    let cause = "error communicating with database: Connection refused (os error 111)";
    let (machine, action) = act(connecting(), Event::Connected(Err(cause.to_string())));
    assert_eq!(action, Action::Fail(InitError::Connection(cause.to_string())));
    assert_eq!(machine, Initializer::Failed);
}

#[test]
fn failed_connection_asks_for_no_migration() {
    let (machine, _) = act(connecting(), Event::Connected(Err("refused".to_string())));
    let (machine, action) = machine.step(Event::Migrated(Ok(())));
    assert_eq!(action, None);
    assert_eq!(machine, Initializer::Failed);
}

#[test]
fn open_pool_leads_to_migrations() {
    let (machine, action) = act(connecting(), Event::Connected(Ok(Handle(7))));
    assert_eq!(action, Action::Migrate { directory: "./migrations".to_string() });
    assert_eq!(machine, Initializer::Migrating(Handle(7)));
}

#[test]
fn pool_is_lent_only_while_migrating() {
    let (machine, _) = Initializer::<Handle>::begin();
    assert_eq!(machine.pool(), None);
    let machine = connecting();
    assert_eq!(machine.pool(), None);
    let machine = migrating(7);
    assert_eq!(machine.pool(), Some(&Handle(7)));
    let (machine, _) = act(machine, Event::Migrated(Ok(())));
    assert_eq!(machine.pool(), None);
}

#[test]
fn successful_run_hands_out_the_pool() {
    let (machine, action) = act(migrating(7), Event::Migrated(Ok(())));
    assert_eq!(action, Action::Done(Database { pool: Handle(7) }));
    assert_eq!(machine, Initializer::Ready);
}

#[test]
fn broken_migration_is_a_migration_error() {
    let cause = "while executing migration 3: error returned from database: syntax error";
    let (machine, action) = act(migrating(7), Event::Migrated(Err(cause.to_string())));
    assert_eq!(action, Action::Fail(InitError::Migration(cause.to_string())));
    assert_eq!(machine, Initializer::Failed);
    assert_eq!(machine.pool(), None);
}

#[test]
fn broken_migration_ends_the_run() {
    let (machine, _) = act(migrating(7), Event::Migrated(Err("syntax error".to_string())));
    let (machine, action) = machine.step(Event::Migrated(Ok(())));
    assert_eq!(action, None);
    let (machine, action) = machine.step(Event::Connected(Ok(Handle(8))));
    assert_eq!(action, None);
    assert_eq!(machine, Initializer::Failed);
}

#[test]
fn finished_run_stays_finished() {
    let (machine, _) = act(migrating(7), Event::Migrated(Ok(())));
    let (machine, action) = machine.step(Event::Setting(None));
    assert_eq!(action, None);
    let (machine, action) = machine.step(Event::Connected(Err("late".to_string())));
    assert_eq!(action, None);
    let (machine, action) = machine.step(Event::Migrated(Err("late".to_string())));
    assert_eq!(action, None);
    assert_eq!(machine, Initializer::Ready);
}

#[test]
fn events_out_of_turn_change_nothing() {
    let (machine, _) = Initializer::<Handle>::begin();
    let (machine, action) = machine.step(Event::Connected(Ok(Handle(1))));
    assert_eq!(action, None);
    assert_eq!(machine, Initializer::AwaitingSetting);
    let (machine, action) = machine.step(Event::Migrated(Ok(())));
    assert_eq!(action, None);
    assert_eq!(machine, Initializer::AwaitingSetting);

    let (machine, action) = connecting().step(Event::Setting(None));
    assert_eq!(action, None);
    assert_eq!(machine, Initializer::Connecting);
    let (machine, action) = machine.step(Event::Migrated(Err("early".to_string())));
    assert_eq!(action, None);
    assert_eq!(machine, Initializer::Connecting);

    let (machine, action) = migrating(7).step(Event::Connected(Ok(Handle(8))));
    assert_eq!(action, None);
    assert_eq!(machine, Initializer::Migrating(Handle(7)));
    let (machine, action) = machine.step(Event::Setting(Some(url())));
    assert_eq!(action, None);
    assert_eq!(machine, Initializer::Migrating(Handle(7)));
}

#[test]
fn every_step_is_asked_for_once_and_in_order() {
    let (mut machine, first) = Initializer::<Handle>::begin();
    let mut asked = vec![first];
    let events = vec![
        Event::Connected(Ok(Handle(1))),
        Event::Setting(Some(url())),
        Event::Setting(Some("postgres://elsewhere/db".to_string())),
        Event::Connected(Ok(Handle(2))),
        Event::Connected(Ok(Handle(3))),
        Event::Migrated(Ok(())),
        Event::Migrated(Ok(())),
        Event::Migrated(Err("late".to_string())),
    ];
    for event in events {
        let (state, action) = machine.step(event);
        machine = state;
        if let Some(action) = action {
            asked.push(action);
        }
    }
    assert_eq!(
        asked,
        vec![
            Action::ReadSetting { name: "DATABASE_URL".to_string() },
            Action::Connect { url: url(), settings: PoolSettings { max_connections: 10 } },
            Action::Migrate { directory: "./migrations".to_string() },
            Action::Done(Database { pool: Handle(2) }),
        ]
    );
    assert_eq!(machine, Initializer::Ready);
}

#[test]
fn a_second_run_starts_from_the_beginning() {
    let (first, _) = act(migrating(1), Event::Migrated(Ok(())));
    assert_eq!(first, Initializer::Ready);
    let (second, action) = Initializer::<Handle>::begin();
    assert_eq!(second, Initializer::AwaitingSetting);
    assert_eq!(action, Action::ReadSetting { name: "DATABASE_URL".to_string() });
    let (second, action) = act(migrating(2), Event::Migrated(Ok(())));
    assert_eq!(action, Action::Done(Database { pool: Handle(2) }));
    assert_eq!(second, Initializer::Ready);
}

#[test]
fn configuration_error_names_the_setting() {
    assert_eq!(InitError::Configuration.message(), "DATABASE_URL must be set");
}

#[test]
fn connection_error_reports_its_cause() {
    let error = InitError::Connection("password authentication failed".to_string());
    assert_eq!(error.message(), "password authentication failed");
}

#[test]
fn migration_error_reports_its_cause() {
    let error = InitError::Migration("migration 2 was previously applied but is missing".to_string());
    assert_eq!(error.message(), "migration 2 was previously applied but is missing");
}

#[test]
fn error_kinds_are_told_apart() {
    let cause = "timed out".to_string();
    assert_ne!(InitError::Connection(cause.clone()), InitError::Migration(cause));
    assert_ne!(InitError::Configuration, InitError::Connection(String::new()));
}
