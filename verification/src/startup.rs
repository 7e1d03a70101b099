//! The start-up state machine.

use crate::error::{InitError, InitErrorView};
use vstd::prelude::*;

verus! {

/// The most connections a pool may have open at once.
pub const MAX_CONNECTIONS: u32 = 10;

/// The environment variable that holds the connection URL.
pub open spec fn url_setting() -> Seq<char> {
    "DATABASE_URL"@
}

/// Where the migration scripts are looked for.
pub open spec fn migrations_directory() -> Seq<char> {
    "./migrations"@
}

/// How a pool is to be opened.
#[derive(Debug, Clone, Copy, PartialEq, Eq, Structural)]
pub struct PoolSettings {
    /// The ceiling on concurrently open connections.
    pub max_connections: u32,
}

/// A database ready for use: a pool of connections against a schema whose
/// migrations have all been applied.
#[derive(Debug, PartialEq, Eq)]
pub struct Database<P> {
    /// The pool, to be shared by everything that issues queries.
    pub pool: P,
}

/// What the outside world reports back. `P` is the pool handle, which is
/// carried along and never looked into.
#[derive(Debug, PartialEq, Eq)]
pub enum Event<P> {
    /// The environment was read: the URL, or nothing if it is not set.
    Setting(Option<String>),
    /// Opening the pool ended: the handle, or the cause of the failure.
    Connected(Result<P, String>),
    /// The migration run ended: success, or the cause of the failure.
    Migrated(Result<(), String>),
}

/// An [`Event`] with its text as sequences of characters.
pub enum EventView<P> {
    Setting(Option<Seq<char>>),
    Connected(Result<P, Seq<char>>),
    Migrated(Result<(), Seq<char>>),
}

impl<P> View for Event<P> {
    type V = EventView<P>;

    open spec fn view(&self) -> EventView<P> {
        match *self {
            Event::Setting(Some(url)) => EventView::Setting(Some(url@)),
            Event::Setting(None) => EventView::Setting(None),
            Event::Connected(Ok(pool)) => EventView::Connected(Ok(pool)),
            Event::Connected(Err(cause)) => EventView::Connected(Err(cause@)),
            Event::Migrated(Ok(())) => EventView::Migrated(Ok(())),
            Event::Migrated(Err(cause)) => EventView::Migrated(Err(cause@)),
        }
    }
}

/// What the caller is asked to do next.
#[derive(Debug, PartialEq, Eq)]
pub enum Action<P> {
    /// Read the named environment variable and report it as
    /// [`Event::Setting`].
    ReadSetting { name: String },
    /// Open a pool against `url` with `settings` and report the outcome as
    /// [`Event::Connected`].
    Connect { url: String, settings: PoolSettings },
    /// Apply the pending migrations found under `directory`, in ascending
    /// version order, through the pool that [`Initializer::pool`] lends, and
    /// report the outcome as [`Event::Migrated`].
    Migrate { directory: String },
    /// Start-up is complete: here is the database.
    Done(Database<P>),
    /// Start-up is abandoned.
    Fail(InitError),
}

/// An [`Action`] with its text as sequences of characters.
pub enum ActionView<P> {
    ReadSetting { name: Seq<char> },
    Connect { url: Seq<char>, settings: PoolSettings },
    Migrate { directory: Seq<char> },
    Done(Database<P>),
    Fail(InitErrorView),
}

impl<P> View for Action<P> {
    type V = ActionView<P>;

    open spec fn view(&self) -> ActionView<P> {
        match *self {
            Action::ReadSetting { name } => ActionView::ReadSetting { name: name@ },
            Action::Connect { url, settings } => ActionView::Connect { url: url@, settings },
            Action::Migrate { directory } => ActionView::Migrate { directory: directory@ },
            Action::Done(database) => ActionView::Done(database),
            Action::Fail(error) => ActionView::Fail(error@),
        }
    }
}

/// The view of an action that may be absent.
pub open spec fn view_of<P>(action: Option<Action<P>>) -> Option<ActionView<P>> {
    match action {
        Some(action) => Some(action@),
        None => None,
    }
}

/// How far start-up has come. While migrations run the machine holds the
/// pool; it gives it up only in [`Action::Done`], or lets it go when a
/// migration fails.
#[derive(Debug, PartialEq, Eq)]
pub enum Initializer<P> {
    /// Waiting to learn the connection URL.
    AwaitingSetting,
    /// Waiting for the pool to open.
    Connecting,
    /// Waiting for the migrations to finish.
    Migrating(P),
    /// The database has been handed out.
    Ready,
    /// Start-up was abandoned.
    Failed,
}

/// The first thing to do: read the connection URL.
pub open spec fn first_action<P>() -> ActionView<P> {
    ActionView::ReadSetting { name: url_setting() }
}

/// The state that follows `state` on `event`, and the action asked for.
///
/// Each stage awaits one kind of event. Success moves on to the next stage,
/// failure ends the run with the matching error. An event that the stage
/// does not await changes nothing and asks for nothing; in particular a
/// finished run stays finished.
pub open spec fn next<P>(state: Initializer<P>, event: EventView<P>) -> (
    Initializer<P>,
    Option<ActionView<P>>,
) {
    match (state, event) {
        (Initializer::AwaitingSetting, EventView::Setting(Some(url))) => (
            Initializer::Connecting,
            Some(
                ActionView::Connect {
                    url,
                    settings: PoolSettings { max_connections: MAX_CONNECTIONS },
                },
            ),
        ),
        (Initializer::AwaitingSetting, EventView::Setting(None)) => (
            Initializer::Failed,
            Some(ActionView::Fail(InitErrorView::Configuration)),
        ),
        (Initializer::Connecting, EventView::Connected(Ok(pool))) => (
            Initializer::Migrating(pool),
            Some(ActionView::Migrate { directory: migrations_directory() }),
        ),
        (Initializer::Connecting, EventView::Connected(Err(cause))) => (
            Initializer::Failed,
            Some(ActionView::Fail(InitErrorView::Connection(cause))),
        ),
        (Initializer::Migrating(pool), EventView::Migrated(Ok(()))) => (
            Initializer::Ready,
            Some(ActionView::Done(Database { pool })),
        ),
        (Initializer::Migrating(_), EventView::Migrated(Err(cause))) => (
            Initializer::Failed,
            Some(ActionView::Fail(InitErrorView::Migration(cause))),
        ),
        (state, _) => (state, None),
    }
}

impl<P> Initializer<P> {
    /// Begins a run: the machine in its first stage, and the first action.
    pub fn begin() -> (started: (Self, Action<P>))
        ensures
            started.0 == Initializer::<P>::AwaitingSetting,
            started.1@ == first_action::<P>(),
    {
        (Initializer::AwaitingSetting, Action::ReadSetting { name: "DATABASE_URL".to_owned() })
    }

    /// Takes in what happened and answers with the next state and what to do.
    pub fn step(self, event: Event<P>) -> (moved: (Self, Option<Action<P>>))
        ensures
            moved.0 == next(self, event@).0,
            view_of(moved.1) == next(self, event@).1,
    {
        match (self, event) {
            (Initializer::AwaitingSetting, Event::Setting(Some(url))) => (
                Initializer::Connecting,
                Some(
                    Action::Connect {
                        url,
                        settings: PoolSettings { max_connections: MAX_CONNECTIONS },
                    },
                ),
            ),
            (Initializer::AwaitingSetting, Event::Setting(None)) => (
                Initializer::Failed,
                Some(Action::Fail(InitError::Configuration)),
            ),
            (Initializer::Connecting, Event::Connected(Ok(pool))) => (
                Initializer::Migrating(pool),
                Some(Action::Migrate { directory: "./migrations".to_owned() }),
            ),
            (Initializer::Connecting, Event::Connected(Err(cause))) => (
                Initializer::Failed,
                Some(Action::Fail(InitError::Connection(cause))),
            ),
            (Initializer::Migrating(pool), Event::Migrated(Ok(()))) => (
                Initializer::Ready,
                Some(Action::Done(Database { pool })),
            ),
            (Initializer::Migrating(_), Event::Migrated(Err(cause))) => (
                Initializer::Failed,
                Some(Action::Fail(InitError::Migration(cause))),
            ),
            (state, _) => (state, None),
        }
    }

    /// The pool to run migrations through: held exactly while they run.
    pub fn pool(&self) -> (held: Option<&P>)
        ensures
            match *self {
                Initializer::Migrating(pool) => held == Some(&pool),
                _ => held.is_none(),
            },
    {
        match self {
            Initializer::Migrating(pool) => Some(pool),
            _ => None,
        }
    }
}

} // verus!
