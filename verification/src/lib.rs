//! Start-up sequencing for a pooled database connection.
//!
//! Bringing a database up takes three steps, each of which can fail: read the
//! connection URL from the environment, open a bounded pool against it, apply
//! the pending schema migrations. The steps themselves are outside work; what
//! is decided between them lives here, as a state machine that is told what
//! happened and answers with what to do next.

pub mod error;
pub mod laws;
pub mod startup;

pub use error::{InitError, InitErrorView};
pub use startup::{
    Action, ActionView, Database, Event, EventView, Initializer, PoolSettings, MAX_CONNECTIONS,
};
