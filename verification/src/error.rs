//! The ways in which start-up can fail.

use vstd::prelude::*;

verus! {

/// Why start-up was abandoned. Every kind is fatal: nothing is retried.
#[derive(Debug, PartialEq, Eq)]
pub enum InitError {
    /// The connection URL is not set in the environment.
    Configuration,
    /// The pool could not be opened; carries the underlying cause.
    Connection(String),
    /// A migration could not be applied; carries the underlying cause.
    Migration(String),
}

/// An [`InitError`] with its text as a sequence of characters.
pub enum InitErrorView {
    Configuration,
    Connection(Seq<char>),
    Migration(Seq<char>),
}

impl View for InitError {
    type V = InitErrorView;

    open spec fn view(&self) -> InitErrorView {
        match *self {
            InitError::Configuration => InitErrorView::Configuration,
            InitError::Connection(cause) => InitErrorView::Connection(cause@),
            InitError::Migration(cause) => InitErrorView::Migration(cause@),
        }
    }
}

/// What is reported when the connection URL is absent.
pub open spec fn missing_setting_message() -> Seq<char> {
    "DATABASE_URL must be set"@
}

impl InitErrorView {
    /// The text shown to an operator: a fixed sentence for a missing
    /// setting, the underlying cause otherwise.
    pub open spec fn message(self) -> Seq<char> {
        match self {
            InitErrorView::Configuration => missing_setting_message(),
            InitErrorView::Connection(cause) => cause,
            InitErrorView::Migration(cause) => cause,
        }
    }
}

impl InitError {
    /// The text shown to an operator.
    pub fn message(&self) -> (text: String)
        ensures
            text@ == self@.message(),
    {
        match self {
            InitError::Configuration => "DATABASE_URL must be set".to_owned(),
            InitError::Connection(cause) => cause.clone(),
            InitError::Migration(cause) => cause.clone(),
        }
    }
}

} // verus!
