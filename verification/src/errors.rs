//! What can go wrong in a session and what follows from it.

use vstd::prelude::*;
use crate::actions::NameCheck;
use crate::bootstrap::ConfigError;
use crate::catalog::CatalogError;

verus! {

/// What went wrong.
#[derive(Debug, Clone, Copy, PartialEq, Eq, Structural)]
pub enum Failure {
    /// The settings are incomplete or the root cannot be read.
    Config(ConfigError),
    /// The catalog could not be built.
    Catalog(CatalogError),
    /// The file system refused an action, or a note could not be read
    /// into the preview.
    Action,
    /// A proposed name was turned down.
    Validation(NameCheck),
}

/// What the program does about a failure.
#[derive(Debug, Clone, Copy, PartialEq, Eq, Structural)]
pub enum Reaction {
    /// Tell the user and ask again.
    AskAgain,
    /// End the process with a message, after putting the terminal back
    /// into its normal mode where that is asked for.
    Exit { restore_terminal: bool },
}

impl Failure {
    /// Every failure but a name that was turned down ends the session.
    pub open spec fn fatal(self) -> bool {
        !(self is Validation)
    }

    /// Whether the failure ends the session.
    pub fn is_fatal(&self) -> (fatal: bool)
        ensures
            fatal == self.fatal(),
    {
        match self {
            Failure::Validation(_) => false,
            _ => true,
        }
    }

    /// What the program does about the failure. A fatal failure ends the
    /// process; where the terminal is in raw mode by then, it is put back
    /// first, so that the user's shell is left in working order.
    pub fn reaction(&self, terminal_is_raw: bool) -> (reaction: Reaction)
        ensures
            reaction == if self.fatal() {
                Reaction::Exit { restore_terminal: terminal_is_raw }
            } else {
                Reaction::AskAgain
            },
    {
        if self.is_fatal() {
            Reaction::Exit { restore_terminal: terminal_is_raw }
        } else {
            Reaction::AskAgain
        }
    }
}

} // verus!
