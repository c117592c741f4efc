//! The ways a command can fail as a whole.

use vstd::prelude::*;

verus! {

/// A failure that ends the command. A deletion that fails for one item is not
/// among them: it is counted and the batch goes on.
#[derive(Debug, Clone, PartialEq, Eq)]
pub enum CleanError {
    /// No repository root could be found.
    NotARepository,
    /// The repository root has no final component to name the repository by.
    NoRepositoryName,
    /// The pattern is not a valid regular expression; holds the full message.
    InvalidPattern(String),
    /// The backend could not list the resources; holds the full message.
    ListingFailure(String),
    /// An interactive step was needed and no terminal is attached.
    RequiresTerminal,
}

/// The model of a [`CleanError`], with its messages as character sequences.
pub enum CleanErrorView {
    NotARepository,
    NoRepositoryName,
    InvalidPattern(Seq<char>),
    ListingFailure(Seq<char>),
    RequiresTerminal,
}

impl View for CleanError {
    type V = CleanErrorView;

    open spec fn view(&self) -> CleanErrorView {
        match *self {
            CleanError::NotARepository => CleanErrorView::NotARepository,
            CleanError::NoRepositoryName => CleanErrorView::NoRepositoryName,
            CleanError::InvalidPattern(msg) => CleanErrorView::InvalidPattern(msg@),
            CleanError::ListingFailure(msg) => CleanErrorView::ListingFailure(msg@),
            CleanError::RequiresTerminal => CleanErrorView::RequiresTerminal,
        }
    }
}

/// The text shown for an error.
pub open spec fn error_message(e: CleanErrorView) -> Seq<char> {
    match e {
        CleanErrorView::NotARepository => "Not in a git repository"@,
        CleanErrorView::NoRepositoryName => "Could not determine repository name"@,
        CleanErrorView::InvalidPattern(msg) => msg,
        CleanErrorView::ListingFailure(msg) => msg,
        CleanErrorView::RequiresTerminal => "Interactive mode requires a terminal. Use command-line arguments instead.\nRun 'killallgit --help' for available commands."@,
    }
}

impl CleanError {
    /// The text to show for this error.
    pub fn message(&self) -> (out: String)
        ensures
            out@ == error_message(self@),
    {
        match self {
            CleanError::NotARepository => "Not in a git repository".to_owned(),
            CleanError::NoRepositoryName => "Could not determine repository name".to_owned(),
            CleanError::InvalidPattern(msg) => msg.clone(),
            CleanError::ListingFailure(msg) => msg.clone(),
            CleanError::RequiresTerminal => "Interactive mode requires a terminal. Use command-line arguments instead.\nRun 'killallgit --help' for available commands.".to_owned(),
        }
    }
}

} // verus!
