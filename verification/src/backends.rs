//! Desktop-environment backend implementations.

pub mod gnome;

pub use gnome::GnomeBackend;

use vstd::prelude::*;

verus! {

/// Failures reported by desktop theme backends.
#[derive(Debug, Clone)]
pub enum BackendError {
    /// The program could not be started at all.
    Command { program: String, message: String },
    /// The program ran and reported failure.
    CommandFailed { program: String, message: String },
    /// The desktop reported a color scheme that maps to no theme.
    UnsupportedTheme(String),
}

/// The mathematical value of a [`BackendError`].
pub enum BackendErrorView {
    Command { program: Seq<char>, message: Seq<char> },
    CommandFailed { program: Seq<char>, message: Seq<char> },
    UnsupportedTheme(Seq<char>),
}

impl View for BackendError {
    type V = BackendErrorView;

    open spec fn view(&self) -> BackendErrorView {
        match self {
            BackendError::Command { program, message } => BackendErrorView::Command {
                program: program@,
                message: message@,
            },
            BackendError::CommandFailed { program, message } => BackendErrorView::CommandFailed {
                program: program@,
                message: message@,
            },
            BackendError::UnsupportedTheme(value) => BackendErrorView::UnsupportedTheme(value@),
        }
    }
}

/// A result with its error taken by its view.
pub open spec fn backend_result<T>(r: Result<T, BackendError>) -> Result<T, BackendErrorView> {
    match r {
        Ok(v) => Ok(v),
        Err(e) => Err(e@),
    }
}

} // verus!
