//! Building blocks for an interactive helper that composes structured commit
//! messages: the two catalogs a message is classified by, the menu and
//! free-text protocols the answers are collected with, and the formatter that
//! assembles the final message.

use vstd::prelude::*;
use vstd::string::*;

pub mod commit_types;
pub mod git;
pub mod message;
pub mod prompts;
pub mod semver;
pub mod session;
pub mod text;

verus! {

/// The standard library's I/O error, carried through as an opaque value.
#[verifier::external_type_specification]
#[verifier::external_body]
pub struct ExIoError(std::io::Error);

/// Everything that can end a session early.
#[derive(Debug)]
pub enum AppError {
    /// Reading from or writing to the console failed.
    Io(std::io::Error),
    /// The version-control tool refused or reported a failure.
    Git(String),
    /// The user's answer cannot be used.
    InvalidInput(String),
}

/// An error as specifications see it: text as sequences of characters.
pub enum ErrorView {
    Io(std::io::Error),
    Git(Seq<char>),
    InvalidInput(Seq<char>),
}

impl View for AppError {
    type V = ErrorView;

    open spec fn view(&self) -> ErrorView {
        match *self {
            AppError::Io(error) => ErrorView::Io(error),
            AppError::Git(detail) => ErrorView::Git(detail@),
            AppError::InvalidInput(detail) => ErrorView::InvalidInput(detail@),
        }
    }
}

pub type Result<T> = std::result::Result<T, AppError>;

impl From<std::io::Error> for AppError {
    fn from(error: std::io::Error) -> (r: AppError) {
        AppError::Io(error)
    }
}

impl vstd::std_specs::convert::FromSpecImpl<std::io::Error> for AppError {
    open spec fn obeys_from_spec() -> bool {
        true
    }

    open spec fn from_spec(error: std::io::Error) -> AppError {
        AppError::Io(error)
    }
}

impl AppError {
    /// Whether `text` is a rendering of this error: the kind, a colon and
    /// the detail. The detail of an I/O failure is whatever the standard
    /// library says of it.
    pub open spec fn spec_has_text(self, text: Seq<char>) -> bool {
        match self@ {
            ErrorView::Io(_) => text.len() >= 10 && text.subrange(0, 10) == "IO error: "@,
            ErrorView::Git(detail) => text == "Git error: "@ + detail,
            ErrorView::InvalidInput(detail) => text == "Invalid input: "@ + detail,
        }
    }

    /// Renders the error in one line: the kind, a colon and the detail.
    pub fn to_string(&self) -> (r: String)
        ensures
            self.spec_has_text(r@),
    {
        match self {
            AppError::Io(error) => {
                let mut r = String::from_str("IO error: ");
                let detail = error.to_string();
                r.append(detail.as_str());
                proof {
                    reveal_strlit("IO error: ");
                    assert(r@.subrange(0, 10) =~= "IO error: "@);
                }
                r
            },
            AppError::Git(detail) => {
                let mut r = String::from_str("Git error: ");
                r.append(detail.as_str());
                r
            },
            AppError::InvalidInput(detail) => {
                let mut r = String::from_str("Invalid input: ");
                r.append(detail.as_str());
                r
            },
        }
    }
}

} // verus!
