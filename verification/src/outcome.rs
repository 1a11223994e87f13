//! What becomes of one manifest entry, and what can go wrong.

use vstd::prelude::*;
use crate::text::{followed_by, owned};

verus! {

/// Why an extraction, or one entry of it, failed.
#[derive(Debug, Clone, PartialEq, Eq)]
pub enum ExtractError {
    /// The manifest could not be opened or queried. Fatal for its backup.
    Database(String),
    /// The entry's file identifier has fewer than two characters.
    InvalidFileId,
    /// Creating a directory, reading the source's size or copying failed.
    Io(String),
}

/// An `ExtractError` with its message as a sequence of characters.
pub enum ExtractErrorView {
    Database(Seq<char>),
    InvalidFileId,
    Io(Seq<char>),
}

impl View for ExtractError {
    type V = ExtractErrorView;

    open spec fn view(&self) -> ExtractErrorView {
        match *self {
            ExtractError::Database(message) => ExtractErrorView::Database(message@),
            ExtractError::InvalidFileId => ExtractErrorView::InvalidFileId,
            ExtractError::Io(message) => ExtractErrorView::Io(message@),
        }
    }
}

/// The text that `ExtractError::message` gives for `error`.
pub open spec fn error_message(error: ExtractErrorView) -> Seq<char> {
    match error {
        ExtractErrorView::Database(message) => "database error: "@ + message,
        ExtractErrorView::InvalidFileId => "invalid file identifier"@,
        ExtractErrorView::Io(message) => "i/o error: "@ + message,
    }
}

impl ExtractError {
    /// The error in words.
    pub fn message(&self) -> (r: String)
        ensures
            r@ == error_message(self@),
    {
        match self {
            ExtractError::Database(message) => followed_by("database error: ", message.as_str()),
            ExtractError::InvalidFileId => owned("invalid file identifier"),
            ExtractError::Io(message) => followed_by("i/o error: ", message.as_str()),
        }
    }
}

/// Why an entry was passed over without being an error.
#[derive(Debug, Clone, Copy, PartialEq, Eq, Structural)]
pub enum SkipReason {
    /// The manifest names a file that the store no longer holds.
    SourceMissing,
}

impl SkipReason {
    /// The reason in words.
    pub fn message(&self) -> (r: String)
        ensures
            r@ == "source missing"@,
    {
        owned("source missing")
    }
}

/// What became of one manifest entry.
#[derive(Debug, Clone, PartialEq, Eq)]
pub enum Outcome {
    /// The stored file was copied to its destination.
    Success,
    /// Nothing was copied, and nothing is wrong.
    Skipped(SkipReason),
    /// Nothing usable was copied.
    Failed(ExtractError),
}

/// An `Outcome` with its error by view.
pub enum OutcomeView {
    Success,
    Skipped(SkipReason),
    Failed(ExtractErrorView),
}

impl View for Outcome {
    type V = OutcomeView;

    open spec fn view(&self) -> OutcomeView {
        match *self {
            Outcome::Success => OutcomeView::Success,
            Outcome::Skipped(reason) => OutcomeView::Skipped(reason),
            Outcome::Failed(error) => OutcomeView::Failed(error@),
        }
    }
}

impl Outcome {
    /// Whether the file was copied.
    pub fn is_success(&self) -> (r: bool)
        ensures
            r == (self is Success),
    {
        match self {
            Outcome::Success => true,
            _ => false,
        }
    }

    /// Whether the entry was passed over.
    pub fn is_skipped(&self) -> (r: bool)
        ensures
            r == (self is Skipped),
    {
        match self {
            Outcome::Skipped(_) => true,
            _ => false,
        }
    }

    /// Whether the entry failed.
    pub fn is_failed(&self) -> (r: bool)
        ensures
            r == (self is Failed),
    {
        match self {
            Outcome::Failed(_) => true,
            _ => false,
        }
    }
}

} // verus!
