//! What can go wrong, and how it is told.

use vstd::prelude::*;

verus! {

/// Why an operation of this library failed. Every failure ends the whole
/// operation: nothing is retried and no partial result is kept.
#[derive(Debug, PartialEq, Eq)]
pub enum Failure {
    /// Walking the file system for the matches of a pattern failed.
    Pattern { message: String },
    /// A string that had to be a pattern is not one.
    InvalidPattern { pattern: String },
    /// There is no file at the path.
    NotFound { path: String },
    /// The file at the path could not be read.
    Io { path: String, message: String },
    /// The bytes of the file at the path are not UTF-8 text.
    Decode { path: String },
    /// The path has no final component to name the file by.
    InvalidPath { path: String },
    /// The renderer rejected the template or failed while rendering it.
    Render { message: String },
}

/// A [`Failure`] as a mathematical value.
pub enum FailureView {
    Pattern { message: Seq<char> },
    InvalidPattern { pattern: Seq<char> },
    NotFound { path: Seq<char> },
    Io { path: Seq<char>, message: Seq<char> },
    Decode { path: Seq<char> },
    InvalidPath { path: Seq<char> },
    Render { message: Seq<char> },
}

impl View for Failure {
    type V = FailureView;

    open spec fn view(&self) -> FailureView {
        match *self {
            Failure::Pattern { message } => FailureView::Pattern { message: message@ },
            Failure::InvalidPattern { pattern } => FailureView::InvalidPattern { pattern: pattern@ },
            Failure::NotFound { path } => FailureView::NotFound { path: path@ },
            Failure::Io { path, message } => FailureView::Io { path: path@, message: message@ },
            Failure::Decode { path } => FailureView::Decode { path: path@ },
            Failure::InvalidPath { path } => FailureView::InvalidPath { path: path@ },
            Failure::Render { message } => FailureView::Render { message: message@ },
        }
    }
}

/// The two texts, one after the other.
pub fn joined(front: &str, back: &str) -> (text: String)
    ensures
        text@ == front@ + back@,
{
    let mut text = front.to_owned();
    text.append(back);
    text
}

impl FailureView {
    /// What went wrong, in words.
    pub open spec fn message(self) -> Seq<char> {
        match self {
            FailureView::Pattern { message } => message,
            FailureView::InvalidPattern { pattern } => "not a glob pattern: "@ + pattern,
            FailureView::NotFound { path } => "no such file: "@ + path,
            FailureView::Io { path, message } => path + ": "@ + message,
            FailureView::Decode { path } => "not valid UTF-8: "@ + path,
            FailureView::InvalidPath { path } => "path has no file name: "@ + path,
            FailureView::Render { message } => message,
        }
    }
}

impl Failure {
    /// What went wrong, in words.
    pub fn message(&self) -> (text: String)
        ensures
            text@ == self@.message(),
    {
        match self {
            Failure::Pattern { message } => message.clone(),
            Failure::InvalidPattern { pattern } => joined("not a glob pattern: ", pattern.as_str()),
            Failure::NotFound { path } => joined("no such file: ", path.as_str()),
            Failure::Io { path, message } => {
                let mut text = joined(path.as_str(), ": ");
                text.append(message.as_str());
                text
            },
            Failure::Decode { path } => joined("not valid UTF-8: ", path.as_str()),
            Failure::InvalidPath { path } => joined("path has no file name: ", path.as_str()),
            Failure::Render { message } => message.clone(),
        }
    }
}

} // verus!
