//! What the caller hands back after reading a file.

use vstd::prelude::*;
use vstd::utf8::{decode_utf8, valid_utf8};

use crate::failure::{Failure, FailureView};
use crate::text::decode;

verus! {

/// What reading the whole of a file gave. The caller makes the read; the
/// library decides what follows from it.
#[derive(Debug, PartialEq, Eq)]
pub enum ReadOutcome {
    /// The bytes of the file.
    Bytes(Vec<u8>),
    /// There is no file at the path.
    NotFound,
    /// The file is there and could not be read, for the reason given.
    Failed(String),
}

/// A [`ReadOutcome`] as a mathematical value.
pub enum ReadOutcomeView {
    Bytes(Seq<u8>),
    NotFound,
    Failed(Seq<char>),
}

impl View for ReadOutcome {
    type V = ReadOutcomeView;

    open spec fn view(&self) -> ReadOutcomeView {
        match *self {
            ReadOutcome::Bytes(bytes) => ReadOutcomeView::Bytes(bytes@),
            ReadOutcome::NotFound => ReadOutcomeView::NotFound,
            ReadOutcome::Failed(message) => ReadOutcomeView::Failed(message@),
        }
    }
}

/// The text of the file at `path`, given what reading it gave: the bytes
/// decoded as UTF-8, or the failure that says why there is no text.
pub open spec fn read_text(path: Seq<char>, read: ReadOutcomeView) -> Result<Seq<char>, FailureView> {
    match read {
        ReadOutcomeView::NotFound => Err(FailureView::NotFound { path }),
        ReadOutcomeView::Failed(message) => Err(FailureView::Io { path, message }),
        ReadOutcomeView::Bytes(bytes) => if valid_utf8(bytes) {
            Ok(decode_utf8(bytes))
        } else {
            Err(FailureView::Decode { path })
        },
    }
}

impl ReadOutcome {
    /// The text of the file at `path`, or the failure that says why there is
    /// none: the file is missing, could not be read, or does not hold UTF-8.
    pub fn into_text(self, path: &str) -> (result: Result<String, Failure>)
        ensures
            match read_text(path@, self@) {
                Ok(text) => result matches Ok(found) && found@ == text,
                Err(failure) => result matches Err(f) && f@ == failure,
            },
    {
        match self {
            ReadOutcome::NotFound => Err(Failure::NotFound { path: path.to_owned() }),
            ReadOutcome::Failed(message) => Err(Failure::Io { path: path.to_owned(), message }),
            ReadOutcome::Bytes(bytes) => match decode(bytes) {
                Some(text) => Ok(text),
                None => Err(Failure::Decode { path: path.to_owned() }),
            },
        }
    }
}

} // verus!
