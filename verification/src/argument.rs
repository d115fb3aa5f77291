//! Resolution of a key argument: the name of a key file, or the key itself.
//!
//! The caller makes one attempt to read the argument as a file and hands the
//! outcome to [`parse_argument`], which decides what the key is. Only a
//! missing file turns the argument into a literal key; every other failure
//! is passed on, so that an unreadable key file is never taken for a
//! passphrase.

use vstd::prelude::*;
use vstd::slice::slice_to_vec;
use vstd::utf8::encode_utf8;

verus! {

/// Why an attempt to read a file failed, as far as the resolution tells
/// failures apart.
#[derive(Debug, Clone, Copy, PartialEq, Eq)]
pub enum ReadErrorKind {
    /// No file exists at the path.
    NotFound,
    /// Any other failure: permission denied, the path names a directory, an
    /// I/O error.
    Other,
}

/// A failed attempt to read a file.
#[derive(Debug, PartialEq, Eq)]
pub struct ReadError {
    /// Whether the file was missing.
    pub kind: ReadErrorKind,
    /// The underlying error, described for a human reader.
    pub description: String,
}

/// The mathematical content of a [`ReadError`].
pub struct ReadErrorView {
    pub kind: ReadErrorKind,
    pub description: Seq<char>,
}

impl View for ReadError {
    type V = ReadErrorView;

    open spec fn view(&self) -> ReadErrorView {
        ReadErrorView { kind: self.kind, description: self.description@ }
    }
}

/// A wrapper around `Result<T,E>` that contains metadata about whether the
/// argument was parsed as a file or a string.
#[derive(Debug, PartialEq, Eq)]
pub enum ArgResult {
    /// The argument names a file; these are its bytes.
    FromPath(Vec<u8>),
    /// No such file exists; these are the argument's own bytes.
    FromString(Vec<u8>),
    /// The file could not be read, for a reason other than its absence.
    Failed(ReadError),
}

/// The mathematical content of an [`ArgResult`].
pub enum ArgResultView {
    FromPath(Seq<u8>),
    FromString(Seq<u8>),
    Failed(ReadErrorView),
}

impl View for ArgResult {
    type V = ArgResultView;

    open spec fn view(&self) -> ArgResultView {
        match *self {
            ArgResult::FromPath(bytes) => ArgResultView::FromPath(bytes@),
            ArgResult::FromString(bytes) => ArgResultView::FromString(bytes@),
            ArgResult::Failed(error) => ArgResultView::Failed(error@),
        }
    }
}

/// The mathematical content of a read attempt's outcome.
pub open spec fn read_outcome(read: Result<Vec<u8>, ReadError>) -> Result<Seq<u8>, ReadErrorView> {
    match read {
        Ok(bytes) => Ok(bytes@),
        Err(error) => Err(error@),
    }
}

/// What an argument resolves to, given the outcome of reading it as a file:
/// the file's bytes where the read succeeded, the argument's UTF-8 bytes
/// where no such file exists, and the failure itself in every other case.
pub open spec fn resolution(
    arg: Seq<char>,
    read: Result<Seq<u8>, ReadErrorView>,
) -> ArgResultView {
    match read {
        Ok(bytes) => ArgResultView::FromPath(bytes),
        Err(error) => match error.kind {
            ReadErrorKind::NotFound => ArgResultView::FromString(encode_utf8(arg)),
            ReadErrorKind::Other => ArgResultView::Failed(error),
        },
    }
}

/// Parse an argument as either a filepath or, failing that, as a raw string.
///
/// `read` is the outcome of the caller's attempt to read, in full, the file
/// that `arg` names.
pub fn parse_argument(arg: &str, read: Result<Vec<u8>, ReadError>) -> (result: ArgResult)
    ensures
        result@ == resolution(arg@, read_outcome(read)),
{
    match read {
        Ok(vector) => ArgResult::FromPath(vector),
        Err(error) => match error.kind {
            ReadErrorKind::NotFound => ArgResult::FromString(slice_to_vec(arg.as_bytes())),
            ReadErrorKind::Other => ArgResult::Failed(error),
        },
    }
}

} // verus!
