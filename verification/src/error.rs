//! The failures that the engine reports before any process exists.

use vstd::prelude::*;

verus! {

/// Why a request was refused.
#[derive(Debug, Clone, PartialEq, Eq)]
pub enum Error {
    /// The program is not permitted by the allowlist.
    ProgramNotAllowed(String),
    /// The sidecar is not among the bundled external binaries.
    SidecarNotAllowed(String),
    /// The encoding label names no known encoding.
    UnknownEncoding(String),
    /// The allowlist refused a bundled sidecar; carries the validator's message.
    Scope(String),
}

/// The mathematical value of an [`Error`].
pub enum ErrorModel {
    ProgramNotAllowed(Seq<char>),
    SidecarNotAllowed(Seq<char>),
    UnknownEncoding(Seq<char>),
    Scope(Seq<char>),
}

impl View for Error {
    type V = ErrorModel;

    open spec fn view(&self) -> ErrorModel {
        match self {
            Error::ProgramNotAllowed(p) => ErrorModel::ProgramNotAllowed(p@),
            Error::SidecarNotAllowed(p) => ErrorModel::SidecarNotAllowed(p@),
            Error::UnknownEncoding(l) => ErrorModel::UnknownEncoding(l@),
            Error::Scope(m) => ErrorModel::Scope(m@),
        }
    }
}

impl Error {
    /// The program, label or message that the failure is about.
    pub fn subject(&self) -> (s: &String)
        ensures
            s@ == match self@ {
                ErrorModel::ProgramNotAllowed(p) => p,
                ErrorModel::SidecarNotAllowed(p) => p,
                ErrorModel::UnknownEncoding(l) => l,
                ErrorModel::Scope(m) => m,
            },
    {
        match self {
            Error::ProgramNotAllowed(p) => p,
            Error::SidecarNotAllowed(p) => p,
            Error::UnknownEncoding(l) => l,
            Error::Scope(m) => m,
        }
    }
}

} // verus!
