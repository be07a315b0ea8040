//! The native-model error object.
//!
//! An error value always exists (the output-parameter convention hands one to
//! every fallible native call); it reports success until a failure is recorded
//! in it. Success is exactly "the kind is still `Invalid`", so success and
//! failure are mutually exclusive by construction.

use vstd::prelude::*;

use crate::state::ErrorType;

verus! {

/// Specification-level content of an [`SBError`].
pub struct ErrorV {
    pub etype: ErrorType,
    pub msg: Option<Seq<char>>,
}

/// A native-model error: a kind and an optional textual description.
#[derive(Debug)]
pub struct SBError {
    pub etype: ErrorType,
    pub msg: Option<String>,
}

impl View for SBError {
    type V = ErrorV;

    open spec fn view(&self) -> ErrorV {
        ErrorV {
            etype: self.etype,
            msg: match self.msg {
                Some(ref m) => Some(m@),
                None => None,
            },
        }
    }
}

impl ErrorV {
    /// A success state is exactly an error whose kind was never set.
    pub open spec fn is_success(self) -> bool {
        self.etype == ErrorType::Invalid
    }

    pub open spec fn is_fail(self) -> bool {
        self.etype != ErrorType::Invalid
    }

    /// The text a reader of the error sees: the recorded description, or a
    /// fixed placeholder when none was recorded.
    pub open spec fn text(self) -> Seq<char> {
        match self.msg {
            Some(m) => m,
            None => "no error string"@,
        }
    }
}

impl SBError {
    /// A fresh error value: reports success, carries no description.
    pub fn new() -> (r: SBError)
        ensures
            r@ == (ErrorV { etype: ErrorType::Invalid, msg: None::<Seq<char>> }),
    {
        SBError { etype: ErrorType::Invalid, msg: None }
    }

    /// A failure of the given kind with a description.
    pub fn failure(etype: ErrorType, msg: &str) -> (r: SBError)
        requires
            etype != ErrorType::Invalid,
        ensures
            r@ == (ErrorV { etype, msg: Some(msg@) }),
    {
        SBError { etype, msg: Some(msg.to_owned()) }
    }

    /// Records a description in the error, marking it as a generic failure.
    pub fn set_error_string(&mut self, msg: &str)
        ensures
            final(self)@ == (ErrorV { etype: ErrorType::Generic, msg: Some(msg@) }),
    {
        self.etype = ErrorType::Generic;
        self.msg = Some(msg.to_owned());
    }

    /// Whether the error reports success.
    pub fn success(&self) -> (r: bool)
        ensures
            r == self@.is_success(),
    {
        matches!(self.etype, ErrorType::Invalid)
    }

    /// Whether the error reports failure.
    pub fn fail(&self) -> (r: bool)
        ensures
            r == self@.is_fail(),
    {
        !matches!(self.etype, ErrorType::Invalid)
    }

    /// The error kind.
    pub fn error_type(&self) -> (r: ErrorType)
        ensures
            r == self@.etype,
    {
        self.etype
    }

    /// The error text, with the placeholder standing in for a missing one.
    pub fn error_string(&self) -> (r: &str)
        ensures
            r@ == self@.text(),
    {
        match self.msg {
            Some(ref m) => m.as_str(),
            None => "no error string",
        }
    }
}

/// Success and failure are mutually exclusive views of every reachable error
/// state: each error reports exactly one of the two.
pub proof fn lemma_error_flags_exclusive(e: ErrorV)
    ensures
        e.is_success() != e.is_fail(),
{
}

} // verus!
