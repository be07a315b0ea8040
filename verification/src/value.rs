//! The native-model value object.
//!
//! A value is what reading a register or evaluating an expression yields. An
//! invalid value (the model of a failed lookup) carries no unsigned content
//! and no text; asking it for an unsigned number fails through the
//! output-parameter error.

use vstd::prelude::*;

use crate::error::{ErrorV, SBError};
use crate::state::ErrorType;

verus! {

/// Specification-level content of an [`SBValue`].
pub struct ValueV {
    pub unsigned: Option<u64>,
    pub summary: Option<Seq<char>>,
}

impl ValueV {
    /// The text a debug-printing caller sees: the summary, or a placeholder
    /// standing in for the null pointer the native call would hand back.
    pub open spec fn text(self) -> Seq<char> {
        match self.summary {
            Some(s) => s,
            None => "nullptr"@,
        }
    }
}

/// A native-model value handle.
#[derive(Debug)]
pub struct SBValue {
    /// The unsigned content, absent when the value is invalid.
    pub unsigned: Option<u64>,
    /// The cached textual rendering, absent when the native side has none.
    pub summary: Option<String>,
}

impl View for SBValue {
    type V = ValueV;

    open spec fn view(&self) -> ValueV {
        ValueV {
            unsigned: self.unsigned,
            summary: match self.summary {
                Some(ref s) => Some(s@),
                None => None,
            },
        }
    }
}

impl SBValue {
    /// An invalid value: what a failed register or expression lookup yields.
    pub fn invalid() -> (r: SBValue)
        ensures
            r@ == (ValueV { unsigned: None::<u64>, summary: None::<Seq<char>> }),
    {
        SBValue { unsigned: None, summary: None }
    }

    /// A valid value holding an unsigned number.
    pub fn from_unsigned(v: u64) -> (r: SBValue)
        ensures
            r@ == (ValueV { unsigned: Some(v), summary: None::<Seq<char>> }),
    {
        SBValue { unsigned: Some(v), summary: None }
    }

    /// A valid value holding an unsigned number and a textual rendering.
    pub fn with_summary(v: u64, text: &str) -> (r: SBValue)
        ensures
            r@ == (ValueV { unsigned: Some(v), summary: Some(text@) }),
    {
        SBValue { unsigned: Some(v), summary: Some(text.to_owned()) }
    }

    /// The unsigned content, through the output-parameter error convention:
    /// on failure the given fallback is returned and the error records it.
    pub fn value_as_unsigned(&self, fail_value: u64, e: &mut SBError) -> (r: u64)
        ensures
            match self.unsigned {
                Some(v) => r == v && *final(e) == *old(e),
                None => r == fail_value && final(e)@ == (ErrorV {
                    etype: ErrorType::Generic,
                    msg: Some("no value"@),
                }),
            },
    {
        match self.unsigned {
            Some(v) => v,
            None => {
                e.set_error_string("no value");
                fail_value
            },
        }
    }

    /// The cached textual rendering, with a placeholder for a missing one.
    pub fn value_text(&self) -> (r: &str)
        ensures
            r@ == self@.text(),
    {
        match self.summary {
            Some(ref s) => s.as_str(),
            None => "nullptr",
        }
    }
}

} // verus!
