//! The values that a variable can hold, as far as writing them goes.

use vstd::prelude::*;

verus! {

/// A variable's value. What is written to a file is the value's text: a
/// string as it is, any other value in its display form.
#[derive(Clone, Debug, PartialEq, Eq)]
pub enum Value {
    /// A string.
    String(String),
    /// A value of another kind, held by its display form.
    Other(String),
}

impl Value {
    /// The text that stands for the value in a file.
    pub open spec fn canonical(&self) -> Seq<char> {
        match self {
            Value::String(text) => text@,
            Value::Other(display) => display@,
        }
    }

    /// The text that stands for the value in a file.
    pub fn canonical_text(&self) -> (text: String)
        ensures
            text@ == self.canonical(),
    {
        match self {
            Value::String(text) => text.clone(),
            Value::Other(display) => display.clone(),
        }
    }
}

} // verus!
