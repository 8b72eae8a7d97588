//! The failures that the helpers report, each as a value handed back to
//! the caller.

use crate::decimal::{decimal, push_decimal};
use vstd::prelude::*;
use vstd::string::StringExecFns;

verus! {

/// A field that a greeting needs.
#[derive(Clone, Copy, Debug, PartialEq, Eq, Structural)]
pub enum Field {
    Name,
    City,
}

impl Field {
    /// The key under which the field is looked up.
    pub open spec fn key_view(self) -> Seq<char> {
        match self {
            Field::Name => "name"@,
            Field::City => "city"@,
        }
    }

    /// The key under which the field is looked up.
    pub fn key(self) -> (k: &'static str)
        ensures
            k@ == self.key_view(),
    {
        match self {
            Field::Name => "name",
            Field::City => "city",
        }
    }
}

/// Why a helper could not give its result.
#[derive(Clone, Copy, Debug, PartialEq, Eq, Structural)]
pub enum Error {
    /// The greeting's fields lack this one.
    MissingField(Field),
    /// The first operand of an addition, which is below the floor.
    ValueTooSmall(i64),
    /// The file could not be opened or read.
    FileNotFound,
    /// The file's bytes are not UTF-8.
    Decode,
}

impl Error {
    /// The text of `message`.
    pub open spec fn message_view(self) -> Seq<char> {
        match self {
            Error::MissingField(field) => "Missing field: "@ + field.key_view(),
            Error::ValueTooSmall(a) => "Too small number: "@ + decimal(a as int) + ", think big."@,
            Error::FileNotFound => "no file found"@,
            Error::Decode => "file is not valid UTF-8"@,
        }
    }

    /// A sentence for the user; for a value that is too small it repeats
    /// the value.
    pub fn message(&self) -> (text: String)
        ensures
            text@ == self.message_view(),
    {
        match self {
            Error::MissingField(field) => {
                let mut text = String::from_str("Missing field: ");
                text.append(field.key());
                text
            },
            Error::ValueTooSmall(a) => {
                let mut text = String::from_str("Too small number: ");
                push_decimal(&mut text, *a);
                text.append(", think big.");
                text
            },
            Error::FileNotFound => String::from_str("no file found"),
            Error::Decode => String::from_str("file is not valid UTF-8"),
        }
    }
}

} // verus!
