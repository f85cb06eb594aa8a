//! The two ways in which reading a status text fails.

use vstd::prelude::*;
use vstd::string::*;

verus! {

/// Why a status text could not be turned into a record.
#[derive(Debug, PartialEq, Eq)]
pub enum ParseError {
    /// No line of the text holds the attribute's name.
    AttributeNotFound(String),
    /// A line was found for the attribute, but it declares no value or a
    /// value that is not of the expected form; the message cites the
    /// offending raw text.
    ValueError(String),
}

/// A [`ParseError`] as contracts speak of it: the same two cases, over
/// sequences of characters.
pub enum Failure {
    AttributeNotFound(Seq<char>),
    ValueError(Seq<char>),
}

impl View for ParseError {
    type V = Failure;

    open spec fn view(&self) -> Failure {
        match self {
            ParseError::AttributeNotFound(name) => Failure::AttributeNotFound(name@),
            ParseError::ValueError(reason) => Failure::ValueError(reason@),
        }
    }
}

impl Failure {
    /// The sentence that describes the failure to a person.
    pub open spec fn message(self) -> Seq<char> {
        match self {
            Failure::AttributeNotFound(name) => "error while parsing: attribute \""@ + name
                + "\" not found"@,
            Failure::ValueError(reason) => "error while parsing: "@ + reason,
        }
    }
}

impl ParseError {
    /// Renders the error as one sentence.
    pub fn to_string(&self) -> (out: String)
        ensures
            out@ == self@.message(),
    {
        match self {
            ParseError::AttributeNotFound(name) => {
                let mut out = String::from_str("error while parsing: attribute \"");
                out.append(name.as_str());
                out.append("\" not found");
                out
            },
            ParseError::ValueError(reason) => {
                let mut out = String::from_str("error while parsing: ");
                out.append(reason.as_str());
                out
            },
        }
    }
}

} // verus!
