//! The ways in which type checking fails.
use vstd::prelude::*;

verus! {

/// Why a term was refused.
#[derive(Clone, Copy, Debug, PartialEq, Eq, Structural)]
pub enum TypeError {
    /// A name that the context does not bind.
    NameNotFound,
    /// The type of the term is not the type that was asked for.
    TypeMismatch,
    /// The universe of the largest level has no type.
    UniverseOverflow,
    /// A term for which no rule synthesises a type. Every term that can be
    /// built today has such a rule; the case is kept for terms to come that
    /// will need an annotation.
    SynthesisFailure,
}

impl TypeError {
    /// A short description of the error, for the user.
    pub fn message(&self) -> (s: &'static str)
        ensures
            s@ == self.message_text(),
    {
        match self {
            TypeError::NameNotFound => "Not found",
            TypeError::TypeMismatch => "Type mismatch",
            TypeError::UniverseOverflow => "Failed to synthesize a type",
            TypeError::SynthesisFailure => "Failed to synthesize a type",
        }
    }

    /// The text of `message`.
    pub open spec fn message_text(&self) -> Seq<char> {
        match self {
            TypeError::NameNotFound => "Not found"@,
            TypeError::TypeMismatch => "Type mismatch"@,
            TypeError::UniverseOverflow => "Failed to synthesize a type"@,
            TypeError::SynthesisFailure => "Failed to synthesize a type"@,
        }
    }
}

/// Why a text is no term.
#[derive(Clone, Copy, Debug, PartialEq, Eq, Structural)]
pub enum ParseError {
    /// No term stands at the start of the text.
    NoTerm,
    /// A term stands at the start, and the text goes on behind it: the field
    /// is the number of characters that the term takes.
    Trailing(usize),
}

impl ParseError {
    /// A short description of the error, for the user.
    pub fn message(&self) -> (s: &'static str)
        ensures
            s@ == self.message_text(),
    {
        match self {
            ParseError::NoTerm => "Expected a term",
            ParseError::Trailing(_) => "Unexpected text after the term",
        }
    }

    /// The text of `message`.
    pub open spec fn message_text(&self) -> Seq<char> {
        match self {
            ParseError::NoTerm => "Expected a term"@,
            ParseError::Trailing(_) => "Unexpected text after the term"@,
        }
    }
}

} // verus!
