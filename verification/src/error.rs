//! The error model: the two failure kinds a parse can surface — no pattern
//! matched, or a matched pattern's captures could not be bound to the fields —
//! plus the configuration-time error for a pattern that does not compile.
//! Every error carries enough context to pinpoint its cause; nothing is
//! logged, retried or downgraded.

use vstd::prelude::*;

verus! {

/// Which field a binding failure concerns: its name in a named shape, its
/// position in a positional shape.
#[derive(Debug, Clone, PartialEq, Eq)]
pub enum FieldId {
    Name(String),
    Index(usize),
}

/// A match was found but the captures could not populate the fields.
#[derive(Debug, Clone, PartialEq, Eq)]
pub enum BindError {
    /// The capture group required for the field at this position was absent:
    /// the group did not participate in the match, or the pattern has fewer
    /// groups than the shape has fields.
    MissingGroup { index: usize },
    /// The group's text was present but conversion to the field's declared
    /// type failed; the message is the conversion capability's own text,
    /// propagated verbatim.
    FieldConversion { field: FieldId, message: String },
}

/// What a failed parse returns: either no pattern matched at all, or the
/// first matching pattern's captures did not bind.
#[derive(Debug, Clone, PartialEq, Eq)]
pub enum ParseError {
    /// None of the applicable patterns matched; carries the original input.
    NoMatch { input: String },
    /// The first matching pattern won, and binding its captures failed.
    Bind(BindError),
}

/// A pattern that is not a valid regular expression: a configuration error,
/// surfaced when the registry is built, never retried.
#[derive(Debug, Clone, PartialEq, Eq)]
pub struct CompileError {
    /// The pattern that did not compile.
    pub pattern: String,
    /// The engine's description of the defect.
    pub message: String,
}

/// Mathematical model of a [`FieldId`].
#[verifier::ext_equal]
pub enum FieldIdV {
    Name(Seq<char>),
    Index(int),
}

/// Mathematical model of a [`BindError`].
#[verifier::ext_equal]
pub enum BindErrorV {
    MissingGroup { index: int },
    FieldConversion { field: FieldIdV, message: Seq<char> },
}

/// Mathematical model of a [`ParseError`].
#[verifier::ext_equal]
pub enum ParseErrorV {
    NoMatch { input: Seq<char> },
    Bind(BindErrorV),
}

impl View for FieldId {
    type V = FieldIdV;

    open spec fn view(&self) -> FieldIdV {
        match self {
            FieldId::Name(n) => FieldIdV::Name(n@),
            FieldId::Index(i) => FieldIdV::Index(*i as int),
        }
    }
}

impl View for BindError {
    type V = BindErrorV;

    open spec fn view(&self) -> BindErrorV {
        match self {
            BindError::MissingGroup { index } => BindErrorV::MissingGroup {
                index: *index as int,
            },
            BindError::FieldConversion { field, message } => BindErrorV::FieldConversion {
                field: field@,
                message: message@,
            },
        }
    }
}

impl View for ParseError {
    type V = ParseErrorV;

    open spec fn view(&self) -> ParseErrorV {
        match self {
            ParseError::NoMatch { input } => ParseErrorV::NoMatch { input: input@ },
            ParseError::Bind(b) => ParseErrorV::Bind(b@),
        }
    }
}

} // verus!
