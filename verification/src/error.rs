//! Why a translation stops.

use vstd::prelude::*;
use vstd::string::StringExecFns;

verus! {

/// The ways in which a module can fail to translate. The first failure met
/// ends the translation.
#[derive(Debug, Clone, Copy, PartialEq, Eq, Structural)]
pub enum ErrorKind {
    /// A type expression, member or statement outside the supported subset.
    UnsupportedShape,
    /// A union that is not one type together with `null` or `undefined`.
    MalformedUnion,
    /// An object type named in an argument, or an input type named elsewhere.
    PositionalViolation,
    /// A type name that the manifest does not hold.
    UndefinedReference,
    /// A function type with another number of parameters than one, or whose
    /// parameter is not an object literal; arguments on a field of an input
    /// type.
    StructuralViolation,
}

/// A failure as contracts see it: its kind, and the name that locates it.
pub struct ErrorModel {
    pub kind: ErrorKind,
    pub context: Seq<char>,
}

/// A failure: its kind, and the name of the field, argument, declaration or
/// type that was being translated when it was met.
#[derive(Debug)]
pub struct Error {
    pub kind: ErrorKind,
    pub context: String,
}

impl View for Error {
    type V = ErrorModel;

    open spec fn view(&self) -> ErrorModel {
        ErrorModel { kind: self.kind, context: self.context@ }
    }
}

/// The words that stand for a kind in a message.
pub open spec fn kind_text(kind: ErrorKind) -> Seq<char> {
    match kind {
        ErrorKind::UnsupportedShape => "unsupported shape"@,
        ErrorKind::MalformedUnion => "malformed union"@,
        ErrorKind::PositionalViolation => "positional violation"@,
        ErrorKind::UndefinedReference => "undefined reference"@,
        ErrorKind::StructuralViolation => "structural violation"@,
    }
}

impl Error {
    /// A failure of the given kind, met at `context`.
    pub fn new(kind: ErrorKind, context: &str) -> (error: Self)
        ensures
            error@ == (ErrorModel { kind, context: context@ }),
    {
        Error { kind, context: String::from_str(context) }
    }

    /// The failure in words: the kind, then `: ` and the context.
    pub fn message(&self) -> (text: String)
        ensures
            text@ == kind_text(self.kind) + ": "@ + self.context@,
    {
        let mut text = match self.kind {
            ErrorKind::UnsupportedShape => String::from_str("unsupported shape"),
            ErrorKind::MalformedUnion => String::from_str("malformed union"),
            ErrorKind::PositionalViolation => String::from_str("positional violation"),
            ErrorKind::UndefinedReference => String::from_str("undefined reference"),
            ErrorKind::StructuralViolation => String::from_str("structural violation"),
        };
        text.append(": ");
        text.append(self.context.as_str());
        text
    }
}

} // verus!
