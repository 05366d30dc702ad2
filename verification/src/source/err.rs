//! Errors of the assembler. Every error is anchored at a line of a source.

use vstd::prelude::*;

verus! {

/// The number of a line in its source, counted from 1.
pub type LineNumber = u32;

/// A place in a source: its name and a line, counted from 1.
#[derive(Debug, Clone, PartialEq)]
pub struct SourceLocation {
    pub source: String,
    pub line_number: LineNumber,
}

/// A place in a source, as plain values.
pub struct Location {
    pub source: Seq<char>,
    pub line_number: LineNumber,
}

impl View for SourceLocation {
    type V = Location;

    open spec fn view(&self) -> Location {
        Location { source: self.source@, line_number: self.line_number }
    }
}

impl SourceLocation {
    /// The place at line `ln` of the source `src`.
    pub fn new(src: &str, ln: LineNumber) -> (loc: SourceLocation)
        ensures
            loc@ == (Location { source: src@, line_number: ln }),
    {
        SourceLocation { source: src.to_owned(), line_number: ln }
    }

    /// A copy of this place.
    pub fn duplicate(&self) -> (loc: SourceLocation)
        ensures
            loc@ == self@,
    {
        SourceLocation { source: self.source.clone(), line_number: self.line_number }
    }
}

/// The places of a list, as plain values.
pub open spec fn locations(v: Seq<SourceLocation>) -> Seq<Location> {
    v.map_values(|l: SourceLocation| l@)
}

/// What went wrong.
#[derive(Debug, Clone, PartialEq)]
pub enum ErrorType {
    /// A source could not be read.
    IoError,
    /// A directive that the assembler does not know, by its name.
    UnknownDirective(String),
    /// An operand that its directive cannot take, as written.
    InvalidOperand(String),
    /// A second `.entry`.
    DoubleEntry,
    /// A label that is used and never defined, by its name.
    UndefinedLabel(String),
    /// A label that is defined twice, by its name.
    DuplicateLabel(String),
    /// Anything else: what is wrong, and with what.
    Other(&'static str, String),
}

/// What went wrong, as plain values.
pub enum ErrorKind {
    IoError,
    UnknownDirective(Seq<char>),
    InvalidOperand(Seq<char>),
    DoubleEntry,
    UndefinedLabel(Seq<char>),
    DuplicateLabel(Seq<char>),
    Other(Seq<char>, Seq<char>),
}

impl View for ErrorType {
    type V = ErrorKind;

    open spec fn view(&self) -> ErrorKind {
        match self {
            ErrorType::IoError => ErrorKind::IoError,
            ErrorType::UnknownDirective(s) => ErrorKind::UnknownDirective(s@),
            ErrorType::InvalidOperand(s) => ErrorKind::InvalidOperand(s@),
            ErrorType::DoubleEntry => ErrorKind::DoubleEntry,
            ErrorType::UndefinedLabel(s) => ErrorKind::UndefinedLabel(s@),
            ErrorType::DuplicateLabel(s) => ErrorKind::DuplicateLabel(s@),
            ErrorType::Other(m, s) => ErrorKind::Other(m@, s@),
        }
    }
}

/// An error of the assembler: where, what, and, for a label that was never
/// defined, the further places at which it is used.
#[derive(Debug, Clone, PartialEq)]
pub struct Error {
    pub source: String,
    pub line_number: LineNumber,
    pub kind: ErrorType,
    pub chain: Vec<SourceLocation>,
}

/// An error, as plain values.
pub struct Failure {
    pub at: Location,
    pub kind: ErrorKind,
    pub chain: Seq<Location>,
}

impl View for Error {
    type V = Failure;

    open spec fn view(&self) -> Failure {
        Failure {
            at: Location { source: self.source@, line_number: self.line_number },
            kind: self.kind@,
            chain: locations(self.chain@),
        }
    }
}

/// The failure of the given kind at the given place, with nothing chained.
pub open spec fn failure(source: Seq<char>, line_number: LineNumber, kind: ErrorKind) -> Failure {
    Failure { at: Location { source, line_number }, kind, chain: Seq::empty() }
}

impl Error {
    /// An error with nothing chained.
    pub fn new(source: String, line_number: LineNumber, kind: ErrorType) -> (e: Error)
        ensures
            e@ == failure(source@, line_number, kind@),
    {
        let e = Error { source, line_number, kind, chain: Vec::new() };
        assert(e@.chain =~= Seq::empty());
        e
    }
}

} // verus!
