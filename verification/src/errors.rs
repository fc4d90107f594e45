//! Diagnostics: what went wrong in a schema, and how several findings are
//! reported together.

use vstd::prelude::*;

verus! {

/// The kinds of error that a schema can have.
#[derive(Debug, Clone, Copy, PartialEq, Eq, Structural)]
pub enum ErrorKind {
    /// A declared type is no supported scalar.
    Type,
    /// A dimension or a repeat count is outside its range.
    Dimension,
    /// A vector of three 8- or 16-bit scalars in a vertex or instance
    /// stream: there is no vertex format for it.
    Format,
    /// The input is no record of named fields, or lacks what its domain
    /// requires.
    Structure,
    /// A format string could not be filled in: it is malformed, or takes
    /// another number of arguments than it was given. This is a defect of
    /// the generator or a name that holds a brace, not a fault of a schema.
    InternalFormat,
}

/// One finding.
#[derive(Debug)]
pub struct Diagnostic {
    pub kind: ErrorKind,
    /// The position of the offending field in the schema, if the finding is
    /// about one field.
    pub position: Option<usize>,
    /// The name of the offending field, if it has one.
    pub field: Option<String>,
    pub message: String,
}

/// One finding as a mathematical value.
pub struct DiagnosticView {
    pub kind: ErrorKind,
    pub position: Option<usize>,
    pub field: Option<Seq<char>>,
    pub message: Seq<char>,
}

impl View for Diagnostic {
    type V = DiagnosticView;

    open spec fn view(&self) -> DiagnosticView {
        DiagnosticView {
            kind: self.kind,
            position: self.position,
            field: match self.field {
                Some(name) => Some(name@),
                None => None,
            },
            message: self.message@,
        }
    }
}

/// One or more findings, in the order in which they were made.
#[derive(Debug)]
pub struct Error {
    pub diagnostics: Vec<Diagnostic>,
}

/// The findings of a list of diagnostics, as mathematical values.
pub open spec fn diagnostics_view(v: Seq<Diagnostic>) -> Seq<DiagnosticView> {
    v.map_values(|d: Diagnostic| d@)
}

impl View for Error {
    type V = Seq<DiagnosticView>;

    open spec fn view(&self) -> Seq<DiagnosticView> {
        diagnostics_view(self.diagnostics@)
    }
}

impl Diagnostic {
    /// A finding about the schema as a whole.
    pub fn new(kind: ErrorKind, message: String) -> (d: Diagnostic)
        ensures
            d@ == (DiagnosticView { kind, position: None, field: None, message: message@ }),
    {
        Diagnostic { kind, position: None, field: None, message }
    }

    /// A finding about the field at `position`, named `field`.
    pub fn at_field(kind: ErrorKind, position: usize, field: String, message: String) -> (d:
        Diagnostic)
        ensures
            d@ == (DiagnosticView {
                kind,
                position: Some(position),
                field: Some(field@),
                message: message@,
            }),
    {
        Diagnostic { kind, position: Some(position), field: Some(field), message }
    }
}

impl Error {
    /// An error with one finding.
    pub fn new(diagnostic: Diagnostic) -> (e: Error)
        ensures
            e@ == seq![diagnostic@],
    {
        let mut diagnostics: Vec<Diagnostic> = Vec::new();
        diagnostics.push(diagnostic);
        assert(diagnostics_view(diagnostics@) =~= seq![diagnostic@]);
        Error { diagnostics }
    }

    /// Adds the findings of `other` behind those of `self`.
    pub fn combine(&mut self, other: Error)
        ensures
            final(self)@ == old(self)@ + other@,
    {
        let mut other = other;
        let ghost before = self.diagnostics@;
        let ghost added = other.diagnostics@;
        self.diagnostics.append(&mut other.diagnostics);
        assert(diagnostics_view(before + added) =~= diagnostics_view(before) + diagnostics_view(
            added,
        ));
    }

    /// The number of findings.
    pub fn len(&self) -> (n: usize)
        ensures
            n == self@.len(),
    {
        self.diagnostics.len()
    }
}

} // verus!
