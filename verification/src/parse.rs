//! The interface to the schema front end: what it hands over for a record,
//! and how that becomes a schema or a report of everything that is wrong
//! with it.

use vstd::prelude::*;
use crate::dim::parse_u8_spec;
use crate::dim::Dim;
use crate::dim::ParseDimError;
use crate::errors::diagnostics_view;
use crate::errors::Diagnostic;
use crate::errors::DiagnosticView;
use crate::errors::Error;
use crate::errors::ErrorKind;
use crate::field::fields_view;
use crate::field::FieldSpec;
use crate::field::RawField;
use crate::raw_value::RawValueCount;
use crate::raw_value::RawValueError;
use crate::scalar::Scalar;
use crate::wgsl_type::WgslType;

verus! {

/// A field as the front end found it: its name if it has one, the scalar
/// type that it declares, and the numerals of its dimensions and of its
/// repeat count, where it declares any.
#[derive(Debug)]
pub struct FieldInput {
    pub ident: Option<String>,
    pub ty: String,
    pub dim_x: Option<String>,
    pub dim_y: Option<String>,
    pub multiplier: Option<String>,
}

/// A record as the front end found it.
#[derive(Debug)]
pub struct StructInput {
    pub ident: String,
    /// Whether the item is a struct at all.
    pub is_struct: bool,
    pub fields: Vec<FieldInput>,
    /// The vertex record that an instance record names, where it names one.
    pub vertex_attr: Option<String>,
}

/// A found field as a mathematical value.
pub struct FieldInputSpec {
    pub ident: Option<Seq<char>>,
    pub ty: Seq<char>,
    pub dim_x: Option<Seq<char>>,
    pub dim_y: Option<Seq<char>>,
    pub multiplier: Option<Seq<char>>,
}

/// A schema that was read without findings.
#[derive(Debug)]
pub struct ParsedStruct<T> {
    pub ident: String,
    pub fields: Vec<RawField<T>>,
    pub vertex_attr: Option<String>,
    /// The kind of record that the schema was read for. It names the raw
    /// record and stands in the diagnostics.
    pub name: &'static str,
}

/// What is wrong with a field, if anything is. Of several faults the first
/// in this order is found.
#[derive(Debug, Clone, Copy, PartialEq, Eq, Structural)]
pub enum Fault {
    Unnamed,
    DimX,
    DimY,
    Multiplier,
    Type,
}

/// The characters of a text that may be missing.
pub open spec fn text_view(text: Option<String>) -> Option<Seq<char>> {
    match text {
        Some(s) => Some(s@),
        None => None,
    }
}

impl View for FieldInput {
    type V = FieldInputSpec;

    open spec fn view(&self) -> FieldInputSpec {
        FieldInputSpec {
            ident: text_view(self.ident),
            ty: self.ty@,
            dim_x: text_view(self.dim_x),
            dim_y: text_view(self.dim_y),
            multiplier: text_view(self.multiplier),
        }
    }
}

/// A list of found fields as a mathematical value.
pub open spec fn inputs_view(fields: Seq<FieldInput>) -> Seq<FieldInputSpec> {
    fields.map_values(|f: FieldInput| f@)
}

/// The dimension that a numeral stands for.
pub open spec fn dim_of_text(text: Seq<char>) -> Option<Dim> {
    match parse_u8_spec(text) {
        Some(n) => Dim::of_count(n as nat),
        None => None,
    }
}

/// The repeat count that a numeral stands for.
pub open spec fn count_of_text(text: Seq<char>) -> Option<RawValueCount> {
    match parse_u8_spec(text) {
        Some(n) => RawValueCount::of_count(n as nat),
        None => None,
    }
}

/// The dimension that an optional numeral declares.
pub open spec fn declared_dim(text: Option<Seq<char>>) -> Option<Dim> {
    match text {
        Some(t) => dim_of_text(t),
        None => None,
    }
}

/// The repeat count that an optional numeral declares.
pub open spec fn declared_count(text: Option<Seq<char>>) -> Option<RawValueCount> {
    match text {
        Some(t) => count_of_text(t),
        None => None,
    }
}

impl Fault {
    /// The kind of error that the fault is reported as.
    pub open spec fn kind(self) -> ErrorKind {
        match self {
            Fault::Unnamed => ErrorKind::Structure,
            Fault::DimX | Fault::DimY | Fault::Multiplier => ErrorKind::Dimension,
            Fault::Type => ErrorKind::Type,
        }
    }
}

impl FieldInputSpec {
    /// The fault of the field in the domain of the scalars `T`.
    pub open spec fn fault<T: Scalar>(self) -> Option<Fault> {
        if self.ident is None {
            Some(Fault::Unnamed)
        } else if self.dim_x is Some && declared_dim(self.dim_x) is None {
            Some(Fault::DimX)
        } else if self.dim_y is Some && declared_dim(self.dim_y) is None {
            Some(Fault::DimY)
        } else if self.multiplier is Some && declared_count(self.multiplier) is None {
            Some(Fault::Multiplier)
        } else if T::from_type_name(self.ty) is None {
            Some(Fault::Type)
        } else {
            None
        }
    }

    /// The field of the schema that a field without fault declares.
    pub open spec fn parsed<T: Scalar>(self) -> FieldSpec<T> {
        FieldSpec {
            name: self.ident.unwrap(),
            ty: WgslType::new_spec(
                T::from_type_name(self.ty).unwrap(),
                declared_dim(self.dim_x),
                declared_dim(self.dim_y),
            ),
            multiplier: declared_count(self.multiplier),
        }
    }

    /// Whether `finding` reports the fault of this field, found at
    /// `position`: it has the fault's kind and names the field and its
    /// position. Its text is fixed for a type that is no scalar and for a
    /// number that is out of range; for a numeral that could not be read it
    /// is the integer parser's.
    pub open spec fn reported_by<T: Scalar>(self, position: usize, finding: DiagnosticView) -> bool {
        &&& self.fault::<T>() matches Some(fault)
        &&& finding.kind == fault.kind()
        &&& finding.position == Some(position)
        &&& finding.field == self.ident
        &&& fault == Fault::Unnamed ==> finding.message == "unnamed fields are not allowed"@
        &&& fault == Fault::Type ==> finding.message == T::type_error_text(self.ty)
        &&& fault == Fault::DimX ==> (parse_u8_spec(self.dim_x.unwrap()) matches Some(n)
            ==> finding.message == ParseDimError::invalid_dim_text(n))
        &&& fault == Fault::DimY ==> (parse_u8_spec(self.dim_y.unwrap()) matches Some(n)
            ==> finding.message == ParseDimError::invalid_dim_text(n))
        &&& fault == Fault::Multiplier ==> (parse_u8_spec(self.multiplier.unwrap()) is Some
            ==> finding.message == "invalid number. The only valid numbers are 1, 2, 3, 4"@)
    }
}

/// The positions of the fields that have a fault, in order.
pub open spec fn faulty<T: Scalar>(fields: Seq<FieldInputSpec>) -> Seq<usize>
    decreases fields.len(),
{
    if fields.len() == 0 {
        Seq::empty()
    } else if fields.last().fault::<T>() is Some {
        faulty::<T>(fields.drop_last()).push((fields.len() - 1) as usize)
    } else {
        faulty::<T>(fields.drop_last())
    }
}

/// The schema that found fields without fault declare.
pub open spec fn parsed_fields<T: Scalar>(fields: Seq<FieldInputSpec>) -> Seq<FieldSpec<T>> {
    fields.map_values(|f: FieldInputSpec| f.parsed::<T>())
}

/// Whether `findings` report the faults of `fields`: one finding for each
/// field that has a fault, in the order of the fields.
pub open spec fn reports<T: Scalar>(fields: Seq<FieldInputSpec>, findings: Seq<DiagnosticView>) -> bool {
    &&& findings.len() == faulty::<T>(fields).len()
    &&& forall|j: int|
        0 <= j < findings.len() ==> fields[faulty::<T>(fields)[j] as int].reported_by::<T>(
            faulty::<T>(fields)[j],
            #[trigger] findings[j],
        )
}

/// Every faulty position is a position of the list.
pub proof fn lemma_faulty_positions<T: Scalar>(fields: Seq<FieldInputSpec>, j: int)
    requires
        0 <= j < faulty::<T>(fields).len(),
        fields.len() <= usize::MAX,
    ensures
        faulty::<T>(fields)[j] < fields.len(),
        fields[faulty::<T>(fields)[j] as int].fault::<T>() is Some,
    decreases fields.len(),
{
    if fields.len() > 0 {
        let head = faulty::<T>(fields.drop_last());
        if j < head.len() {
            lemma_faulty_positions::<T>(fields.drop_last(), j);
        }
    }
}

/// No position is faulty exactly if no field has a fault.
pub proof fn lemma_faulty_empty<T: Scalar>(fields: Seq<FieldInputSpec>)
    ensures
        faulty::<T>(fields).len() == 0 <==> forall|i: int|
            0 <= i < fields.len() ==> (#[trigger] fields[i]).fault::<T>() is None,
    decreases fields.len(),
{
    if fields.len() > 0 {
        let head = fields.drop_last();
        lemma_faulty_empty::<T>(head);
        if faulty::<T>(fields).len() == 0 {
            assert forall|i: int| 0 <= i < fields.len() implies (#[trigger] fields[i]).fault::<T>()
                is None by {
                if i < head.len() {
                    assert(head[i] == fields[i]);
                }
            }
        } else if fields.last().fault::<T>() is None {
            let i = choose|i: int| 0 <= i < head.len() && !((#[trigger] head[i]).fault::<T>() is None);
            assert(head[i] == fields[i]);
        } else {
            assert(fields[fields.len() - 1] == fields.last());
        }
    }
}

/// Reads an optional dimension.
fn parse_dim(text: &Option<String>) -> (r: Result<Option<Dim>, ParseDimError>)
    ensures
        match r {
            Ok(dim) => dim == declared_dim(text_view(*text)) && (text is Some ==> dim is Some),
            Err(ParseDimError::InvalidDim(n)) => text is Some && declared_dim(text_view(*text))
                is None && parse_u8_spec(text.unwrap()@) == Some(n),
            Err(ParseDimError::Int(_)) => text is Some && parse_u8_spec(text.unwrap()@) is None,
        },
{
    match text {
        Some(numeral) => match Dim::from_str(numeral.as_str()) {
            Ok(dim) => Ok(Some(dim)),
            Err(error) => Err(error),
        },
        None => Ok(None),
    }
}

/// Reads an optional repeat count.
fn parse_count(text: &Option<String>) -> (r: Result<Option<RawValueCount>, RawValueError>)
    ensures
        match r {
            Ok(count) => count == declared_count(text_view(*text)) && (text is Some
                ==> count is Some),
            Err(RawValueError::InvalidNumber(n)) => text is Some && declared_count(
                text_view(*text),
            ) is None && parse_u8_spec(text.unwrap()@) == Some(n),
            Err(RawValueError::Int(_)) => text is Some && parse_u8_spec(text.unwrap()@) is None,
        },
{
    match text {
        Some(numeral) => match RawValueCount::from_str(numeral.as_str()) {
            Ok(count) => Ok(Some(count)),
            Err(error) => Err(error),
        },
        None => Ok(None),
    }
}

/// A copy of a text that may be missing.
fn clone_text(text: &Option<String>) -> (r: Option<String>)
    ensures
        text_view(r) == text_view(*text),
{
    match text {
        Some(s) => Some(s.clone()),
        None => None,
    }
}

impl RawValueError {
    /// The diagnostic of the error. For a numeral that could not be read it
    /// is the integer parser's own message.
    pub fn diagnostic(&self) -> (s: String)
        ensures
            self is InvalidNumber ==> s@
                == "invalid number. The only valid numbers are 1, 2, 3, 4"@,
    {
        match self {
            RawValueError::InvalidNumber(_) => String::from_str(RawValueError::message()),
            RawValueError::Int(error) => crate::dim::parse_int_error_text(error),
        }
    }
}

impl<T: Scalar> RawField<T> {
    /// Reads the field found at `position`.
    ///
    /// The name is checked first, then the first dimension, the second, the
    /// repeat count and the scalar type; the first of them that is wrong is
    /// reported, under the fault's kind and with the field's name and
    /// position. A field without fault gives the field of the schema that
    /// it declares.
    pub fn new(field: &FieldInput, position: usize) -> (r: Result<RawField<T>, Error>)
        ensures
            match r {
                Ok(parsed) => field@.fault::<T>() is None && parsed@ == field@.parsed::<T>(),
                Err(error) => error@.len() == 1 && field@.reported_by::<T>(position, error@[0]),
            },
    {
        let ident = match &field.ident {
            Some(value) => value.clone(),
            None => {
                let finding = Diagnostic {
                    kind: ErrorKind::Structure,
                    position: Some(position),
                    field: None,
                    message: String::from_str("unnamed fields are not allowed"),
                };
                return Err(Error::new(finding));
            },
        };
        let dim_x = match parse_dim(&field.dim_x) {
            Ok(dim) => dim,
            Err(error) => {
                let finding = Diagnostic::at_field(
                    ErrorKind::Dimension,
                    position,
                    ident,
                    error.message(),
                );
                return Err(Error::new(finding));
            },
        };
        let dim_y = match parse_dim(&field.dim_y) {
            Ok(dim) => dim,
            Err(error) => {
                let finding = Diagnostic::at_field(
                    ErrorKind::Dimension,
                    position,
                    ident,
                    error.message(),
                );
                return Err(Error::new(finding));
            },
        };
        let multiplier = match parse_count(&field.multiplier) {
            Ok(count) => count,
            Err(error) => {
                let finding = Diagnostic::at_field(
                    ErrorKind::Dimension,
                    position,
                    ident,
                    error.diagnostic(),
                );
                return Err(Error::new(finding));
            },
        };
        let scalar = match T::parse_type(field.ty.as_str()) {
            Ok(scalar) => scalar,
            Err(message) => {
                let finding = Diagnostic::at_field(ErrorKind::Type, position, ident, message);
                return Err(Error::new(finding));
            },
        };
        Ok(RawField { ident, raw_ty: WgslType::new(scalar, dim_x, dim_y), multiplier })
    }
}

impl<T> ParsedStruct<T> {
    /// The name of the raw record: the record's name, `Raw`, and the kind.
    pub open spec fn raw_ident_text(ident: Seq<char>, name: Seq<char>) -> Seq<char> {
        ident + "Raw"@ + name
    }

    /// The name of the raw record.
    pub fn raw_ident(&self) -> (s: String)
        ensures
            s@ == Self::raw_ident_text(self.ident@, self.name@),
    {
        let mut s = self.ident.clone();
        s.append("Raw");
        s.append(self.name);
        s
    }
}

/// The finding about an item that is no struct.
pub open spec fn not_a_struct(name: Seq<char>) -> DiagnosticView {
    DiagnosticView {
        kind: ErrorKind::Structure,
        position: None,
        field: None,
        message: name + " only works on structs"@,
    }
}

/// The finding about a struct with a field that has no name.
pub open spec fn not_named(name: Seq<char>) -> DiagnosticView {
    DiagnosticView {
        kind: ErrorKind::Structure,
        position: None,
        field: None,
        message: name + " only works on structs with named fields"@,
    }
}

/// Whether some field has no name.
pub open spec fn some_unnamed(fields: Seq<FieldInputSpec>) -> bool {
    exists|i: int| 0 <= i < fields.len() && (#[trigger] fields[i]).ident is None
}

impl<T: Scalar> ParsedStruct<T> {
    /// Reads a found record as a schema of the kind `name`.
    ///
    /// An item that is no struct, and a struct with a field without a name,
    /// end the reading at once, with that one finding. Otherwise every
    /// field is read, and the faults of all fields are reported together,
    /// in the order of the fields; only a record without fault gives a
    /// schema.
    pub fn parse(input: StructInput, name: &'static str) -> (r: Result<ParsedStruct<T>, Error>)
        ensures
            match r {
                Ok(parsed) => {
                    &&& input.is_struct
                    &&& faulty::<T>(inputs_view(input.fields@)).len() == 0
                    &&& parsed.ident@ == input.ident@
                    &&& parsed.name@ == name@
                    &&& text_view(parsed.vertex_attr) == text_view(input.vertex_attr)
                    &&& fields_view(parsed.fields@) == parsed_fields::<T>(
                        inputs_view(input.fields@),
                    )
                },
                Err(error) => if !input.is_struct {
                    error@ == seq![not_a_struct(name@)]
                } else if some_unnamed(inputs_view(input.fields@)) {
                    error@ == seq![not_named(name@)]
                } else {
                    faulty::<T>(inputs_view(input.fields@)).len() > 0 && reports::<T>(
                        inputs_view(input.fields@),
                        error@,
                    )
                },
            },
    {
        let ghost inputs = inputs_view(input.fields@);
        if !input.is_struct {
            let mut message = String::from_str(name);
            message.append(" only works on structs");
            return Err(Error::new(Diagnostic::new(ErrorKind::Structure, message)));
        }
        let mut k: usize = 0;
        while k < input.fields.len()
            invariant
                k <= input.fields.len(),
                input.is_struct,
                inputs == inputs_view(input.fields@),
                forall|i: int| 0 <= i < k ==> (#[trigger] inputs[i]).ident is Some,
            decreases input.fields.len() - k,
        {
            if input.fields[k].ident.is_none() {
                assert(inputs[k as int] == input.fields@[k as int]@);
                assert(inputs[k as int].ident is None);
                assert(some_unnamed(inputs));
                let mut message = String::from_str(name);
                message.append(" only works on structs with named fields");
                let error = Error::new(Diagnostic::new(ErrorKind::Structure, message));
                assert(error@ =~= seq![not_named(name@)]);
                return Err(error);
            }
            k = k + 1;
        }
        let mut fields: Vec<RawField<T>> = Vec::new();
        let mut findings: Vec<Diagnostic> = Vec::new();
        let mut i: usize = 0;
        assert(inputs.subrange(0, 0) =~= Seq::empty());
        assert(fields_view(fields@) =~= parsed_fields::<T>(inputs.subrange(0, 0)));
        while i < input.fields.len()
            invariant
                i <= input.fields.len(),
                inputs == inputs_view(input.fields@),
                reports::<T>(inputs.subrange(0, i as int), diagnostics_view(findings@)),
                findings@.len() == faulty::<T>(inputs.subrange(0, i as int)).len(),
                findings@.len() == 0 ==> fields_view(fields@) == parsed_fields::<T>(
                    inputs.subrange(0, i as int),
                ),
            decreases input.fields.len() - i,
        {
            let ghost before = inputs.subrange(0, i as int);
            let ghost prefix = inputs.subrange(0, i + 1);
            proof {
                assert(prefix.drop_last() =~= before);
                assert(prefix.last() == input.fields@[i as int]@);
            }
            match RawField::new(&input.fields[i], i) {
                Ok(field) => {
                    if findings.len() == 0 {
                        let ghost prev = fields@;
                        fields.push(field);
                        assert(fields_view(fields@) =~= fields_view(prev).push(field@));
                        assert(parsed_fields::<T>(prefix) =~= parsed_fields::<T>(before).push(
                            prefix.last().parsed::<T>(),
                        ));
                    }
                    proof {
                        lemma_reports_extend::<T>(prefix, diagnostics_view(findings@), None);
                    }
                },
                Err(error) => {
                    let ghost prev = findings@;
                    let ghost finding = error@[0];
                    let mut error = error;
                    let ghost added = error.diagnostics@;
                    assert(added.len() == 1 && added[0]@ == finding) by {
                        assert(diagnostics_view(added).len() == added.len());
                        assert(diagnostics_view(added)[0] == added[0]@);
                    }
                    findings.append(&mut error.diagnostics);
                    assert(diagnostics_view(findings@) =~= diagnostics_view(prev).push(finding));
                    proof {
                        lemma_reports_extend::<T>(prefix, diagnostics_view(prev), Some(finding));
                    }
                },
            }
            i = i + 1;
        }
        assert(inputs.subrange(0, i as int) =~= inputs);
        if findings.len() == 0 {
            Ok(
                ParsedStruct {
                    ident: input.ident,
                    fields,
                    vertex_attr: input.vertex_attr,
                    name,
                },
            )
        } else {
            proof {
                assert(!some_unnamed(inputs));
            }
            Err(Error { diagnostics: findings })
        }
    }
}

/// Reading one more field keeps the report in step with the faults: a field
/// without fault adds nothing, a faulty field adds its finding at the end.
pub proof fn lemma_reports_extend<T: Scalar>(
    fields: Seq<FieldInputSpec>,
    findings: Seq<DiagnosticView>,
    finding: Option<DiagnosticView>,
)
    requires
        fields.len() > 0,
        fields.len() <= usize::MAX,
        reports::<T>(fields.drop_last(), findings),
        match finding {
            Some(d) => fields.last().reported_by::<T>((fields.len() - 1) as usize, d),
            None => fields.last().fault::<T>() is None,
        },
    ensures
        match finding {
            Some(d) => reports::<T>(fields, findings.push(d)),
            None => reports::<T>(fields, findings),
        },
{
    let head = fields.drop_last();
    let old_faulty = faulty::<T>(head);
    let all = match finding {
        Some(d) => findings.push(d),
        None => findings,
    };
    assert forall|j: int| 0 <= j < all.len() implies fields[faulty::<T>(fields)[j] as int].reported_by::<
        T,
    >(faulty::<T>(fields)[j], #[trigger] all[j]) by {
        if j < findings.len() {
            lemma_faulty_positions::<T>(head, j);
            assert(faulty::<T>(fields)[j] == old_faulty[j]);
            assert(fields[old_faulty[j] as int] == head[old_faulty[j] as int]);
            assert(all[j] == findings[j]);
        } else {
            assert(fields[fields.len() - 1] == fields.last());
        }
    }
}

} // verus!
