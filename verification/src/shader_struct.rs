//! The shader-side declaration of a record, as text.

use vstd::prelude::*;
use crate::errors::Diagnostic;
use crate::errors::DiagnosticView;
use crate::errors::Error;
use crate::errors::ErrorKind;
use crate::field::fields_view;
use crate::field::units_view;
use crate::field::FieldSpec;
use crate::field::RawField;
use crate::field::RepeatedRawField;
use crate::field::UnitSpec;
use crate::format::brace_free;
use crate::format::closed;
use crate::format::holes;
use crate::format::lemma_append_brace_free;
use crate::format::lemma_brace_free;
use crate::format::lemma_decimal_brace_free;
use crate::format::lemma_pairs;
use crate::format::lemma_resolved_concat;
use crate::format::lemma_short_text;
use crate::format::resolve;
use crate::format::resolved;
use crate::scalar::Scalar;
use crate::scalar::WgslScalar;
use crate::text::decimal;
use crate::text::push_decimal;
use crate::vertex_layout::slot_base;
use crate::wgsl_type::VertexType;

verus! {

/// The line of a unit in a declaration whose input slots are still open:
/// the slot is the placeholder `{}`.
pub open spec fn format_line(ident: Seq<char>, ty: Seq<char>) -> Seq<char> {
    "  @location("@ + "{}"@ + ") "@ + ident + ": "@ + ty + ",\n"@
}

/// The line of a unit that reads from input slot `location`.
pub open spec fn location_line(location: nat, ident: Seq<char>, ty: Seq<char>) -> Seq<char> {
    "  @location("@ + decimal(location) + ") "@ + ident + ": "@ + ty + ",\n"@
}

/// The line of a field of a uniform block, which is read by name.
pub open spec fn uniform_line(ident: Seq<char>, ty: Seq<char>) -> Seq<char> {
    "  "@ + ident + ": "@ + ty + ",\n"@
}

/// The lines of a list of units, with their input slots open.
pub open spec fn format_lines<S: Scalar>(units: Seq<UnitSpec<S>>) -> Seq<char>
    decreases units.len(),
{
    if units.len() == 0 {
        Seq::empty()
    } else {
        format_lines(units.drop_last()) + format_line(
            units.last().ident(),
            units.last().ty.wgsl_text(),
        )
    }
}

/// The lines of a list of units, unit `i` reading from slot `base + i`.
pub open spec fn location_lines<S: Scalar>(units: Seq<UnitSpec<S>>, base: nat) -> Seq<char>
    decreases units.len(),
{
    if units.len() == 0 {
        Seq::empty()
    } else {
        location_lines(units.drop_last(), base) + location_line(
            (base + units.len() - 1) as nat,
            units.last().ident(),
            units.last().ty.wgsl_text(),
        )
    }
}

/// The type of a field of a uniform block as shader source writes it: its
/// shape, or an array of its shape where it is repeated.
pub open spec fn uniform_type_text(field: FieldSpec<WgslScalar>) -> Seq<char> {
    match field.multiplier {
        Some(count) => "array<"@ + field.ty.wgsl_text() + ", "@ + decimal(count.count()) + ">"@,
        None => field.ty.wgsl_text(),
    }
}

/// The lines of the fields of a uniform block.
pub open spec fn uniform_lines(fields: Seq<FieldSpec<WgslScalar>>) -> Seq<char>
    decreases fields.len(),
{
    if fields.len() == 0 {
        Seq::empty()
    } else {
        uniform_lines(fields.drop_last()) + uniform_line(
            fields.last().name,
            uniform_type_text(fields.last()),
        )
    }
}

/// The declaration of a vertex or instance record with its input slots
/// open. It is a format string: each slot is `{}`, and the braces of the
/// declaration itself are doubled.
pub open spec fn format_text<S: Scalar>(name: Seq<char>, units: Seq<UnitSpec<S>>) -> Seq<char> {
    "struct "@ + name + " "@ + "{{"@ + "\n"@ + format_lines(units) + "}}"@
}

/// The declaration of a vertex or instance record whose first unit reads
/// from slot `base`.
pub open spec fn struct_text<S: Scalar>(name: Seq<char>, units: Seq<UnitSpec<S>>, base: nat) -> Seq<
    char,
> {
    "struct "@ + name + " "@ + "{"@ + "\n"@ + location_lines(units, base) + "}"@
}

/// The input slots of `count` units, the first of which reads from slot
/// `base`.
pub open spec fn locations_of(base: nat, count: nat) -> Seq<u32> {
    Seq::new(count, |i: int| (base + i) as u32)
}

/// The declaration of a uniform block.
pub open spec fn uniform_struct_text(name: Seq<char>, fields: Seq<FieldSpec<WgslScalar>>) -> Seq<
    char,
> {
    "struct "@ + name + " {\n"@ + uniform_lines(fields) + "}\n"@
}

/// A declaration with open input slots, and the slot that goes into each
/// placeholder, in order.
#[derive(Debug)]
pub struct ShaderStructFormat {
    pub format: String,
    pub locations: Vec<u32>,
}

/// The declaration of a vertex or instance record with its input slots
/// open: one line for each unit, in order, under the unit's name and with
/// its shader type.
pub fn shader_struct_format_str<S: Scalar>(name: &str, units: &Vec<RepeatedRawField<S>>) -> (out:
    String)
    ensures
        out@ == format_text(name@, units_view(units@)),
{
    let mut out = String::from_str("struct ");
    out.append(name);
    out.append(" ");
    out.append("{{");
    out.append("\n");
    let ghost head = out@;
    let ghost all = units_view(units@);
    let mut i: usize = 0;
    assert(all.subrange(0, 0) =~= Seq::empty());
    assert(out@ =~= head + format_lines(all.subrange(0, 0)));
    while i < units.len()
        invariant
            i <= units.len(),
            all == units_view(units@),
            out@ == head + format_lines(all.subrange(0, i as int)),
        decreases units.len() - i,
    {
        let unit = &units[i];
        let ident = unit.ident();
        let ty = unit.ty.wgsl_type_str();
        let ghost before = out@;
        out.append("  @location(");
        out.append("{}");
        out.append(") ");
        out.append(ident.as_str());
        out.append(": ");
        out.append(ty.as_str());
        out.append(",\n");
        proof {
            let prefix = all.subrange(0, i + 1);
            assert(prefix.drop_last() =~= all.subrange(0, i as int));
            assert(prefix.last() == unit@);
            assert(out@ =~= before + format_line(unit@.ident(), unit@.ty.wgsl_text()));
            assert(out@ =~= head + format_lines(prefix));
        }
        i = i + 1;
    }
    assert(all.subrange(0, i as int) =~= all);
    out.append("}}");
    out
}

/// The declaration of a vertex or instance record. Unit `i` reads from slot
/// `i`, or from `initial_offset + i` where an offset is given: so an
/// instance record goes on where its vertex record ends.
pub fn shader_struct_str<S: Scalar>(
    name: &str,
    units: &Vec<RepeatedRawField<S>>,
    initial_offset: Option<u32>,
) -> (out: String)
    requires
        units.len() + slot_base(initial_offset) <= u32::MAX,
    ensures
        out@ == struct_text(name@, units_view(units@), slot_base(initial_offset)),
{
    let base: usize = match initial_offset {
        Some(base) => base as usize,
        None => 0,
    };
    let mut out = String::from_str("struct ");
    out.append(name);
    out.append(" ");
    out.append("{");
    out.append("\n");
    let ghost head = out@;
    let ghost all = units_view(units@);
    let mut i: usize = 0;
    assert(all.subrange(0, 0) =~= Seq::empty());
    assert(out@ =~= head + location_lines(all.subrange(0, 0), base as nat));
    while i < units.len()
        invariant
            i <= units.len(),
            units.len() + base <= u32::MAX,
            all == units_view(units@),
            out@ == head + location_lines(all.subrange(0, i as int), base as nat),
        decreases units.len() - i,
    {
        let unit = &units[i];
        let ident = unit.ident();
        let ty = unit.ty.wgsl_type_str();
        let ghost before = out@;
        out.append("  @location(");
        push_decimal(&mut out, base + i);
        out.append(") ");
        out.append(ident.as_str());
        out.append(": ");
        out.append(ty.as_str());
        out.append(",\n");
        proof {
            let prefix = all.subrange(0, i + 1);
            assert(prefix.drop_last() =~= all.subrange(0, i as int));
            assert(prefix.last() == unit@);
            assert(out@ =~= before + location_line(
                (base + i) as nat,
                unit@.ident(),
                unit@.ty.wgsl_text(),
            ));
            assert(out@ =~= head + location_lines(prefix, base as nat));
        }
        i = i + 1;
    }
    assert(all.subrange(0, i as int) =~= all);
    out.append("}");
    out
}

/// The declaration of a vertex or instance record with its input slots
/// open, together with the slot of each unit: `i`, or `initial_offset + i`.
pub fn shader_struct_format_quote<S: Scalar>(
    name: &str,
    units: &Vec<RepeatedRawField<S>>,
    initial_offset: Option<u32>,
) -> (r: ShaderStructFormat)
    requires
        units.len() + slot_base(initial_offset) <= u32::MAX,
    ensures
        r.format@ == format_text(name@, units_view(units@)),
        r.locations@ == locations_of(slot_base(initial_offset), units@.len() as nat),
        r.locations@.len() == units@.len(),
        forall|i: int|
            0 <= i < units@.len() ==> #[trigger] r.locations@[i] == slot_base(initial_offset) + i,
{
    let format = shader_struct_format_str(name, units);
    let base: u32 = match initial_offset {
        Some(base) => base,
        None => 0,
    };
    let mut locations: Vec<u32> = Vec::new();
    let mut i: usize = 0;
    while i < units.len()
        invariant
            i <= units.len(),
            units.len() + base <= u32::MAX,
            base == slot_base(initial_offset),
            locations@.len() == i,
            forall|j: int| 0 <= j < i ==> #[trigger] locations@[j] == base + j,
        decreases units.len() - i,
    {
        locations.push(base + i as u32);
        i = i + 1;
    }
    assert(locations@ =~= locations_of(slot_base(initial_offset), units@.len() as nat));
    ShaderStructFormat { format, locations }
}

/// The type of a field of a uniform block as shader source writes it.
pub fn uniform_type_str(field: &RawField<WgslScalar>) -> (s: String)
    ensures
        s@ == uniform_type_text(field@),
{
    let shape = field.raw_ty.wgsl_type_str();
    match field.multiplier {
        Some(count) => {
            let mut s = String::from_str("array<");
            s.append(shape.as_str());
            s.append(", ");
            push_decimal(&mut s, count.to_usize());
            s.append(">");
            s
        },
        None => shape,
    }
}

/// The declaration of a uniform block: one line for each field of the
/// schema, in order, under the field's name and with its shader type. A
/// uniform block is read by name, so no line carries an input slot.
pub fn uniform_shader_struct_str(name: &str, fields: &Vec<RawField<WgslScalar>>) -> (out: String)
    ensures
        out@ == uniform_struct_text(name@, fields_view(fields@)),
{
    let mut out = String::from_str("struct ");
    out.append(name);
    out.append(" {\n");
    let ghost head = out@;
    let ghost all = fields_view(fields@);
    let mut i: usize = 0;
    assert(all.subrange(0, 0) =~= Seq::empty());
    assert(out@ =~= head + uniform_lines(all.subrange(0, 0)));
    while i < fields.len()
        invariant
            i <= fields.len(),
            all == fields_view(fields@),
            out@ == head + uniform_lines(all.subrange(0, i as int)),
        decreases fields.len() - i,
    {
        let field = &fields[i];
        let ty = uniform_type_str(field);
        let ghost before = out@;
        out.append("  ");
        out.append(field.ident.as_str());
        out.append(": ");
        out.append(ty.as_str());
        out.append(",\n");
        proof {
            let prefix = all.subrange(0, i + 1);
            assert(prefix.drop_last() =~= all.subrange(0, i as int));
            assert(prefix.last() == field@);
            assert(out@ =~= before + uniform_line(field@.name, uniform_type_text(field@)));
            assert(out@ =~= head + uniform_lines(prefix));
        }
        i = i + 1;
    }
    assert(all.subrange(0, i as int) =~= all);
    out.append("}\n");
    out
}

/// The fixed texts of a declaration hold no brace.
pub proof fn lemma_fixed_texts()
    ensures
        brace_free("struct "@),
        brace_free(" "@),
        brace_free("\n"@),
        brace_free("  @location("@),
        brace_free(") "@),
        brace_free(": "@),
        brace_free(",\n"@),
        brace_free("vec"@),
        brace_free("<"@),
        brace_free(">"@),
        brace_free("i32"@),
        brace_free("u32"@),
        brace_free("f32"@),
{
    reveal_strlit("struct ");
    lemma_short_text("struct "@);
    reveal_strlit(" ");
    lemma_short_text(" "@);
    reveal_strlit("\n");
    lemma_short_text("\n"@);
    reveal_strlit("  @location(");
    lemma_short_text("  @location("@);
    reveal_strlit(") ");
    lemma_short_text(") "@);
    reveal_strlit(": ");
    lemma_short_text(": "@);
    reveal_strlit(",\n");
    lemma_short_text(",\n"@);
    reveal_strlit("vec");
    lemma_short_text("vec"@);
    reveal_strlit("<");
    lemma_short_text("<"@);
    reveal_strlit(">");
    lemma_short_text(">"@);
    reveal_strlit("i32");
    lemma_short_text("i32"@);
    reveal_strlit("u32");
    lemma_short_text("u32"@);
    reveal_strlit("f32");
    lemma_short_text("f32"@);
}

/// The finding about a format that could not be filled in.
pub open spec fn internal_format_finding() -> DiagnosticView {
    DiagnosticView {
        kind: ErrorKind::InternalFormat,
        position: None,
        field: None,
        message: "internal format error"@,
    }
}

impl ShaderStructFormat {
    /// Whether the format is well formed and takes as many slots as there
    /// are.
    pub open spec fn well_formed(&self) -> bool {
        closed(self.format@) && holes(self.format@) == self.locations@.len()
    }

    /// The declaration with its input slots filled in. A format that is
    /// malformed, or takes another number of slots than there are, is an
    /// internal format error.
    pub fn resolve(&self) -> (r: Result<String, Error>)
        ensures
            match r {
                Ok(text) => self.well_formed() && text@ == resolved(
                    self.format@,
                    self.locations@,
                ),
                Err(error) => !self.well_formed() && error@ == seq![internal_format_finding()],
            },
    {
        match resolve(self.format.as_str(), &self.locations) {
            Some(text) => Ok(text),
            None => Err(
                Error::new(
                    Diagnostic::new(
                        ErrorKind::InternalFormat,
                        String::from_str("internal format error"),
                    ),
                ),
            ),
        }
    }
}

/// The shader type of a unit holds no brace.
pub proof fn lemma_type_brace_free<S: Scalar>(ty: VertexType<S>)
    ensures
        brace_free(ty.wgsl_text()),
{
    lemma_fixed_texts();
    match ty {
        VertexType::Scalar(_) => {},
        VertexType::Vec { dim, .. } => {
            lemma_decimal_brace_free(dim.count());
        },
    }
}

/// The name of a unit holds no brace if the name of its field holds none.
pub proof fn lemma_ident_brace_free<S>(unit: UnitSpec<S>)
    requires
        brace_free(unit.name),
    ensures
        brace_free(unit.ident()),
{
    match unit.repeat {
        Some(k) => {
            lemma_decimal_brace_free(k as nat);
        },
        None => {},
    }
}

/// The line of a unit with its slot open takes one slot and writes the
/// unit's line with that slot.
pub proof fn lemma_line_resolves(ident: Seq<char>, ty: Seq<char>, location: u32)
    requires
        brace_free(ident),
        brace_free(ty),
    ensures
        closed(format_line(ident, ty)),
        holes(format_line(ident, ty)) == 1,
        resolved(format_line(ident, ty), seq![location]) == location_line(
            location as nat,
            ident,
            ty,
        ),
{
    lemma_fixed_texts();
    lemma_pairs(location);
    let args = seq![location];
    let start = "  @location("@;
    lemma_brace_free(start, Seq::empty());
    lemma_resolved_concat(start, "{}"@, Seq::empty(), args);
    assert(Seq::<u32>::empty() + args =~= args);
    let a1 = start + "{}"@;
    lemma_append_brace_free(a1, ") "@, args);
    let a2 = a1 + ") "@;
    lemma_append_brace_free(a2, ident, args);
    let a3 = a2 + ident;
    lemma_append_brace_free(a3, ": "@, args);
    let a4 = a3 + ": "@;
    lemma_append_brace_free(a4, ty, args);
    let a5 = a4 + ty;
    lemma_append_brace_free(a5, ",\n"@, args);
}

/// The lines of a list of units with their slots open take one slot each
/// and write the units' lines with those slots.
pub proof fn lemma_lines_resolve<S: Scalar>(units: Seq<UnitSpec<S>>, base: nat)
    requires
        forall|i: int| 0 <= i < units.len() ==> brace_free((#[trigger] units[i]).name),
        base + units.len() <= u32::MAX,
    ensures
        closed(format_lines(units)),
        holes(format_lines(units)) == units.len(),
        resolved(format_lines(units), locations_of(base, units.len())) == location_lines(
            units,
            base,
        ),
    decreases units.len(),
{
    if units.len() > 0 {
        let head = units.drop_last();
        let last = units.last();
        assert forall|i: int| 0 <= i < head.len() implies brace_free((#[trigger] head[i]).name) by {
            assert(head[i] == units[i]);
        }
        lemma_lines_resolve(head, base);
        assert(last == units[units.len() - 1]);
        lemma_ident_brace_free(last);
        lemma_type_brace_free(last.ty);
        let location = (base + units.len() - 1) as u32;
        lemma_line_resolves(last.ident(), last.ty.wgsl_text(), location);
        lemma_resolved_concat(
            format_lines(head),
            format_line(last.ident(), last.ty.wgsl_text()),
            locations_of(base, head.len()),
            seq![location],
        );
        assert(locations_of(base, head.len()) + seq![location] =~= locations_of(
            base,
            units.len(),
        ));
    } else {
        assert(format_lines(units) =~= Seq::<char>::empty());
        assert(locations_of(base, 0) =~= Seq::<u32>::empty());
    }
}

/// The two forms of a declaration agree: filling the open slots of the
/// format with the slots `base`, `base + 1` and so on gives the declaration
/// with those slots, provided that no name holds a brace.
pub proof fn lemma_declaration_resolves<S: Scalar>(
    name: Seq<char>,
    units: Seq<UnitSpec<S>>,
    base: nat,
)
    requires
        brace_free(name),
        forall|i: int| 0 <= i < units.len() ==> brace_free((#[trigger] units[i]).name),
        base + units.len() <= u32::MAX,
    ensures
        closed(format_text(name, units)),
        holes(format_text(name, units)) == units.len(),
        resolved(format_text(name, units), locations_of(base, units.len())) == struct_text(
            name,
            units,
            base,
        ),
{
    lemma_fixed_texts();
    lemma_pairs(0);
    lemma_lines_resolve(units, base);
    let none = Seq::<u32>::empty();
    let args = locations_of(base, units.len());
    let a0 = "struct "@;
    lemma_brace_free(a0, none);
    lemma_append_brace_free(a0, name, none);
    let a1 = a0 + name;
    lemma_append_brace_free(a1, " "@, none);
    let a2 = a1 + " "@;
    lemma_resolved_concat(a2, "{{"@, none, none);
    assert(none + none =~= none);
    let a3 = a2 + "{{"@;
    lemma_append_brace_free(a3, "\n"@, none);
    let a4 = a3 + "\n"@;
    lemma_resolved_concat(a4, format_lines(units), none, args);
    assert(none + args =~= args);
    let a5 = a4 + format_lines(units);
    lemma_resolved_concat(a5, "}}"@, args, none);
    assert(args + none =~= args);
}

} // verus!
