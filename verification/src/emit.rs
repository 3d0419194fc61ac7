use vstd::prelude::*;
use vstd::string::StringExecFns;

use crate::generator::MirrorDef;
use crate::generator::MirrorFieldTy;
use crate::generator::MirrorFields;
use crate::generator::NamedMirrorField;
use crate::generator::ShapeError;
use crate::generator::TypeShape;
use crate::generator::FieldsShape;
use crate::generator::any_ty_too_wide;
use crate::generator::mirror_of;
use crate::generator::mirrors_shape;
use crate::generator::self_referential;

verus! {

// Rendering a mirror description to source text, the output of the
// build-time generator. The exact text emitted is pinned down by spec
// functions, one per syntactic piece; the renderer is proved to
// produce precisely that text.
/// Decimal text of one digit.
pub open spec fn digit_text(d: int) -> Seq<char> {
    if d == 0 {
        "0"@
    } else if d == 1 {
        "1"@
    } else if d == 2 {
        "2"@
    } else if d == 3 {
        "3"@
    } else if d == 4 {
        "4"@
    } else if d == 5 {
        "5"@
    } else if d == 6 {
        "6"@
    } else if d == 7 {
        "7"@
    } else if d == 8 {
        "8"@
    } else {
        "9"@
    }
}

/// Decimal text of a nonnegative number.
pub open spec fn dec_text(n: int) -> Seq<char>
    recommends
        n >= 0,
    decreases n,
{
    if n < 10 {
        digit_text(n)
    } else {
        dec_text(n / 10) + digit_text(n % 10)
    }
}

/// The type of one reactive cell holding the reflection of the source
/// type whose text is `t`.
pub open spec fn cell_ty_text(t: Seq<char>) -> Seq<char> {
    "::observable::ReactiveCell<<"@ + t + " as ::observable::Observable>::Reflection>"@
}

/// The comma-run of cell types for the elements of an inline tuple
/// field.
pub open spec fn cell_list_text(ts: Seq<Seq<char>>) -> Seq<char>
    decreases ts.len(),
{
    if ts.len() == 0 {
        Seq::empty()
    } else {
        cell_list_text(ts.drop_last()) + cell_ty_text(ts.last()) + ", "@
    }
}

/// The texts of an inline tuple field's element types.
pub open spec fn elem_texts(ts: Seq<String>) -> Seq<Seq<char>> {
    ts.map_values(|s: String| s@)
}

/// The type text of one mirror field: one cell, or a tuple of cells.
pub open spec fn mirror_ty_text(m: MirrorFieldTy) -> Seq<char> {
    match m {
        MirrorFieldTy::Cell(t) => cell_ty_text(t@),
        MirrorFieldTy::CellTuple(ts) => "("@ + cell_list_text(elem_texts(ts@)) + ")"@,
    }
}

/// Append a nonnegative number in decimal.
fn push_dec(out: &mut String, n: usize)
    ensures
        final(out)@ == old(out)@ + dec_text(n as int),
    decreases n,
{
    if n >= 10 {
        push_dec(out, n / 10);
    }
    let d = n % 10;
    if d == 0 {
        out.append("0");
    } else if d == 1 {
        out.append("1");
    } else if d == 2 {
        out.append("2");
    } else if d == 3 {
        out.append("3");
    } else if d == 4 {
        out.append("4");
    } else if d == 5 {
        out.append("5");
    } else if d == 6 {
        out.append("6");
    } else if d == 7 {
        out.append("7");
    } else if d == 8 {
        out.append("8");
    } else {
        out.append("9");
    }
}

/// Append the cell type for one source type text.
fn push_cell_ty(out: &mut String, t: &String)
    ensures
        final(out)@ == old(out)@ + cell_ty_text(t@),
{
    out.append("::observable::ReactiveCell<<");
    out.append(t.as_str());
    out.append(" as ::observable::Observable>::Reflection>");
}

/// Append the type text of one mirror field.
fn push_mirror_ty(out: &mut String, m: &MirrorFieldTy)
    ensures
        final(out)@ == old(out)@ + mirror_ty_text(*m),
{
    match m {
        MirrorFieldTy::Cell(t) => push_cell_ty(out, t),
        MirrorFieldTy::CellTuple(ts) => {
            out.append("(");
            let ghost all = elem_texts(ts@);
            let n = ts.len();
            for i in 0..n
                invariant
                    n == ts@.len(),
                    all == elem_texts(ts@),
                    out@ == old(out)@ + "("@ + cell_list_text(all.take(i as int)),
            {
                push_cell_ty(out, &ts[i]);
                out.append(", ");
                proof {
                    assert(all.take(i + 1).drop_last() =~= all.take(i as int));
                    assert(all.take(i + 1).last() == ts@[i as int]@);
                }
            }
            proof {
                assert(all.take(n as int) =~= all);
            }
            out.append(")");
        },
    }
}

/// The forward conversion of one cell: convert the field (or tuple
/// element) at `path` and wrap the result in a fresh cell.
pub open spec fn into_cell_text(t: Seq<char>, path: Seq<char>) -> Seq<char> {
    "::observable::ReactiveCell::new(<"@ + t + " as ::observable::Observable>::into_observable("@
        + path + "))"@
}

/// The comma-run of forward conversions for an inline tuple field's
/// elements.
pub open spec fn tuple_into_list_text(ts: Seq<Seq<char>>, path: Seq<char>) -> Seq<char>
    decreases ts.len(),
{
    if ts.len() == 0 {
        Seq::empty()
    } else {
        tuple_into_list_text(ts.drop_last(), path) + into_cell_text(
            ts.last(),
            path + "."@ + dec_text(ts.len() - 1),
        ) + ", "@
    }
}

/// The forward conversion of one mirror field.
pub open spec fn field_into_text(m: MirrorFieldTy, path: Seq<char>) -> Seq<char> {
    match m {
        MirrorFieldTy::Cell(t) => into_cell_text(t@, path),
        MirrorFieldTy::CellTuple(ts) => "("@ + tuple_into_list_text(elem_texts(ts@), path)
            + ")"@,
    }
}

/// The reverse conversion of one cell: snapshot the cell at `rpath`
/// and convert the contents back.
pub open spec fn from_cell_text(t: Seq<char>, rpath: Seq<char>) -> Seq<char> {
    "<"@ + t + " as ::observable::Observable>::from_observable("@ + rpath + ".get())?"@
}

/// The comma-run of reverse conversions for an inline tuple field's
/// elements.
pub open spec fn tuple_from_list_text(ts: Seq<Seq<char>>, rpath: Seq<char>) -> Seq<char>
    decreases ts.len(),
{
    if ts.len() == 0 {
        Seq::empty()
    } else {
        tuple_from_list_text(ts.drop_last(), rpath) + from_cell_text(
            ts.last(),
            rpath + "."@ + dec_text(ts.len() - 1),
        ) + ", "@
    }
}

/// The reverse conversion of one mirror field.
pub open spec fn field_from_text(m: MirrorFieldTy, rpath: Seq<char>) -> Seq<char> {
    match m {
        MirrorFieldTy::Cell(t) => from_cell_text(t@, rpath),
        MirrorFieldTy::CellTuple(ts) => "("@ + tuple_from_list_text(elem_texts(ts@), rpath)
            + ")"@,
    }
}

/// The field block of a named-field mirror struct.
pub open spec fn named_struct_fields_text(fs: Seq<NamedMirrorField>) -> Seq<char>
    decreases fs.len(),
{
    if fs.len() == 0 {
        Seq::empty()
    } else {
        named_struct_fields_text(fs.drop_last()) + "    "@ + fs.last().name@ + ": "@
            + mirror_ty_text(fs.last().ty) + ",\n"@
    }
}

/// The field run of a positional mirror struct.
pub open spec fn pos_struct_fields_text(ts: Seq<MirrorFieldTy>) -> Seq<char>
    decreases ts.len(),
{
    if ts.len() == 0 {
        Seq::empty()
    } else {
        pos_struct_fields_text(ts.drop_last()) + mirror_ty_text(ts.last()) + ", "@
    }
}

/// The mirror struct declaration.
pub open spec fn struct_text(m: MirrorDef) -> Seq<char> {
    "#[derive(Clone)]\nstruct "@ + m.name@ + match m.fields {
        MirrorFields::Named(fs) => " {\n"@ + named_struct_fields_text(fs@) + "}\n"@,
        MirrorFields::Positional(ts) => "("@ + pos_struct_fields_text(ts@) + ");\n"@,
        MirrorFields::Unit => " {}\n"@,
    }
}

/// The field block of the forward conversion for a named-field mirror.
pub open spec fn named_into_fields_text(fs: Seq<NamedMirrorField>) -> Seq<char>
    decreases fs.len(),
{
    if fs.len() == 0 {
        Seq::empty()
    } else {
        named_into_fields_text(fs.drop_last()) + "            "@ + fs.last().name@ + ": "@
            + field_into_text(fs.last().ty, "self."@ + fs.last().name@) + ",\n"@
    }
}

/// The field block of the forward conversion for a positional mirror.
pub open spec fn pos_into_fields_text(ts: Seq<MirrorFieldTy>) -> Seq<char>
    decreases ts.len(),
{
    if ts.len() == 0 {
        Seq::empty()
    } else {
        pos_into_fields_text(ts.drop_last()) + "            "@ + field_into_text(
            ts.last(),
            "self."@ + dec_text(ts.len() - 1),
        ) + ",\n"@
    }
}

/// The body of the forward conversion.
pub open spec fn into_body_text(m: MirrorDef) -> Seq<char> {
    match m.fields {
        MirrorFields::Named(fs) => "        "@ + m.name@ + " {\n"@ + named_into_fields_text(fs@)
            + "        }\n"@,
        MirrorFields::Positional(ts) => "        "@ + m.name@ + "(\n"@ + pos_into_fields_text(ts@)
            + "        )\n"@,
        MirrorFields::Unit => "        "@ + m.name@ + " {}\n"@,
    }
}

/// The field block of the reverse conversion for a named-field mirror.
pub open spec fn named_from_fields_text(fs: Seq<NamedMirrorField>) -> Seq<char>
    decreases fs.len(),
{
    if fs.len() == 0 {
        Seq::empty()
    } else {
        named_from_fields_text(fs.drop_last()) + "            "@ + fs.last().name@ + ": "@
            + field_from_text(fs.last().ty, "r."@ + fs.last().name@) + ",\n"@
    }
}

/// The field block of the reverse conversion for a positional mirror.
pub open spec fn pos_from_fields_text(ts: Seq<MirrorFieldTy>) -> Seq<char>
    decreases ts.len(),
{
    if ts.len() == 0 {
        Seq::empty()
    } else {
        pos_from_fields_text(ts.drop_last()) + "            "@ + field_from_text(
            ts.last(),
            "r."@ + dec_text(ts.len() - 1),
        ) + ",\n"@
    }
}

/// The body of the reverse conversion: reconstruction field by field
/// where the reverse path is derivable, and the designated
/// not-implemented failure where it is not (self-referential shapes).
pub open spec fn from_body_text(m: MirrorDef) -> Seq<char> {
    if !m.reverse_derivable {
        "        Err(::observable::ReverseError::NotImplemented)\n"@
    } else {
        match m.fields {
            MirrorFields::Named(fs) => "        Ok(Self {\n"@ + named_from_fields_text(fs@)
                + "        })\n"@,
            MirrorFields::Positional(ts) => "        Ok(Self(\n"@ + pos_from_fields_text(ts@)
                + "        ))\n"@,
            MirrorFields::Unit => "        Ok(Self {})\n"@,
        }
    }
}

/// The protocol implementation for the source type. Generated code
/// serves consumers outside any proof: the protocol's ghost members
/// keep their defaults, so the emitted implementation declares only
/// the reflection type, a unit model, and the two conversions.
pub open spec fn impl_text(m: MirrorDef) -> Seq<char> {
    "impl ::observable::Observable for "@ + m.source_name@
        + " {\n    type Reflection = "@ + m.name@
        + ";\n    type Model = ();\n    fn into_observable(self) -> Self::Reflection {\n"@
        + into_body_text(m)
        + "    }\n    fn from_observable(r: Self::Reflection) -> Result<Self, ::observable::ReverseError> {\n"@
        + from_body_text(m) + "    }\n}\n"@
}

/// Everything the generator emits for one aggregate: the mirror type,
/// then the conversion protocol implementation.
pub open spec fn mirror_text(m: MirrorDef) -> Seq<char> {
    struct_text(m) + impl_text(m)
}

/// Append the forward conversion of one cell.
fn push_into_cell(out: &mut String, t: &String, path: &String)
    ensures
        final(out)@ == old(out)@ + into_cell_text(t@, path@),
{
    out.append("::observable::ReactiveCell::new(<");
    out.append(t.as_str());
    out.append(" as ::observable::Observable>::into_observable(");
    out.append(path.as_str());
    out.append("))");
}

/// Append the reverse conversion of one cell.
fn push_from_cell(out: &mut String, t: &String, rpath: &String)
    ensures
        final(out)@ == old(out)@ + from_cell_text(t@, rpath@),
{
    out.append("<");
    out.append(t.as_str());
    out.append(" as ::observable::Observable>::from_observable(");
    out.append(rpath.as_str());
    out.append(".get())?");
}

/// The path of one tuple element under `path`.
fn elem_path(path: &String, j: usize) -> (p: String)
    ensures
        p@ == path@ + "."@ + dec_text(j as int),
{
    let mut p = path.clone();
    p.append(".");
    push_dec(&mut p, j);
    p
}

/// Append the forward conversion of one mirror field rooted at `path`.
fn push_field_into(out: &mut String, m: &MirrorFieldTy, path: &String)
    ensures
        final(out)@ == old(out)@ + field_into_text(*m, path@),
{
    match m {
        MirrorFieldTy::Cell(t) => push_into_cell(out, t, path),
        MirrorFieldTy::CellTuple(ts) => {
            out.append("(");
            let ghost all = elem_texts(ts@);
            let n = ts.len();
            for j in 0..n
                invariant
                    n == ts@.len(),
                    all == elem_texts(ts@),
                    out@ == old(out)@ + "("@ + tuple_into_list_text(all.take(j as int), path@),
            {
                let p = elem_path(path, j);
                push_into_cell(out, &ts[j], &p);
                out.append(", ");
                proof {
                    assert(all.take(j + 1).drop_last() =~= all.take(j as int));
                    assert(all.take(j + 1).last() == ts@[j as int]@);
                }
            }
            proof {
                assert(all.take(n as int) =~= all);
            }
            out.append(")");
        },
    }
}

/// Append the reverse conversion of one mirror field rooted at
/// `rpath`.
fn push_field_from(out: &mut String, m: &MirrorFieldTy, rpath: &String)
    ensures
        final(out)@ == old(out)@ + field_from_text(*m, rpath@),
{
    match m {
        MirrorFieldTy::Cell(t) => push_from_cell(out, t, rpath),
        MirrorFieldTy::CellTuple(ts) => {
            out.append("(");
            let ghost all = elem_texts(ts@);
            let n = ts.len();
            for j in 0..n
                invariant
                    n == ts@.len(),
                    all == elem_texts(ts@),
                    out@ == old(out)@ + "("@ + tuple_from_list_text(all.take(j as int), rpath@),
            {
                let p = elem_path(rpath, j);
                push_from_cell(out, &ts[j], &p);
                out.append(", ");
                proof {
                    assert(all.take(j + 1).drop_last() =~= all.take(j as int));
                    assert(all.take(j + 1).last() == ts@[j as int]@);
                }
            }
            proof {
                assert(all.take(n as int) =~= all);
            }
            out.append(")");
        },
    }
}

/// Append the mirror struct declaration.
#[verifier::rlimit(30)]
fn push_struct_decl(out: &mut String, m: &MirrorDef)
    ensures
        final(out)@ == old(out)@ + struct_text(*m),
{
    out.append("#[derive(Clone)]\nstruct ");
    out.append(m.name.as_str());
    let ghost base = old(out)@ + "#[derive(Clone)]\nstruct "@ + m.name@;
    match &m.fields {
        MirrorFields::Named(fs) => {
            out.append(" {\n");
            let ghost all = fs@;
            let n = fs.len();
            for i in 0..n
                invariant
                    n == fs@.len(),
                    all == fs@,
                    out@ == base + " {\n"@ + named_struct_fields_text(all.take(i as int)),
            {
                out.append("    ");
                out.append(fs[i].name.as_str());
                out.append(": ");
                push_mirror_ty(out, &fs[i].ty);
                out.append(",\n");
                proof {
                    assert(all.take(i + 1).drop_last() =~= all.take(i as int));
                    assert(all.take(i + 1).last() == fs@[i as int]);
                }
            }
            proof {
                assert(all.take(n as int) =~= all);
            }
            out.append("}\n");
        },
        MirrorFields::Positional(ts) => {
            out.append("(");
            let ghost all = ts@;
            let n = ts.len();
            for i in 0..n
                invariant
                    n == ts@.len(),
                    all == ts@,
                    out@ == base + "("@ + pos_struct_fields_text(all.take(i as int)),
            {
                push_mirror_ty(out, &ts[i]);
                out.append(", ");
                proof {
                    assert(all.take(i + 1).drop_last() =~= all.take(i as int));
                    assert(all.take(i + 1).last() == ts@[i as int]);
                }
            }
            proof {
                assert(all.take(n as int) =~= all);
            }
            out.append(");\n");
        },
        MirrorFields::Unit => {
            out.append(" {}\n");
        },
    }
}

/// Append the body of the forward conversion.
#[verifier::rlimit(30)]
fn push_into_body(out: &mut String, m: &MirrorDef)
    ensures
        final(out)@ == old(out)@ + into_body_text(*m),
{
    match &m.fields {
        MirrorFields::Named(fs) => {
            out.append("        ");
            out.append(m.name.as_str());
            out.append(" {\n");
            let ghost base = old(out)@ + "        "@ + m.name@ + " {\n"@;
            let ghost all = fs@;
            let n = fs.len();
            for i in 0..n
                invariant
                    n == fs@.len(),
                    all == fs@,
                    out@ == base + named_into_fields_text(all.take(i as int)),
            {
                out.append("            ");
                out.append(fs[i].name.as_str());
                out.append(": ");
                let mut path = String::from_str("self.");
                path.append(fs[i].name.as_str());
                push_field_into(out, &fs[i].ty, &path);
                out.append(",\n");
                proof {
                    assert(all.take(i + 1).drop_last() =~= all.take(i as int));
                    assert(all.take(i + 1).last() == fs@[i as int]);
                }
            }
            proof {
                assert(all.take(n as int) =~= all);
            }
            out.append("        }\n");
        },
        MirrorFields::Positional(ts) => {
            out.append("        ");
            out.append(m.name.as_str());
            out.append("(\n");
            let ghost base = old(out)@ + "        "@ + m.name@ + "(\n"@;
            let ghost all = ts@;
            let n = ts.len();
            for i in 0..n
                invariant
                    n == ts@.len(),
                    all == ts@,
                    out@ == base + pos_into_fields_text(all.take(i as int)),
            {
                out.append("            ");
                let mut path = String::from_str("self.");
                push_dec(&mut path, i);
                push_field_into(out, &ts[i], &path);
                out.append(",\n");
                proof {
                    assert(all.take(i + 1).drop_last() =~= all.take(i as int));
                    assert(all.take(i + 1).last() == ts@[i as int]);
                }
            }
            proof {
                assert(all.take(n as int) =~= all);
            }
            out.append("        )\n");
        },
        MirrorFields::Unit => {
            out.append("        ");
            out.append(m.name.as_str());
            out.append(" {}\n");
        },
    }
}

/// Append the body of the reverse conversion.
#[verifier::rlimit(30)]
fn push_from_body(out: &mut String, m: &MirrorDef)
    ensures
        final(out)@ == old(out)@ + from_body_text(*m),
{
    if !m.reverse_derivable {
        out.append("        Err(::observable::ReverseError::NotImplemented)\n");
        return ;
    }
    match &m.fields {
        MirrorFields::Named(fs) => {
            out.append("        Ok(Self {\n");
            let ghost base = old(out)@ + "        Ok(Self {\n"@;
            let ghost all = fs@;
            let n = fs.len();
            for i in 0..n
                invariant
                    n == fs@.len(),
                    all == fs@,
                    out@ == base + named_from_fields_text(all.take(i as int)),
            {
                out.append("            ");
                out.append(fs[i].name.as_str());
                out.append(": ");
                let mut rpath = String::from_str("r.");
                rpath.append(fs[i].name.as_str());
                push_field_from(out, &fs[i].ty, &rpath);
                out.append(",\n");
                proof {
                    assert(all.take(i + 1).drop_last() =~= all.take(i as int));
                    assert(all.take(i + 1).last() == fs@[i as int]);
                }
            }
            proof {
                assert(all.take(n as int) =~= all);
            }
            out.append("        })\n");
        },
        MirrorFields::Positional(ts) => {
            out.append("        Ok(Self(\n");
            let ghost base = old(out)@ + "        Ok(Self(\n"@;
            let ghost all = ts@;
            let n = ts.len();
            for i in 0..n
                invariant
                    n == ts@.len(),
                    all == ts@,
                    out@ == base + pos_from_fields_text(all.take(i as int)),
            {
                out.append("            ");
                let mut rpath = String::from_str("r.");
                push_dec(&mut rpath, i);
                push_field_from(out, &ts[i], &rpath);
                out.append(",\n");
                proof {
                    assert(all.take(i + 1).drop_last() =~= all.take(i as int));
                    assert(all.take(i + 1).last() == ts@[i as int]);
                }
            }
            proof {
                assert(all.take(n as int) =~= all);
            }
            out.append("        ))\n");
        },
        MirrorFields::Unit => {
            out.append("        Ok(Self {})\n");
        },
    }
}

/// Render the mirror struct and the protocol implementation for one
/// aggregate, exactly as `mirror_text` describes them.
pub fn render_mirror(m: &MirrorDef) -> (out: String)
    ensures
        out@ == mirror_text(*m),
{
    let mut out = String::new();
    push_struct_decl(&mut out, m);
    out.append("impl ::observable::Observable for ");
    out.append(m.source_name.as_str());
    out.append(" {\n    type Reflection = ");
    out.append(m.name.as_str());
    out.append(";\n    type Model = ();\n    fn into_observable(self) -> Self::Reflection {\n");
    push_into_body(&mut out, m);
    out.append(
        "    }\n    fn from_observable(r: Self::Reflection) -> Result<Self, ::observable::ReverseError> {\n",
    );
    push_from_body(&mut out, m);
    out.append("    }\n}\n");
    out
}

/// Law: for a self-referential aggregate the generator emits, as the
/// whole body of the reverse conversion, the designated
/// not-implemented failure — never an attempt at reconstruction.
pub proof fn lemma_self_referential_reverse_is_stub(name: Seq<char>, fs: FieldsShape, m: MirrorDef)
    requires
        mirrors_shape(name, fs, m),
        self_referential(name, fs),
    ensures
        from_body_text(m) == "        Err(::observable::ReverseError::NotImplemented)\n"@,
{
}

/// Run the generator end to end: compute the mirror of a shape and
/// render it as source text. This is the whole build-time step for one
/// participating aggregate — shape in, mirror type plus protocol
/// implementation out, or a shape error that must fail the build.
pub fn generate(shape: TypeShape) -> (res: Result<String, ShapeError>)
    ensures
        (match shape {
            TypeShape::Sum { .. } => res == Err::<String, ShapeError>(ShapeError::UnsupportedSum),
            TypeShape::Aggregate { name, fields } => {
                &&& any_ty_too_wide(fields) ==> res == Err::<String, ShapeError>(
                    ShapeError::TupleFieldTooWide,
                )
                &&& !any_ty_too_wide(fields) ==> (res matches Ok(text) && exists|m: MirrorDef|
                    #[trigger] mirrors_shape(name@, fields, m) && text@ == mirror_text(m))
            },
        }),
{
    match mirror_of(shape) {
        Ok(m) => {
            let text = render_mirror(&m);
            Ok(text)
        },
        Err(e) => Err(e),
    }
}

} // verus!
