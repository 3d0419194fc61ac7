use vstd::prelude::*;
use vstd::string::StrSliceExecFns;

verus! {

// The schema-driven generator. Given the shape of a user-defined
// aggregate — named-field, positional, or unit-like, with each field's
// declared type given by its source text, and inline tuple fields
// already split into their element texts — it computes the mirror
// type: same shape, same field names and order, every field's type
// wrapped in one reactive cell, and an inline tuple field flattened
// into one cell per element. It then renders the mirror type and the
// conversion protocol implementation as source text, the way an
// offline generator tool producing source files does. The generator
// has no state: it is a pure function from shape to output, invoked
// once per participating aggregate at build time.
/// The widest inline tuple field the protocol supports: tuples beyond
/// this arity have no instances and are rejected at generation time.
pub const MAX_TUPLE_FIELD_ARITY: usize = 13;

/// A field's declared type, as the generator sees it: a single
/// (non-tuple) type given by its source text, or an inline tuple of
/// element type texts.
#[derive(PartialEq, Eq, Debug)]
pub enum FieldTy {
    Single(String),
    Tuple(Vec<String>),
}

/// One field of a named-field aggregate.
#[derive(PartialEq, Eq, Debug)]
pub struct NamedField {
    pub name: String,
    pub ty: FieldTy,
}

/// The fields of an aggregate: identified by name, by position only,
/// or absent (unit-like).
#[derive(PartialEq, Eq, Debug)]
pub enum FieldsShape {
    Named(Vec<NamedField>),
    Positional(Vec<FieldTy>),
    Unit,
}

/// The shape of a user-defined type handed to the generator.
#[derive(PartialEq, Eq, Debug)]
pub enum TypeShape {
    Aggregate { name: String, fields: FieldsShape },
    Sum { name: String },
}

/// Generation-time shape errors; each must fail the build rather than
/// let malformed code be emitted.
#[derive(Clone, Copy, PartialEq, Eq, Structural, Debug)]
pub enum ShapeError {
    /// The type is a sum type; the generator does not support those.
    UnsupportedSum,
    /// An inline tuple field is wider than the protocol supports.
    TupleFieldTooWide,
}

/// The type of one mirror field: a single reactive cell around the
/// reflection of the named source type, or — for an inline tuple
/// field — one cell per tuple element, adjacent in one tuple.
#[derive(PartialEq, Eq, Debug)]
pub enum MirrorFieldTy {
    Cell(String),
    CellTuple(Vec<String>),
}

/// One field of a named-field mirror.
#[derive(PartialEq, Eq, Debug)]
pub struct NamedMirrorField {
    pub name: String,
    pub ty: MirrorFieldTy,
}

/// The fields of the mirror, shaped as the source is shaped.
#[derive(PartialEq, Eq, Debug)]
pub enum MirrorFields {
    Named(Vec<NamedMirrorField>),
    Positional(Vec<MirrorFieldTy>),
    Unit,
}

/// The generator's description of a mirror type: its name, its
/// fields, and whether the reverse conversion can be derived (it
/// cannot for self-referential aggregates; those get the designated
/// not-implemented failure instead).
#[derive(PartialEq, Eq, Debug)]
pub struct MirrorDef {
    pub source_name: String,
    pub name: String,
    pub fields: MirrorFields,
    pub reverse_derivable: bool,
}

/// The fields of a shape as one sequence of declared types, whatever
/// the shape kind.
pub open spec fn field_types(fs: FieldsShape) -> Seq<FieldTy> {
    match fs {
        FieldsShape::Named(fields) => fields@.map_values(|f: NamedField| f.ty),
        FieldsShape::Positional(tys) => tys@,
        FieldsShape::Unit => Seq::empty(),
    }
}

/// Whether a declared field type is an inline tuple wider than the
/// protocol supports.
pub open spec fn ty_too_wide(t: FieldTy) -> bool {
    match t {
        FieldTy::Single(_) => false,
        FieldTy::Tuple(elems) => elems@.len() > MAX_TUPLE_FIELD_ARITY,
    }
}

/// Whether any field of the shape has a tuple type that is too wide.
pub open spec fn any_ty_too_wide(fs: FieldsShape) -> bool {
    exists|i: int| 0 <= i < field_types(fs).len() && ty_too_wide(#[trigger] field_types(fs)[i])
}

/// `needle` occurs in `hay` as a contiguous run of characters.
pub open spec fn mentions(hay: Seq<char>, needle: Seq<char>) -> bool {
    exists|i: int|
        0 <= i && i + needle.len() <= hay.len() && #[trigger] hay.subrange(i, i + needle.len())
            == needle
}

/// A declared field type mentions the given type name somewhere in
/// its text.
pub open spec fn ty_mentions(t: FieldTy, name: Seq<char>) -> bool {
    match t {
        FieldTy::Single(text) => mentions(text@, name),
        FieldTy::Tuple(elems) => exists|i: int|
            0 <= i < elems@.len() && mentions((#[trigger] elems@[i])@, name),
    }
}

/// An aggregate is self-referential when some field's declared type
/// mentions the aggregate's own name. The check is textual and so
/// deliberately conservative: a type whose text merely contains the
/// name is treated as a self-reference.
pub open spec fn self_referential(name: Seq<char>, fs: FieldsShape) -> bool {
    exists|i: int| 0 <= i < field_types(fs).len() && ty_mentions(
        #[trigger] field_types(fs)[i],
        name,
    )
}

/// The mirror type of one declared field type: one cell for a single
/// type, one cell per element for an inline tuple.
pub open spec fn mirror_field_ty(t: FieldTy) -> MirrorFieldTy {
    match t {
        FieldTy::Single(text) => MirrorFieldTy::Cell(text),
        FieldTy::Tuple(elems) => MirrorFieldTy::CellTuple(elems),
    }
}

/// The mirror's fields match the source's: same shape kind, same
/// field count and order, same names where the source names its
/// fields, and each mirror field is the cell form of the source field.
pub open spec fn fields_mirrored(fs: FieldsShape, ms: MirrorFields) -> bool {
    match fs {
        FieldsShape::Named(src) => match ms {
            MirrorFields::Named(dst) => dst@.len() == src@.len() && forall|i: int|
                0 <= i < src@.len() ==> (#[trigger] dst@[i]).name@ == src@[i].name@ && dst@[i].ty
                    == mirror_field_ty(src@[i].ty),
            _ => false,
        },
        FieldsShape::Positional(src) => match ms {
            MirrorFields::Positional(dst) => dst@.len() == src@.len() && forall|i: int|
                0 <= i < src@.len() ==> #[trigger] dst@[i] == mirror_field_ty(src@[i]),
            _ => false,
        },
        FieldsShape::Unit => ms is Unit,
    }
}

/// The fixed suffix appended to a type's name to form its mirror's
/// name, so consumers can locate the mirror from the original name.
pub open spec fn mirror_suffix() -> Seq<char> {
    "Observable"@
}

/// What the generator guarantees of a successful run: the mirror is
/// named after the source with the fixed suffix, its fields mirror the
/// source's, and the reverse path is derivable exactly when the shape
/// is not self-referential.
pub open spec fn mirrors_shape(name: Seq<char>, fs: FieldsShape, m: MirrorDef) -> bool {
    &&& m.source_name@ == name
    &&& m.name@ == name + mirror_suffix()
    &&& fields_mirrored(fs, m.fields)
    &&& m.reverse_derivable == !self_referential(name, fs)
}

/// How many cells one mirror field holds.
pub open spec fn cells_in(m: MirrorFieldTy) -> int {
    match m {
        MirrorFieldTy::Cell(_) => 1,
        MirrorFieldTy::CellTuple(elems) => elems@.len() as int,
    }
}

/// How many cells a sequence of mirror fields holds in all.
pub open spec fn total_cells(s: Seq<MirrorFieldTy>) -> int
    decreases s.len(),
{
    if s.len() == 0 {
        0
    } else {
        total_cells(s.drop_last()) + cells_in(s.last())
    }
}

/// The mirror's fields as one sequence, whatever the shape kind.
pub open spec fn mirror_field_types(ms: MirrorFields) -> Seq<MirrorFieldTy> {
    match ms {
        MirrorFields::Named(fields) => fields@.map_values(|f: NamedMirrorField| f.ty),
        MirrorFields::Positional(tys) => tys@,
        MirrorFields::Unit => Seq::empty(),
    }
}

/// How many cells the whole mirror holds.
pub open spec fn cell_count(ms: MirrorFields) -> int {
    total_cells(mirror_field_types(ms))
}

/// What each inline tuple field adds over the naive one-cell-per-field
/// count: its arity minus one.
pub open spec fn tuple_extra(s: Seq<FieldTy>) -> int
    decreases s.len(),
{
    if s.len() == 0 {
        0
    } else {
        tuple_extra(s.drop_last()) + match s.last() {
            FieldTy::Single(_) => 0,
            FieldTy::Tuple(elems) => elems@.len() - 1,
        }
    }
}

proof fn lemma_counts(src: Seq<FieldTy>, dst: Seq<MirrorFieldTy>)
    requires
        dst.len() == src.len(),
        forall|i: int| 0 <= i < src.len() ==> #[trigger] dst[i] == mirror_field_ty(src[i]),
    ensures
        total_cells(dst) == src.len() + tuple_extra(src),
    decreases src.len(),
{
    if src.len() > 0 {
        lemma_counts(src.drop_last(), dst.drop_last());
    }
}

/// Law: tuple-field flattening. A mirror holds one cell per source
/// field, except that a field declared as an inline N-tuple
/// contributes N adjacent cells: the mirror's cell count exceeds the
/// naive one-cell-per-field count by exactly N - 1 for each N-ary
/// tuple field.
pub proof fn lemma_tuple_field_flattening(name: Seq<char>, fs: FieldsShape, m: MirrorDef)
    requires
        mirrors_shape(name, fs, m),
    ensures
        cell_count(m.fields) == field_types(fs).len() + tuple_extra(field_types(fs)),
{
    lemma_counts(field_types(fs), mirror_field_types(m.fields));
}

/// Whether a declared field type is a tuple too wide for the protocol.
fn ty_is_too_wide(t: &FieldTy) -> (b: bool)
    ensures
        b == ty_too_wide(*t),
{
    match t {
        FieldTy::Single(_) => false,
        FieldTy::Tuple(elems) => elems.len() > MAX_TUPLE_FIELD_ARITY,
    }
}

/// Whether any field of the shape has a tuple type that is too wide.
fn shape_has_wide_field(fs: &FieldsShape) -> (b: bool)
    ensures
        b == any_ty_too_wide(*fs),
{
    match fs {
        FieldsShape::Named(fields) => {
            let n = fields.len();
            for i in 0..n
                invariant
                    n == fields@.len(),
                    forall|k: int| 0 <= k < i ==> !ty_too_wide(#[trigger] field_types(*fs)[k]),
                    fs matches FieldsShape::Named(fv) && fv == *fields,
            {
                if ty_is_too_wide(&fields[i].ty) {
                    assert(ty_too_wide(field_types(*fs)[i as int]));
                    return true;
                }
            }
            false
        },
        FieldsShape::Positional(tys) => {
            let n = tys.len();
            for i in 0..n
                invariant
                    n == tys@.len(),
                    forall|k: int| 0 <= k < i ==> !ty_too_wide(#[trigger] field_types(*fs)[k]),
                    fs matches FieldsShape::Positional(tv) && tv == *tys,
            {
                if ty_is_too_wide(&tys[i]) {
                    assert(ty_too_wide(field_types(*fs)[i as int]));
                    return true;
                }
            }
            false
        },
        FieldsShape::Unit => false,
    }
}

/// Whether `needle` occurs in `hay` starting at position `at`.
fn matches_at(hay: &str, needle: &str, at: usize, n: usize) -> (b: bool)
    requires
        n == needle@.len(),
        at + n <= hay@.len(),
        hay@.len() <= usize::MAX,
    ensures
        b == (hay@.subrange(at as int, at as int + needle@.len() as int) == needle@),
{
    let mut j: usize = 0;
    while j < n
        invariant
            j <= n,
            n == needle@.len(),
            at + n <= hay@.len(),
            hay@.len() <= usize::MAX,
            forall|k: int| 0 <= k < j ==> hay@[at + k] == needle@[k],
        decreases n - j,
    {
        if hay.get_char(at + j) != needle.get_char(j) {
            proof {
                let ji = j as int;
                assert(hay@.subrange(at as int, at as int + n as int)[ji] != needle@[ji]);
            }
            return false;
        }
        j += 1;
    }
    proof {
        assert(hay@.subrange(at as int, at as int + n as int) =~= needle@);
    }
    true
}

/// Whether the needle's text occurs anywhere in the hay's text.
fn text_mentions(hay: &String, needle: &String) -> (b: bool)
    ensures
        b == mentions(hay@, needle@),
{
    let h = hay.as_str().unicode_len();
    let n = needle.as_str().unicode_len();
    if n > h {
        return false;
    }
    if n == 0 {
        proof {
            assert(mentions(hay@, needle@)) by {
                assert(hay@.subrange(0, 0 + needle@.len() as int) =~= needle@);
            }
        }
        return true;
    }
    let mut i: usize = 0;
    while i <= h - n
        invariant
            1 <= n <= h,
            h == hay@.len(),
            n == needle@.len(),
            i <= h - n + 1,
            forall|k: int|
                0 <= k < i ==> #[trigger] hay@.subrange(k, k + needle@.len()) != needle@,
        decreases h + 1 - i,
    {
        if matches_at(hay.as_str(), needle.as_str(), i, n) {
            assert(mentions(hay@, needle@)) by {
                assert(hay@.subrange(i as int, i as int + needle@.len()) == needle@);
            }
            return true;
        }
        i += 1;
    }
    false
}

/// Whether a declared field type's text mentions the given name.
fn ty_mentions_text(t: &FieldTy, name: &String) -> (b: bool)
    ensures
        b == ty_mentions(*t, name@),
{
    match t {
        FieldTy::Single(text) => text_mentions(text, name),
        FieldTy::Tuple(elems) => {
            let n = elems.len();
            for i in 0..n
                invariant
                    n == elems@.len(),
                    forall|k: int| 0 <= k < i ==> !mentions((#[trigger] elems@[k])@, name@),
                    t matches FieldTy::Tuple(ev) && ev == *elems,
            {
                if text_mentions(&elems[i], name) {
                    return true;
                }
            }
            false
        },
    }
}

/// Whether some field's declared type mentions the aggregate's own
/// name — the textual self-reference test the generator uses.
fn shape_mentions(fs: &FieldsShape, name: &String) -> (b: bool)
    ensures
        b == self_referential(name@, *fs),
{
    match fs {
        FieldsShape::Named(fields) => {
            let n = fields.len();
            for i in 0..n
                invariant
                    n == fields@.len(),
                    forall|k: int|
                        0 <= k < i ==> !ty_mentions(#[trigger] field_types(*fs)[k], name@),
                    fs matches FieldsShape::Named(fv) && fv == *fields,
            {
                if ty_mentions_text(&fields[i].ty, name) {
                    assert(ty_mentions(field_types(*fs)[i as int], name@));
                    return true;
                }
            }
            false
        },
        FieldsShape::Positional(tys) => {
            let n = tys.len();
            for i in 0..n
                invariant
                    n == tys@.len(),
                    forall|k: int|
                        0 <= k < i ==> !ty_mentions(#[trigger] field_types(*fs)[k], name@),
                    fs matches FieldsShape::Positional(tv) && tv == *tys,
            {
                if ty_mentions_text(&tys[i], name) {
                    assert(ty_mentions(field_types(*fs)[i as int], name@));
                    return true;
                }
            }
            false
        },
        FieldsShape::Unit => false,
    }
}

/// Compute the mirror of a user-defined type's shape. Sum types and
/// tuple fields wider than the protocol supports are rejected — a
/// generation-time error that must fail the build rather than emit
/// malformed code. For an accepted aggregate the mirror matches the
/// shape exactly: same kind, same field names and order, one cell per
/// field and one cell per inline tuple element; the reverse conversion
/// is derivable unless the shape is self-referential.
pub fn mirror_of(shape: TypeShape) -> (res: Result<MirrorDef, ShapeError>)
    ensures
        (match shape {
            TypeShape::Sum { .. } => res == Err::<MirrorDef, ShapeError>(
                ShapeError::UnsupportedSum,
            ),
            TypeShape::Aggregate { name, fields } => {
                &&& any_ty_too_wide(fields) ==> res == Err::<MirrorDef, ShapeError>(
                    ShapeError::TupleFieldTooWide,
                )
                &&& !any_ty_too_wide(fields) ==> (res matches Ok(m) && mirrors_shape(
                    name@,
                    fields,
                    m,
                ))
            },
        }),
{
    match shape {
        TypeShape::Sum { name: _ } => Err(ShapeError::UnsupportedSum),
        TypeShape::Aggregate { name, fields } => {
            if shape_has_wide_field(&fields) {
                return Err(ShapeError::TupleFieldTooWide);
            }
            let derivable = !shape_mentions(&fields, &name);
            let ghost fields0 = fields;
            let mfields = match fields {
                FieldsShape::Named(fs) => {
                    let ghost src = fs@;
                    let mut dst: Vec<NamedMirrorField> = Vec::new();
                    for f in it: fs.into_iter()
                        invariant
                            it.seq() == src,
                            dst@.len() == it.index(),
                            forall|i: int|
                                0 <= i < dst@.len() ==> (#[trigger] dst@[i]).name == src[i].name
                                    && dst@[i].ty == mirror_field_ty(src[i].ty),
                    {
                        let NamedField { name: fname, ty } = f;
                        let mty = match ty {
                            FieldTy::Single(text) => MirrorFieldTy::Cell(text),
                            FieldTy::Tuple(elems) => MirrorFieldTy::CellTuple(elems),
                        };
                        dst.push(NamedMirrorField { name: fname, ty: mty });
                    }
                    MirrorFields::Named(dst)
                },
                FieldsShape::Positional(tys) => {
                    let ghost src = tys@;
                    let mut dst: Vec<MirrorFieldTy> = Vec::new();
                    for ty in it: tys.into_iter()
                        invariant
                            it.seq() == src,
                            dst@.len() == it.index(),
                            forall|i: int|
                                0 <= i < dst@.len() ==> #[trigger] dst@[i] == mirror_field_ty(
                                    src[i],
                                ),
                    {
                        let mty = match ty {
                            FieldTy::Single(text) => MirrorFieldTy::Cell(text),
                            FieldTy::Tuple(elems) => MirrorFieldTy::CellTuple(elems),
                        };
                        dst.push(mty);
                    }
                    MirrorFields::Positional(dst)
                },
                FieldsShape::Unit => MirrorFields::Unit,
            };
            let mut mirror_name = name.clone();
            mirror_name.append("Observable");
            Ok(
                MirrorDef {
                    source_name: name,
                    name: mirror_name,
                    fields: mfields,
                    reverse_derivable: derivable,
                },
            )
        },
    }
}

} // verus!
