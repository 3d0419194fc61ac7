use observable::generator::FieldTy;
use observable::generator::FieldsShape;
use observable::generator::MirrorFieldTy;
use observable::generator::MirrorFields;
use observable::generator::NamedField;
use observable::generator::ShapeError;
use observable::generator::TypeShape;
use observable::generator::mirror_of;
use observable::emit::generate;
use observable::emit::render_mirror;

fn named(name: &str, fields: Vec<(&str, FieldTy)>) -> TypeShape {
    TypeShape::Aggregate {
        name: String::from(name),
        fields: FieldsShape::Named(
            fields
                .into_iter()
                .map(|(n, ty)| NamedField { name: String::from(n), ty })
                .collect(),
        ),
    }
}

fn single(t: &str) -> FieldTy {
    FieldTy::Single(String::from(t))
}

#[test]
fn named_shape_keeps_names_and_order() {
    let shape = named("Profile", vec![("name", single("String")), ("age", single("i32"))]);
    let m = mirror_of(shape).unwrap();
    assert_eq!(m.source_name, "Profile");
    assert_eq!(m.name, "ProfileObservable");
    assert!(m.reverse_derivable);
    match &m.fields {
        MirrorFields::Named(fs) => {
            assert_eq!(fs.len(), 2);
            assert_eq!(fs[0].name, "name");
            assert_eq!(fs[0].ty, MirrorFieldTy::Cell(String::from("String")));
            assert_eq!(fs[1].name, "age");
            assert_eq!(fs[1].ty, MirrorFieldTy::Cell(String::from("i32")));
        },
        _ => panic!("named source must give a named mirror"),
    }
}

#[test]
fn positional_shape_stays_positional() {
    let shape = TypeShape::Aggregate {
        name: String::from("Pair"),
        fields: FieldsShape::Positional(vec![single("i32"), single("String")]),
    };
    let m = mirror_of(shape).unwrap();
    assert_eq!(m.name, "PairObservable");
    match &m.fields {
        MirrorFields::Positional(ts) => {
            assert_eq!(ts.len(), 2);
            assert_eq!(ts[0], MirrorFieldTy::Cell(String::from("i32")));
            assert_eq!(ts[1], MirrorFieldTy::Cell(String::from("String")));
        },
        _ => panic!("positional source must give a positional mirror"),
    }
}

#[test]
fn unit_shape_gives_fieldless_mirror() {
    let shape = TypeShape::Aggregate {
        name: String::from("Marker"),
        fields: FieldsShape::Unit,
    };
    let m = mirror_of(shape).unwrap();
    assert_eq!(m.name, "MarkerObservable");
    assert_eq!(m.fields, MirrorFields::Unit);
}

fn cell_total(fields: &MirrorFields) -> usize {
    match fields {
        MirrorFields::Named(fs) => fs
            .iter()
            .map(|f| match &f.ty {
                MirrorFieldTy::Cell(_) => 1,
                MirrorFieldTy::CellTuple(ts) => ts.len(),
            })
            .sum(),
        MirrorFields::Positional(ts) => ts
            .iter()
            .map(|t| match t {
                MirrorFieldTy::Cell(_) => 1,
                MirrorFieldTy::CellTuple(ts) => ts.len(),
            })
            .sum(),
        MirrorFields::Unit => 0,
    }
}

#[test]
fn tuple_field_flattens_into_adjacent_cells() {
    // One source field declared as a 2-tuple: the mirror holds two
    // adjacent cells, not one tuple-typed cell — one more cell than
    // the naive one-cell-per-field count.
    let shape = named(
        "Segment",
        vec![("ends", FieldTy::Tuple(vec![String::from("u32"), String::from("u32")]))],
    );
    let m = mirror_of(shape).unwrap();
    match &m.fields {
        MirrorFields::Named(fs) => {
            assert_eq!(fs.len(), 1);
            assert_eq!(
                fs[0].ty,
                MirrorFieldTy::CellTuple(vec![String::from("u32"), String::from("u32")])
            );
        },
        _ => panic!("named source must give a named mirror"),
    }
    assert_eq!(cell_total(&m.fields), 2);
}

#[test]
fn sum_types_are_rejected() {
    let shape = TypeShape::Sum { name: String::from("Choice") };
    assert_eq!(mirror_of(shape), Err(ShapeError::UnsupportedSum));
    let again = TypeShape::Sum { name: String::from("Choice") };
    assert_eq!(generate(again), Err(ShapeError::UnsupportedSum));
}

#[test]
fn tuple_field_wider_than_thirteen_is_rejected() {
    let wide: Vec<String> = (0..14).map(|_| String::from("u8")).collect();
    let shape = named("Wide", vec![("xs", FieldTy::Tuple(wide))]);
    assert_eq!(mirror_of(shape), Err(ShapeError::TupleFieldTooWide));
    let exact: Vec<String> = (0..13).map(|_| String::from("u8")).collect();
    let ok = named("Exact", vec![("xs", FieldTy::Tuple(exact))]);
    assert!(mirror_of(ok).is_ok());
}

#[test]
fn self_referential_shape_gets_not_implemented_reverse() {
    let shape = named(
        "TreeNode",
        vec![("label", single("u32")), ("children", single("Vec<TreeNode>"))],
    );
    let m = mirror_of(shape).unwrap();
    assert!(!m.reverse_derivable);
    let text = render_mirror(&m);
    assert!(text.contains("Err(::observable::ReverseError::NotImplemented)"));
    assert!(!text.contains("Ok(Self"));
}

#[test]
fn generated_text_for_named_aggregate() {
    let shape = named("Profile", vec![("name", single("String")), ("age", single("i32"))]);
    let text = generate(shape).unwrap();
    let lines = [
        "#[derive(Clone)]",
        "struct ProfileObservable {",
        "    name: ::observable::ReactiveCell<<String as ::observable::Observable>::Reflection>,",
        "    age: ::observable::ReactiveCell<<i32 as ::observable::Observable>::Reflection>,",
        "}",
        "impl ::observable::Observable for Profile {",
        "    type Reflection = ProfileObservable;",
        "    type Model = ();",
        "    fn into_observable(self) -> Self::Reflection {",
        "        ProfileObservable {",
        "            name: ::observable::ReactiveCell::new(<String as ::observable::Observable>::into_observable(self.name)),",
        "            age: ::observable::ReactiveCell::new(<i32 as ::observable::Observable>::into_observable(self.age)),",
        "        }",
        "    }",
        "    fn from_observable(r: Self::Reflection) -> Result<Self, ::observable::ReverseError> {",
        "        Ok(Self {",
        "            name: <String as ::observable::Observable>::from_observable(r.name.get())?,",
        "            age: <i32 as ::observable::Observable>::from_observable(r.age.get())?,",
        "        })",
        "    }",
        "}",
    ];
    let mut expected = lines.join("\n");
    expected.push('\n');
    assert_eq!(text, expected);
}

#[test]
fn generated_text_for_positional_aggregate_uses_indices() {
    let shape = TypeShape::Aggregate {
        name: String::from("Pair"),
        fields: FieldsShape::Positional(vec![single("i32"), single("String")]),
    };
    let text = generate(shape).unwrap();
    assert!(text.contains("struct PairObservable("));
    assert!(text.contains("into_observable(self.0)"));
    assert!(text.contains("into_observable(self.1)"));
    assert!(text.contains("from_observable(r.0.get())?"));
    assert!(text.contains("from_observable(r.1.get())?"));
}

#[test]
fn generated_text_for_tuple_field_has_one_cell_per_element() {
    let shape = named(
        "Segment",
        vec![("ends", FieldTy::Tuple(vec![String::from("u32"), String::from("u32")]))],
    );
    let text = generate(shape).unwrap();
    assert!(text.contains("into_observable(self.ends.0)"));
    assert!(text.contains("into_observable(self.ends.1)"));
    assert_eq!(text.matches("ReactiveCell::new").count(), 2);
}
