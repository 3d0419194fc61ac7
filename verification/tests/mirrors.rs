use std::collections::HashMap;

use observable::Observable;
use observable::ReverseError;
use observable::mirror::Account;
use observable::mirror::Kind;
use observable::mirror::Marker;
use observable::mirror::Pair;
use observable::mirror::Profile;
use observable::mirror::Segment;
use observable::mirror::Wrapper;

#[test]
fn named_mirror_has_cell_per_field_in_order() {
    let p = Profile { name: String::from("Ada"), age: 36 };
    let r = p.into_observable();
    assert_eq!(r.name.get(), "Ada");
    assert_eq!(r.age.get(), 36);
    let back = Profile::from_observable(r).unwrap();
    assert_eq!(back.name, "Ada");
    assert_eq!(back.age, 36);
}

#[test]
fn positional_mirror_round_trip() {
    let p = Pair(5, String::from("five"));
    let r = p.into_observable();
    assert_eq!(r.0.get(), 5);
    assert_eq!(r.1.get(), "five");
    let back = Pair::from_observable(r).unwrap();
    assert_eq!(back.0, 5);
    assert_eq!(back.1, "five");
}

#[test]
fn unit_mirror_has_no_fields() {
    let r = Marker.into_observable();
    assert!(Marker::from_observable(r).is_ok());
}

#[test]
fn tuple_field_gives_two_adjacent_cells() {
    // The field declared as a 2-tuple is flattened: two cells, one per
    // element, each independently readable.
    let s = Segment { ends: (3, 9) };
    let r = s.into_observable();
    assert_eq!(r.ends.0.get(), 3);
    assert_eq!(r.ends.1.get(), 9);
    let back = Segment::from_observable(r).unwrap();
    assert_eq!(back.ends, (3, 9));
}

#[test]
fn indirection_field_is_one_cell_not_nested() {
    // The Box around the field is elided: the mirror field is a single
    // cell holding the target's reflection directly.
    let w = Wrapper { inner: Box::new(Profile { name: String::from("Ada"), age: 36 }), tag: 7 };
    let r = w.into_observable();
    let inner = r.inner.get();
    assert_eq!(inner.name.get(), "Ada");
    assert_eq!(inner.age.get(), 36);
    assert_eq!(r.tag.get(), 7);
    let back = Wrapper::from_observable(r).unwrap();
    assert_eq!(back.inner.name, "Ada");
    assert_eq!(back.inner.age, 36);
    assert_eq!(back.tag, 7);
}

#[test]
fn tagged_union_mirror_round_trip_per_variant() {
    let r = Kind::Plain.into_observable();
    assert!(matches!(Kind::from_observable(r), Ok(Kind::Plain)));
    let r = Kind::Tagged(true).into_observable();
    assert!(matches!(Kind::from_observable(r), Ok(Kind::Tagged(true))));
    let r = Kind::Labeled { active: false }.into_observable();
    assert!(matches!(Kind::from_observable(r), Ok(Kind::Labeled { active: false })));
}

#[test]
fn composite_mirror_round_trip() {
    let mut scores: HashMap<u8, i32> = HashMap::new();
    scores.insert(1, 100);
    scores.insert(2, 200);
    let a = Account {
        name: String::from("Ada"),
        age: 36,
        aliases: vec![String::from("aa"), String::from("bb")],
        scores,
    };
    let r = a.into_observable();
    assert_eq!(r.name.get(), "Ada");
    let aliases = r.aliases.get();
    assert_eq!(aliases.len(), 2);
    assert_eq!(aliases[0].get(), "aa");
    assert_eq!(aliases[1].get(), "bb");
    let back = Account::from_observable(r).unwrap();
    assert_eq!(back.name, "Ada");
    assert_eq!(back.age, 36);
    assert_eq!(back.aliases, vec![String::from("aa"), String::from("bb")]);
    assert_eq!(back.scores.len(), 2);
    assert_eq!(back.scores[&1], 100);
    assert_eq!(back.scores[&2], 200);
}

#[test]
fn reverse_error_names_the_failure() {
    assert_eq!(
        observable::reverse_error_message(&ReverseError::NotImplemented),
        "reverse conversion is not implemented for this type"
    );
}
