use observable::Observable;
use std::collections::HashMap;
use observable::ReactiveCell;
use observable::ReverseError;
use observable::round_trip;

#[test]
fn round_trip_primitive_leaves() {
    assert_eq!(round_trip(true), Ok(true));
    assert_eq!(round_trip(false), Ok(false));
    assert_eq!(round_trip('x'), Ok('x'));
    assert_eq!(round_trip(-7i8), Ok(-7i8));
    assert_eq!(round_trip(-7i16), Ok(-7i16));
    assert_eq!(round_trip(-7i32), Ok(-7i32));
    assert_eq!(round_trip(-7i64), Ok(-7i64));
    assert_eq!(round_trip(-7i128), Ok(-7i128));
    assert_eq!(round_trip(-7isize), Ok(-7isize));
    assert_eq!(round_trip(7u8), Ok(7u8));
    assert_eq!(round_trip(7u16), Ok(7u16));
    assert_eq!(round_trip(7u32), Ok(7u32));
    assert_eq!(round_trip(7u64), Ok(7u64));
    assert_eq!(round_trip(7u128), Ok(7u128));
    assert_eq!(round_trip(7usize), Ok(7usize));
    assert_eq!(round_trip(String::from("hello")), Ok(String::from("hello")));
    assert_eq!(round_trip(String::new()), Ok(String::new()));
}

#[test]
fn round_trip_tuples_elementwise_in_order() {
    assert_eq!(round_trip((1u8,)), Ok((1u8,)));
    assert_eq!(round_trip((1u8, String::from("a"))), Ok((1u8, String::from("a"))));
    assert_eq!(round_trip((1u8, 2u16, 3u32)), Ok((1u8, 2u16, 3u32)));
    let wide = (1u8, 2u8, 3u8, 4u8, 5u8, 6u8, 7u8, 8u8, 9u8, 10u8, 11u8, 12u8, 13u8);
    let back = round_trip(wide).unwrap();
    let front = (back.0, back.1, back.2, back.3, back.4, back.5, back.6, back.7, back.8, back.9, back.10, back.11);
    assert_eq!(front, (1u8, 2u8, 3u8, 4u8, 5u8, 6u8, 7u8, 8u8, 9u8, 10u8, 11u8, 12u8));
    assert_eq!(back.12, 13u8);
    let nested = ((1i32, true), String::from("mid"), (2i64, 'c'));
    assert_eq!(round_trip(nested.clone()), Ok(nested));
}

#[test]
fn round_trip_box_is_flattened() {
    // The reflection of Box<i32> is i32's reflection itself: one layer,
    // no extra wrapping, and the round trip restores the boxed value.
    let b: Box<i32> = Box::new(99);
    let refl: i32 = b.into_observable();
    assert_eq!(refl, 99);
    assert_eq!(<Box<i32> as Observable>::from_observable(refl), Ok(Box::new(99)));
}

#[test]
fn round_trip_sequence_preserves_length_order_elements() {
    let v = vec![1i32, 2, 3];
    let refl: Vec<ReactiveCell<i32>> = v.into_observable();
    assert_eq!(refl.len(), 3);
    assert_eq!(refl[0].get(), 1);
    assert_eq!(refl[1].get(), 2);
    assert_eq!(refl[2].get(), 3);
    let back = <Vec<i32> as Observable>::from_observable(refl);
    assert_eq!(back, Ok(vec![1, 2, 3]));
}

#[test]
fn round_trip_law_applies_to_containers() {
    assert_eq!(round_trip(vec![1i32, 2, 3]), Ok(vec![1, 2, 3]));
    assert_eq!(
        round_trip(vec![String::from("a"), String::from("b")]),
        Ok(vec![String::from("a"), String::from("b")])
    );
    assert_eq!(round_trip(Box::new((1u8, String::from("x")))), Ok(Box::new((1u8, String::from("x")))));
}

#[test]
fn round_trip_empty_sequence() {
    let v: Vec<u64> = Vec::new();
    let refl = v.into_observable();
    assert_eq!(refl.len(), 0);
    assert_eq!(<Vec<u64> as Observable>::from_observable(refl), Ok(Vec::new()));
}

#[test]
fn round_trip_map_preserves_keys_and_values() {
    let mut m: HashMap<u8, i32> = HashMap::new();
    m.insert(1, 10);
    m.insert(2, 20);
    m.insert(3, 30);
    let refl: HashMap<u8, ReactiveCell<i32>> = m.into_observable();
    assert_eq!(refl.len(), 3);
    let keys: Vec<u8> = {
        let mut ks: Vec<u8> = refl.keys().copied().collect();
        ks.sort();
        ks
    };
    assert_eq!(keys, vec![1, 2, 3]);
    assert_eq!(refl[&2].get(), 20);
    let back = <HashMap<u8, i32> as Observable>::from_observable(refl).unwrap();
    assert_eq!(back.len(), 3);
    assert_eq!(back[&1], 10);
    assert_eq!(back[&2], 20);
    assert_eq!(back[&3], 30);
}

#[test]
fn round_trip_map_with_text_keys() {
    let mut m: HashMap<String, i32> = HashMap::new();
    m.insert(String::from("one"), 1);
    m.insert(String::from("two"), 2);
    let refl = m.into_observable();
    let back = <HashMap<String, i32> as Observable>::from_observable(refl).unwrap();
    assert_eq!(back.len(), 2);
    assert_eq!(back["one"], 1);
    assert_eq!(back["two"], 2);
}

#[test]
fn round_trip_map_of_sequences() {
    let mut m: HashMap<u8, Vec<String>> = HashMap::new();
    m.insert(7, vec![String::from("a"), String::from("b")]);
    let refl = m.into_observable();
    let back = <HashMap<u8, Vec<String>> as Observable>::from_observable(refl).unwrap();
    assert_eq!(back.len(), 1);
    assert_eq!(back[&7], vec![String::from("a"), String::from("b")]);
}

// A self-referential aggregate, written exactly as the generator's
// output for it looks: the reverse conversion is the designated
// not-implemented failure, raised at the call, rather than an attempt
// at unbounded reconstruction.
struct Node {
    label: u32,
    kids: Vec<Node>,
}

#[derive(Clone)]
struct NodeObservable {
    label: ReactiveCell<u32>,
    kids: ReactiveCell<Vec<ReactiveCell<NodeObservable>>>,
}

impl Observable for Node {
    type Reflection = NodeObservable;

    type Model = ();

    fn into_observable(self) -> NodeObservable {
        NodeObservable {
            label: ReactiveCell::new(self.label.into_observable()),
            kids: ReactiveCell::new(self.kids.into_observable()),
        }
    }

    fn from_observable(_r: NodeObservable) -> Result<Node, ReverseError> {
        Err(ReverseError::NotImplemented)
    }
}

#[test]
fn recursive_reverse_raises_not_implemented() {
    let tree = Node { label: 1, kids: vec![Node { label: 2, kids: vec![] }, Node { label: 3, kids: vec![] }] };
    let refl = tree.into_observable();
    assert_eq!(refl.label.get(), 1);
    let kids = refl.kids.get();
    assert_eq!(kids.len(), 2);
    assert!(matches!(Node::from_observable(refl), Err(ReverseError::NotImplemented)));
}
