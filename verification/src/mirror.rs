use vstd::prelude::*;

use std::collections::HashMap;

use crate::cell::ReactiveCell;
use crate::observable::Observable;
use crate::observable::ReverseError;

verus! {

// Concrete mirror types, exactly as the schema-driven generator emits
// them, one example per aggregate shape the generator supports: a
// named-field aggregate, a positional aggregate, a unit-like
// aggregate, an aggregate with an inline tuple field (each tuple
// element gets its own cell), an aggregate with an indirection-wrapped
// field (the indirection is elided, one cell only), a tagged union
// written by hand in the shape generated code for sum types would
// take, and a composite aggregate with container fields. The reverse
// conversions, which generation leaves to be completed, are completed
// here.
/// A named-field aggregate: the mirror has the same two field names in
/// the same order, each wrapped in one reactive cell.
pub struct Profile {
    pub name: String,
    pub age: i32,
}

#[derive(Clone)]
pub struct ProfileObservable {
    pub name: ReactiveCell<String>,
    pub age: ReactiveCell<i32>,
}

impl Observable for Profile {
    type Reflection = ProfileObservable;

    type Model = (String, i32);

    open spec fn model(self) -> (String, i32) {
        (self.name, self.age)
    }

    open spec fn reflection_model(r: ProfileObservable) -> (String, i32) {
        (r.name.value(), r.age.value())
    }

    open spec fn reverse_supported() -> bool {
        true
    }

    fn into_observable(self) -> (r: ProfileObservable) {
        ProfileObservable {
            name: ReactiveCell::new(self.name.into_observable()),
            age: ReactiveCell::new(self.age.into_observable()),
        }
    }

    fn from_observable(r: ProfileObservable) -> (x: Result<Self, ReverseError>) {
        Ok(Profile { name: r.name.get(), age: r.age.get() })
    }
}

/// A positional aggregate: the mirror is positional too, one cell per
/// field, in the same order.
pub struct Pair(pub i32, pub String);

#[derive(Clone)]
pub struct PairObservable(pub ReactiveCell<i32>, pub ReactiveCell<String>);

impl Observable for Pair {
    type Reflection = PairObservable;

    type Model = (i32, String);

    open spec fn model(self) -> (i32, String) {
        (self.0, self.1)
    }

    open spec fn reflection_model(r: PairObservable) -> (i32, String) {
        (r.0.value(), r.1.value())
    }

    open spec fn reverse_supported() -> bool {
        true
    }

    fn into_observable(self) -> (r: PairObservable) {
        PairObservable(
            ReactiveCell::new(self.0.into_observable()),
            ReactiveCell::new(self.1.into_observable()),
        )
    }

    fn from_observable(r: PairObservable) -> (x: Result<Self, ReverseError>) {
        Ok(Pair(r.0.get(), r.1.get()))
    }
}

/// A unit-like aggregate: the mirror has no fields at all.
pub struct Marker;

#[derive(Clone)]
pub struct MarkerObservable {}

impl Observable for Marker {
    type Reflection = MarkerObservable;

    type Model = ();

    open spec fn model(self) -> () {
        ()
    }

    open spec fn reflection_model(r: MarkerObservable) -> () {
        ()
    }

    open spec fn reverse_supported() -> bool {
        true
    }

    fn into_observable(self) -> (r: MarkerObservable) {
        MarkerObservable {}
    }

    fn from_observable(r: MarkerObservable) -> (x: Result<Self, ReverseError>) {
        Ok(Marker)
    }
}

/// An aggregate whose field is declared as an inline 2-tuple: the
/// field is flattened into two adjacent cells, one per tuple element,
/// not one cell holding a tuple.
pub struct Segment {
    pub ends: (u32, u32),
}

pub struct SegmentObservable {
    pub ends: (ReactiveCell<u32>, ReactiveCell<u32>),
}

impl Observable for Segment {
    type Reflection = SegmentObservable;

    type Model = (u32, u32);

    open spec fn model(self) -> (u32, u32) {
        (self.ends.0, self.ends.1)
    }

    open spec fn reflection_model(r: SegmentObservable) -> (u32, u32) {
        (r.ends.0.value(), r.ends.1.value())
    }

    open spec fn reverse_supported() -> bool {
        true
    }

    fn into_observable(self) -> (r: SegmentObservable) {
        SegmentObservable {
            ends: (
                ReactiveCell::new(self.ends.0.into_observable()),
                ReactiveCell::new(self.ends.1.into_observable()),
            ),
        }
    }

    fn from_observable(r: SegmentObservable) -> (x: Result<Self, ReverseError>) {
        Ok(Segment { ends: (r.ends.0.get(), r.ends.1.get()) })
    }
}

/// An aggregate with an indirection-wrapped field: the indirection is
/// elided, so the mirror field is one cell holding the target's
/// reflection directly — not a cell of an indirection of a cell.
pub struct Wrapper {
    pub inner: Box<Profile>,
    pub tag: u8,
}

#[derive(Clone)]
pub struct WrapperObservable {
    pub inner: ReactiveCell<ProfileObservable>,
    pub tag: ReactiveCell<u8>,
}

impl Observable for Wrapper {
    type Reflection = WrapperObservable;

    type Model = ((String, i32), u8);

    open spec fn model(self) -> ((String, i32), u8) {
        (((*self.inner).name, (*self.inner).age), self.tag)
    }

    open spec fn reflection_model(r: WrapperObservable) -> ((String, i32), u8) {
        ((r.inner.value().name.value(), r.inner.value().age.value()), r.tag.value())
    }

    open spec fn reverse_supported() -> bool {
        true
    }

    fn into_observable(self) -> (r: WrapperObservable) {
        WrapperObservable {
            inner: ReactiveCell::new(self.inner.into_observable()),
            tag: ReactiveCell::new(self.tag.into_observable()),
        }
    }

    fn from_observable(r: WrapperObservable) -> (x: Result<Self, ReverseError>) {
        match <Box<Profile> as Observable>::from_observable(r.inner.get()) {
            Ok(inner) => Ok(Wrapper { inner, tag: r.tag.get() }),
            Err(e) => Err(e),
        }
    }
}

/// A tagged union, written by hand in the shape generated code for sum
/// types would take: one mirror variant per source variant, each
/// variant's payload fields individually cell-wrapped, and conversions
/// that dispatch on the active tag.
pub enum Kind {
    Plain,
    Tagged(bool),
    Labeled { active: bool },
}

#[derive(Clone)]
pub enum KindObservable {
    Plain,
    Tagged(ReactiveCell<bool>),
    Labeled { active: ReactiveCell<bool> },
}

impl Observable for Kind {
    type Reflection = KindObservable;

    type Model = Kind;

    open spec fn model(self) -> Kind {
        self
    }

    open spec fn reflection_model(r: KindObservable) -> Kind {
        match r {
            KindObservable::Plain => Kind::Plain,
            KindObservable::Tagged(c) => Kind::Tagged(c.value()),
            KindObservable::Labeled { active } => Kind::Labeled { active: active.value() },
        }
    }

    open spec fn reverse_supported() -> bool {
        true
    }

    fn into_observable(self) -> (r: KindObservable) {
        match self {
            Kind::Plain => KindObservable::Plain,
            Kind::Tagged(b) => KindObservable::Tagged(ReactiveCell::new(b.into_observable())),
            Kind::Labeled { active } => KindObservable::Labeled {
                active: ReactiveCell::new(active.into_observable()),
            },
        }
    }

    fn from_observable(r: KindObservable) -> (x: Result<Self, ReverseError>) {
        match r {
            KindObservable::Plain => Ok(Kind::Plain),
            KindObservable::Tagged(c) => Ok(Kind::Tagged(c.get())),
            KindObservable::Labeled { active } => Ok(Kind::Labeled { active: active.get() }),
        }
    }
}

/// A composite aggregate with container fields, the shape a typical
/// application model takes: every field's reflection sits in its own
/// cell, and the container reflections themselves hold one cell per
/// element.
pub struct Account {
    pub name: String,
    pub age: i32,
    pub aliases: Vec<String>,
    pub scores: HashMap<u8, i32>,
}

#[derive(Clone)]
pub struct AccountObservable {
    pub name: ReactiveCell<String>,
    pub age: ReactiveCell<i32>,
    pub aliases: ReactiveCell<Vec<ReactiveCell<String>>>,
    pub scores: ReactiveCell<HashMap<u8, ReactiveCell<i32>>>,
}

impl Observable for Account {
    type Reflection = AccountObservable;

    type Model = (String, i32, Seq<String>, Map<u8, i32>);

    open spec fn model(self) -> (String, i32, Seq<String>, Map<u8, i32>) {
        (self.name, self.age, self.aliases@, self.scores@)
    }

    open spec fn reflection_model(r: AccountObservable) -> (String, i32, Seq<String>, Map<u8, i32>) {
        (
            r.name.value(),
            r.age.value(),
            r.aliases.value()@.map_values(|c: ReactiveCell<String>| c.value()),
            r.scores.value()@.map_values(|c: ReactiveCell<i32>| c.value()),
        )
    }

    open spec fn reverse_supported() -> bool {
        true
    }

    fn into_observable(self) -> (r: AccountObservable) {
        let ghost s = self;
        let name = ReactiveCell::new(self.name.into_observable());
        let age = ReactiveCell::new(self.age.into_observable());
        let aliases = ReactiveCell::new(self.aliases.into_observable());
        let scores = ReactiveCell::new(self.scores.into_observable());
        let out = AccountObservable { name, age, aliases, scores };
        proof {
            let ar = out.aliases.value();
            let sr = out.scores.value();
            assert(<Vec<String> as Observable>::reflection_model(ar).len() == ar@.len());
            assert(<Vec<String> as Observable>::model(s.aliases).len() == s.aliases@.len());
            assert(ar@.len() == s.aliases@.len());
            assert forall|i: int| 0 <= i < ar@.len() implies (#[trigger] ar@[i]).value()
                == s.aliases@[i] by {
                assert(<Vec<String> as Observable>::reflection_model(ar)[i] == <Vec<
                    String,
                > as Observable>::model(s.aliases)[i]);
            }
            assert(Self::reflection_model(out).2 =~= s.aliases@);
            assert forall|k: u8| #[trigger] sr@.dom().contains(k)
                == s.scores@.dom().contains(k) by {
                assert(<HashMap<u8, i32> as Observable>::reflection_model(sr).dom().contains(k)
                    == <HashMap<u8, i32> as Observable>::model(s.scores).dom().contains(k));
            }
            assert(sr@.dom() =~= s.scores@.dom());
            assert forall|k: u8| #[trigger] sr@.contains_key(k) implies sr@[k].value()
                == s.scores@[k] by {
                assert(<HashMap<u8, i32> as Observable>::reflection_model(sr)[k] == <HashMap<
                    u8,
                    i32,
                > as Observable>::model(s.scores)[k]);
            }
            assert(Self::reflection_model(out).3 =~= s.scores@);
        }
        out
    }

    fn from_observable(r: AccountObservable) -> (x: Result<Self, ReverseError>) {
        let aliases = match <Vec<String> as Observable>::from_observable(r.aliases.get()) {
            Ok(v) => v,
            Err(e) => {
                return Err(e);
            },
        };
        let scores = match <HashMap<u8, i32> as Observable>::from_observable(r.scores.get()) {
            Ok(v) => v,
            Err(e) => {
                return Err(e);
            },
        };
        let out = Account { name: r.name.get(), age: r.age.get(), aliases, scores };
        proof {
            let ar = r.aliases.value();
            let sr = r.scores.value();
            assert(<Vec<String> as Observable>::reflection_model(ar).len() == ar@.len());
            assert(<Vec<String> as Observable>::model(out.aliases).len() == out.aliases@.len());
            assert(out.aliases@.len() == ar@.len());
            assert forall|i: int| 0 <= i < out.aliases@.len() implies (#[trigger] out.aliases@[i])
                == ar@[i].value() by {
                assert(<Vec<String> as Observable>::model(out.aliases)[i] == <Vec<
                    String,
                > as Observable>::reflection_model(ar)[i]);
            }
            assert(out.model().2 =~= Self::reflection_model(r).2);
            assert forall|k: u8| #[trigger] out.scores@.dom().contains(k)
                == sr@.dom().contains(k) by {
                assert(<HashMap<u8, i32> as Observable>::model(out.scores).dom().contains(k)
                    == <HashMap<u8, i32> as Observable>::reflection_model(sr).dom().contains(k));
            }
            assert(out.scores@.dom() =~= sr@.dom());
            assert forall|k: u8| #[trigger] out.scores@.contains_key(k) implies out.scores@[k]
                == sr@[k].value() by {
                assert(<HashMap<u8, i32> as Observable>::model(out.scores)[k] == <HashMap<
                    u8,
                    i32,
                > as Observable>::reflection_model(sr)[k]);
            }
            assert(out.model().3 =~= Self::reflection_model(r).3);
        }
        Ok(out)
    }
}

} // verus!
