use vstd::prelude::*;
use vstd::std_specs::hash::obeys_key_model;

use std::collections::HashMap;

use crate::cell::ReactiveCell;
use crate::observable::Observable;
use crate::observable::ReverseError;

verus! {

/// Relies on `HashMap::into_iter` (collected into a `Vec`): iterating
/// a map yields exactly its entries, each key once, in no particular
/// order. The claim is only made for keys that obey the hash-table key
/// model, as for vstd's own map specifications.
#[verifier::external_body]
fn map_entries<K, V>(m: HashMap<K, V>) -> (pairs: Vec<(K, V)>)
    ensures
        obeys_key_model::<K>() ==> {
            &&& forall|i: int, j: int|
                0 <= i < j < pairs@.len() ==> (#[trigger] pairs@[i]).0 != (#[trigger] pairs@[j]).0
            &&& forall|i: int|
                0 <= i < pairs@.len() ==> m@.contains_key((#[trigger] pairs@[i]).0)
                    && m@[pairs@[i].0] == pairs@[i].1
            &&& forall|k: K|
                #[trigger] m@.contains_key(k) ==> exists|i: int|
                    0 <= i < pairs@.len() && (#[trigger] pairs@[i]).0 == k
        },
{
    m.into_iter().collect()
}

/// Single-owner indirection is elided: the reflection of `Box<T>` is
/// exactly `T`'s reflection, so recursive shapes do not pile up an
/// indirection wrapper at every level. Forward dereferences and
/// delegates; reverse delegates and re-boxes.
impl<T: Observable + 'static> Observable for Box<T> {
    type Reflection = T::Reflection;

    type Model = T::Model;

    open spec fn model(self) -> T::Model {
        (*self).model()
    }

    open spec fn reflection_model(r: T::Reflection) -> T::Model {
        T::reflection_model(r)
    }

    open spec fn reverse_supported() -> bool {
        T::reverse_supported()
    }

    fn into_observable(self) -> (r: T::Reflection) {
        T::into_observable(*self)
    }

    fn from_observable(r: T::Reflection) -> (x: Result<Self, ReverseError>) {
        match T::from_observable(r) {
            Ok(v) => Ok(Box::new(v)),
            Err(e) => Err(e),
        }
    }
}

/// The reflection of a sequence is a sequence of reactive cells, one
/// per element, in the same order; each cell holds the element's own
/// reflection. The element reflection must be duplicable (`Clone`)
/// because the reverse path snapshots each cell's contents.
impl<T: Observable + 'static> Observable for Vec<T> where T::Reflection: Clone {
    type Reflection = Vec<ReactiveCell<T::Reflection>>;

    type Model = Seq<T::Model>;

    open spec fn model(self) -> Seq<T::Model> {
        self@.map_values(|e: T| e.model())
    }

    open spec fn reflection_model(r: Vec<ReactiveCell<T::Reflection>>) -> Seq<T::Model> {
        r@.map_values(|c: ReactiveCell<T::Reflection>| T::reflection_model(c.value()))
    }

    open spec fn reverse_supported() -> bool {
        T::reverse_supported()
    }

    fn into_observable(self) -> (r: Vec<ReactiveCell<T::Reflection>>) {
        let ghost input = self@;
        let mut out: Vec<ReactiveCell<T::Reflection>> = Vec::new();
        for e in it: self.into_iter()
            invariant
                it.seq() == input,
                out@.len() == it.index(),
                forall|i: int|
                    0 <= i < out@.len() ==> T::reflection_model(#[trigger] out@[i].value())
                        == input[i].model(),
        {
            out.push(ReactiveCell::new(e.into_observable()));
        }
        proof {
            assert(Self::reflection_model(out) =~= Self::model(self));
        }
        out
    }

    fn from_observable(r: Vec<ReactiveCell<T::Reflection>>) -> (x: Result<Self, ReverseError>) {
        let ghost cells = r@;
        let mut out: Vec<T> = Vec::new();
        for c in it: r.into_iter()
            invariant
                it.seq() == cells,
                out@.len() == it.index(),
                forall|i: int|
                    0 <= i < out@.len() ==> (#[trigger] out@[i]).model() == T::reflection_model(
                        cells[i].value(),
                    ),
        {
            match T::from_observable(c.get()) {
                Ok(v) => out.push(v),
                Err(e) => {
                    return Err(e);
                },
            }
        }
        proof {
            assert(out.model() =~= Self::reflection_model(r));
        }
        Ok(out)
    }
}

/// The reflection of an associative map keeps the key set unchanged —
/// keys are not wrapped — and wraps each value's reflection in one
/// reactive cell. Iteration order is not preserved (unordered map
/// semantics). As for vstd's own hash-map specifications, the model is
/// only meaningful for keys that obey the hash-table key model; for
/// any other key type nothing is claimed.
impl<K: Eq + std::hash::Hash, T: Observable + 'static> Observable for HashMap<K, T> where
    T::Reflection: Clone,
 {
    type Reflection = HashMap<K, ReactiveCell<T::Reflection>>;

    type Model = Map<K, T::Model>;

    open spec fn model(self) -> Map<K, T::Model> {
        if obeys_key_model::<K>() {
            self@.map_values(|v: T| v.model())
        } else {
            Map::empty()
        }
    }

    open spec fn reflection_model(r: HashMap<K, ReactiveCell<T::Reflection>>) -> Map<
        K,
        T::Model,
    > {
        if obeys_key_model::<K>() {
            r@.map_values(|c: ReactiveCell<T::Reflection>| T::reflection_model(c.value()))
        } else {
            Map::empty()
        }
    }

    open spec fn reverse_supported() -> bool {
        T::reverse_supported()
    }

    fn into_observable(self) -> (r: HashMap<K, ReactiveCell<T::Reflection>>) {
        let ghost m0 = self@;
        let pairs = map_entries(self);
        let ghost ps = pairs@;
        let mut out: HashMap<K, ReactiveCell<T::Reflection>> = HashMap::new();
        for p in it: pairs.into_iter()
            invariant
                it.seq() == ps,
                obeys_key_model::<K>() ==> {
                    &&& forall|i: int|
                        0 <= i < ps.len() ==> m0.contains_key((#[trigger] ps[i]).0) && m0[ps[i].0]
                            == ps[i].1
                    &&& forall|k: K|
                        #[trigger] m0.contains_key(k) ==> exists|i: int|
                            0 <= i < ps.len() && (#[trigger] ps[i]).0 == k
                    &&& forall|i: int|
                        0 <= i < it.index() ==> out@.contains_key((#[trigger] ps[i]).0)
                    &&& forall|k: K|
                        #[trigger] out@.contains_key(k) ==> m0.contains_key(k)
                            && T::reflection_model(out@[k].value()) == m0[k].model()
                },
        {
            let (k, v) = p;
            out.insert(k, ReactiveCell::new(v.into_observable()));
        }
        proof {
            if obeys_key_model::<K>() {
                assert(Self::reflection_model(out) =~= Self::model(self));
            }
        }
        out
    }

    fn from_observable(r: HashMap<K, ReactiveCell<T::Reflection>>) -> (x: Result<
        Self,
        ReverseError,
    >) {
        let ghost r0 = r@;
        let pairs = map_entries(r);
        let ghost ps = pairs@;
        let mut out: HashMap<K, T> = HashMap::new();
        for p in it: pairs.into_iter()
            invariant
                it.seq() == ps,
                obeys_key_model::<K>() ==> {
                    &&& forall|i: int|
                        0 <= i < ps.len() ==> r0.contains_key((#[trigger] ps[i]).0) && r0[ps[i].0]
                            == ps[i].1
                    &&& forall|k: K|
                        #[trigger] r0.contains_key(k) ==> exists|i: int|
                            0 <= i < ps.len() && (#[trigger] ps[i]).0 == k
                    &&& forall|i: int|
                        0 <= i < it.index() ==> out@.contains_key((#[trigger] ps[i]).0)
                    &&& forall|k: K|
                        #[trigger] out@.contains_key(k) ==> r0.contains_key(k) && out@[k].model()
                            == T::reflection_model(r0[k].value())
                },
        {
            let (k, c) = p;
            match T::from_observable(c.get()) {
                Ok(v) => {
                    out.insert(k, v);
                },
                Err(e) => {
                    return Err(e);
                },
            }
        }
        proof {
            if obeys_key_model::<K>() {
                assert(out.model() =~= Self::reflection_model(r));
            }
        }
        Ok(out)
    }
}

} // verus!
