use vstd::prelude::*;

use crate::observable::Observable;
use crate::observable::ReverseError;

verus! {

// The reflection of an N-tuple (arity 1 through 13) is the N-tuple of
// each element's reflection, positionally; no cell is introduced at the
// tuple level. Cells appear only where a tuple is a field of an
// aggregate. Tuples beyond arity 13 do not participate and are rejected
// at generation time.

impl<T0: Observable> Observable for (T0,) {
    type Reflection = (T0::Reflection,);

    type Model = (T0::Model,);

    open spec fn model(self) -> (T0::Model,) {
        (self.0.model(),)
    }

    open spec fn reflection_model(r: (T0::Reflection,)) -> (T0::Model,) {
        (T0::reflection_model(r.0),)
    }

    open spec fn reverse_supported() -> bool {
        T0::reverse_supported()
    }

    fn into_observable(self) -> (r: (T0::Reflection,)) {
        (self.0.into_observable(),)
    }

    fn from_observable(r: (T0::Reflection,)) -> (x: Result<Self, ReverseError>) {
        let v0 = match T0::from_observable(r.0) {
            Ok(v) => v,
            Err(e) => {
                return Err(e);
            },
        };
        Ok((v0,))
    }
}

impl<T0: Observable, T1: Observable> Observable for (T0, T1) {
    type Reflection = (T0::Reflection, T1::Reflection);

    type Model = (T0::Model, T1::Model);

    open spec fn model(self) -> (T0::Model, T1::Model) {
        (self.0.model(), self.1.model())
    }

    open spec fn reflection_model(r: (T0::Reflection, T1::Reflection)) -> (T0::Model, T1::Model) {
        (T0::reflection_model(r.0), T1::reflection_model(r.1))
    }

    open spec fn reverse_supported() -> bool {
        T0::reverse_supported() && T1::reverse_supported()
    }

    fn into_observable(self) -> (r: (T0::Reflection, T1::Reflection)) {
        (self.0.into_observable(), self.1.into_observable())
    }

    fn from_observable(r: (T0::Reflection, T1::Reflection)) -> (x: Result<Self, ReverseError>) {
        let v0 = match T0::from_observable(r.0) {
            Ok(v) => v,
            Err(e) => {
                return Err(e);
            },
        };
        let v1 = match T1::from_observable(r.1) {
            Ok(v) => v,
            Err(e) => {
                return Err(e);
            },
        };
        Ok((v0, v1))
    }
}

impl<T0: Observable, T1: Observable, T2: Observable> Observable for (T0, T1, T2) {
    type Reflection = (T0::Reflection, T1::Reflection, T2::Reflection);

    type Model = (T0::Model, T1::Model, T2::Model);

    open spec fn model(self) -> (T0::Model, T1::Model, T2::Model) {
        (self.0.model(), self.1.model(), self.2.model())
    }

    open spec fn reflection_model(r: (T0::Reflection, T1::Reflection, T2::Reflection)) -> (T0::Model, T1::Model, T2::Model) {
        (T0::reflection_model(r.0), T1::reflection_model(r.1), T2::reflection_model(r.2))
    }

    open spec fn reverse_supported() -> bool {
        T0::reverse_supported() && T1::reverse_supported() && T2::reverse_supported()
    }

    fn into_observable(self) -> (r: (T0::Reflection, T1::Reflection, T2::Reflection)) {
        (self.0.into_observable(), self.1.into_observable(), self.2.into_observable())
    }

    fn from_observable(r: (T0::Reflection, T1::Reflection, T2::Reflection)) -> (x: Result<Self, ReverseError>) {
        let v0 = match T0::from_observable(r.0) {
            Ok(v) => v,
            Err(e) => {
                return Err(e);
            },
        };
        let v1 = match T1::from_observable(r.1) {
            Ok(v) => v,
            Err(e) => {
                return Err(e);
            },
        };
        let v2 = match T2::from_observable(r.2) {
            Ok(v) => v,
            Err(e) => {
                return Err(e);
            },
        };
        Ok((v0, v1, v2))
    }
}

impl<T0: Observable, T1: Observable, T2: Observable, T3: Observable> Observable for (T0, T1, T2, T3) {
    type Reflection = (T0::Reflection, T1::Reflection, T2::Reflection, T3::Reflection);

    type Model = (T0::Model, T1::Model, T2::Model, T3::Model);

    open spec fn model(self) -> (T0::Model, T1::Model, T2::Model, T3::Model) {
        (self.0.model(), self.1.model(), self.2.model(), self.3.model())
    }

    open spec fn reflection_model(r: (T0::Reflection, T1::Reflection, T2::Reflection, T3::Reflection)) -> (T0::Model, T1::Model, T2::Model, T3::Model) {
        (T0::reflection_model(r.0), T1::reflection_model(r.1), T2::reflection_model(r.2), T3::reflection_model(r.3))
    }

    open spec fn reverse_supported() -> bool {
        T0::reverse_supported() && T1::reverse_supported() && T2::reverse_supported() && T3::reverse_supported()
    }

    fn into_observable(self) -> (r: (T0::Reflection, T1::Reflection, T2::Reflection, T3::Reflection)) {
        (self.0.into_observable(), self.1.into_observable(), self.2.into_observable(), self.3.into_observable())
    }

    fn from_observable(r: (T0::Reflection, T1::Reflection, T2::Reflection, T3::Reflection)) -> (x: Result<Self, ReverseError>) {
        let v0 = match T0::from_observable(r.0) {
            Ok(v) => v,
            Err(e) => {
                return Err(e);
            },
        };
        let v1 = match T1::from_observable(r.1) {
            Ok(v) => v,
            Err(e) => {
                return Err(e);
            },
        };
        let v2 = match T2::from_observable(r.2) {
            Ok(v) => v,
            Err(e) => {
                return Err(e);
            },
        };
        let v3 = match T3::from_observable(r.3) {
            Ok(v) => v,
            Err(e) => {
                return Err(e);
            },
        };
        Ok((v0, v1, v2, v3))
    }
}

impl<T0: Observable, T1: Observable, T2: Observable, T3: Observable, T4: Observable> Observable for (T0, T1, T2, T3, T4) {
    type Reflection = (T0::Reflection, T1::Reflection, T2::Reflection, T3::Reflection, T4::Reflection);

    type Model = (T0::Model, T1::Model, T2::Model, T3::Model, T4::Model);

    open spec fn model(self) -> (T0::Model, T1::Model, T2::Model, T3::Model, T4::Model) {
        (self.0.model(), self.1.model(), self.2.model(), self.3.model(), self.4.model())
    }

    open spec fn reflection_model(r: (T0::Reflection, T1::Reflection, T2::Reflection, T3::Reflection, T4::Reflection)) -> (T0::Model, T1::Model, T2::Model, T3::Model, T4::Model) {
        (T0::reflection_model(r.0), T1::reflection_model(r.1), T2::reflection_model(r.2), T3::reflection_model(r.3), T4::reflection_model(r.4))
    }

    open spec fn reverse_supported() -> bool {
        T0::reverse_supported() && T1::reverse_supported() && T2::reverse_supported() && T3::reverse_supported() && T4::reverse_supported()
    }

    fn into_observable(self) -> (r: (T0::Reflection, T1::Reflection, T2::Reflection, T3::Reflection, T4::Reflection)) {
        (self.0.into_observable(), self.1.into_observable(), self.2.into_observable(), self.3.into_observable(), self.4.into_observable())
    }

    fn from_observable(r: (T0::Reflection, T1::Reflection, T2::Reflection, T3::Reflection, T4::Reflection)) -> (x: Result<Self, ReverseError>) {
        let v0 = match T0::from_observable(r.0) {
            Ok(v) => v,
            Err(e) => {
                return Err(e);
            },
        };
        let v1 = match T1::from_observable(r.1) {
            Ok(v) => v,
            Err(e) => {
                return Err(e);
            },
        };
        let v2 = match T2::from_observable(r.2) {
            Ok(v) => v,
            Err(e) => {
                return Err(e);
            },
        };
        let v3 = match T3::from_observable(r.3) {
            Ok(v) => v,
            Err(e) => {
                return Err(e);
            },
        };
        let v4 = match T4::from_observable(r.4) {
            Ok(v) => v,
            Err(e) => {
                return Err(e);
            },
        };
        Ok((v0, v1, v2, v3, v4))
    }
}

impl<T0: Observable, T1: Observable, T2: Observable, T3: Observable, T4: Observable, T5: Observable> Observable for (T0, T1, T2, T3, T4, T5) {
    type Reflection = (T0::Reflection, T1::Reflection, T2::Reflection, T3::Reflection, T4::Reflection, T5::Reflection);

    type Model = (T0::Model, T1::Model, T2::Model, T3::Model, T4::Model, T5::Model);

    open spec fn model(self) -> (T0::Model, T1::Model, T2::Model, T3::Model, T4::Model, T5::Model) {
        (self.0.model(), self.1.model(), self.2.model(), self.3.model(), self.4.model(), self.5.model())
    }

    open spec fn reflection_model(r: (T0::Reflection, T1::Reflection, T2::Reflection, T3::Reflection, T4::Reflection, T5::Reflection)) -> (T0::Model, T1::Model, T2::Model, T3::Model, T4::Model, T5::Model) {
        (T0::reflection_model(r.0), T1::reflection_model(r.1), T2::reflection_model(r.2), T3::reflection_model(r.3), T4::reflection_model(r.4), T5::reflection_model(r.5))
    }

    open spec fn reverse_supported() -> bool {
        T0::reverse_supported() && T1::reverse_supported() && T2::reverse_supported() && T3::reverse_supported() && T4::reverse_supported() && T5::reverse_supported()
    }

    fn into_observable(self) -> (r: (T0::Reflection, T1::Reflection, T2::Reflection, T3::Reflection, T4::Reflection, T5::Reflection)) {
        (self.0.into_observable(), self.1.into_observable(), self.2.into_observable(), self.3.into_observable(), self.4.into_observable(), self.5.into_observable())
    }

    fn from_observable(r: (T0::Reflection, T1::Reflection, T2::Reflection, T3::Reflection, T4::Reflection, T5::Reflection)) -> (x: Result<Self, ReverseError>) {
        let v0 = match T0::from_observable(r.0) {
            Ok(v) => v,
            Err(e) => {
                return Err(e);
            },
        };
        let v1 = match T1::from_observable(r.1) {
            Ok(v) => v,
            Err(e) => {
                return Err(e);
            },
        };
        let v2 = match T2::from_observable(r.2) {
            Ok(v) => v,
            Err(e) => {
                return Err(e);
            },
        };
        let v3 = match T3::from_observable(r.3) {
            Ok(v) => v,
            Err(e) => {
                return Err(e);
            },
        };
        let v4 = match T4::from_observable(r.4) {
            Ok(v) => v,
            Err(e) => {
                return Err(e);
            },
        };
        let v5 = match T5::from_observable(r.5) {
            Ok(v) => v,
            Err(e) => {
                return Err(e);
            },
        };
        Ok((v0, v1, v2, v3, v4, v5))
    }
}

impl<T0: Observable, T1: Observable, T2: Observable, T3: Observable, T4: Observable, T5: Observable, T6: Observable> Observable for (T0, T1, T2, T3, T4, T5, T6) {
    type Reflection = (T0::Reflection, T1::Reflection, T2::Reflection, T3::Reflection, T4::Reflection, T5::Reflection, T6::Reflection);

    type Model = (T0::Model, T1::Model, T2::Model, T3::Model, T4::Model, T5::Model, T6::Model);

    open spec fn model(self) -> (T0::Model, T1::Model, T2::Model, T3::Model, T4::Model, T5::Model, T6::Model) {
        (self.0.model(), self.1.model(), self.2.model(), self.3.model(), self.4.model(), self.5.model(), self.6.model())
    }

    open spec fn reflection_model(r: (T0::Reflection, T1::Reflection, T2::Reflection, T3::Reflection, T4::Reflection, T5::Reflection, T6::Reflection)) -> (T0::Model, T1::Model, T2::Model, T3::Model, T4::Model, T5::Model, T6::Model) {
        (T0::reflection_model(r.0), T1::reflection_model(r.1), T2::reflection_model(r.2), T3::reflection_model(r.3), T4::reflection_model(r.4), T5::reflection_model(r.5), T6::reflection_model(r.6))
    }

    open spec fn reverse_supported() -> bool {
        T0::reverse_supported() && T1::reverse_supported() && T2::reverse_supported() && T3::reverse_supported() && T4::reverse_supported() && T5::reverse_supported() && T6::reverse_supported()
    }

    fn into_observable(self) -> (r: (T0::Reflection, T1::Reflection, T2::Reflection, T3::Reflection, T4::Reflection, T5::Reflection, T6::Reflection)) {
        (self.0.into_observable(), self.1.into_observable(), self.2.into_observable(), self.3.into_observable(), self.4.into_observable(), self.5.into_observable(), self.6.into_observable())
    }

    fn from_observable(r: (T0::Reflection, T1::Reflection, T2::Reflection, T3::Reflection, T4::Reflection, T5::Reflection, T6::Reflection)) -> (x: Result<Self, ReverseError>) {
        let v0 = match T0::from_observable(r.0) {
            Ok(v) => v,
            Err(e) => {
                return Err(e);
            },
        };
        let v1 = match T1::from_observable(r.1) {
            Ok(v) => v,
            Err(e) => {
                return Err(e);
            },
        };
        let v2 = match T2::from_observable(r.2) {
            Ok(v) => v,
            Err(e) => {
                return Err(e);
            },
        };
        let v3 = match T3::from_observable(r.3) {
            Ok(v) => v,
            Err(e) => {
                return Err(e);
            },
        };
        let v4 = match T4::from_observable(r.4) {
            Ok(v) => v,
            Err(e) => {
                return Err(e);
            },
        };
        let v5 = match T5::from_observable(r.5) {
            Ok(v) => v,
            Err(e) => {
                return Err(e);
            },
        };
        let v6 = match T6::from_observable(r.6) {
            Ok(v) => v,
            Err(e) => {
                return Err(e);
            },
        };
        Ok((v0, v1, v2, v3, v4, v5, v6))
    }
}

impl<T0: Observable, T1: Observable, T2: Observable, T3: Observable, T4: Observable, T5: Observable, T6: Observable, T7: Observable> Observable for (T0, T1, T2, T3, T4, T5, T6, T7) {
    type Reflection = (T0::Reflection, T1::Reflection, T2::Reflection, T3::Reflection, T4::Reflection, T5::Reflection, T6::Reflection, T7::Reflection);

    type Model = (T0::Model, T1::Model, T2::Model, T3::Model, T4::Model, T5::Model, T6::Model, T7::Model);

    open spec fn model(self) -> (T0::Model, T1::Model, T2::Model, T3::Model, T4::Model, T5::Model, T6::Model, T7::Model) {
        (self.0.model(), self.1.model(), self.2.model(), self.3.model(), self.4.model(), self.5.model(), self.6.model(), self.7.model())
    }

    open spec fn reflection_model(r: (T0::Reflection, T1::Reflection, T2::Reflection, T3::Reflection, T4::Reflection, T5::Reflection, T6::Reflection, T7::Reflection)) -> (T0::Model, T1::Model, T2::Model, T3::Model, T4::Model, T5::Model, T6::Model, T7::Model) {
        (T0::reflection_model(r.0), T1::reflection_model(r.1), T2::reflection_model(r.2), T3::reflection_model(r.3), T4::reflection_model(r.4), T5::reflection_model(r.5), T6::reflection_model(r.6), T7::reflection_model(r.7))
    }

    open spec fn reverse_supported() -> bool {
        T0::reverse_supported() && T1::reverse_supported() && T2::reverse_supported() && T3::reverse_supported() && T4::reverse_supported() && T5::reverse_supported() && T6::reverse_supported() && T7::reverse_supported()
    }

    fn into_observable(self) -> (r: (T0::Reflection, T1::Reflection, T2::Reflection, T3::Reflection, T4::Reflection, T5::Reflection, T6::Reflection, T7::Reflection)) {
        (self.0.into_observable(), self.1.into_observable(), self.2.into_observable(), self.3.into_observable(), self.4.into_observable(), self.5.into_observable(), self.6.into_observable(), self.7.into_observable())
    }

    fn from_observable(r: (T0::Reflection, T1::Reflection, T2::Reflection, T3::Reflection, T4::Reflection, T5::Reflection, T6::Reflection, T7::Reflection)) -> (x: Result<Self, ReverseError>) {
        let v0 = match T0::from_observable(r.0) {
            Ok(v) => v,
            Err(e) => {
                return Err(e);
            },
        };
        let v1 = match T1::from_observable(r.1) {
            Ok(v) => v,
            Err(e) => {
                return Err(e);
            },
        };
        let v2 = match T2::from_observable(r.2) {
            Ok(v) => v,
            Err(e) => {
                return Err(e);
            },
        };
        let v3 = match T3::from_observable(r.3) {
            Ok(v) => v,
            Err(e) => {
                return Err(e);
            },
        };
        let v4 = match T4::from_observable(r.4) {
            Ok(v) => v,
            Err(e) => {
                return Err(e);
            },
        };
        let v5 = match T5::from_observable(r.5) {
            Ok(v) => v,
            Err(e) => {
                return Err(e);
            },
        };
        let v6 = match T6::from_observable(r.6) {
            Ok(v) => v,
            Err(e) => {
                return Err(e);
            },
        };
        let v7 = match T7::from_observable(r.7) {
            Ok(v) => v,
            Err(e) => {
                return Err(e);
            },
        };
        Ok((v0, v1, v2, v3, v4, v5, v6, v7))
    }
}

impl<T0: Observable, T1: Observable, T2: Observable, T3: Observable, T4: Observable, T5: Observable, T6: Observable, T7: Observable, T8: Observable> Observable for (T0, T1, T2, T3, T4, T5, T6, T7, T8) {
    type Reflection = (T0::Reflection, T1::Reflection, T2::Reflection, T3::Reflection, T4::Reflection, T5::Reflection, T6::Reflection, T7::Reflection, T8::Reflection);

    type Model = (T0::Model, T1::Model, T2::Model, T3::Model, T4::Model, T5::Model, T6::Model, T7::Model, T8::Model);

    open spec fn model(self) -> (T0::Model, T1::Model, T2::Model, T3::Model, T4::Model, T5::Model, T6::Model, T7::Model, T8::Model) {
        (self.0.model(), self.1.model(), self.2.model(), self.3.model(), self.4.model(), self.5.model(), self.6.model(), self.7.model(), self.8.model())
    }

    open spec fn reflection_model(r: (T0::Reflection, T1::Reflection, T2::Reflection, T3::Reflection, T4::Reflection, T5::Reflection, T6::Reflection, T7::Reflection, T8::Reflection)) -> (T0::Model, T1::Model, T2::Model, T3::Model, T4::Model, T5::Model, T6::Model, T7::Model, T8::Model) {
        (T0::reflection_model(r.0), T1::reflection_model(r.1), T2::reflection_model(r.2), T3::reflection_model(r.3), T4::reflection_model(r.4), T5::reflection_model(r.5), T6::reflection_model(r.6), T7::reflection_model(r.7), T8::reflection_model(r.8))
    }

    open spec fn reverse_supported() -> bool {
        T0::reverse_supported() && T1::reverse_supported() && T2::reverse_supported() && T3::reverse_supported() && T4::reverse_supported() && T5::reverse_supported() && T6::reverse_supported() && T7::reverse_supported() && T8::reverse_supported()
    }

    fn into_observable(self) -> (r: (T0::Reflection, T1::Reflection, T2::Reflection, T3::Reflection, T4::Reflection, T5::Reflection, T6::Reflection, T7::Reflection, T8::Reflection)) {
        (self.0.into_observable(), self.1.into_observable(), self.2.into_observable(), self.3.into_observable(), self.4.into_observable(), self.5.into_observable(), self.6.into_observable(), self.7.into_observable(), self.8.into_observable())
    }

    fn from_observable(r: (T0::Reflection, T1::Reflection, T2::Reflection, T3::Reflection, T4::Reflection, T5::Reflection, T6::Reflection, T7::Reflection, T8::Reflection)) -> (x: Result<Self, ReverseError>) {
        let v0 = match T0::from_observable(r.0) {
            Ok(v) => v,
            Err(e) => {
                return Err(e);
            },
        };
        let v1 = match T1::from_observable(r.1) {
            Ok(v) => v,
            Err(e) => {
                return Err(e);
            },
        };
        let v2 = match T2::from_observable(r.2) {
            Ok(v) => v,
            Err(e) => {
                return Err(e);
            },
        };
        let v3 = match T3::from_observable(r.3) {
            Ok(v) => v,
            Err(e) => {
                return Err(e);
            },
        };
        let v4 = match T4::from_observable(r.4) {
            Ok(v) => v,
            Err(e) => {
                return Err(e);
            },
        };
        let v5 = match T5::from_observable(r.5) {
            Ok(v) => v,
            Err(e) => {
                return Err(e);
            },
        };
        let v6 = match T6::from_observable(r.6) {
            Ok(v) => v,
            Err(e) => {
                return Err(e);
            },
        };
        let v7 = match T7::from_observable(r.7) {
            Ok(v) => v,
            Err(e) => {
                return Err(e);
            },
        };
        let v8 = match T8::from_observable(r.8) {
            Ok(v) => v,
            Err(e) => {
                return Err(e);
            },
        };
        Ok((v0, v1, v2, v3, v4, v5, v6, v7, v8))
    }
}

impl<T0: Observable, T1: Observable, T2: Observable, T3: Observable, T4: Observable, T5: Observable, T6: Observable, T7: Observable, T8: Observable, T9: Observable> Observable for (T0, T1, T2, T3, T4, T5, T6, T7, T8, T9) {
    type Reflection = (T0::Reflection, T1::Reflection, T2::Reflection, T3::Reflection, T4::Reflection, T5::Reflection, T6::Reflection, T7::Reflection, T8::Reflection, T9::Reflection);

    type Model = (T0::Model, T1::Model, T2::Model, T3::Model, T4::Model, T5::Model, T6::Model, T7::Model, T8::Model, T9::Model);

    open spec fn model(self) -> (T0::Model, T1::Model, T2::Model, T3::Model, T4::Model, T5::Model, T6::Model, T7::Model, T8::Model, T9::Model) {
        (self.0.model(), self.1.model(), self.2.model(), self.3.model(), self.4.model(), self.5.model(), self.6.model(), self.7.model(), self.8.model(), self.9.model())
    }

    open spec fn reflection_model(r: (T0::Reflection, T1::Reflection, T2::Reflection, T3::Reflection, T4::Reflection, T5::Reflection, T6::Reflection, T7::Reflection, T8::Reflection, T9::Reflection)) -> (T0::Model, T1::Model, T2::Model, T3::Model, T4::Model, T5::Model, T6::Model, T7::Model, T8::Model, T9::Model) {
        (T0::reflection_model(r.0), T1::reflection_model(r.1), T2::reflection_model(r.2), T3::reflection_model(r.3), T4::reflection_model(r.4), T5::reflection_model(r.5), T6::reflection_model(r.6), T7::reflection_model(r.7), T8::reflection_model(r.8), T9::reflection_model(r.9))
    }

    open spec fn reverse_supported() -> bool {
        T0::reverse_supported() && T1::reverse_supported() && T2::reverse_supported() && T3::reverse_supported() && T4::reverse_supported() && T5::reverse_supported() && T6::reverse_supported() && T7::reverse_supported() && T8::reverse_supported() && T9::reverse_supported()
    }

    fn into_observable(self) -> (r: (T0::Reflection, T1::Reflection, T2::Reflection, T3::Reflection, T4::Reflection, T5::Reflection, T6::Reflection, T7::Reflection, T8::Reflection, T9::Reflection)) {
        (self.0.into_observable(), self.1.into_observable(), self.2.into_observable(), self.3.into_observable(), self.4.into_observable(), self.5.into_observable(), self.6.into_observable(), self.7.into_observable(), self.8.into_observable(), self.9.into_observable())
    }

    fn from_observable(r: (T0::Reflection, T1::Reflection, T2::Reflection, T3::Reflection, T4::Reflection, T5::Reflection, T6::Reflection, T7::Reflection, T8::Reflection, T9::Reflection)) -> (x: Result<Self, ReverseError>) {
        let v0 = match T0::from_observable(r.0) {
            Ok(v) => v,
            Err(e) => {
                return Err(e);
            },
        };
        let v1 = match T1::from_observable(r.1) {
            Ok(v) => v,
            Err(e) => {
                return Err(e);
            },
        };
        let v2 = match T2::from_observable(r.2) {
            Ok(v) => v,
            Err(e) => {
                return Err(e);
            },
        };
        let v3 = match T3::from_observable(r.3) {
            Ok(v) => v,
            Err(e) => {
                return Err(e);
            },
        };
        let v4 = match T4::from_observable(r.4) {
            Ok(v) => v,
            Err(e) => {
                return Err(e);
            },
        };
        let v5 = match T5::from_observable(r.5) {
            Ok(v) => v,
            Err(e) => {
                return Err(e);
            },
        };
        let v6 = match T6::from_observable(r.6) {
            Ok(v) => v,
            Err(e) => {
                return Err(e);
            },
        };
        let v7 = match T7::from_observable(r.7) {
            Ok(v) => v,
            Err(e) => {
                return Err(e);
            },
        };
        let v8 = match T8::from_observable(r.8) {
            Ok(v) => v,
            Err(e) => {
                return Err(e);
            },
        };
        let v9 = match T9::from_observable(r.9) {
            Ok(v) => v,
            Err(e) => {
                return Err(e);
            },
        };
        Ok((v0, v1, v2, v3, v4, v5, v6, v7, v8, v9))
    }
}

impl<T0: Observable, T1: Observable, T2: Observable, T3: Observable, T4: Observable, T5: Observable, T6: Observable, T7: Observable, T8: Observable, T9: Observable, T10: Observable> Observable for (T0, T1, T2, T3, T4, T5, T6, T7, T8, T9, T10) {
    type Reflection = (T0::Reflection, T1::Reflection, T2::Reflection, T3::Reflection, T4::Reflection, T5::Reflection, T6::Reflection, T7::Reflection, T8::Reflection, T9::Reflection, T10::Reflection);

    type Model = (T0::Model, T1::Model, T2::Model, T3::Model, T4::Model, T5::Model, T6::Model, T7::Model, T8::Model, T9::Model, T10::Model);

    open spec fn model(self) -> (T0::Model, T1::Model, T2::Model, T3::Model, T4::Model, T5::Model, T6::Model, T7::Model, T8::Model, T9::Model, T10::Model) {
        (self.0.model(), self.1.model(), self.2.model(), self.3.model(), self.4.model(), self.5.model(), self.6.model(), self.7.model(), self.8.model(), self.9.model(), self.10.model())
    }

    open spec fn reflection_model(r: (T0::Reflection, T1::Reflection, T2::Reflection, T3::Reflection, T4::Reflection, T5::Reflection, T6::Reflection, T7::Reflection, T8::Reflection, T9::Reflection, T10::Reflection)) -> (T0::Model, T1::Model, T2::Model, T3::Model, T4::Model, T5::Model, T6::Model, T7::Model, T8::Model, T9::Model, T10::Model) {
        (T0::reflection_model(r.0), T1::reflection_model(r.1), T2::reflection_model(r.2), T3::reflection_model(r.3), T4::reflection_model(r.4), T5::reflection_model(r.5), T6::reflection_model(r.6), T7::reflection_model(r.7), T8::reflection_model(r.8), T9::reflection_model(r.9), T10::reflection_model(r.10))
    }

    open spec fn reverse_supported() -> bool {
        T0::reverse_supported() && T1::reverse_supported() && T2::reverse_supported() && T3::reverse_supported() && T4::reverse_supported() && T5::reverse_supported() && T6::reverse_supported() && T7::reverse_supported() && T8::reverse_supported() && T9::reverse_supported() && T10::reverse_supported()
    }

    fn into_observable(self) -> (r: (T0::Reflection, T1::Reflection, T2::Reflection, T3::Reflection, T4::Reflection, T5::Reflection, T6::Reflection, T7::Reflection, T8::Reflection, T9::Reflection, T10::Reflection)) {
        (self.0.into_observable(), self.1.into_observable(), self.2.into_observable(), self.3.into_observable(), self.4.into_observable(), self.5.into_observable(), self.6.into_observable(), self.7.into_observable(), self.8.into_observable(), self.9.into_observable(), self.10.into_observable())
    }

    fn from_observable(r: (T0::Reflection, T1::Reflection, T2::Reflection, T3::Reflection, T4::Reflection, T5::Reflection, T6::Reflection, T7::Reflection, T8::Reflection, T9::Reflection, T10::Reflection)) -> (x: Result<Self, ReverseError>) {
        let v0 = match T0::from_observable(r.0) {
            Ok(v) => v,
            Err(e) => {
                return Err(e);
            },
        };
        let v1 = match T1::from_observable(r.1) {
            Ok(v) => v,
            Err(e) => {
                return Err(e);
            },
        };
        let v2 = match T2::from_observable(r.2) {
            Ok(v) => v,
            Err(e) => {
                return Err(e);
            },
        };
        let v3 = match T3::from_observable(r.3) {
            Ok(v) => v,
            Err(e) => {
                return Err(e);
            },
        };
        let v4 = match T4::from_observable(r.4) {
            Ok(v) => v,
            Err(e) => {
                return Err(e);
            },
        };
        let v5 = match T5::from_observable(r.5) {
            Ok(v) => v,
            Err(e) => {
                return Err(e);
            },
        };
        let v6 = match T6::from_observable(r.6) {
            Ok(v) => v,
            Err(e) => {
                return Err(e);
            },
        };
        let v7 = match T7::from_observable(r.7) {
            Ok(v) => v,
            Err(e) => {
                return Err(e);
            },
        };
        let v8 = match T8::from_observable(r.8) {
            Ok(v) => v,
            Err(e) => {
                return Err(e);
            },
        };
        let v9 = match T9::from_observable(r.9) {
            Ok(v) => v,
            Err(e) => {
                return Err(e);
            },
        };
        let v10 = match T10::from_observable(r.10) {
            Ok(v) => v,
            Err(e) => {
                return Err(e);
            },
        };
        Ok((v0, v1, v2, v3, v4, v5, v6, v7, v8, v9, v10))
    }
}

impl<T0: Observable, T1: Observable, T2: Observable, T3: Observable, T4: Observable, T5: Observable, T6: Observable, T7: Observable, T8: Observable, T9: Observable, T10: Observable, T11: Observable> Observable for (T0, T1, T2, T3, T4, T5, T6, T7, T8, T9, T10, T11) {
    type Reflection = (T0::Reflection, T1::Reflection, T2::Reflection, T3::Reflection, T4::Reflection, T5::Reflection, T6::Reflection, T7::Reflection, T8::Reflection, T9::Reflection, T10::Reflection, T11::Reflection);

    type Model = (T0::Model, T1::Model, T2::Model, T3::Model, T4::Model, T5::Model, T6::Model, T7::Model, T8::Model, T9::Model, T10::Model, T11::Model);

    open spec fn model(self) -> (T0::Model, T1::Model, T2::Model, T3::Model, T4::Model, T5::Model, T6::Model, T7::Model, T8::Model, T9::Model, T10::Model, T11::Model) {
        (self.0.model(), self.1.model(), self.2.model(), self.3.model(), self.4.model(), self.5.model(), self.6.model(), self.7.model(), self.8.model(), self.9.model(), self.10.model(), self.11.model())
    }

    open spec fn reflection_model(r: (T0::Reflection, T1::Reflection, T2::Reflection, T3::Reflection, T4::Reflection, T5::Reflection, T6::Reflection, T7::Reflection, T8::Reflection, T9::Reflection, T10::Reflection, T11::Reflection)) -> (T0::Model, T1::Model, T2::Model, T3::Model, T4::Model, T5::Model, T6::Model, T7::Model, T8::Model, T9::Model, T10::Model, T11::Model) {
        (T0::reflection_model(r.0), T1::reflection_model(r.1), T2::reflection_model(r.2), T3::reflection_model(r.3), T4::reflection_model(r.4), T5::reflection_model(r.5), T6::reflection_model(r.6), T7::reflection_model(r.7), T8::reflection_model(r.8), T9::reflection_model(r.9), T10::reflection_model(r.10), T11::reflection_model(r.11))
    }

    open spec fn reverse_supported() -> bool {
        T0::reverse_supported() && T1::reverse_supported() && T2::reverse_supported() && T3::reverse_supported() && T4::reverse_supported() && T5::reverse_supported() && T6::reverse_supported() && T7::reverse_supported() && T8::reverse_supported() && T9::reverse_supported() && T10::reverse_supported() && T11::reverse_supported()
    }

    fn into_observable(self) -> (r: (T0::Reflection, T1::Reflection, T2::Reflection, T3::Reflection, T4::Reflection, T5::Reflection, T6::Reflection, T7::Reflection, T8::Reflection, T9::Reflection, T10::Reflection, T11::Reflection)) {
        (self.0.into_observable(), self.1.into_observable(), self.2.into_observable(), self.3.into_observable(), self.4.into_observable(), self.5.into_observable(), self.6.into_observable(), self.7.into_observable(), self.8.into_observable(), self.9.into_observable(), self.10.into_observable(), self.11.into_observable())
    }

    fn from_observable(r: (T0::Reflection, T1::Reflection, T2::Reflection, T3::Reflection, T4::Reflection, T5::Reflection, T6::Reflection, T7::Reflection, T8::Reflection, T9::Reflection, T10::Reflection, T11::Reflection)) -> (x: Result<Self, ReverseError>) {
        let v0 = match T0::from_observable(r.0) {
            Ok(v) => v,
            Err(e) => {
                return Err(e);
            },
        };
        let v1 = match T1::from_observable(r.1) {
            Ok(v) => v,
            Err(e) => {
                return Err(e);
            },
        };
        let v2 = match T2::from_observable(r.2) {
            Ok(v) => v,
            Err(e) => {
                return Err(e);
            },
        };
        let v3 = match T3::from_observable(r.3) {
            Ok(v) => v,
            Err(e) => {
                return Err(e);
            },
        };
        let v4 = match T4::from_observable(r.4) {
            Ok(v) => v,
            Err(e) => {
                return Err(e);
            },
        };
        let v5 = match T5::from_observable(r.5) {
            Ok(v) => v,
            Err(e) => {
                return Err(e);
            },
        };
        let v6 = match T6::from_observable(r.6) {
            Ok(v) => v,
            Err(e) => {
                return Err(e);
            },
        };
        let v7 = match T7::from_observable(r.7) {
            Ok(v) => v,
            Err(e) => {
                return Err(e);
            },
        };
        let v8 = match T8::from_observable(r.8) {
            Ok(v) => v,
            Err(e) => {
                return Err(e);
            },
        };
        let v9 = match T9::from_observable(r.9) {
            Ok(v) => v,
            Err(e) => {
                return Err(e);
            },
        };
        let v10 = match T10::from_observable(r.10) {
            Ok(v) => v,
            Err(e) => {
                return Err(e);
            },
        };
        let v11 = match T11::from_observable(r.11) {
            Ok(v) => v,
            Err(e) => {
                return Err(e);
            },
        };
        Ok((v0, v1, v2, v3, v4, v5, v6, v7, v8, v9, v10, v11))
    }
}

impl<T0: Observable, T1: Observable, T2: Observable, T3: Observable, T4: Observable, T5: Observable, T6: Observable, T7: Observable, T8: Observable, T9: Observable, T10: Observable, T11: Observable, T12: Observable> Observable for (T0, T1, T2, T3, T4, T5, T6, T7, T8, T9, T10, T11, T12) {
    type Reflection = (T0::Reflection, T1::Reflection, T2::Reflection, T3::Reflection, T4::Reflection, T5::Reflection, T6::Reflection, T7::Reflection, T8::Reflection, T9::Reflection, T10::Reflection, T11::Reflection, T12::Reflection);

    type Model = (T0::Model, T1::Model, T2::Model, T3::Model, T4::Model, T5::Model, T6::Model, T7::Model, T8::Model, T9::Model, T10::Model, T11::Model, T12::Model);

    open spec fn model(self) -> (T0::Model, T1::Model, T2::Model, T3::Model, T4::Model, T5::Model, T6::Model, T7::Model, T8::Model, T9::Model, T10::Model, T11::Model, T12::Model) {
        (self.0.model(), self.1.model(), self.2.model(), self.3.model(), self.4.model(), self.5.model(), self.6.model(), self.7.model(), self.8.model(), self.9.model(), self.10.model(), self.11.model(), self.12.model())
    }

    open spec fn reflection_model(r: (T0::Reflection, T1::Reflection, T2::Reflection, T3::Reflection, T4::Reflection, T5::Reflection, T6::Reflection, T7::Reflection, T8::Reflection, T9::Reflection, T10::Reflection, T11::Reflection, T12::Reflection)) -> (T0::Model, T1::Model, T2::Model, T3::Model, T4::Model, T5::Model, T6::Model, T7::Model, T8::Model, T9::Model, T10::Model, T11::Model, T12::Model) {
        (T0::reflection_model(r.0), T1::reflection_model(r.1), T2::reflection_model(r.2), T3::reflection_model(r.3), T4::reflection_model(r.4), T5::reflection_model(r.5), T6::reflection_model(r.6), T7::reflection_model(r.7), T8::reflection_model(r.8), T9::reflection_model(r.9), T10::reflection_model(r.10), T11::reflection_model(r.11), T12::reflection_model(r.12))
    }

    open spec fn reverse_supported() -> bool {
        T0::reverse_supported() && T1::reverse_supported() && T2::reverse_supported() && T3::reverse_supported() && T4::reverse_supported() && T5::reverse_supported() && T6::reverse_supported() && T7::reverse_supported() && T8::reverse_supported() && T9::reverse_supported() && T10::reverse_supported() && T11::reverse_supported() && T12::reverse_supported()
    }

    fn into_observable(self) -> (r: (T0::Reflection, T1::Reflection, T2::Reflection, T3::Reflection, T4::Reflection, T5::Reflection, T6::Reflection, T7::Reflection, T8::Reflection, T9::Reflection, T10::Reflection, T11::Reflection, T12::Reflection)) {
        (self.0.into_observable(), self.1.into_observable(), self.2.into_observable(), self.3.into_observable(), self.4.into_observable(), self.5.into_observable(), self.6.into_observable(), self.7.into_observable(), self.8.into_observable(), self.9.into_observable(), self.10.into_observable(), self.11.into_observable(), self.12.into_observable())
    }

    fn from_observable(r: (T0::Reflection, T1::Reflection, T2::Reflection, T3::Reflection, T4::Reflection, T5::Reflection, T6::Reflection, T7::Reflection, T8::Reflection, T9::Reflection, T10::Reflection, T11::Reflection, T12::Reflection)) -> (x: Result<Self, ReverseError>) {
        let v0 = match T0::from_observable(r.0) {
            Ok(v) => v,
            Err(e) => {
                return Err(e);
            },
        };
        let v1 = match T1::from_observable(r.1) {
            Ok(v) => v,
            Err(e) => {
                return Err(e);
            },
        };
        let v2 = match T2::from_observable(r.2) {
            Ok(v) => v,
            Err(e) => {
                return Err(e);
            },
        };
        let v3 = match T3::from_observable(r.3) {
            Ok(v) => v,
            Err(e) => {
                return Err(e);
            },
        };
        let v4 = match T4::from_observable(r.4) {
            Ok(v) => v,
            Err(e) => {
                return Err(e);
            },
        };
        let v5 = match T5::from_observable(r.5) {
            Ok(v) => v,
            Err(e) => {
                return Err(e);
            },
        };
        let v6 = match T6::from_observable(r.6) {
            Ok(v) => v,
            Err(e) => {
                return Err(e);
            },
        };
        let v7 = match T7::from_observable(r.7) {
            Ok(v) => v,
            Err(e) => {
                return Err(e);
            },
        };
        let v8 = match T8::from_observable(r.8) {
            Ok(v) => v,
            Err(e) => {
                return Err(e);
            },
        };
        let v9 = match T9::from_observable(r.9) {
            Ok(v) => v,
            Err(e) => {
                return Err(e);
            },
        };
        let v10 = match T10::from_observable(r.10) {
            Ok(v) => v,
            Err(e) => {
                return Err(e);
            },
        };
        let v11 = match T11::from_observable(r.11) {
            Ok(v) => v,
            Err(e) => {
                return Err(e);
            },
        };
        let v12 = match T12::from_observable(r.12) {
            Ok(v) => v,
            Err(e) => {
                return Err(e);
            },
        };
        Ok((v0, v1, v2, v3, v4, v5, v6, v7, v8, v9, v10, v11, v12))
    }
}

} // verus!
