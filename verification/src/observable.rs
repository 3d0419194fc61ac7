use vstd::prelude::*;

verus! {

/// Error returned when a reflection cannot be converted back into its
/// original value because the reverse path is not implemented for that
/// type (notably self-referential aggregates, whose reconstruction the
/// design leaves open).
#[derive(Clone, Copy, PartialEq, Eq, Structural, Debug)]
pub enum ReverseError {
    NotImplemented,
}

/// The conversion protocol: a type `T` that participates has exactly
/// one reflection type, a forward conversion that consumes a `T` and
/// builds its reflection, and a reverse conversion that reads the
/// reflection's cells and rebuilds a `T`.
///
/// Both directions are specified against a common mathematical model:
/// `model` gives the model of an original value, `reflection_model`
/// the model a reflection currently stands for. The forward conversion
/// preserves the model exactly; the reverse conversion, where it is
/// implemented (`reverse_supported`), returns a value with the model of
/// its input reflection.
pub trait Observable: Sized {
    /// The reflection (mirror) type paired with `Self`.
    type Reflection;

    /// The mathematical model shared by a value and its reflection.
    type Model;

    /// The model of an original value. Every participating type gives
    /// its own definition; the default stands for none in particular
    /// and only lets unverified code outside this crate implement the
    /// protocol without ghost members.
    open spec fn model(self) -> Self::Model {
        vstd::pervasive::arbitrary()
    }

    /// The model a reflection currently stands for. Defaulted for the
    /// same reason as `model`.
    open spec fn reflection_model(r: Self::Reflection) -> Self::Model {
        vstd::pervasive::arbitrary()
    }

    /// Whether the reverse conversion is implemented for this type.
    open spec fn reverse_supported() -> bool {
        true
    }

    /// Forward conversion: consume the value, produce its reflection.
    /// Total, and exact: the reflection stands for precisely the value
    /// it was built from.
    fn into_observable(self) -> (r: Self::Reflection)
        ensures
            Self::reflection_model(r) == self.model(),
    ;

    /// Reverse conversion: read the current contents of every cell of
    /// the reflection and rebuild the original value. Where the reverse
    /// path is implemented it cannot fail; whenever it returns a value,
    /// that value has exactly the model the reflection stands for.
    fn from_observable(r: Self::Reflection) -> (x: Result<Self, ReverseError>)
        ensures
            Self::reverse_supported() ==> x is Ok,
            x matches Ok(v) ==> v.model() == Self::reflection_model(r),
    ;
}

/// A readable description of a reverse-conversion error, in place of
/// a `Display` implementation.
pub fn reverse_error_message(e: &ReverseError) -> (s: &'static str)
    ensures
        e is NotImplemented ==> s@ == "reverse conversion is not implemented for this type"@,
{
    match e {
        ReverseError::NotImplemented => "reverse conversion is not implemented for this type",
    }
}

/// Law: a round trip through the protocol is the identity on models.
/// For every participating type whose reverse conversion is
/// implemented, converting a value forward and straight back succeeds
/// and yields a value with the same model; for primitive leaves, whose
/// model is the value itself, that is the value itself.
pub fn round_trip<T: Observable>(x: T) -> (y: Result<T, ReverseError>)
    ensures
        T::reverse_supported() ==> y is Ok,
        y matches Ok(v) ==> v.model() == x.model(),
{
    T::from_observable(T::into_observable(x))
}

} // verus!
