//! Utilities for working with Rust's `Option` type.
//!
//! The extension trait [`OptionUtils`] offers three operations on an optional
//! value: mutate the contained value in place if one is present, convert a
//! present value with an infallible conversion, and convert with a fallible
//! conversion, collapsing the outcome into a single `Result`.

use vstd::prelude::*;

verus! {

/// Holds when a mapping step kept the presence tag intact: the step's result
/// is present exactly when its input was. Every operation of [`OptionUtils`]
/// guarantees this of its result, so an absent optional stays absent through
/// any chain of them (see [`lemma_absent_stays_absent`]).
pub open spec fn mirrors_presence<A, B>(before: Option<A>, after: Option<B>) -> bool {
    after is Some <==> before is Some
}

/// A collection of utilities for working with Rust's Option type.
pub trait OptionUtils<T> {
    /// The optional value that the implementor stands for; `Option<T>` itself
    /// is its own optional value.
    spec fn optional_view(&self) -> Option<T>;

    /// Run a function on the inner value of an Option.
    ///
    /// If the optional is present, `f` is invoked exactly once, on a mutable
    /// reference to the contained value, and the optional remains present
    /// with the value `f` left behind. If it is absent, it is left unchanged
    /// and `f` is never invoked: the precondition demands that `f` accept its
    /// argument only when a value is present.
    fn inner_mut<F>(&mut self, f: F) where
        F: FnOnce(&mut T),

        requires
            old(self).optional_view() matches Some(v) ==> forall|r: &mut T|
                *r == v ==> call_requires(f, (r,)),
        ensures
            old(self).optional_view() is None ==> final(self).optional_view()
                == old(self).optional_view(),
            mirrors_presence(old(self).optional_view(), final(self).optional_view()),
            old(self).optional_view() matches Some(v) ==> exists|r: &mut T|
                *r == v && call_ensures(f, (r,), ())
                    && final(self).optional_view() == Some(*final(r)),
    ;

    /// Map an Option into another type.
    ///
    /// A present value is converted with the infallible conversion from `T`
    /// to `R`; an absent optional yields an absent optional of the new type.
    /// The presence tag of the result mirrors the input exactly.
    fn map_into<R>(self) -> (mapped: Option<R>) where
        Self: Sized,
        T: Into<R>,

        ensures
            mirrors_presence(self.optional_view(), mapped),
            self.optional_view() matches Some(v) ==> (mapped matches Some(w)
                && call_ensures(<T as Into<R>>::into, (v,), w)),
    ;

    /// Map an Option into another type, returning an error if the conversion
    /// fails.
    ///
    /// An absent optional yields `Ok` carrying an absent optional, without
    /// attempting any conversion. For a present value the fallible conversion
    /// from `T` to `R` decides: on success the result is `Ok` carrying the
    /// converted value, present; on failure it is `Err` carrying exactly the
    /// error the conversion produced.
    fn try_map_into<R, E>(self) -> (outcome: Result<Option<R>, E>) where
        Self: Sized,
        T: TryInto<R, Error = E>,

        ensures
            outcome matches Ok(mapped) ==> mirrors_presence(self.optional_view(), mapped),
            self.optional_view() is None ==> outcome == Ok::<Option<R>, E>(None),
            self.optional_view() matches Some(v) ==> match outcome {
                Ok(mapped) => mapped matches Some(w)
                    && call_ensures(<T as TryInto<R>>::try_into, (v,), Ok::<R, E>(w)),
                Err(e) => call_ensures(<T as TryInto<R>>::try_into, (v,), Err::<R, E>(e)),
            },
    ;
}

impl<T> OptionUtils<T> for Option<T> {
    open spec fn optional_view(&self) -> Option<T> {
        *self
    }

    fn inner_mut<F>(&mut self, f: F) where F: FnOnce(&mut T)
        ensures
            *old(self) is None ==> *final(self) == *old(self),
            *old(self) matches Some(v) ==> exists|r: &mut T|
                *r == v && call_ensures(f, (r,), ()) && *final(self) == Some(*final(r)),
    {
        match self {
            Some(inner) => f(inner),
            None => (),
        }
    }

    fn map_into<R>(self) -> (mapped: Option<R>) where Self: Sized, T: Into<R>
        ensures
            mapped is Some <==> self is Some,
            self matches Some(v) ==> (mapped matches Some(w)
                && call_ensures(<T as Into<R>>::into, (v,), w)),
    {
        match self {
            Some(v) => Some(v.into()),
            None => None,
        }
    }

    fn try_map_into<R, E>(self) -> (outcome: Result<Option<R>, E>) where
        Self: Sized,
        T: TryInto<R, Error = E>,

        ensures
            self is None ==> outcome == Ok::<Option<R>, E>(None),
            self matches Some(v) ==> match outcome {
                Ok(mapped) => mapped matches Some(w)
                    && call_ensures(<T as TryInto<R>>::try_into, (v,), Ok::<R, E>(w)),
                Err(e) => call_ensures(<T as TryInto<R>>::try_into, (v,), Err::<R, E>(e)),
            },
    {
        match self {
            Some(v) => match v.try_into() {
                Ok(w) => Ok(Some(w)),
                Err(e) => Err(e),
            },
            None => Ok(None),
        }
    }
}

/// Absence is a fixed point of the operations: a step that mirrors the
/// presence tag keeps an absent optional absent, and a further such step
/// keeps the result absent in turn. Since every operation of [`OptionUtils`]
/// ensures [`mirrors_presence`] between its input and its result, repeated
/// application of any of them to an absent optional always yields an absent
/// one.
pub proof fn lemma_absent_stays_absent<A, B, C>(
    first: Option<A>,
    second: Option<B>,
    third: Option<C>,
)
    requires
        first is None,
        mirrors_presence(first, second),
        mirrors_presence(second, third),
    ensures
        second is None,
        third is None,
{
}

} // verus!
