use core::marker::PhantomData;
use vstd::prelude::*;

verus! {

/// A numeric identifier tagged with the entity kind it names.
///
/// The tag is a compile-time device only: two identifiers of the same raw
/// value but different kinds are a type mismatch, while at run time an
/// `Id<T>` is exactly a 64-bit unsigned integer, and on the wire it is a
/// plain number (see the `wire` module). Its mathematical view is that
/// raw integer.
#[derive(Debug, PartialEq, Eq, Hash)]
pub struct Id<T>(u64, PhantomData<T>);

impl<T> Copy for Id<T> {

}

impl<T> Clone for Id<T> {
    fn clone(&self) -> (r: Self)
        ensures
            r == *self,
    {
        *self
    }
}

impl<T> View for Id<T> {
    type V = u64;

    closed spec fn view(&self) -> u64 {
        self.0
    }
}

impl<T> Id<T> {
    /// Wraps a raw 64-bit value as an identifier.
    pub fn new(inner: u64) -> (r: Self)
        ensures
            r@ == inner,
    {
        Id(inner, PhantomData)
    }

    /// Returns the raw 64-bit value of the identifier.
    pub fn into_u64(self) -> (r: u64)
        ensures
            r == self@,
    {
        self.0
    }
}

impl<T> From<u64> for Id<T> {
    /// Wraps a raw value, as `Id::new` does.
    fn from(input: u64) -> (r: Self)
        ensures
            r@ == input,
    {
        Id(input, PhantomData)
    }
}

impl<T> vstd::std_specs::convert::FromSpecImpl<u64> for Id<T> {
    open spec fn obeys_from_spec() -> bool {
        true
    }

    closed spec fn from_spec(v: u64) -> Self {
        Id(v, PhantomData)
    }
}

impl<T> From<Id<T>> for u64 {
    /// Unwraps the raw value, as `Id::into_u64` does.
    fn from(input: Id<T>) -> (r: u64)
        ensures
            r == input@,
    {
        input.0
    }
}

impl<T> vstd::std_specs::convert::FromSpecImpl<Id<T>> for u64 {
    open spec fn obeys_from_spec() -> bool {
        true
    }

    open spec fn from_spec(v: Id<T>) -> u64 {
        v@
    }
}

} // verus!
