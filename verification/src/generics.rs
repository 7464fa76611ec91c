//! Types and functions that are written once for many types.

use std::marker::PhantomData;
use vstd::pervasive::unreached;
use vstd::prelude::*;

verus! {

/// A wrapper of any type.
pub struct GenericWrapper<Generic>(pub Generic);

impl<A> GenericWrapper<A> {
    /// The wrapped value.
    pub fn unwrap(&self) -> (inner: &A)
        ensures
            *inner == self.0,
    {
        &self.0
    }
}

impl GenericWrapper<u8> {
    /// Writes the wrapped byte to `out`, widened.
    pub fn unwrap_to_u64(&self, out: &mut u64)
        ensures
            *final(out) == self.0,
    {
        *out = *self.unwrap() as u64;
    }
}

/// A container of one value of the type `A`, named as a type parameter.
pub trait Wrapper1<A>: Sized {
    /// Whether the container holds its value.
    spec fn holds(self) -> bool;

    /// The value in a container that holds one.
    spec fn inner(self) -> A;

    /// Takes the value out of a container that holds one.
    fn get(self) -> (inner: A)
        requires
            self.holds(),
        ensures
            inner == self.inner(),
    ;
}

impl<A> Wrapper1<A> for Option<A> {
    open spec fn holds(self) -> bool {
        self is Some
    }

    open spec fn inner(self) -> A {
        self->0
    }

    fn get(self) -> (inner: A) {
        match self {
            Some(x) => x,
            None => unreached(),
        }
    }
}

/// Takes the value out of a container that holds one.
pub fn consume_wrapper1<A, B: Wrapper1<A>>(x: B) -> (inner: A)
    requires
        x.holds(),
    ensures
        inner == x.inner(),
{
    x.get()
}

/// A container of one value, whose type is a member of the container's.
pub trait Wrapper2: Sized {
    type Inner;

    /// Whether the container holds its value.
    spec fn holds(self) -> bool;

    /// The value in a container that holds one.
    spec fn inner(self) -> Self::Inner;

    /// Takes the value out of a container that holds one.
    fn get(self) -> (inner: Self::Inner)
        requires
            self.holds(),
        ensures
            inner == self.inner(),
    ;
}

impl<A> Wrapper2 for Option<A> {
    type Inner = A;

    open spec fn holds(self) -> bool {
        self is Some
    }

    open spec fn inner(self) -> A {
        self->0
    }

    fn get(self) -> (inner: A) {
        match self {
            Some(x) => x,
            None => unreached(),
        }
    }
}

/// Takes the value out of a container that holds one.
pub fn consume_wrapper2<A: Wrapper2>(x: A) -> (inner: A::Inner)
    requires
        x.holds(),
    ensures
        inner == x.inner(),
{
    x.get()
}

/// A value with a marker that exists at compile time only: values
/// with different markers have different types.
pub struct Phantom<A, Marker> {
    pub value: A,
    pub marker: PhantomData<Marker>,
}

impl<A> Phantom<A, ()> {
    /// Marks `x` with `Marker`.
    pub fn new<Marker>(x: A) -> (marked: Phantom<A, Marker>)
        ensures
            marked.value == x,
    {
        Phantom { value: x, marker: PhantomData }
    }
}

} // verus!
