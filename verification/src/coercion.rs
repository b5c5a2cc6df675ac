//! Building a concrete value behind a handle to an unsized or polymorphic
//! target.

use std::marker::PhantomData;
use vstd::prelude::*;
use vstd::layout::layout_for_type_is_valid;
use crate::initializer::EmplaceInitializer;
use crate::layout::Layout;
use crate::memory::{Handle, Memory, Metadata};

verus! {

/// A concrete type whose values can be seen as values of the target `U`.
///
/// The metadata belongs to the pair of types, not to a value: it is known
/// before any value is placed.
pub trait Unsize<U: ?Sized>: Sized {
    /// The metadata of a handle to a `Self` that is seen as a `U`.
    spec fn metadata_spec() -> Metadata;

    /// Whether `target` is what `self` looks like as a `U`.
    spec fn upcasts_to(&self, target: &U) -> bool;

    /// The metadata of a handle to a `Self` that is seen as a `U`.
    fn metadata() -> (m: Metadata)
        ensures
            m == Self::metadata_spec(),
    ;

    /// The value seen as a `U`.
    fn upcast(&self) -> (target: &U)
        ensures
            self.upcasts_to(target),
    ;
}

/// An array is seen as the run of its elements; its metadata is its length.
impl<T, const N: usize> Unsize<[T]> for [T; N] {
    open spec fn metadata_spec() -> Metadata {
        Metadata::Length(N)
    }

    open spec fn upcasts_to(&self, target: &[T]) -> bool {
        target@ == self@
    }

    fn metadata() -> (m: Metadata) {
        Metadata::Length(N)
    }

    fn upcast(&self) -> (target: &[T]) {
        self.as_slice()
    }
}

/// The metadata of a handle to a `T` that is seen as a `U`.
pub fn metadata_of<T: Unsize<U>, U: ?Sized>() -> (m: Metadata)
    ensures
        m == T::metadata_spec(),
{
    T::metadata()
}

/// A concrete value that stands in memory as a value of the target `U`.
pub struct Coerced<T: Unsize<U>, U: ?Sized> {
    value: T,
    phan: PhantomData<U>,
}

impl<T: Unsize<U>, U: ?Sized> Coerced<T, U> {
    /// The concrete value.
    pub closed spec fn concrete(self) -> T {
        self.value
    }

    /// The value as its target type. What is reached is the concrete value's
    /// own view of itself as a `U`.
    pub fn target(&self) -> (target: &U)
        ensures
            self.concrete().upcasts_to(target),
    {
        self.value.upcast()
    }

    /// Takes the concrete value out.
    pub fn into_inner(self) -> (t: T)
        ensures
            t == self.concrete(),
    {
        self.value
    }
}

/// Builds a value of the target `U` from a concrete value of type `T`.
pub struct CoercionInitializer<T: Unsize<U>, U: ?Sized> {
    t: T,
    phan: PhantomData<U>,
}

impl<T: Unsize<U>, U: ?Sized> CoercionInitializer<T, U> {
    /// The concrete value that will be placed.
    pub closed spec fn value(self) -> T {
        self.t
    }

    /// An initializer that places `t` as a `U`.
    pub fn new(t: T) -> (init: Self)
        ensures
            init.value() == t,
            init.valid(),
    {
        layout_for_type_is_valid::<T>();
        Self { t, phan: PhantomData }
    }

    /// Gives the concrete value back without placing it.
    pub fn fallback(self) -> (t: T)
        ensures
            t == self.value(),
    {
        self.t
    }
}

impl<T: Unsize<U>, U: ?Sized> EmplaceInitializer for CoercionInitializer<T, U> {
    type Output = Coerced<T, U>;

    open spec fn valid(&self) -> bool {
        Layout::sized::<T>()
    }

    open spec fn layout_spec(&self) -> Layout {
        Layout::of::<T>()
    }

    /// The concrete value stands at the start of the region, and the handle
    /// carries the metadata of the pair of types.
    open spec fn places(self, mem: Memory, handle: Handle<Coerced<T, U>>) -> bool {
        &&& handle.addr == mem.addr
        &&& handle.layout == Layout::of::<T>()
        &&& handle.metadata == T::metadata_spec()
        &&& handle.value.concrete() == self.value()
    }

    proof fn layout_is_wf(&self) {
        Layout::lemma_of_wf::<T>();
    }

    fn layout(&mut self) -> (l: Layout) {
        Layout::new::<T>()
    }

    /// Writes the concrete value and attaches the metadata of the pair of
    /// types. What is then reached through the handle as a `U` is the placed
    /// value's own view of itself.
    fn emplace(self, mem: Memory) -> (h: Handle<Coerced<T, U>>)
        ensures
            h.value.concrete() == self.value(),
            h.metadata == T::metadata_spec(),
    {
        let metadata = metadata_of::<T, U>();
        let placed = mem.write(self.t);
        Handle {
            addr: placed.addr,
            layout: placed.layout,
            metadata,
            value: Coerced { value: placed.value, phan: PhantomData },
        }
    }
}

} // verus!
