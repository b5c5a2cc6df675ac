//! The capability that every way of building a value in place has.

use vstd::prelude::*;
use crate::layout::Layout;
use crate::memory::{Handle, Memory};

verus! {

/// A value that is still to be built, and that can build itself in memory
/// handed to it.
///
/// An initializer is used once: `layout` may be asked any number of times,
/// `emplace` takes the initializer itself and so ends its life.
pub trait EmplaceInitializer: Sized {
    /// What stands in memory after the placement.
    type Output;

    /// Whether the initializer can keep what it announces: its layout exists,
    /// and what it draws its value from can deliver it.
    spec fn valid(&self) -> bool;

    /// The layout of the value that will be built.
    spec fn layout_spec(&self) -> Layout;

    /// Whether building the value in `mem` can give `handle`.
    spec fn places(self, mem: Memory, handle: Handle<Self::Output>) -> bool;

    /// The layout of a valid initializer is a layout.
    proof fn layout_is_wf(&self)
        requires
            self.valid(),
        ensures
            self.layout_spec().wf(),
    ;

    /// The layout of the value that will be built. Asking changes nothing.
    fn layout(&mut self) -> (l: Layout)
        requires
            old(self).valid(),
        ensures
            l == old(self).layout_spec(),
            l.wf(),
            *final(self) == *old(self),
    ;

    /// Builds the value at the start of `mem`. The handle stands at the start
    /// of the region and covers the layout that was announced, so nothing is
    /// written outside the region.
    fn emplace(self, mem: Memory) -> (h: Handle<Self::Output>)
        requires
            self.valid(),
            mem.wf(),
            mem.fits(self.layout_spec()),
        ensures
            self.places(mem, h),
            h.wf(),
            h.addr == mem.addr,
            h.layout == self.layout_spec(),
            h.within(mem),
    ;
}

/// Names, for a type that is built in place, the initializer that builds it
/// from a given initializer of its tail.
pub trait Initializer<DstInit: EmplaceInitializer> {
    /// The initializer of the whole value.
    type Init;
}

/// The initializer of a `T` whose tail is built by `DstInit`.
pub type Init<T, DstInit> = <T as Initializer<DstInit>>::Init;

} // verus!
