//! Building a value of a sized type by moving it into place.

use vstd::prelude::*;
use crate::initializer::EmplaceInitializer;
use vstd::layout::layout_for_type_is_valid;
use crate::layout::Layout;
use crate::memory::{Handle, Memory, Metadata};

verus! {

/// Builds a value of a sized type from the value itself.
pub struct DirectInitializer<T> {
    t: T,
}

impl<T> DirectInitializer<T> {
    /// The value that will be placed.
    pub closed spec fn value(self) -> T {
        self.t
    }

    /// An initializer that places `t`.
    pub fn new(t: T) -> (init: Self)
        ensures
            init.value() == t,
            init.valid(),
    {
        layout_for_type_is_valid::<T>();
        Self { t }
    }

    /// Gives the value back without placing it.
    pub fn fallback(self) -> (t: T)
        ensures
            t == self.value(),
    {
        self.t
    }
}

impl<T> EmplaceInitializer for DirectInitializer<T> {
    type Output = T;

    open spec fn valid(&self) -> bool {
        Layout::sized::<T>()
    }

    open spec fn layout_spec(&self) -> Layout {
        Layout::of::<T>()
    }

    open spec fn places(self, mem: Memory, handle: Handle<T>) -> bool {
        handle == (Handle {
            addr: mem.addr,
            layout: Layout::of::<T>(),
            metadata: Metadata::Thin,
            value: self.value(),
        })
    }

    proof fn layout_is_wf(&self) {
        Layout::lemma_of_wf::<T>();
    }

    fn layout(&mut self) -> (l: Layout) {
        Layout::new::<T>()
    }

    /// Moves the value to the start of `mem`. Reading the handle gives the
    /// value back.
    fn emplace(self, mem: Memory) -> (h: Handle<T>)
        ensures
            h.value == self.value(),
            h.metadata == Metadata::Thin,
    {
        mem.write(self.t)
    }
}

} // verus!
