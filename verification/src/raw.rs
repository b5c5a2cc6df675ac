//! Building a value with a writer that the caller supplies.

use std::marker::PhantomData;
use vstd::prelude::*;
use crate::initializer::EmplaceInitializer;
use crate::layout::Layout;
use crate::memory::{Handle, Memory};

verus! {

/// Builds a value by handing the memory to a writer, once. The layout is the
/// one that the caller announces.
#[verifier::reject_recursive_types(Output)]
pub struct RawInitializer<Output, F> {
    layout: Layout,
    emplacer: F,
    phan: PhantomData<Output>,
}

impl<Output, F> RawInitializer<Output, F> where F: FnOnce(Memory) -> Handle<Output> {
    /// The layout that was announced.
    pub closed spec fn announced(self) -> Layout {
        self.layout
    }

    /// The writer that will be given the memory.
    pub closed spec fn writer(self) -> F {
        self.emplacer
    }

    /// An initializer that announces `layout` and lets `f` do the writing.
    pub fn new(layout: Layout, f: F) -> (init: Self)
        ensures
            init.announced() == layout,
            init.writer() == f,
    {
        Self { layout, emplacer: f, phan: PhantomData }
    }
}

impl<Output, F> EmplaceInitializer for RawInitializer<Output, F> where
    F: FnOnce(Memory) -> Handle<Output>,
 {
    type Output = Output;

    /// The announced layout is a layout; the writer accepts every region that
    /// fits it, and whatever handle it gives stands at the start of the region
    /// and covers the announced layout.
    open spec fn valid(&self) -> bool {
        &&& self.announced().wf()
        &&& forall|mem: Memory|
            mem.wf() && mem.fits(self.announced()) ==> #[trigger] call_requires(
                self.writer(),
                (mem,),
            )
        &&& forall|mem: Memory, handle: Handle<Output>|
            mem.wf() && mem.fits(self.announced()) && #[trigger] call_ensures(
                self.writer(),
                (mem,),
                handle,
            ) ==> handle.wf() && handle.addr == mem.addr && handle.layout == self.announced()
    }

    open spec fn layout_spec(&self) -> Layout {
        self.announced()
    }

    /// The handle is one that the writer gives for the region.
    open spec fn places(self, mem: Memory, handle: Handle<Output>) -> bool {
        call_ensures(self.writer(), (mem,), handle)
    }

    proof fn layout_is_wf(&self) {
    }

    fn layout(&mut self) -> (l: Layout) {
        self.layout
    }

    fn emplace(self, mem: Memory) -> (h: Handle<Output>) {
        assert(call_requires(self.writer(), (mem,)));
        let writer = self.emplacer;
        writer(mem)
    }
}

} // verus!
