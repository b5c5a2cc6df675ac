//! Drivers that take an initializer from its layout to a placed value:
//! through an allocator, or with memory that was allocated elsewhere.

use vstd::prelude::*;
use crate::initializer::EmplaceInitializer;
use crate::layout::{checked_round_up, lemma_pow2_positive, lemma_round_up, round_up, Layout};
use crate::memory::{Handle, Memory};

verus! {

/// The allocator has no memory left for the layout that was asked for.
#[derive(Clone, Copy, Debug, PartialEq, Eq, Structural)]
pub struct AllocError;

/// Something that hands out regions of memory.
pub trait Allocator {
    /// Whether the allocator is in a state in which it can be asked.
    spec fn wf(&self) -> bool;

    /// Whether the allocator, asked for `layout`, may answer `result` and be
    /// left as `after`.
    spec fn allocates(
        &self,
        layout: Layout,
        result: Result<Memory, AllocError>,
        after: &Self,
    ) -> bool;

    /// A region that fits `layout`, or an error where there is none to give.
    fn allocate(&mut self, layout: Layout) -> (result: Result<Memory, AllocError>)
        requires
            old(self).wf(),
            layout.wf(),
        ensures
            final(self).wf(),
            old(self).allocates(layout, result, final(self)),
            result matches Ok(mem) ==> mem.wf() && mem.fits(layout),
    ;
}

/// Whether driving `init` through an allocator that goes from `before` to
/// `after` can end in `result`.
///
/// Where the allocator gives a region, the value is built at its start, and
/// the handle covers the layout that the initializer announced. Where it
/// gives none, its error comes back together with the initializer, which is
/// as it was handed in.
pub open spec fn drives<A: Allocator, Init: EmplaceInitializer>(
    before: &A,
    init: Init,
    result: Result<Handle<Init::Output>, (AllocError, Init)>,
    after: &A,
) -> bool {
    match result {
        Ok(handle) => exists|mem: Memory|
            {
                &&& before.allocates(init.layout_spec(), Ok(mem), after)
                &&& mem.wf()
                &&& mem.fits(init.layout_spec())
                &&& #[trigger] init.places(mem, handle)
                &&& handle.wf()
                &&& handle.addr == mem.addr
                &&& handle.layout == init.layout_spec()
            },
        Err((error, back)) => {
            &&& back == init
            &&& before.allocates(init.layout_spec(), Err(error), after)
        },
    }
}

/// An allocator that places an initializer in the memory it hands out.
pub trait EmplaceAllocator: Allocator + Sized {
    /// Asks for memory of the initializer's layout and builds the value in
    /// it. Where the allocator has no memory to give, the error comes back
    /// together with the initializer, which is as it was handed in.
    fn emplace<Init: EmplaceInitializer>(&mut self, init: Init) -> (result: Result<
        Handle<Init::Output>,
        (AllocError, Init),
    >)
        requires
            old(self).wf(),
            init.valid(),
        ensures
            final(self).wf(),
            drives(old(self), init, result, final(self)),
    ;
}

impl<A: Allocator> EmplaceAllocator for A {
    fn emplace<Init: EmplaceInitializer>(&mut self, init: Init) -> (result: Result<
        Handle<Init::Output>,
        (AllocError, Init),
    >) {
        let mut init = init;
        let layout = init.layout();
        match self.allocate(layout) {
            Ok(mem) => {
                let ghost region = mem;
                let handle = init.emplace(mem);
                assert(init.places(region, handle));
                Ok(handle)
            },
            Err(error) => Err((error, init)),
        }
    }
}

/// Builds the value in memory that was allocated elsewhere for the
/// initializer's layout. Where the allocation gave nothing, the initializer
/// comes back as it was handed in.
pub fn alloc_emplace<Init: EmplaceInitializer>(init: Init, mem: Option<Memory>) -> (result: Result<
    Handle<Init::Output>,
    Init,
>)
    requires
        init.valid(),
        mem matches Some(region) ==> region.wf() && region.fits(init.layout_spec()),
    ensures
        match (mem, result) {
            (Some(region), Ok(handle)) => {
                &&& init.places(region, handle)
                &&& handle.wf()
                &&& handle.addr == region.addr
                &&& handle.layout == init.layout_spec()
            },
            (None, Err(back)) => back == init,
            _ => false,
        },
{
    match mem {
        Some(region) => Ok(init.emplace(region)),
        None => Err(init),
    }
}

/// An allocator that hands out a range of addresses piece by piece, from the
/// lowest address up, and takes nothing back.
#[derive(Debug)]
pub struct Arena {
    /// The first address that has not been handed out.
    pub next: usize,
    /// The address behind the last one of the range.
    pub end: usize,
}

impl Arena {
    /// The address at which a region of the given layout would start.
    pub open spec fn start_of(self, layout: Layout) -> int {
        round_up(self.next as int, layout.align as int)
    }

    /// Whether the arena has room left for the given layout.
    pub open spec fn has_room(self, layout: Layout) -> bool {
        self.start_of(layout) + layout.size <= self.end
    }

    /// An arena that hands out the range `mem`.
    pub fn new(mem: Memory) -> (arena: Arena)
        requires
            mem.wf(),
        ensures
            arena == (Arena { next: mem.addr, end: (mem.addr + mem.size) as usize }),
            arena.wf(),
    {
        Arena { next: mem.addr, end: mem.addr + mem.size }
    }
}

impl Allocator for Arena {
    open spec fn wf(&self) -> bool {
        0 < self.next <= self.end
    }

    /// Where there is room, the region starts at the first free address
    /// rounded up to the alignment, and the arena goes on behind it; where
    /// there is none, the arena stays as it is.
    open spec fn allocates(
        &self,
        layout: Layout,
        result: Result<Memory, AllocError>,
        after: &Arena,
    ) -> bool {
        if self.has_room(layout) {
            &&& result == Ok::<Memory, AllocError>(
                Memory { addr: self.start_of(layout) as usize, size: layout.size },
            )
            &&& *after == Arena {
                next: (self.start_of(layout) + layout.size) as usize,
                end: self.end,
            }
        } else {
            result == Err::<Memory, AllocError>(AllocError) && *after == *self
        }
    }

    fn allocate(&mut self, layout: Layout) -> (result: Result<Memory, AllocError>) {
        proof {
            lemma_pow2_positive(layout.align as int);
            lemma_round_up(self.next as int, layout.align as int);
        }
        let start = match checked_round_up(self.next, layout.align) {
            Some(start) => start,
            None => {
                return Err(AllocError);
            },
        };
        if start > self.end || layout.size > self.end - start {
            return Err(AllocError);
        }
        self.next = start + layout.size;
        Ok(Memory { addr: start, size: layout.size })
    }
}

} // verus!
