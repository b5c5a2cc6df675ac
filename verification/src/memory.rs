//! Regions of memory, and handles to the values placed in them.
//!
//! A `Memory` is the right to write into a range of addresses. Writing a value
//! uses the region up and gives a `Handle`: the address, the layout and the
//! metadata of the value, together with the value that now stands there.

use vstd::prelude::*;
use vstd::layout::{align_of, size_of};
use crate::layout::{is_aligned, lemma_pow2_positive, lemma_sum_of_multiples, Layout};

verus! {

/// What a handle carries beside its address.
#[derive(Clone, Copy, Debug, PartialEq, Eq, Structural)]
pub enum Metadata {
    /// Nothing: the value has a size known from its type.
    Thin,
    /// The number of elements of a run of values.
    Length(usize),
    /// The layout of the concrete value behind a polymorphic handle.
    Dispatch(Layout),
}

/// A range of addresses that nothing has been written to yet.
#[derive(Debug)]
pub struct Memory {
    /// The first address of the range.
    pub addr: usize,
    /// The number of bytes in the range.
    pub size: usize,
}

/// A value placed in memory: where it stands, how much room it takes, its
/// metadata, and the value itself.
#[derive(Debug)]
pub struct Handle<O> {
    /// The address of the value.
    pub addr: usize,
    /// The size and alignment of the value.
    pub layout: Layout,
    /// The metadata of the value.
    pub metadata: Metadata,
    /// The value that stands at the address.
    pub value: O,
}

impl Memory {
    /// The range does not start at the null address and does not wrap around.
    pub open spec fn wf(self) -> bool {
        self.addr != 0 && self.addr + self.size <= usize::MAX
    }

    /// Whether a value of the given layout can be placed at the start of the
    /// range: the range is long enough, and starts at a multiple of the
    /// alignment.
    pub open spec fn fits(self, layout: Layout) -> bool {
        layout.size <= self.size && is_aligned(self.addr as int, layout.align as int)
    }

    /// The part of the range from `offset` on.
    pub open spec fn from(self, offset: usize) -> Memory
        recommends
            offset <= self.size,
    {
        Memory { addr: (self.addr + offset) as usize, size: (self.size - offset) as usize }
    }

    /// The part of the range before `offset`.
    pub open spec fn up_to(self, offset: usize) -> Memory
        recommends
            offset <= self.size,
    {
        Memory { addr: self.addr, size: offset }
    }

    /// The range of `size` bytes from `addr`, or `None` where `addr` is null
    /// or the range would wrap around.
    pub fn new(addr: usize, size: usize) -> (r: Option<Memory>)
        ensures
            r == if (Memory { addr, size }).wf() {
                Some(Memory { addr, size })
            } else {
                None::<Memory>
            },
    {
        if addr == 0 || size > usize::MAX - addr {
            None
        } else {
            Some(Memory { addr, size })
        }
    }

    /// The first address of the range.
    pub fn addr(&self) -> (a: usize)
        ensures
            a == self.addr,
    {
        self.addr
    }

    /// The number of bytes in the range.
    pub fn size(&self) -> (n: usize)
        ensures
            n == self.size,
    {
        self.size
    }

    /// Whether a value of the given layout can be placed at the start of the
    /// range.
    pub fn can_hold(&self, layout: Layout) -> (b: bool)
        requires
            layout.wf(),
        ensures
            b == self.fits(layout),
    {
        proof {
            lemma_pow2_positive(layout.align as int);
        }
        layout.size <= self.size && self.addr % layout.align == 0
    }

    /// Cuts the range in two at `offset`.
    pub fn split_at(self, offset: usize) -> (parts: (Memory, Memory))
        requires
            self.wf(),
            offset <= self.size,
        ensures
            parts.0 == self.up_to(offset),
            parts.1 == self.from(offset),
            parts.0.wf(),
            parts.1.wf(),
    {
        (
            Memory { addr: self.addr, size: offset },
            Memory { addr: self.addr + offset, size: self.size - offset },
        )
    }

    /// Writes `value` at the start of the range.
    pub fn write<T>(self, value: T) -> (h: Handle<T>)
        requires
            self.wf(),
            Layout::sized::<T>(),
            self.fits(Layout::of::<T>()),
        ensures
            h == (Handle {
                addr: self.addr,
                layout: Layout::of::<T>(),
                metadata: Metadata::Thin,
                value,
            }),
            h.wf(),
    {
        Handle { addr: self.addr, layout: Layout::new::<T>(), metadata: Metadata::Thin, value }
    }

    /// Writes `value` at the start of the range and gives the rest of the
    /// range, which starts where the next value of the same type goes.
    pub fn write_first<T>(self, value: T) -> (r: (Handle<T>, Memory))
        requires
            self.wf(),
            Layout::sized::<T>(),
            self.fits(Layout::of::<T>()),
        ensures
            r.0 == (Handle {
                addr: self.addr,
                layout: Layout::of::<T>(),
                metadata: Metadata::Thin,
                value,
            }),
            r.0.wf(),
            r.1 == self.from(size_of::<T>() as usize),
            r.1.wf(),
            is_aligned(r.1.addr as int, align_of::<T>() as int),
    {
        broadcast use vstd::layout::group_align_properties;

        let (slot, rest) = self.split_at(core::mem::size_of::<T>());
        proof {
            lemma_sum_of_multiples(
                self.addr as int,
                size_of::<T>() as int,
                align_of::<T>() as int,
            );
        }
        (slot.write(value), rest)
    }
}

impl<O> Handle<O> {
    /// The value stands at a non-null address that is a multiple of its
    /// alignment, and ends within the address space.
    pub open spec fn wf(self) -> bool {
        &&& self.addr != 0
        &&& self.layout.wf()
        &&& is_aligned(self.addr as int, self.layout.align as int)
        &&& self.addr + self.layout.size <= usize::MAX
    }

    /// Whether the value lies inside the given range.
    pub open spec fn within(self, mem: Memory) -> bool {
        mem.addr <= self.addr && self.addr + self.layout.size <= mem.addr + mem.size
    }

    /// The address of the value.
    pub fn addr(&self) -> (a: usize)
        ensures
            a == self.addr,
    {
        self.addr
    }

    /// The size and alignment of the value.
    pub fn layout(&self) -> (l: Layout)
        ensures
            l == self.layout,
    {
        self.layout
    }

    /// The metadata of the value.
    pub fn metadata(&self) -> (m: Metadata)
        ensures
            m == self.metadata,
    {
        self.metadata
    }

    /// Reads the value.
    pub fn get(&self) -> (value: &O)
        ensures
            *value == self.value,
    {
        &self.value
    }

    /// Takes the value out of its place.
    pub fn into_inner(self) -> (value: O)
        ensures
            value == self.value,
    {
        self.value
    }
}

} // verus!
