//! Building a header and a tail as one value: the header at the start of the
//! region, the tail behind it at the offset that its alignment asks for.

use vstd::prelude::*;
use vstd::layout::layout_for_type_is_valid;
use crate::initializer::{EmplaceInitializer, Initializer};
use crate::layout::{
    is_aligned, lemma_multiple_of_divisor, lemma_pow2_divides, lemma_pow2_positive,
    lemma_round_up, lemma_sum_of_multiples, Layout,
};
use crate::memory::{Handle, Memory};

verus! {

/// A header and a tail that stand in one region of memory.
#[derive(Debug)]
pub struct Composite<H, T> {
    /// The header, at the start of the region.
    pub header: H,
    /// The tail, behind the header in the same region.
    pub tail: Handle<T>,
}

/// Builds a header and a tail as one value, from the header and an
/// initializer of the tail.
pub struct CompositeInitializer<H, I: EmplaceInitializer> {
    /// The header.
    pub header: H,
    /// The initializer of the tail.
    pub tail: I,
}

/// The composite of a header `H` and of what `DstInit` builds is built by the
/// composite initializer over `DstInit`.
impl<H, DstInit: EmplaceInitializer> Initializer<DstInit> for Composite<H, DstInit::Output> {
    type Init = CompositeInitializer<H, DstInit>;
}

impl<H, I: EmplaceInitializer> CompositeInitializer<H, I> {
    /// The offset of the tail in the composite: the size of the header
    /// rounded up to the alignment of the tail.
    pub open spec fn tail_offset(self) -> int {
        Layout::of::<H>().offset_of(self.tail.layout_spec())
    }

    /// The region that the tail is built in, when the composite is built in
    /// `mem`.
    pub open spec fn tail_memory(self, mem: Memory) -> Memory {
        mem.from(self.tail_offset() as usize)
    }

    /// An initializer that places `header` and, behind it, what `tail` builds.
    pub fn new(header: H, tail: I) -> (init: Self)
        ensures
            init.header == header,
            init.tail == tail,
            Layout::sized::<H>(),
    {
        layout_for_type_is_valid::<H>();
        Self { header, tail }
    }

    /// The composite takes at least the room of its header and of its tail,
    /// and the tail starts at the least offset that is not below the size of
    /// the header and that is a multiple of the tail's alignment.
    pub proof fn lemma_layout_bounds(self)
        requires
            self.valid(),
        ensures
            self.layout_spec().wf(),
            self.layout_spec().size >= Layout::of::<H>().size + self.tail.layout_spec().size,
            self.layout_spec().size >= self.tail_offset() + self.tail.layout_spec().size,
            self.tail_offset() >= Layout::of::<H>().size,
            is_aligned(self.tail_offset(), self.tail.layout_spec().align as int),
            forall|k: int|
                Layout::of::<H>().size <= k && #[trigger] is_aligned(
                    k,
                    self.tail.layout_spec().align as int,
                ) ==> self.tail_offset() <= k,
    {
        self.tail.layout_is_wf();
        Layout::lemma_of_wf::<H>();
        lemma_pow2_positive(self.tail.layout_spec().align as int);
        Layout::of::<H>().lemma_extend_bounds(self.tail.layout_spec());
    }

    /// A region that fits the composite holds the header at its start and
    /// fits the tail at the tail's offset.
    pub proof fn lemma_parts_fit(self, mem: Memory)
        requires
            self.valid(),
            mem.wf(),
            mem.fits(self.layout_spec()),
        ensures
            self.tail.layout_spec().wf(),
            Layout::of::<H>().wf(),
            0 <= self.tail_offset() <= self.layout_spec().size,
            mem.up_to(self.tail_offset() as usize).wf(),
            mem.up_to(self.tail_offset() as usize).fits(Layout::of::<H>()),
            self.tail_memory(mem).wf(),
            self.tail_memory(mem).fits(self.tail.layout_spec()),
    {
        let head = Layout::of::<H>();
        let tail = self.tail.layout_spec();
        let all = self.layout_spec();
        self.tail.layout_is_wf();
        Layout::lemma_of_wf::<H>();
        lemma_pow2_positive(head.align as int);
        lemma_pow2_positive(tail.align as int);
        lemma_round_up(head.size as int, tail.align as int);
        lemma_round_up(head.offset_of(tail) + tail.size, head.align_with(tail));
        lemma_pow2_divides(head.align as int, all.align as int);
        lemma_pow2_divides(tail.align as int, all.align as int);
        lemma_multiple_of_divisor(mem.addr as int, head.align as int, all.align as int);
        lemma_multiple_of_divisor(mem.addr as int, tail.align as int, all.align as int);
        lemma_sum_of_multiples(mem.addr as int, head.offset_of(tail), tail.align as int);
    }
}

impl<A, B, I: EmplaceInitializer> CompositeInitializer<A, CompositeInitializer<B, I>> {
    /// A composite whose tail is a composite is one value in one region. Its
    /// layout is the extension rule applied at both levels: the header `B`
    /// extended by the innermost tail, and the header `A` extended by that.
    /// Both headers are read back as they were given, each part stands at its
    /// offset from the part around it, and the innermost tail is what its own
    /// initializer builds there.
    pub proof fn lemma_nested(
        self,
        mem: Memory,
        handle: Handle<Composite<A, Composite<B, I::Output>>>,
    )
        requires
            self.valid(),
            mem.wf(),
            mem.fits(self.layout_spec()),
            self.places(mem, handle),
        ensures
            ({
                let innermost = self.tail.tail.layout_spec();
                let inner = Layout::of::<B>().extend_spec(innermost);
                let outer = Layout::of::<A>().extend_spec(inner.unwrap().0);
                let middle = handle.value.tail;
                let last = middle.value.tail;
                &&& inner is Some
                &&& outer is Some
                &&& handle.layout == outer.unwrap().0
                &&& handle.addr == mem.addr
                &&& handle.value.header == self.header
                &&& middle.addr == mem.addr + outer.unwrap().1
                &&& middle.layout == inner.unwrap().0
                &&& middle.value.header == self.tail.header
                &&& last.addr == middle.addr + inner.unwrap().1
                &&& last.within(mem)
                &&& handle.metadata == last.metadata
                &&& self.tail.tail.places(self.tail.tail_memory(self.tail_memory(mem)), last)
            }),
    {
        self.lemma_parts_fit(mem);
    }
}

impl<H, I: EmplaceInitializer> EmplaceInitializer for CompositeInitializer<H, I> {
    type Output = Composite<H, I::Output>;

    /// The header has a layout, the tail is valid, and the two layouts
    /// together make one.
    open spec fn valid(&self) -> bool {
        &&& Layout::sized::<H>()
        &&& self.tail.valid()
        &&& Layout::of::<H>().extend_spec(self.tail.layout_spec()) is Some
    }

    /// The layout of the header extended by the layout of the tail.
    open spec fn layout_spec(&self) -> Layout {
        Layout::of::<H>().extend_spec(self.tail.layout_spec()).unwrap().0
    }

    /// The header stands at the start of the region; the tail is what the
    /// tail's initializer builds at the tail's offset; the metadata of the
    /// composite is the metadata of its tail.
    open spec fn places(self, mem: Memory, handle: Handle<Composite<H, I::Output>>) -> bool {
        &&& handle.addr == mem.addr
        &&& handle.layout == self.layout_spec()
        &&& handle.metadata == handle.value.tail.metadata
        &&& handle.value.header == self.header
        &&& handle.value.tail.addr == mem.addr + self.tail_offset()
        &&& handle.value.tail.within(mem)
        &&& self.tail.places(self.tail_memory(mem), handle.value.tail)
    }

    proof fn layout_is_wf(&self) {
        let head = Layout::of::<H>();
        let tail = self.tail.layout_spec();
        self.tail.layout_is_wf();
        Layout::lemma_of_wf::<H>();
        lemma_pow2_positive(head.align as int);
        lemma_pow2_positive(tail.align as int);
        lemma_round_up(head.offset_of(tail) + tail.size, head.align_with(tail));
        lemma_round_up(head.size_with(tail), head.align_with(tail));
    }

    fn layout(&mut self) -> (l: Layout) {
        let tail = self.tail.layout();
        let (layout, _) = Layout::new::<H>().extend(tail).unwrap();
        layout
    }

    fn emplace(self, mem: Memory) -> (h: Handle<Composite<H, I::Output>>) {
        let mut tail_init = self.tail;
        let tail_layout = tail_init.layout();
        let (layout, offset) = Layout::new::<H>().extend(tail_layout).unwrap();
        proof {
            self.lemma_parts_fit(mem);
        }
        let addr = mem.addr;
        let (head_mem, tail_mem) = mem.split_at(offset);
        let header = head_mem.write(self.header);
        let tail = tail_init.emplace(tail_mem);
        Handle {
            addr,
            layout,
            metadata: tail.metadata,
            value: Composite { header: header.into_inner(), tail },
        }
    }
}

} // verus!
