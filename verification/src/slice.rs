//! Building a run of values element by element, from an iterator or from a
//! generator.

use vstd::prelude::*;
use vstd::layout::{align_of, layout_for_type_is_valid, size_of};
use vstd::std_specs::iter::IteratorSpec;
use crate::initializer::EmplaceInitializer;
use crate::layout::{is_aligned, Layout};
use crate::memory::{Handle, Memory, Metadata};

verus! {

/// The type whose values are runs of `T`.
pub type Slice<T> = [T];

/// After `done` of `count` values of `stride` bytes, there is room for one
/// more, and the next starts one stride further.
proof fn lemma_stride(done: int, count: int, stride: int, room: int)
    requires
        0 <= done < count,
        0 <= stride,
        count * stride <= room,
    ensures
        0 <= done * stride,
        done * stride + stride <= room,
        (done + 1) * stride == done * stride + stride,
{
    assert(done * stride + stride <= count * stride && 0 <= done * stride && (done + 1) * stride
        == done * stride + stride) by (nonlinear_arith)
        requires
            0 <= done < count,
            0 <= stride,
    ;
}

/// Pulls `count` items from `iter` and writes them one after another from the
/// start of `mem`, each one stride after the one before. The handle holds
/// them in the order in which the iterator gave them.
pub fn write_from_iter<Iter: Iterator>(count: usize, iter: Iter, mem: Memory) -> (h: Handle<
    Vec<Iter::Item>,
>)
    requires
        mem.wf(),
        Layout::sized::<Iter::Item>(),
        Layout::array_of::<Iter::Item>(count) matches Some(layout) && mem.fits(layout),
        iter.obeys_prophetic_iter_laws(),
        iter.remaining().len() >= count,
    ensures
        h.wf(),
        h.addr == mem.addr,
        Some(h.layout) == Layout::array_of::<Iter::Item>(count),
        h.metadata == Metadata::Length(count),
        h.value@ == iter.remaining().take(count as int),
{
    let layout = Layout::array::<Iter::Item>(count).unwrap();
    let addr = mem.addr;
    let ghost room = mem.size as int;
    let ghost stride = size_of::<Iter::Item>() as int;
    let ghost all = iter.remaining();
    let mut iter = iter;
    let mut cursor = mem;
    let mut items: Vec<Iter::Item> = Vec::new();
    let mut done: usize = 0;
    while done < count
        invariant
            done <= count,
            Layout::sized::<Iter::Item>(),
            stride == size_of::<Iter::Item>(),
            count * stride <= room,
            addr + room <= usize::MAX,
            cursor.wf(),
            cursor.addr == addr + done * stride,
            cursor.size == room - done * stride,
            is_aligned(cursor.addr as int, align_of::<Iter::Item>() as int),
            iter.obeys_prophetic_iter_laws(),
            iter.remaining() == all.skip(done as int),
            all.len() >= count,
            items@ == all.take(done as int),
        decreases count - done,
    {
        proof {
            lemma_stride(done as int, count as int, stride, room);
        }
        let item = iter.next().unwrap();
        let (placed, rest) = cursor.write_first(item);
        items.push(placed.into_inner());
        cursor = rest;
        done = done + 1;
        assert(items@ =~= all.take(done as int));
        assert(iter.remaining() =~= all.skip(done as int));
    }
    Handle { addr, layout, metadata: Metadata::Length(count), value: items }
}

/// Calls `f` `count` times and writes the results one after another from the
/// start of `mem`, each one stride after the one before.
pub fn write_from_fn<Item, F: FnMut() -> Item>(count: usize, f: F, mem: Memory) -> (h: Handle<
    Vec<Item>,
>)
    requires
        mem.wf(),
        Layout::sized::<Item>(),
        Layout::array_of::<Item>(count) matches Some(layout) && mem.fits(layout),
        call_requires(f, ()),
    ensures
        h.wf(),
        h.addr == mem.addr,
        Some(h.layout) == Layout::array_of::<Item>(count),
        h.metadata == Metadata::Length(count),
        h.value@.len() == count,
        forall|i: int| 0 <= i < count ==> call_ensures(f, (), #[trigger] h.value@[i]),
{
    let layout = Layout::array::<Item>(count).unwrap();
    let addr = mem.addr;
    let ghost room = mem.size as int;
    let ghost stride = size_of::<Item>() as int;
    let ghost generator = f;
    let mut f = f;
    let mut cursor = mem;
    let mut items: Vec<Item> = Vec::new();
    let mut done: usize = 0;
    while done < count
        invariant
            done <= count,
            Layout::sized::<Item>(),
            stride == size_of::<Item>(),
            count * stride <= room,
            addr + room <= usize::MAX,
            cursor.wf(),
            cursor.addr == addr + done * stride,
            cursor.size == room - done * stride,
            is_aligned(cursor.addr as int, align_of::<Item>() as int),
            f == generator,
            call_requires(f, ()),
            items@.len() == done,
            forall|i: int| 0 <= i < done ==> call_ensures(generator, (), #[trigger] items@[i]),
        decreases count - done,
    {
        proof {
            lemma_stride(done as int, count as int, stride, room);
        }
        let item = f();
        let (placed, rest) = cursor.write_first(item);
        items.push(placed.into_inner());
        cursor = rest;
        done = done + 1;
    }
    Handle { addr, layout, metadata: Metadata::Length(count), value: items }
}

/// Builds a run of values from an iterator and the number of values to take
/// from it.
pub struct SliceIterInitializer<Iter: Iterator> {
    size: usize,
    iter: Iter,
}

impl<Iter: Iterator> SliceIterInitializer<Iter> {
    /// The number of values that will be placed.
    pub closed spec fn count(self) -> usize {
        self.size
    }

    /// The iterator that the values will be pulled from.
    pub closed spec fn source(self) -> Iter {
        self.iter
    }

    /// An initializer that places the first `size` items of `iter`. The
    /// iterator is not touched before the placement.
    pub fn new(size: usize, iter: Iter) -> (init: Self)
        ensures
            init.count() == size,
            init.source() == iter,
            Layout::sized::<Iter::Item>(),
    {
        layout_for_type_is_valid::<Iter::Item>();
        Self { size, iter }
    }
}

impl<Iter: Iterator> EmplaceInitializer for SliceIterInitializer<Iter> {
    type Output = Vec<Iter::Item>;

    /// The run has a layout, and the iterator meets what `write_from_iter`
    /// requires of it: it yields at least `count` items.
    open spec fn valid(&self) -> bool {
        &&& Layout::sized::<Iter::Item>()
        &&& Layout::array_of::<Iter::Item>(self.count()) is Some
        &&& forall|mem: Memory|
            mem.wf() && mem.fits(self.layout_spec()) ==> #[trigger] call_requires(
                write_from_iter::<Iter>,
                (self.count(), self.source(), mem),
            )
    }

    open spec fn layout_spec(&self) -> Layout {
        Layout::array_of::<Iter::Item>(self.count()).unwrap()
    }

    /// The handle is one that `write_from_iter` gives for the iterator.
    open spec fn places(self, mem: Memory, handle: Handle<Vec<Iter::Item>>) -> bool {
        call_ensures(write_from_iter::<Iter>, (self.count(), self.source(), mem), handle)
    }

    proof fn layout_is_wf(&self) {
        Layout::lemma_array_of_wf::<Iter::Item>(self.count());
    }

    fn layout(&mut self) -> (l: Layout) {
        Layout::array::<Iter::Item>(self.size).unwrap()
    }

    /// Writes exactly `count` items, in the order of the iterator; the handle
    /// reports `count` as its length.
    fn emplace(self, mem: Memory) -> (h: Handle<Vec<Iter::Item>>)
        ensures
            h.metadata == Metadata::Length(self.count()),
            h.value@ == self.source().remaining().take(self.count() as int),
    {
        let write = write_from_iter::<Iter>;
        assert(call_requires(write, (self.count(), self.source(), mem)));
        write(self.size, self.iter, mem)
    }
}

/// Builds a run of values from a generator and the number of times to call it.
#[verifier::reject_recursive_types(Item)]
pub struct SliceFnInitializer<Item, F: FnMut() -> Item> {
    size: usize,
    f: F,
}

impl<Item, F: FnMut() -> Item> SliceFnInitializer<Item, F> {
    /// The number of values that will be placed.
    pub closed spec fn count(self) -> usize {
        self.size
    }

    /// The generator that makes the values.
    pub closed spec fn generator(self) -> F {
        self.f
    }

    /// An initializer that places the results of `size` calls of `f`.
    pub fn new(size: usize, f: F) -> (init: Self)
        ensures
            init.count() == size,
            init.generator() == f,
            Layout::sized::<Item>(),
    {
        layout_for_type_is_valid::<Item>();
        Self { size, f }
    }
}

impl<Item, F: FnMut() -> Item> EmplaceInitializer for SliceFnInitializer<Item, F> {
    type Output = Vec<Item>;

    /// The run has a layout, and the generator can be called.
    open spec fn valid(&self) -> bool {
        &&& Layout::sized::<Item>()
        &&& Layout::array_of::<Item>(self.count()) is Some
        &&& call_requires(self.generator(), ())
    }

    open spec fn layout_spec(&self) -> Layout {
        Layout::array_of::<Item>(self.count()).unwrap()
    }

    /// The handle stands at the start of the region and holds `count` values,
    /// each one a result of the generator.
    open spec fn places(self, mem: Memory, handle: Handle<Vec<Item>>) -> bool {
        &&& handle.addr == mem.addr
        &&& handle.layout == self.layout_spec()
        &&& handle.metadata == Metadata::Length(self.count())
        &&& handle.value@.len() == self.count()
        &&& forall|i: int|
            0 <= i < self.count() ==> call_ensures(self.generator(), (), #[trigger] handle.value@[i])
    }

    proof fn layout_is_wf(&self) {
        Layout::lemma_array_of_wf::<Item>(self.count());
    }

    fn layout(&mut self) -> (l: Layout) {
        Layout::array::<Item>(self.size).unwrap()
    }

    fn emplace(self, mem: Memory) -> (h: Handle<Vec<Item>>) {
        write_from_fn(self.size, self.f, mem)
    }
}

/// Makes the initializers of runs of values, from the type of the run.
pub trait SliceExt {
    /// The type of the values in the run.
    type Item;

    /// An initializer that places the results of `size` calls of `f`.
    fn fn_init<F>(size: usize, f: F) -> (init: SliceFnInitializer<Self::Item, F>) where
        F: FnMut() -> Self::Item,

        ensures
            init.count() == size,
            init.generator() == f,
            Layout::sized::<Self::Item>(),
    ;

    /// An initializer that places the first `size` items of `iter`.
    fn iter_init<Iter>(size: usize, iter: Iter) -> (init: SliceIterInitializer<Iter>) where
        Iter: Iterator<Item = Self::Item>,

        ensures
            init.count() == size,
            init.source() == iter,
            Layout::sized::<Self::Item>(),
    ;
}

impl<T> SliceExt for Slice<T> {
    type Item = T;

    fn fn_init<F>(size: usize, f: F) -> (init: SliceFnInitializer<T, F>) where F: FnMut() -> T {
        SliceFnInitializer::new(size, f)
    }

    fn iter_init<Iter>(size: usize, iter: Iter) -> (init: SliceIterInitializer<Iter>) where
        Iter: Iterator<Item = T>,
     {
        SliceIterInitializer::new(size, iter)
    }
}

} // verus!
