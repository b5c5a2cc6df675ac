//! Owners of placed values: the exclusive owner and the two shared ones.

use std::rc::Rc;
use std::sync::Arc;
use vstd::prelude::*;
use crate::allocator::{drives, AllocError, Allocator, EmplaceAllocator};
use crate::initializer::EmplaceInitializer;
use crate::memory::Handle;

verus! {

/// An owner of a placed value that can be made from an initializer.
pub trait BoxExt: Sized {
    /// What the owned handle points to.
    type Output;

    /// The handle that the owner holds.
    spec fn handle(&self) -> Handle<Self::Output>;

    /// Asks `allocator` for memory of the initializer's layout, builds the
    /// value in it and wraps the handle. Where the allocator has no memory to
    /// give, the error comes back together with the initializer, which is as
    /// it was handed in.
    fn emplace<A: Allocator, Init: EmplaceInitializer<Output = Self::Output>>(
        allocator: &mut A,
        init: Init,
    ) -> (result: Result<Self, (AllocError, Init)>)
        requires
            old(allocator).wf(),
            init.valid(),
        ensures
            final(allocator).wf(),
            drives(
                old(allocator),
                init,
                match result {
                    Ok(owner) => Ok(owner.handle()),
                    Err(back) => Err(back),
                },
                final(allocator),
            ),
    ;
}

impl<T> BoxExt for Box<Handle<T>> {
    type Output = T;

    open spec fn handle(&self) -> Handle<T> {
        **self
    }

    fn emplace<A: Allocator, Init: EmplaceInitializer<Output = T>>(
        allocator: &mut A,
        init: Init,
    ) -> (result: Result<Self, (AllocError, Init)>) {
        match allocator.emplace(init) {
            Ok(handle) => Ok(Box::new(handle)),
            Err(back) => Err(back),
        }
    }
}

impl<T> BoxExt for Rc<Handle<T>> {
    type Output = T;

    open spec fn handle(&self) -> Handle<T> {
        **self
    }

    fn emplace<A: Allocator, Init: EmplaceInitializer<Output = T>>(
        allocator: &mut A,
        init: Init,
    ) -> (result: Result<Self, (AllocError, Init)>) {
        match allocator.emplace(init) {
            Ok(handle) => Ok(Rc::new(handle)),
            Err(back) => Err(back),
        }
    }
}

impl<T> BoxExt for Arc<Handle<T>> {
    type Output = T;

    open spec fn handle(&self) -> Handle<T> {
        **self
    }

    fn emplace<A: Allocator, Init: EmplaceInitializer<Output = T>>(
        allocator: &mut A,
        init: Init,
    ) -> (result: Result<Self, (AllocError, Init)>) {
        match allocator.emplace(init) {
            Ok(handle) => Ok(Arc::new(handle)),
            Err(back) => Err(back),
        }
    }
}

} // verus!
