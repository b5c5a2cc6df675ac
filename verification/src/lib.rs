//! Emplace initialization: building a header and a tail of run-time size in one
//! contiguous region of memory.
//!
//! An initializer reports the layout of the value it will build and then writes
//! that value into a region handed to it, giving back a typed handle. The
//! arithmetic of every placement (offsets, padding, strides, bounds) is proved.

pub mod layout;
pub mod memory;
pub mod initializer;
pub mod direct;
pub mod slice;
pub mod coercion;
pub mod raw;
pub mod composite;
pub mod allocator;
pub mod boxed;

pub use crate::allocator::{alloc_emplace, AllocError, Allocator, Arena, EmplaceAllocator};
pub use crate::boxed::BoxExt;
pub use crate::coercion::{metadata_of, Coerced, CoercionInitializer, Unsize};
pub use crate::composite::{Composite, CompositeInitializer};
pub use crate::direct::DirectInitializer;
pub use crate::initializer::{EmplaceInitializer, Init, Initializer};
pub use crate::layout::Layout;
pub use crate::memory::{Handle, Memory, Metadata};
pub use crate::raw::RawInitializer;
pub use crate::slice::{Slice, SliceExt, SliceFnInitializer, SliceIterInitializer};
