//! A typed access layer over a stateful graphics device.
//!
//! The library decides which device commands an operation issues and keeps the
//! caches that make those commands minimal: one vertex-format object per
//! distinct vertex layout, one resolved handle per uniform name and program,
//! and the current viewport. Every operation appends the commands it issues to
//! a log of [`device::DeviceCall`]s, which the embedding program executes
//! against the real device.
use vstd::prelude::*;

pub mod context;
pub mod device;
pub mod layout;
pub mod program;
pub mod vertex_array;

pub use crate::context::Context;
pub use crate::device::{DeviceCall, IndexType, PrimitiveType};
pub use crate::layout::{Buffer, IndexBuffer};

verus! {

/// A heterogeneous list cell: a head value followed by the rest of the list.
pub struct Cons<T, L>(pub T, pub L);

/// The end of a heterogeneous list.
pub struct Nil;

} // verus!
