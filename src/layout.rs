//! Vertex layouts and typed buffers.
use vstd::prelude::*;

use crate::device::{AttribType, IndexType};

verus! {

/// One attribute slot of a vertex layout.
#[derive(Clone, Copy, Debug, PartialEq, Eq, Structural)]
pub struct Attribute {
    /// The shader input location the attribute feeds.
    pub location: u32,
    /// The element type of each component.
    pub kind: AttribType,
    /// The number of components.
    pub components: u32,
    /// The byte offset of the attribute inside a record.
    pub offset: u32,
}

/// The shape of a vertex record: its stride and its ordered attribute slots.
///
/// Two buffers have the same data shape exactly when their layouts are equal.
#[derive(Clone, Debug)]
pub struct VertexLayout {
    pub stride: u32,
    pub attributes: Vec<Attribute>,
}

/// A device-side vertex buffer of records of one layout.
#[derive(Clone, Debug)]
pub struct Buffer {
    /// The device handle of the buffer.
    pub id: u32,
    /// The number of records it holds.
    pub len: usize,
    /// The shape of its records.
    pub layout: VertexLayout,
}

/// A device-side index buffer.
#[derive(Clone, Copy, Debug, PartialEq, Eq, Structural)]
pub struct IndexBuffer {
    pub id: u32,
    pub len: usize,
    pub index_type: IndexType,
}

/// The mathematical value of a layout.
pub struct LayoutModel {
    pub stride: u32,
    pub attributes: Seq<Attribute>,
}

impl View for VertexLayout {
    type V = LayoutModel;

    open spec fn view(&self) -> LayoutModel {
        LayoutModel { stride: self.stride, attributes: self.attributes@ }
    }
}

impl VertexLayout {
    /// Whether two layouts describe the same data shape.
    pub fn same_shape(&self, other: &VertexLayout) -> (r: bool)
        ensures
            r == (self@ == other@),
    {
        if self.stride != other.stride || self.attributes.len() != other.attributes.len() {
            return false;
        }
        let n = self.attributes.len();
        let mut i: usize = 0;
        while i < n
            invariant
                n == self.attributes.len(),
                n == other.attributes.len(),
                i <= n,
                forall|j: int| 0 <= j < i ==> self.attributes@[j] == other.attributes@[j],
            decreases n - i,
        {
            if self.attributes[i] != other.attributes[i] {
                return false;
            }
            i = i + 1;
        }
        assert(self.attributes@ =~= other.attributes@);
        true
    }
}

impl VertexLayout {
    /// An equal copy of the layout.
    pub fn duplicate(&self) -> (r: VertexLayout)
        ensures
            r@ == self@,
    {
        let mut attributes: Vec<Attribute> = Vec::new();
        let n = self.attributes.len();
        let mut i: usize = 0;
        while i < n
            invariant
                n == self.attributes.len(),
                i <= n,
                attributes@ =~= self.attributes@.take(i as int),
            decreases n - i,
        {
            attributes.push(self.attributes[i]);
            i = i + 1;
        }
        assert(attributes@ =~= self.attributes@);
        VertexLayout { stride: self.stride, attributes }
    }
}

impl Buffer {
    /// The number of records in the buffer.
    pub fn len(&self) -> (r: usize)
        ensures
            r == self.len,
    {
        self.len
    }
}

} // verus!
