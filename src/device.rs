//! The device commands that the library issues.
use vstd::prelude::*;

verus! {

/// The kind of primitive a draw call assembles.
#[derive(Clone, Copy, Debug, PartialEq, Eq, Structural)]
pub enum PrimitiveType {
    Points,
    Lines,
    LineStrip,
    LineLoop,
    Triangles,
    TriangleStrip,
    TriangleFan,
}

/// The element type of an index buffer.
#[derive(Clone, Copy, Debug, PartialEq, Eq, Structural)]
pub enum IndexType {
    U8,
    U16,
    U32,
}

/// The element type of one vertex attribute.
#[derive(Clone, Copy, Debug, PartialEq, Eq, Structural)]
pub enum AttribType {
    Byte,
    UnsignedByte,
    Short,
    UnsignedShort,
    Int,
    UnsignedInt,
    Float,
}

/// A value handed to a uniform. A single-precision value travels as its bits.
#[derive(Clone, Copy, Debug, PartialEq, Eq, Structural)]
pub enum UniformValue {
    Int(i32),
    UnsignedInt(u32),
    FloatBits(u32),
}

/// One command issued to the device.
///
/// Vertex-format objects are named by their slot in the owning context's
/// format cache, and uniform handles by their slot in the owning program's
/// uniform cache; whoever executes the commands maps those slots to the
/// device's own names.
#[derive(Clone, Copy, Debug, PartialEq, Eq, Structural)]
pub enum DeviceCall {
    /// Set the device viewport.
    Viewport { x: i32, y: i32, width: u32, height: u32 },
    /// Make a program the active one.
    UseProgram { program: u32 },
    /// Attach a compiled shader to a program under construction.
    AttachShader { program: u32, shader: u32 },
    /// Create the vertex-format object of a cache slot.
    CreateVertexArray { vao: usize },
    /// Configure one attribute slot of a vertex-format object.
    AttribFormat { vao: usize, location: u32, kind: AttribType, components: u32, offset: u32 },
    /// Attach a data buffer as the source of every attribute of a vertex-format object.
    AttachBuffer { vao: usize, buffer: u32, stride: u32 },
    /// Make a vertex-format object the active one.
    BindVertexArray { vao: usize },
    /// Bind a buffer to the element-array binding point.
    BindElementBuffer { buffer: u32 },
    /// Draw `count` vertices in order.
    DrawArrays { primitive: PrimitiveType, count: usize },
    /// Draw `count` indexed vertices.
    DrawElements { primitive: PrimitiveType, count: usize, index_type: IndexType },
    /// Resolve the device handle of the uniform whose name the program caches
    /// in `slot`, and store it there.
    ResolveUniform { program: u32, slot: usize },
    /// Set the uniform stored in a slot.
    SetUniform { program: u32, slot: usize, value: UniformValue },
}

} // verus!
