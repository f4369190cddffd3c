//! Vertex-format objects.
use vstd::prelude::*;

use crate::device::DeviceCall;
use crate::layout::{Attribute, Buffer, VertexLayout};

verus! {

/// A device-side vertex-format object, configured once for one vertex layout.
///
/// It remembers the buffer it last attached, so that attaching the same buffer
/// again issues no device command.
#[derive(Clone, Copy, Debug, PartialEq, Eq, Structural)]
pub struct VertexArray {
    /// The object's slot in the format cache, which also names it in device commands.
    pub slot: usize,
    /// The record stride of the layout it was configured for.
    pub stride: u32,
    /// The device handle of the buffer attached last, if any.
    pub buffer: Option<u32>,
}

/// The command that configures one attribute slot of the object in `slot`.
pub open spec fn attrib_call(slot: usize, a: Attribute) -> DeviceCall {
    DeviceCall::AttribFormat {
        vao: slot,
        location: a.location,
        kind: a.kind,
        components: a.components,
        offset: a.offset,
    }
}

/// The commands that create the object in `slot` and configure it for a layout:
/// one creation, then one command per attribute slot, in order.
pub open spec fn format_calls(slot: usize, attributes: Seq<Attribute>) -> Seq<DeviceCall> {
    seq![DeviceCall::CreateVertexArray { vao: slot }] + Seq::new(
        attributes.len(),
        |i: int| attrib_call(slot, attributes[i]),
    )
}

/// The commands that attaching buffer `id` to `v` issues: none when it is
/// already attached, else one attachment.
pub open spec fn set_buffer_calls(v: VertexArray, id: u32) -> Seq<DeviceCall> {
    if v.buffer == Some(id) {
        Seq::empty()
    } else {
        seq![DeviceCall::AttachBuffer { vao: v.slot, buffer: id, stride: v.stride }]
    }
}

/// The object after buffer `id` was attached to it.
pub open spec fn with_buffer_id(v: VertexArray, id: u32) -> VertexArray {
    VertexArray { buffer: Some(id), ..v }
}

impl VertexArray {
    /// Creates the object for cache slot `slot` and configures its attribute
    /// slots after `layout`. No buffer is attached yet.
    pub fn for_shape(slot: usize, layout: &VertexLayout, calls: &mut Vec<DeviceCall>) -> (r:
        VertexArray)
        ensures
            r == (VertexArray { slot, stride: layout.stride, buffer: None }),
            final(calls)@ == old(calls)@ + format_calls(slot, layout.attributes@),
    {
        calls.push(DeviceCall::CreateVertexArray { vao: slot });
        let ghost start = old(calls)@.len();
        let n = layout.attributes.len();
        let mut i: usize = 0;
        while i < n
            invariant
                n == layout.attributes.len(),
                i <= n,
                start == old(calls)@.len(),
                calls@ == old(calls)@ + format_calls(slot, layout.attributes@.take(i as int)),
            decreases n - i,
        {
            let a = layout.attributes[i];
            calls.push(
                DeviceCall::AttribFormat {
                    vao: slot,
                    location: a.location,
                    kind: a.kind,
                    components: a.components,
                    offset: a.offset,
                },
            );
            proof {
                assert(format_calls(slot, layout.attributes@.take(i + 1)) =~= format_calls(
                    slot,
                    layout.attributes@.take(i as int),
                ).push(attrib_call(slot, a)));
            }
            i = i + 1;
        }
        assert(layout.attributes@.take(n as int) =~= layout.attributes@);
        VertexArray { slot, stride: layout.stride, buffer: None }
    }

    /// Attaches `buffer` and returns the object.
    pub fn with_buffer(self, buffer: &Buffer, calls: &mut Vec<DeviceCall>) -> (r: VertexArray)
        ensures
            r == with_buffer_id(self, buffer.id),
            final(calls)@ == old(calls)@ + set_buffer_calls(self, buffer.id),
    {
        let mut v = self;
        v.set_buffer(buffer, calls);
        v
    }

    /// Attaches `buffer` as the source of every attribute slot, issuing the
    /// attachment only when another buffer (or none) is attached.
    pub fn set_buffer(&mut self, buffer: &Buffer, calls: &mut Vec<DeviceCall>)
        ensures
            *final(self) == with_buffer_id(*old(self), buffer.id),
            final(calls)@ == old(calls)@ + set_buffer_calls(*old(self), buffer.id),
    {
        if self.buffer != Some(buffer.id) {
            calls.push(
                DeviceCall::AttachBuffer { vao: self.slot, buffer: buffer.id, stride: self.stride },
            );
            self.buffer = Some(buffer.id);
        } else {
            assert(calls@ =~= old(calls)@ + set_buffer_calls(*old(self), buffer.id));
        }
    }

    /// Makes this object the device's active vertex-format object.
    pub fn bind(&self, calls: &mut Vec<DeviceCall>)
        ensures
            final(calls)@ == old(calls)@.push(DeviceCall::BindVertexArray { vao: self.slot }),
    {
        calls.push(DeviceCall::BindVertexArray { vao: self.slot });
    }
}

/// Attaching the same buffer twice in succession issues the attachment at most
/// once: the second attachment issues no command and changes nothing.
pub proof fn lemma_rebind_skipped(v: VertexArray, id: u32)
    ensures
        set_buffer_calls(with_buffer_id(v, id), id) == Seq::<DeviceCall>::empty(),
        with_buffer_id(with_buffer_id(v, id), id) == with_buffer_id(v, id),
{
}

} // verus!
