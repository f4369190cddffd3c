//! The device context: capability snapshot, viewport, format cache and draw dispatch.
use vstd::prelude::*;

use crate::device::{DeviceCall, PrimitiveType};
use crate::layout::{Buffer, IndexBuffer, LayoutModel, VertexLayout};
use crate::program::Program;
use crate::vertex_array::{format_calls, set_buffer_calls, with_buffer_id, VertexArray};

verus! {

/// The active draw rectangle.
#[derive(Clone, Copy, Debug, PartialEq, Eq, Structural)]
pub struct ViewportRect {
    pub x: i32,
    pub width: u32,
    pub y: i32,
    pub height: u32,
}

/// Device capability constants, captured once when the context is loaded.
#[derive(Clone, Copy, Debug, PartialEq, Eq, Structural)]
pub struct Limits {
    pub max_vertex_attribs: u32,
    pub max_texture_units: u32,
}

/// The mathematical value of the format cache: the layouts it holds, and the
/// vertex-format object of each, slot by slot.
pub struct CacheModel {
    pub layouts: Seq<LayoutModel>,
    pub arrays: Seq<VertexArray>,
}

impl CacheModel {
    /// Each layout is held once, and each object sits in its own slot with its
    /// layout's stride.
    pub open spec fn wf(self) -> bool {
        &&& self.layouts.len() == self.arrays.len()
        &&& forall|i: int|
            0 <= i < self.arrays.len() ==> (#[trigger] self.arrays[i]).slot == i
                && self.arrays[i].stride == self.layouts[i].stride
        &&& forall|i: int, j: int|
            0 <= i < j < self.layouts.len() ==> self.layouts[i] != self.layouts[j]
    }

    /// Whether layout `l` has a vertex-format object.
    pub open spec fn contains(self, l: LayoutModel) -> bool {
        exists|i: int| 0 <= i < self.layouts.len() && self.layouts[i] == l
    }

    /// The slot of a cached layout.
    pub open spec fn slot_of(self, l: LayoutModel) -> int {
        choose|i: int| 0 <= i < self.layouts.len() && self.layouts[i] == l
    }

    /// The slot of the object that drawing with layout `l` uses: its cached
    /// slot, or the next free one.
    pub open spec fn draw_slot(self, l: LayoutModel) -> int {
        if self.contains(l) {
            self.slot_of(l)
        } else {
            self.layouts.len() as int
        }
    }

    /// The cache after preparing buffer `id` of layout `l` for drawing.
    pub open spec fn prepare(self, l: LayoutModel, id: u32) -> CacheModel {
        if self.contains(l) {
            let i = self.slot_of(l);
            CacheModel {
                layouts: self.layouts,
                arrays: self.arrays.update(i, with_buffer_id(self.arrays[i], id)),
            }
        } else {
            CacheModel {
                layouts: self.layouts.push(l),
                arrays: self.arrays.push(
                    VertexArray {
                        slot: self.layouts.len() as usize,
                        stride: l.stride,
                        buffer: Some(id),
                    },
                ),
            }
        }
    }

    /// The commands that preparing buffer `id` of layout `l` issues: on a miss
    /// the object's creation and configuration, then the buffer's attachment;
    /// on a hit only the attachment, and only when another buffer is attached.
    pub open spec fn prepare_calls(self, l: LayoutModel, id: u32) -> Seq<DeviceCall> {
        if self.contains(l) {
            set_buffer_calls(self.arrays[self.slot_of(l)], id)
        } else {
            let slot = self.layouts.len() as usize;
            format_calls(slot, l.attributes) + seq![
                DeviceCall::AttachBuffer { vao: slot, buffer: id, stride: l.stride },
            ]
        }
    }
}

/// The format cache: one vertex-format object per distinct vertex layout.
/// The object in slot `i` was made for `layouts[i]`.
pub struct VaoMap {
    pub layouts: Vec<VertexLayout>,
    pub arrays: Vec<VertexArray>,
}

impl View for VaoMap {
    type V = CacheModel;

    open spec fn view(&self) -> CacheModel {
        CacheModel {
            layouts: self.layouts@.map_values(|l: VertexLayout| l@),
            arrays: self.arrays@,
        }
    }
}

/// The outcome of looking a layout up in the format cache.
pub struct Entry {
    /// The slot of the layout's object, when it has one.
    pub slot: Option<usize>,
}

impl VaoMap {
    /// An empty cache.
    pub fn new() -> (r: VaoMap)
        ensures
            r@.layouts.len() == 0,
            r@.arrays.len() == 0,
            r@.wf(),
    {
        VaoMap { layouts: Vec::new(), arrays: Vec::new() }
    }

    /// Looks up the object of `layout`.
    pub fn entry(&self, layout: &VertexLayout) -> (r: Entry)
        requires
            self@.wf(),
        ensures
            r.slot is Some <==> self@.contains(layout@),
            r.slot matches Some(i) ==> i == self@.slot_of(layout@),
    {
        let ghost m = self@;
        let n = self.layouts.len();
        let mut i: usize = 0;
        while i < n
            invariant
                n == self.layouts@.len(),
                m == self@,
                m.wf(),
                i <= n,
                forall|j: int| 0 <= j < i ==> m.layouts[j] != layout@,
            decreases n - i,
        {
            if self.layouts[i].same_shape(layout) {
                assert(m.layouts[i as int] == layout@);
                assert(m.contains(layout@));
                let ghost k = m.slot_of(layout@);
                proof {
                    assert(0 <= k < m.layouts.len() && m.layouts[k] == layout@);
                    if k < i as int {
                        assert(m.layouts[k] != m.layouts[i as int]);
                    } else if k > i as int {
                        assert(m.layouts[i as int] != m.layouts[k]);
                    }
                }
                return Entry { slot: Some(i) };
            }
            i = i + 1;
        }
        Entry { slot: None }
    }

    /// Attaches `buffer` to the object in `slot`.
    fn set_buffer_at(&mut self, slot: usize, buffer: &Buffer, calls: &mut Vec<DeviceCall>)
        requires
            old(self)@.wf(),
            slot < old(self)@.arrays.len(),
        ensures
            final(self)@ == (CacheModel {
                layouts: old(self)@.layouts,
                arrays: old(self)@.arrays.update(
                    slot as int,
                    with_buffer_id(old(self)@.arrays[slot as int], buffer.id),
                ),
            }),
            final(self)@.wf(),
            final(calls)@ == old(calls)@ + set_buffer_calls(
                old(self)@.arrays[slot as int],
                buffer.id,
            ),
    {
        let mut v = self.arrays[slot];
        v.set_buffer(buffer, calls);
        self.arrays.set(slot, v);
        assert(self@.arrays =~= old(self)@.arrays.update(
            slot as int,
            with_buffer_id(old(self)@.arrays[slot as int], buffer.id),
        ));
    }

    /// The object in `slot`.
    fn array_at(&self, slot: usize) -> (r: VertexArray)
        requires
            slot < self@.arrays.len(),
        ensures
            r == self@.arrays[slot as int],
    {
        self.arrays[slot]
    }
}

impl Entry {
    /// Returns the slot of the looked-up object; when there is none yet, first
    /// creates it for `buffer`'s layout, attaches `buffer` and caches it.
    pub fn or_insert_with(self, map: &mut VaoMap, buffer: &Buffer, calls: &mut Vec<DeviceCall>) -> (r:
        usize)
        requires
            old(map)@.wf(),
            self.slot is Some <==> old(map)@.contains(buffer.layout@),
            self.slot matches Some(i) ==> i == old(map)@.slot_of(buffer.layout@),
        ensures
            final(map)@.wf(),
            r == old(map)@.draw_slot(buffer.layout@),
            old(map)@.contains(buffer.layout@) ==> final(map)@ == old(map)@ && final(calls)@
                == old(calls)@,
            !old(map)@.contains(buffer.layout@) ==> final(map)@ == old(map)@.prepare(
                buffer.layout@,
                buffer.id,
            ) && final(calls)@ == old(calls)@ + old(map)@.prepare_calls(
                buffer.layout@,
                buffer.id,
            ),
    {
        match self.slot {
            Some(i) => i,
            None => {
                let ghost m = map@;
                let slot = map.layouts.len();
                let v = VertexArray::for_shape(slot, &buffer.layout, calls);
                let v = v.with_buffer(buffer, calls);
                map.layouts.push(buffer.layout.duplicate());
                map.arrays.push(v);
                proof {
                    assert(map@.layouts =~= m.layouts.push(buffer.layout@));
                    assert(map@.arrays =~= m.arrays.push(v));
                    assert forall|i: int, j: int|
                        0 <= i < j < map@.layouts.len() implies map@.layouts[i]
                        != map@.layouts[j] by {
                        if j == m.layouts.len() {
                            assert(m.layouts[i] != buffer.layout@);
                        }
                    }
                }
                slot
            },
        }
    }
}

} // verus!

verus! {

/// The commands of a non-empty `draw_arrays`: bind the program, prepare the
/// vertex-format object, bind it, and draw `count` vertices.
pub open spec fn draw_arrays_calls(
    cache: CacheModel,
    program: u32,
    primitive: PrimitiveType,
    vertices: Buffer,
) -> Seq<DeviceCall> {
    seq![DeviceCall::UseProgram { program }] + cache.prepare_calls(vertices.layout@, vertices.id)
        + seq![
        DeviceCall::BindVertexArray { vao: cache.draw_slot(vertices.layout@) as usize },
        DeviceCall::DrawArrays { primitive, count: vertices.len },
    ]
}

/// The commands of a non-empty `draw_elements`: as for `draw_arrays`, with
/// the index buffer bound before an indexed draw of all its indices.
pub open spec fn draw_elements_calls(
    cache: CacheModel,
    program: u32,
    primitive: PrimitiveType,
    vertices: Buffer,
    indices: IndexBuffer,
) -> Seq<DeviceCall> {
    seq![DeviceCall::UseProgram { program }] + cache.prepare_calls(vertices.layout@, vertices.id)
        + seq![
        DeviceCall::BindVertexArray { vao: cache.draw_slot(vertices.layout@) as usize },
        DeviceCall::BindElementBuffer { buffer: indices.id },
        DeviceCall::DrawElements {
            primitive,
            count: indices.len,
            index_type: indices.index_type,
        },
    ]
}

/// Preparing a buffer keeps the cache well formed, caches its layout, and
/// keeps the slot that drawing with that layout uses.
pub proof fn lemma_prepare(m: CacheModel, l: LayoutModel, id: u32)
    requires
        m.wf(),
        m.layouts.len() <= usize::MAX,
    ensures
        m.prepare(l, id).wf(),
        m.prepare(l, id).contains(l),
        m.prepare(l, id).draw_slot(l) == m.draw_slot(l),
        0 <= m.draw_slot(l) < m.prepare(l, id).arrays.len(),
        m.prepare(l, id).arrays[m.draw_slot(l)] == (VertexArray {
            slot: m.draw_slot(l) as usize,
            stride: l.stride,
            buffer: Some(id),
        }),
        forall|o: LayoutModel| o != l ==> (m.contains(o) <==> #[trigger] m.prepare(l, id).contains(o)),
        forall|o: LayoutModel| o != l && m.contains(o) ==> #[trigger] m.prepare(l, id).slot_of(o) == m.slot_of(o),
{
    let m1 = m.prepare(l, id);
    if m.contains(l) {
        let i = m.slot_of(l);
        assert(m1.layouts[i] == l);
    } else {
        let n = m.layouts.len() as int;
        assert(m1.layouts[n] == l);
        assert forall|i: int, j: int| 0 <= i < j < m1.layouts.len() implies m1.layouts[i]
            != m1.layouts[j] by {
            if j == n {
                assert(!(0 <= i < m.layouts.len() && m.layouts[i] == l));
            }
        }
        assert forall|i: int| 0 <= i < m1.arrays.len() implies (#[trigger] m1.arrays[i]).slot == i
            && m1.arrays[i].stride == m1.layouts[i].stride by {
            if i < n {
                assert(m1.arrays[i] == m.arrays[i]);
                assert(m1.layouts[i] == m.layouts[i]);
                assert(m.arrays[i].slot == i);
            } else {
                assert(m1.arrays[i].stride == l.stride);
            }
        }
    }
    lemma_slot_unique(m1, l, m.draw_slot(l));
    assert forall|o: LayoutModel| o != l implies (m.contains(o) <==> #[trigger] m1.contains(o)) by {
        if m.contains(o) {
            let k = m.slot_of(o);
            assert(m1.layouts[k] == o);
        }
        if m1.contains(o) {
            let k = m1.slot_of(o);
            assert(m.layouts[k] == o);
        }
    }
    assert forall|o: LayoutModel| o != l && m.contains(o) implies #[trigger] m1.slot_of(o)
        == m.slot_of(o) by {
        let k = m.slot_of(o);
        assert(m1.layouts[k] == o);
        lemma_slot_unique(m1, o, k);
    }
}

/// In a well-formed cache a layout sits in one slot only.
pub proof fn lemma_slot_unique(m: CacheModel, l: LayoutModel, k: int)
    requires
        m.wf(),
        0 <= k < m.layouts.len(),
        m.layouts[k] == l,
    ensures
        m.contains(l),
        m.slot_of(l) == k,
{
    assert(m.contains(l));
    let j = m.slot_of(l);
    if j < k {
        assert(m.layouts[j] != m.layouts[k]);
    } else if j > k {
        assert(m.layouts[k] != m.layouts[j]);
    }
}

/// Two draws with buffers of the same layout use the same vertex-format
/// object: the second creates none, and at most attaches its buffer.
pub proof fn lemma_same_shape_same_object(m: CacheModel, l: LayoutModel, first: u32, second: u32)
    requires
        m.wf(),
        m.layouts.len() <= usize::MAX,
    ensures
        m.prepare(l, first).draw_slot(l) == m.draw_slot(l),
        m.prepare(l, first).prepare(l, second).layouts == m.prepare(l, first).layouts,
        m.prepare(l, first).prepare_calls(l, second) == set_buffer_calls(
            m.prepare(l, first).arrays[m.draw_slot(l)],
            second,
        ),
{
    lemma_prepare(m, l, first);
}

/// Distinct layouts never share a vertex-format object: after a draw with
/// layout `b`, a draw with layout `a` uses another slot.
pub proof fn lemma_distinct_shapes_distinct_objects(
    m: CacheModel,
    a: LayoutModel,
    b: LayoutModel,
    id: u32,
)
    requires
        m.wf(),
        a != b,
        m.layouts.len() <= usize::MAX,
    ensures
        m.prepare(b, id).draw_slot(a) != m.prepare(b, id).draw_slot(b),
        m.prepare(b, id).draw_slot(b) == m.draw_slot(b),
{
    lemma_prepare(m, b, id);
    let m1 = m.prepare(b, id);
    if m1.contains(a) {
        let k = m1.slot_of(a);
        assert(m1.layouts[k] == a);
        lemma_slot_unique(m1, b, m1.draw_slot(b));
    }
}

/// The device-wide state: capability snapshot, cached viewport and format cache.
pub struct ContextInner {
    pub limits: Limits,
    pub viewport: ViewportRect,
    pub format_cache: VaoMap,
}

/// The handle through which every draw is issued.
pub struct Context {
    pub inner: ContextInner,
}

impl Context {
    /// The format cache is well formed.
    pub open spec fn wf(&self) -> bool {
        self.inner.format_cache@.wf()
    }

    /// A fresh context over a device whose capabilities are `limits` and whose
    /// current viewport is `viewport`, with an empty format cache.
    pub fn load(limits: Limits, viewport: ViewportRect) -> (r: Context)
        ensures
            r.wf(),
            r.inner.limits == limits,
            r.inner.viewport == viewport,
            r.inner.format_cache@.layouts.len() == 0,
    {
        Context { inner: ContextInner { limits, viewport, format_cache: VaoMap::new() } }
    }

    /// Binds the program and prepares the vertex-format object of `vertices`.
    fn prepare_draw(&mut self, program: &Program, vertices: &Buffer, calls: &mut Vec<DeviceCall>)
        requires
            old(self).wf(),
        ensures
            final(self).wf(),
            final(self).inner.limits == old(self).inner.limits,
            final(self).inner.viewport == old(self).inner.viewport,
            final(self).inner.format_cache@ == old(self).inner.format_cache@.prepare(
                vertices.layout@,
                vertices.id,
            ),
            final(calls)@ == old(calls)@ + seq![DeviceCall::UseProgram { program: program.raw.id }]
                + old(self).inner.format_cache@.prepare_calls(vertices.layout@, vertices.id)
                + seq![
                DeviceCall::BindVertexArray {
                    vao: old(self).inner.format_cache@.draw_slot(vertices.layout@) as usize,
                },
            ],
    {
        let ghost m = self.inner.format_cache@;
        let ghost l = vertices.layout@;
        assert(m.layouts.len() == self.inner.format_cache.layouts.len());
        program.bind(calls);
        let entry = self.inner.format_cache.entry(&vertices.layout);
        let slot = entry.or_insert_with(&mut self.inner.format_cache, vertices, calls);
        let ghost c2 = calls@;
        let ghost m2 = self.inner.format_cache@;
        proof {
            lemma_prepare(m, l, vertices.id);
            if !m.contains(l) {
                assert(m2.arrays[slot as int] == m.prepare(l, vertices.id).arrays[m.draw_slot(l)]);
            }
        }
        self.inner.format_cache.set_buffer_at(slot, vertices, calls);
        proof {
            if m.contains(l) {
                assert(self.inner.format_cache@.arrays =~= m.prepare(l, vertices.id).arrays);
            } else {
                assert(calls@ =~= c2);
                assert(self.inner.format_cache@.arrays =~= m2.arrays);
            }
        }
        let vao = self.inner.format_cache.array_at(slot);
        vao.bind(calls);
        assert(calls@ =~= old(calls)@ + seq![DeviceCall::UseProgram { program: program.raw.id }]
            + m.prepare_calls(l, vertices.id) + seq![
            DeviceCall::BindVertexArray { vao: m.draw_slot(l) as usize },
        ]);
    }

    /// Draws every record of `vertices` with `program`, creating the vertex-format
    /// object of their layout on first use. An empty buffer issues nothing.
    pub fn draw_arrays(
        &mut self,
        primitive: PrimitiveType,
        program: &Program,
        vertices: &Buffer,
        calls: &mut Vec<DeviceCall>,
    )
        requires
            old(self).wf(),
        ensures
            final(self).wf(),
            vertices.len == 0 ==> *final(self) == *old(self) && final(calls)@ == old(calls)@,
            vertices.len > 0 ==> final(self).inner.limits == old(self).inner.limits
                && final(self).inner.viewport == old(self).inner.viewport
                && final(self).inner.format_cache@ == old(self).inner.format_cache@.prepare(
                vertices.layout@,
                vertices.id,
            ) && final(calls)@ == old(calls)@ + draw_arrays_calls(
                old(self).inner.format_cache@,
                program.raw.id,
                primitive,
                *vertices,
            ),
            vertices.len > 0 ==> final(self).inner.format_cache@.contains(vertices.layout@)
                && final(self).inner.format_cache@.slot_of(vertices.layout@)
                == old(self).inner.format_cache@.draw_slot(vertices.layout@)
                && final(self).inner.format_cache@.arrays[old(self).inner.format_cache@.draw_slot(
                vertices.layout@,
            )].buffer == Some(vertices.id),
    {
        if vertices.len() > 0 {
            let ghost m = self.inner.format_cache@;
            assert(m.layouts.len() == self.inner.format_cache.layouts.len());
            self.prepare_draw(program, vertices, calls);
            proof {
                lemma_prepare(m, vertices.layout@, vertices.id);
            }
            calls.push(DeviceCall::DrawArrays { primitive, count: vertices.len() });
            assert(calls@ =~= old(calls)@ + draw_arrays_calls(
                old(self).inner.format_cache@,
                program.raw.id,
                primitive,
                *vertices,
            ));
        }
    }

    /// Draws the records of `vertices` named by `indices` with `program`,
    /// creating the vertex-format object of their layout on first use. An
    /// empty vertex buffer issues nothing.
    pub fn draw_elements(
        &mut self,
        primitive: PrimitiveType,
        program: &Program,
        vertices: &Buffer,
        indices: &IndexBuffer,
        calls: &mut Vec<DeviceCall>,
    )
        requires
            old(self).wf(),
        ensures
            final(self).wf(),
            vertices.len == 0 ==> *final(self) == *old(self) && final(calls)@ == old(calls)@,
            vertices.len > 0 ==> final(self).inner.limits == old(self).inner.limits
                && final(self).inner.viewport == old(self).inner.viewport
                && final(self).inner.format_cache@ == old(self).inner.format_cache@.prepare(
                vertices.layout@,
                vertices.id,
            ) && final(calls)@ == old(calls)@ + draw_elements_calls(
                old(self).inner.format_cache@,
                program.raw.id,
                primitive,
                *vertices,
                *indices,
            ),
            vertices.len > 0 ==> final(self).inner.format_cache@.contains(vertices.layout@)
                && final(self).inner.format_cache@.slot_of(vertices.layout@)
                == old(self).inner.format_cache@.draw_slot(vertices.layout@)
                && final(self).inner.format_cache@.arrays[old(self).inner.format_cache@.draw_slot(
                vertices.layout@,
            )].buffer == Some(vertices.id),
    {
        if vertices.len() > 0 {
            let ghost m = self.inner.format_cache@;
            assert(m.layouts.len() == self.inner.format_cache.layouts.len());
            self.prepare_draw(program, vertices, calls);
            proof {
                lemma_prepare(m, vertices.layout@, vertices.id);
            }
            calls.push(DeviceCall::BindElementBuffer { buffer: indices.id });
            calls.push(
                DeviceCall::DrawElements {
                    primitive,
                    count: indices.len,
                    index_type: indices.index_type,
                },
            );
            assert(calls@ =~= old(calls)@ + draw_elements_calls(
                old(self).inner.format_cache@,
                program.raw.id,
                primitive,
                *vertices,
                *indices,
            ));
        }
    }

    /// The capability snapshot.
    pub fn limits(&self) -> (r: &Limits)
        ensures
            *r == self.inner.limits,
    {
        &self.inner.limits
    }

    /// Sets the device viewport to `rect` and caches exactly that rectangle.
    pub fn set_viewport(&mut self, rect: ViewportRect, calls: &mut Vec<DeviceCall>)
        ensures
            final(self).inner.viewport == rect,
            final(self).inner.limits == old(self).inner.limits,
            final(self).inner.format_cache == old(self).inner.format_cache,
            final(calls)@ == old(calls)@.push(
                DeviceCall::Viewport { x: rect.x, y: rect.y, width: rect.width, height: rect.height },
            ),
    {
        self.inner.viewport = rect;
        calls.push(
            DeviceCall::Viewport { x: rect.x, y: rect.y, width: rect.width, height: rect.height },
        );
    }

    /// The cached viewport.
    pub fn viewport(&self) -> (r: ViewportRect)
        ensures
            r == self.inner.viewport,
    {
        self.inner.viewport
    }
}

} // verus!
