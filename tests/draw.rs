use notcraft_graphics::context::{Context, Limits, VaoMap, ViewportRect};
use notcraft_graphics::device::{AttribType, DeviceCall, IndexType, PrimitiveType, UniformValue};
use notcraft_graphics::layout::{Attribute, Buffer, IndexBuffer, VertexLayout};
use notcraft_graphics::program::{
    check_program_status, LinkError, Program, ProgramBuilder, RawProgram,
};
use notcraft_graphics::vertex_array::VertexArray;
use notcraft_graphics::{Cons, Nil};

fn limits() -> Limits {
    Limits { max_vertex_attribs: 16, max_texture_units: 8 }
}

fn viewport() -> ViewportRect {
    ViewportRect { x: 0, width: 800, y: 0, height: 600 }
}

fn layout_v1() -> VertexLayout {
    VertexLayout {
        stride: 24,
        attributes: vec![
            Attribute { location: 0, kind: AttribType::Float, components: 3, offset: 0 },
            Attribute { location: 1, kind: AttribType::Float, components: 3, offset: 12 },
        ],
    }
}

fn layout_v2() -> VertexLayout {
    VertexLayout {
        stride: 8,
        attributes: vec![Attribute {
            location: 0,
            kind: AttribType::UnsignedShort,
            components: 4,
            offset: 0,
        }],
    }
}

fn program(id: u32) -> Program {
    ProgramBuilder::new(RawProgram::new(id)).link(1, None, 1, None).unwrap()
}

fn v1_format_calls(vao: usize) -> Vec<DeviceCall> {
    vec![
        DeviceCall::CreateVertexArray { vao },
        DeviceCall::AttribFormat {
            vao,
            location: 0,
            kind: AttribType::Float,
            components: 3,
            offset: 0,
        },
        DeviceCall::AttribFormat {
            vao,
            location: 1,
            kind: AttribType::Float,
            components: 3,
            offset: 12,
        },
    ]
}

#[test]
fn end_to_end_two_draws_of_three_records() {
    let mut ctx = Context::load(limits(), viewport());
    let prog = program(5);
    let buffer = Buffer { id: 9, len: 3, layout: layout_v1() };
    let mut calls = Vec::new();
    ctx.draw_arrays(PrimitiveType::Triangles, &prog, &buffer, &mut calls);
    ctx.draw_arrays(PrimitiveType::Triangles, &prog, &buffer, &mut calls);
    let mut expected = vec![DeviceCall::UseProgram { program: 5 }];
    expected.extend(v1_format_calls(0));
    expected.push(DeviceCall::AttachBuffer { vao: 0, buffer: 9, stride: 24 });
    expected.push(DeviceCall::BindVertexArray { vao: 0 });
    expected.push(DeviceCall::DrawArrays { primitive: PrimitiveType::Triangles, count: 3 });
    expected.push(DeviceCall::UseProgram { program: 5 });
    expected.push(DeviceCall::BindVertexArray { vao: 0 });
    expected.push(DeviceCall::DrawArrays { primitive: PrimitiveType::Triangles, count: 3 });
    assert_eq!(calls, expected);
    assert_eq!(ctx.inner.format_cache.arrays.len(), 1);
}

#[test]
fn same_shape_reuses_object() {
    let mut ctx = Context::load(limits(), viewport());
    let prog = program(1);
    let a = Buffer { id: 10, len: 4, layout: layout_v1() };
    let b = Buffer { id: 11, len: 2, layout: layout_v1() };
    let mut calls = Vec::new();
    ctx.draw_arrays(PrimitiveType::Lines, &prog, &a, &mut calls);
    let first = calls.len();
    ctx.draw_arrays(PrimitiveType::Lines, &prog, &b, &mut calls);
    assert_eq!(
        calls[first..].to_vec(),
        vec![
            DeviceCall::UseProgram { program: 1 },
            DeviceCall::AttachBuffer { vao: 0, buffer: 11, stride: 24 },
            DeviceCall::BindVertexArray { vao: 0 },
            DeviceCall::DrawArrays { primitive: PrimitiveType::Lines, count: 2 },
        ]
    );
    let creations =
        calls.iter().filter(|c| matches!(c, DeviceCall::CreateVertexArray { .. })).count();
    assert_eq!(creations, 1);
}

#[test]
fn distinct_shapes_get_distinct_objects() {
    let mut ctx = Context::load(limits(), viewport());
    let prog = program(1);
    let a = Buffer { id: 1, len: 3, layout: layout_v1() };
    let b = Buffer { id: 2, len: 3, layout: layout_v2() };
    let mut calls = Vec::new();
    ctx.draw_arrays(PrimitiveType::Points, &prog, &a, &mut calls);
    ctx.draw_arrays(PrimitiveType::Points, &prog, &b, &mut calls);
    ctx.draw_arrays(PrimitiveType::Points, &prog, &a, &mut calls);
    ctx.draw_arrays(PrimitiveType::Points, &prog, &b, &mut calls);
    let created: Vec<usize> = calls
        .iter()
        .filter_map(|c| match c {
            DeviceCall::CreateVertexArray { vao } => Some(*vao),
            _ => None,
        })
        .collect();
    assert_eq!(created, vec![0, 1]);
    let bound: Vec<usize> = calls
        .iter()
        .filter_map(|c| match c {
            DeviceCall::BindVertexArray { vao } => Some(*vao),
            _ => None,
        })
        .collect();
    assert_eq!(bound, vec![0, 1, 0, 1]);
    let configured_for_1 = calls
        .iter()
        .filter(|c| matches!(c, DeviceCall::AttribFormat { vao: 1, .. }))
        .count();
    assert_eq!(configured_for_1, 1);
}

#[test]
fn set_buffer_twice_attaches_once() {
    let layout = layout_v2();
    let mut calls = Vec::new();
    let mut vao = VertexArray::for_shape(3, &layout, &mut calls);
    assert_eq!(vao, VertexArray { slot: 3, stride: 8, buffer: None });
    let buffer = Buffer { id: 42, len: 1, layout: layout_v2() };
    let before = calls.len();
    vao.set_buffer(&buffer, &mut calls);
    vao.set_buffer(&buffer, &mut calls);
    assert_eq!(
        calls[before..].to_vec(),
        vec![DeviceCall::AttachBuffer { vao: 3, buffer: 42, stride: 8 }]
    );
    assert_eq!(vao.buffer, Some(42));
}

#[test]
fn with_buffer_attaches() {
    let mut calls = Vec::new();
    let vao = VertexArray { slot: 0, stride: 24, buffer: Some(1) };
    let buffer = Buffer { id: 2, len: 1, layout: layout_v1() };
    let vao = vao.with_buffer(&buffer, &mut calls);
    assert_eq!(vao.buffer, Some(2));
    assert_eq!(calls, vec![DeviceCall::AttachBuffer { vao: 0, buffer: 2, stride: 24 }]);
}

#[test]
fn set_uniform_resolves_once() {
    let mut prog = program(7);
    let name = String::from("mvp");
    let mut calls = Vec::new();
    for i in 0..4u32 {
        prog.set_uniform(&name, UniformValue::UnsignedInt(i), &mut calls);
    }
    let resolves =
        calls.iter().filter(|c| matches!(c, DeviceCall::ResolveUniform { .. })).count();
    let sets = calls.iter().filter(|c| matches!(c, DeviceCall::SetUniform { .. })).count();
    assert_eq!(resolves, 1);
    assert_eq!(sets, 4);
    assert_eq!(
        calls[..3].to_vec(),
        vec![
            DeviceCall::UseProgram { program: 7 },
            DeviceCall::ResolveUniform { program: 7, slot: 0 },
            DeviceCall::SetUniform { program: 7, slot: 0, value: UniformValue::UnsignedInt(0) },
        ]
    );
    assert_eq!(prog.uniform_cache, vec![String::from("mvp")]);
}

#[test]
fn set_uniform_distinct_names_get_distinct_slots() {
    let mut prog = program(2);
    let mut calls = Vec::new();
    prog.set_uniform(&String::from("a"), UniformValue::Int(-1), &mut calls);
    prog.set_uniform(&String::from("b"), UniformValue::Int(2), &mut calls);
    prog.set_uniform(&String::from("a"), UniformValue::FloatBits(1.5f32.to_bits()), &mut calls);
    assert_eq!(
        calls[6..].to_vec(),
        vec![
            DeviceCall::UseProgram { program: 2 },
            DeviceCall::SetUniform {
                program: 2,
                slot: 0,
                value: UniformValue::FloatBits(1.5f32.to_bits()),
            },
        ]
    );
    assert_eq!(calls[4], DeviceCall::ResolveUniform { program: 2, slot: 1 });
}

#[test]
fn empty_buffer_draw_arrays_is_noop() {
    let mut ctx = Context::load(limits(), viewport());
    let prog = program(1);
    let empty = Buffer { id: 3, len: 0, layout: layout_v1() };
    let mut calls = Vec::new();
    ctx.draw_arrays(PrimitiveType::Triangles, &prog, &empty, &mut calls);
    assert!(calls.is_empty());
    assert!(ctx.inner.format_cache.layouts.is_empty());
}

#[test]
fn empty_buffer_draw_elements_is_noop() {
    let mut ctx = Context::load(limits(), viewport());
    let prog = program(1);
    let empty = Buffer { id: 3, len: 0, layout: layout_v1() };
    let indices = IndexBuffer { id: 4, len: 6, index_type: IndexType::U16 };
    let mut calls = Vec::new();
    ctx.draw_elements(PrimitiveType::Triangles, &prog, &empty, &indices, &mut calls);
    assert!(calls.is_empty());
    assert!(ctx.inner.format_cache.arrays.is_empty());
}

#[test]
fn draw_elements_binds_index_buffer() {
    let mut ctx = Context::load(limits(), viewport());
    let prog = program(4);
    let vertices = Buffer { id: 8, len: 4, layout: layout_v2() };
    let indices = IndexBuffer { id: 12, len: 6, index_type: IndexType::U32 };
    let mut calls = Vec::new();
    ctx.draw_elements(PrimitiveType::TriangleStrip, &prog, &vertices, &indices, &mut calls);
    assert_eq!(
        calls,
        vec![
            DeviceCall::UseProgram { program: 4 },
            DeviceCall::CreateVertexArray { vao: 0 },
            DeviceCall::AttribFormat {
                vao: 0,
                location: 0,
                kind: AttribType::UnsignedShort,
                components: 4,
                offset: 0,
            },
            DeviceCall::AttachBuffer { vao: 0, buffer: 8, stride: 8 },
            DeviceCall::BindVertexArray { vao: 0 },
            DeviceCall::BindElementBuffer { buffer: 12 },
            DeviceCall::DrawElements {
                primitive: PrimitiveType::TriangleStrip,
                count: 6,
                index_type: IndexType::U32,
            },
        ]
    );
}

#[test]
fn viewport_and_limits() {
    let mut ctx = Context::load(limits(), viewport());
    assert_eq!(ctx.viewport(), viewport());
    assert_eq!(*ctx.limits(), limits());
    let rect = ViewportRect { x: -5, width: 320, y: 10, height: 200 };
    let mut calls = Vec::new();
    ctx.set_viewport(rect, &mut calls);
    assert_eq!(ctx.viewport(), rect);
    assert_eq!(
        calls,
        vec![DeviceCall::Viewport { x: -5, y: 10, width: 320, height: 200 }]
    );
}

#[test]
fn program_status_checks() {
    assert_eq!(check_program_status(1, None), Ok(()));
    assert_eq!(check_program_status(0, None), Err(LinkError::Other(String::new())));
    assert_eq!(
        check_program_status(0, Some(String::from("bad"))),
        Err(LinkError::Other(String::from("bad")))
    );
}

#[test]
fn link_reports_first_failure() {
    let b = ProgramBuilder::new(RawProgram::new(3));
    let r = b.link(0, Some(String::from("link")), 0, Some(String::from("validate")));
    assert!(matches!(r, Err(LinkError::Other(ref m)) if m == "link"));
    let b = ProgramBuilder::new(RawProgram::new(3));
    let r = b.link(1, None, 0, Some(String::from("validate")));
    assert!(matches!(r, Err(LinkError::Other(ref m)) if m == "validate"));
    let p = ProgramBuilder::new(RawProgram::new(3)).link(2, None, 1, None).unwrap();
    assert_eq!(p.raw.id, 3);
    assert!(p.uniform_cache.is_empty());
}

#[test]
fn attach_shader_issues_call() {
    let b = ProgramBuilder::new(RawProgram::new(6));
    let mut calls = Vec::new();
    b.attach_shader(11, &mut calls);
    assert_eq!(calls, vec![DeviceCall::AttachShader { program: 6, shader: 11 }]);
}

#[test]
fn cache_lookup_and_layout_equality() {
    let mut map = VaoMap::new();
    assert!(map.entry(&layout_v1()).slot.is_none());
    let buffer = Buffer { id: 1, len: 1, layout: layout_v2() };
    let mut calls = Vec::new();
    let slot = map.entry(&buffer.layout).or_insert_with(&mut map, &buffer, &mut calls);
    assert_eq!(slot, 0);
    assert_eq!(map.entry(&layout_v2()).slot, Some(0));
    assert!(map.entry(&layout_v1()).slot.is_none());
    assert!(layout_v1().same_shape(&layout_v1().duplicate()));
    assert!(!layout_v1().same_shape(&layout_v2()));
    let _list = Cons(1u8, Cons(2u16, Nil));
}
