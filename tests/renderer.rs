use retrogl::draw_buffer::{DrawBuffer, DrawError, GlResources};
use retrogl::draw_config::DrawConfig;
use retrogl::gl_call::{Bindings, GlCall, Vertex};
use retrogl::renderer::{DrawOp, InitError, RendererError, RetroGl, VERTEX_BUFFER_LEN};

fn resources() -> GlResources {
    GlResources { vertex_shader: 1, fragment_shader: 2, program: 3, vertex_array: 4, vertex_buffer: 5 }
}

fn v(x: i16, y: i16) -> Vertex {
    Vertex::new((x, y), (255, 255, 255))
}

fn controller() -> RetroGl {
    RetroGl::new(true, true).unwrap()
}

fn replay(mut b: Bindings, calls: &[GlCall]) -> Bindings {
    for c in calls {
        match c {
            GlCall::UseProgram(p) => b.program = *p,
            GlCall::BindVertexArray(a) => b.vertex_array = *a,
            GlCall::BindFramebuffer(f) => b.draw_framebuffer = *f,
            _ => {}
        }
    }
    b
}

fn triangle_count(calls: &[GlCall]) -> usize {
    calls
        .iter()
        .map(|c| match c {
            GlCall::DrawTriangles(_, n) => n / 3,
            _ => 0,
        })
        .sum()
}

#[test]
fn new_refuses_pixel_format() {
    assert_eq!(RetroGl::new(false, true).err(), Some(InitError::PixelFormatRefused));
    assert_eq!(RetroGl::new(false, false).err(), Some(InitError::PixelFormatRefused));
}

#[test]
fn new_refuses_hw_context() {
    assert_eq!(RetroGl::new(true, false).err(), Some(InitError::HwContextRefused));
}

#[test]
fn new_starts_without_context() {
    let g = controller();
    assert!(!g.is_active());
    assert_eq!(g.xres(), 1024);
    assert_eq!(g.yres(), 512);
    let c = g.draw_config();
    assert_eq!(c.draw_offset, (0, 0));
    assert_eq!(c.draw_area_top_left, (0, 0));
    assert_eq!(c.draw_area_resolution, (0, 0));
}

#[test]
fn scenario_reset_becomes_active() {
    let mut g = controller();
    assert_eq!(g.context_reset(Ok(resources())), Ok(()));
    assert!(g.is_active());
    assert_eq!(g.xres(), 1024);
    assert_eq!(g.yres(), 512);
}

#[test]
fn scenario_destroy_keeps_config() {
    let mut g = controller();
    g.context_reset(Ok(resources())).unwrap();
    g.set_draw_offset(-3, 7);
    g.set_draw_area((1, 2), (300, 200));
    let before = g.draw_config();
    let released = g.context_destroy();
    assert!(!g.is_active());
    assert_eq!(g.draw_config(), before);
    assert_eq!(
        released,
        vec![
            GlCall::DeleteBuffer(5),
            GlCall::DeleteVertexArray(4),
            GlCall::DeleteProgram(3),
            GlCall::DeleteShader(1),
            GlCall::DeleteShader(2),
        ]
    );
}

#[test]
fn destroy_without_context_releases_nothing() {
    let mut g = controller();
    assert!(g.context_destroy().is_empty());
    assert!(!g.is_active());
}

#[test]
fn scenario_one_triangle_then_clear() {
    let mut b = DrawBuffer::new(30, resources());
    assert_eq!(b.push_slice(&[v(0, 1), v(-1, -1), v(1, -1)]), Ok(()));
    let calls = b.draw_triangles();
    assert_eq!(triangle_count(&calls), 1);
    assert_eq!(calls[3], GlCall::DrawTriangles(0, 3));
    assert_eq!(calls[2], GlCall::BufferSubData(5, vec![v(0, 1), v(-1, -1), v(1, -1)]));
    b.clear();
    assert_eq!(b.len(), 0);
}

#[test]
fn scenario_compile_failure_is_fatal() {
    let mut g = controller();
    let err = RendererError::CompileError(String::from("0:1(1): error: syntax error"));
    assert_eq!(g.context_reset(Err(err.clone())), Err(err));
    assert!(!g.is_active());
    let calls = g.render_frame(0, &vec![DrawOp::Triangle([v(0, 1), v(-1, -1), v(1, -1)])]);
    assert!(calls.is_empty());
}

#[test]
fn failed_reset_drops_active_state() {
    let mut g = controller();
    g.context_reset(Ok(resources())).unwrap();
    let err = RendererError::LinkError(String::from("link failed"));
    assert_eq!(g.context_reset(Err(err.clone())), Err(err));
    assert!(!g.is_active());
    assert_eq!(g.xres(), 1024);
}

#[test]
fn config_survives_round_trip() {
    let mut g = controller();
    g.set_resolution(640, 480);
    g.set_draw_offset(i16::MIN, i16::MAX);
    g.set_draw_area((u16::MAX, 0), (0, u16::MAX));
    let before = g.draw_config();
    g.context_reset(Ok(resources())).unwrap();
    assert_eq!(g.draw_config(), before);
    g.context_destroy();
    assert_eq!(g.draw_config(), before);
    assert_eq!(before.xres, 640);
    assert_eq!(before.yres, 480);
}

#[test]
fn refill_after_clear_keeps_capacity() {
    let mut b = DrawBuffer::new(6, resources());
    let batch = [v(0, 0), v(1, 0), v(0, 1), v(2, 2), v(3, 2), v(2, 3)];
    assert_eq!(b.push_slice(&batch), Ok(()));
    assert_eq!(b.remaining_capacity(), 0);
    b.clear();
    assert_eq!(b.push_slice(&batch), Ok(()));
    assert_eq!(b.len(), 6);
    assert_eq!(b.capacity(), 6);
}

#[test]
fn overflow_in_one_call_is_refused() {
    let mut b = DrawBuffer::new(3, resources());
    assert_eq!(b.push_slice(&[v(0, 0)]), Ok(()));
    assert_eq!(b.push_slice(&[v(1, 1), v(2, 2), v(3, 3), v(4, 4)]), Err(DrawError::CapacityExceeded));
    assert_eq!(b.len(), 1);
    let mut empty = DrawBuffer::new(3, resources());
    assert_eq!(empty.push_slice(&[v(1, 1), v(2, 2), v(3, 3), v(4, 4)]), Err(DrawError::CapacityExceeded));
    assert_eq!(empty.len(), 0);
}

#[test]
fn draw_issues_count_over_three_triangles() {
    let mut b = DrawBuffer::new(9, resources());
    b.push_slice(&[v(0, 0); 9]).unwrap();
    let calls = b.draw_triangles();
    assert_eq!(triangle_count(&calls), 3);
    let empty = DrawBuffer::new(9, resources());
    assert_eq!(triangle_count(&empty.draw_triangles()), 0);
}

#[test]
fn frame_leaves_nothing_bound() {
    let start = Bindings { program: 9, vertex_array: 9, draw_framebuffer: 9 };
    let neutral = Bindings { program: 0, vertex_array: 0, draw_framebuffer: 0 };
    let mut g = controller();
    g.context_reset(Ok(resources())).unwrap();
    let empty = g.render_frame(7, &Vec::new());
    assert_eq!(
        empty,
        vec![
            GlCall::BindFramebuffer(7),
            GlCall::Viewport(1024, 512),
            GlCall::ClearColor,
            GlCall::UseProgram(0),
            GlCall::BindVertexArray(0),
            GlCall::BindFramebuffer(0),
        ]
    );
    assert_eq!(replay(start, &empty), neutral);
    let ops = vec![
        DrawOp::Triangle([v(0, 1), v(-1, -1), v(1, -1)]),
        DrawOp::Quad([v(0, 0), v(1, 0), v(0, 1), v(1, 1)]),
    ];
    let calls = g.render_frame(7, &ops);
    assert_eq!(replay(start, &calls), neutral);
    assert_eq!(triangle_count(&calls), 3);
}

#[test]
fn full_batch_is_drawn_before_more_triangles() {
    let mut g = controller();
    g.context_reset(Ok(resources())).unwrap();
    let ops = vec![DrawOp::Triangle([v(0, 1), v(-1, -1), v(1, -1)]); VERTEX_BUFFER_LEN / 3 + 1];
    let calls = g.render_frame(0, &ops);
    let draws: Vec<&GlCall> = calls.iter().filter(|c| matches!(c, GlCall::DrawTriangles(_, _))).collect();
    assert_eq!(draws.len(), 2);
    assert_eq!(*draws[0], GlCall::DrawTriangles(0, VERTEX_BUFFER_LEN));
    assert_eq!(*draws[1], GlCall::DrawTriangles(0, 3));
}

#[test]
fn viewport_follows_resolution() {
    let mut g = controller();
    g.context_reset(Ok(resources())).unwrap();
    g.render_frame(0, &vec![DrawOp::SetResolution(320, 240)]);
    assert_eq!(g.xres(), 320);
    let calls = g.render_frame(0, &Vec::new());
    assert_eq!(calls[1], GlCall::Viewport(320, 240));
}

#[test]
fn operations_update_config_without_context() {
    let mut g = controller();
    let calls = g.render_frame(0, &vec![DrawOp::SetDrawOffset(5, -5), DrawOp::SetDrawArea((1, 1), (2, 2))]);
    assert!(calls.is_empty());
    let c: DrawConfig = g.draw_config();
    assert_eq!(c.draw_offset, (5, -5));
    assert_eq!(c.draw_area_top_left, (1, 1));
    assert_eq!(c.draw_area_resolution, (2, 2));
}
