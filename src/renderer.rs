use vstd::prelude::*;

use crate::draw_buffer::{DrawBuffer, GlResources};
use crate::draw_config::DrawConfig;
use crate::gl_call::{
    finish_calls, lemma_finish_neutral, lemma_triangles_concat, neutral, run, triangles, GlCall,
    Vertex,
};

verus! {

/// Vertices that one batch holds before it is drawn: a whole number of triangles.
pub const VERTEX_BUFFER_LEN: usize = 6144;

/// One drawing operation that the emulated GPU issues during a frame.
#[derive(Clone, Copy, Debug, PartialEq, Eq)]
pub enum DrawOp {
    Triangle([Vertex; 3]),
    Quad([Vertex; 4]),
    SetDrawOffset(i16, i16),
    SetDrawArea((u16, u16), (u16, u16)),
    SetResolution(u16, u16),
}

/// The configuration after one drawing operation.
pub open spec fn op_config(c: DrawConfig, op: DrawOp) -> DrawConfig {
    match op {
        DrawOp::SetDrawOffset(x, y) => DrawConfig { draw_offset: (x, y), ..c },
        DrawOp::SetDrawArea(t, r) => DrawConfig {
            draw_area_top_left: t,
            draw_area_resolution: r,
            ..c
        },
        DrawOp::SetResolution(x, y) => DrawConfig { xres: x, yres: y, ..c },
        _ => c,
    }
}

/// The configuration after a sequence of drawing operations.
pub open spec fn ops_config(c: DrawConfig, ops: Seq<DrawOp>) -> DrawConfig
    decreases ops.len(),
{
    if ops.len() == 0 {
        c
    } else {
        op_config(ops_config(c, ops.drop_last()), ops.last())
    }
}

/// Triangles that one drawing operation adds to the frame.
pub open spec fn op_triangles(op: DrawOp) -> nat {
    match op {
        DrawOp::Triangle(_) => 1,
        DrawOp::Quad(_) => 2,
        _ => 0,
    }
}

/// Triangles that a sequence of drawing operations adds to the frame.
pub open spec fn ops_triangles(ops: Seq<DrawOp>) -> nat
    decreases ops.len(),
{
    if ops.len() == 0 {
        0
    } else {
        ops_triangles(ops.drop_last()) + op_triangles(ops.last())
    }
}

/// The commands that open a frame on `framebuffer` at the given size.
pub open spec fn prepare_calls(framebuffer: u32, c: DrawConfig) -> Seq<GlCall> {
    seq![GlCall::BindFramebuffer(framebuffer), GlCall::Viewport(c.xres, c.yres), GlCall::ClearColor]
}

/// Why the controller could not be built.
#[derive(Clone, Copy, Debug, PartialEq, Eq)]
pub enum InitError {
    /// The host refused the 32-bit XRGB pixel format.
    PixelFormatRefused,
    /// The host could not set up a hardware context.
    HwContextRefused,
}

/// Why the GPU pipeline could not be built; each carries the driver's log.
#[derive(Clone, Debug, PartialEq, Eq)]
pub enum RendererError {
    CompileError(String),
    LinkError(String),
}

/// The renderer while a GPU context is current: configuration and the batch
/// that owns the GPU objects.
pub struct GlState {
    config: DrawConfig,
    buffer: DrawBuffer,
}

/// What the controller holds: only the configuration without a GPU
/// context, or the configuration and the GPU objects with one.
pub enum State {
    Dummy(DrawConfig),
    Active(GlState),
}

impl State {
    pub closed spec fn config(&self) -> DrawConfig {
        match self {
            State::Dummy(c) => *c,
            State::Active(g) => g.config,
        }
    }

    pub fn draw_config(&self) -> (r: DrawConfig)
        ensures
            r == self.config(),
    {
        match self {
            State::Dummy(c) => *c,
            State::Active(g) => g.config,
        }
    }
}

/// The renderer that the host drives: it owns one state at a time and
/// records, for the current frame, the GPU commands the host is to issue.
pub struct RetroGl {
    state: State,
    log: Vec<GlCall>,
}

impl RetroGl {
    pub closed spec fn config(&self) -> DrawConfig {
        self.state.config()
    }

    pub closed spec fn active(&self) -> bool {
        self.state is Active
    }

    /// The GPU objects of the active state.
    pub closed spec fn gl_resources(&self) -> GlResources {
        match self.state {
            State::Active(g) => g.buffer.spec_resources(),
            State::Dummy(_) => GlResources {
                vertex_shader: 0,
                fragment_shader: 0,
                program: 0,
                vertex_array: 0,
                vertex_buffer: 0,
            },
        }
    }

    /// Vertices pushed in this frame and not yet drawn.
    pub closed spec fn pending(&self) -> Seq<Vertex> {
        match self.state {
            State::Active(g) => g.buffer.contents(),
            State::Dummy(_) => Seq::empty(),
        }
    }

    /// Commands recorded in this frame and not yet handed out.
    pub closed spec fn recorded(&self) -> Seq<GlCall> {
        self.log@
    }

    /// Triangles of this frame so far: those in recorded draws and those pending.
    pub open spec fn frame_triangles(&self) -> nat {
        triangles(self.recorded()) + self.pending().len() / 3
    }

    pub closed spec fn wf(&self) -> bool {
        match self.state {
            State::Active(g) => {
                &&& g.buffer.wf()
                &&& g.buffer.spec_capacity() == VERTEX_BUFFER_LEN
                &&& g.buffer.contents().len() % 3 == 0
            },
            State::Dummy(_) => self.log@.len() == 0,
        }
    }

    /// What a context reset does: the configuration is kept; built GPU
    /// objects make the renderer active with an empty frame, a build error
    /// leaves it without GPU work.
    pub open spec fn reset_outcome(
        before: RetroGl,
        built: Result<GlResources, RendererError>,
        after: RetroGl,
        r: Result<(), RendererError>,
    ) -> bool {
        &&& after.wf()
        &&& after.config() == before.config()
        &&& after.recorded().len() == 0
        &&& after.pending().len() == 0
        &&& match built {
            Ok(res) => r is Ok && after.active() && after.gl_resources() == res,
            Err(e) => r == Err::<(), RendererError>(e) && !after.active(),
        }
    }

    /// What a context destroy does: the configuration is kept and no GPU
    /// object is left.
    pub open spec fn destroy_outcome(before: RetroGl, after: RetroGl) -> bool {
        &&& after.wf()
        &&& after.config() == before.config()
        &&& !after.active()
    }

    /// The commands that release GPU objects: buffer, then program, then shaders.
    pub open spec fn release_sequence(res: GlResources) -> Seq<GlCall> {
        seq![
            GlCall::DeleteBuffer(res.vertex_buffer),
            GlCall::DeleteVertexArray(res.vertex_array),
            GlCall::DeleteProgram(res.program),
            GlCall::DeleteShader(res.vertex_shader),
            GlCall::DeleteShader(res.fragment_shader),
        ]
    }

    /// Builds the controller without a GPU context, once the host has
    /// accepted the pixel format and set up a hardware context.
    pub fn new(pixel_format_accepted: bool, hw_context_ready: bool) -> (r: Result<RetroGl, InitError>)
        ensures
            !pixel_format_accepted ==> r == Err::<RetroGl, InitError>(InitError::PixelFormatRefused),
            pixel_format_accepted && !hw_context_ready ==> r == Err::<RetroGl, InitError>(
                InitError::HwContextRefused,
            ),
            pixel_format_accepted && hw_context_ready ==> (r matches Ok(g) && {
                &&& g.wf()
                &&& !g.active()
                &&& g.config() == DrawConfig::startup()
            }),
    {
        if !pixel_format_accepted {
            return Err(InitError::PixelFormatRefused);
        }
        if !hw_context_ready {
            return Err(InitError::HwContextRefused);
        }
        Ok(RetroGl { state: State::Dummy(DrawConfig::new_default()), log: Vec::new() })
    }

    /// Takes the outcome of building the GPU pipeline in a fresh context.
    pub fn context_reset(&mut self, built: Result<GlResources, RendererError>) -> (r: Result<
        (),
        RendererError,
    >)
        requires
            old(self).wf(),
        ensures
            RetroGl::reset_outcome(*old(self), built, *final(self), r),
    {
        let config = self.state.draw_config();
        self.log = Vec::new();
        match built {
            Ok(res) => {
                let buffer = DrawBuffer::new(VERTEX_BUFFER_LEN, res);
                self.state = State::Active(GlState { config, buffer });
                Ok(())
            },
            Err(e) => {
                self.state = State::Dummy(config);
                Err(e)
            },
        }
    }

    /// Drops to the state without GPU objects, returning the commands that
    /// release them while the context is still current.
    pub fn context_destroy(&mut self) -> (r: Vec<GlCall>)
        requires
            old(self).wf(),
        ensures
            RetroGl::destroy_outcome(*old(self), *final(self)),
            old(self).active() ==> r@ == RetroGl::release_sequence(old(self).gl_resources()),
            !old(self).active() ==> r@.len() == 0,
    {
        let config = self.state.draw_config();
        let r = match &self.state {
            State::Active(g) => {
                let res = g.buffer.resources();
                vec![
                    GlCall::DeleteBuffer(res.vertex_buffer),
                    GlCall::DeleteVertexArray(res.vertex_array),
                    GlCall::DeleteProgram(res.program),
                    GlCall::DeleteShader(res.vertex_shader),
                    GlCall::DeleteShader(res.fragment_shader),
                ]
            },
            State::Dummy(_) => Vec::new(),
        };
        self.state = State::Dummy(config);
        self.log = Vec::new();
        r
    }

    pub fn is_active(&self) -> (r: bool)
        ensures
            r == self.active(),
    {
        match self.state {
            State::Active(_) => true,
            State::Dummy(_) => false,
        }
    }

    pub fn draw_config(&self) -> (r: DrawConfig)
        ensures
            r == self.config(),
    {
        self.state.draw_config()
    }

    pub fn xres(&self) -> (r: u16)
        ensures
            r == self.config().xres,
    {
        self.state.draw_config().xres
    }

    pub fn yres(&self) -> (r: u16)
        ensures
            r == self.config().yres,
    {
        self.state.draw_config().yres
    }
    /// Starts a frame on the host's framebuffer: bind it, size the viewport
    /// to the current resolution, clear it. Without a GPU context nothing is
    /// recorded.
    pub fn begin_frame(&mut self, framebuffer: u32)
        requires
            old(self).wf(),
        ensures
            final(self).wf(),
            final(self).config() == old(self).config(),
            final(self).active() == old(self).active(),
            final(self).gl_resources() == old(self).gl_resources(),
            final(self).pending().len() == 0,
            old(self).active() ==> final(self).recorded() == prepare_calls(
                framebuffer,
                old(self).config(),
            ),
            !old(self).active() ==> final(self).recorded().len() == 0,
            final(self).frame_triangles() == 0,
    {
        proof {
            let p = prepare_calls(framebuffer, old(self).config());
            assert(p.drop_last().drop_last().drop_last() =~= Seq::<GlCall>::empty());
            reveal_with_fuel(triangles, 4);
        }
        match &mut self.state {
            State::Active(g) => {
                g.buffer.clear();
                self.log = vec![
                    GlCall::BindFramebuffer(framebuffer),
                    GlCall::Viewport(g.config.xres, g.config.yres),
                    GlCall::ClearColor,
                ];
            },
            State::Dummy(_) => {},
        }
    }

    /// Records the draw of the pending vertices, if any, and empties the batch.
    fn flush(&mut self)
        requires
            old(self).wf(),
        ensures
            final(self).wf(),
            final(self).config() == old(self).config(),
            final(self).active() == old(self).active(),
            final(self).gl_resources() == old(self).gl_resources(),
            final(self).pending().len() == 0,
            old(self).pending().len() == 0 ==> final(self).recorded() == old(self).recorded(),
            old(self).pending().len() > 0 ==> RetroGl::records_draw(
                old(self).recorded(),
                old(self).gl_resources(),
                old(self).pending(),
                final(self).recorded(),
            ),
            final(self).frame_triangles() == old(self).frame_triangles(),
    {
        match &mut self.state {
            State::Active(g) => {
                if g.buffer.len() > 0 {
                    let ghost before = self.log@;
                    let mut calls = g.buffer.draw_triangles();
                    let ghost drawn = calls@;
                    self.log.append(&mut calls);
                    assert(self.log@.subrange(0, before.len() as int) =~= before);
                    assert(self.log@.subrange(before.len() as int, self.log@.len() as int) =~= drawn);
                    proof {
                        assert(self.log@ =~= before + drawn);
                        lemma_triangles_concat(before, drawn);
                        DrawBuffer::lemma_draw_sequence_triangles(
                            g.buffer.spec_resources(),
                            g.buffer.contents(),
                            drawn,
                        );
                    }
                    g.buffer.clear();
                }
            },
            State::Dummy(_) => {},
        }
    }

    /// `after` is `before` followed by the commands that draw `batch`.
    pub open spec fn records_draw(
        before: Seq<GlCall>,
        res: GlResources,
        batch: Seq<Vertex>,
        after: Seq<GlCall>,
    ) -> bool {
        &&& after.len() == before.len() + 4
        &&& after.subrange(0, before.len() as int) == before
        &&& DrawBuffer::draw_sequence(res, batch, after.subrange(before.len() as int, after.len() as int))
    }

    /// Adds a triangle to the frame. A full batch is drawn first, so the
    /// triangle is never refused. Without a GPU context nothing happens.
    pub fn push_triangle(&mut self, vertices: [Vertex; 3])
        requires
            old(self).wf(),
        ensures
            final(self).wf(),
            final(self).config() == old(self).config(),
            final(self).active() == old(self).active(),
            final(self).gl_resources() == old(self).gl_resources(),
            final(self).recorded().len() >= old(self).recorded().len(),
            final(self).recorded().subrange(0, old(self).recorded().len() as int)
                == old(self).recorded(),
            !old(self).active() ==> final(self).recorded() == old(self).recorded()
                && final(self).pending().len() == 0,
            old(self).active() && old(self).pending().len() + 3 <= VERTEX_BUFFER_LEN ==> {
                &&& final(self).pending() == old(self).pending() + vertices@
                &&& final(self).recorded() == old(self).recorded()
            },
            old(self).active() && old(self).pending().len() + 3 > VERTEX_BUFFER_LEN ==> {
                &&& final(self).pending() == vertices@
                &&& RetroGl::records_draw(
                    old(self).recorded(),
                    old(self).gl_resources(),
                    old(self).pending(),
                    final(self).recorded(),
                )
            },
            final(self).frame_triangles() == old(self).frame_triangles() + if old(self).active() {
                1nat
            } else {
                0nat
            },
    {
        if !self.is_active() {
            return;
        }
        let full = match &self.state {
            State::Active(g) => g.buffer.remaining_capacity() < 3,
            State::Dummy(_) => false,
        };
        if full {
            self.flush();
        }
        let batch: Vec<Vertex> = vec![vertices[0], vertices[1], vertices[2]];
        assert(batch@ =~= vertices@);
        match &mut self.state {
            State::Active(g) => {
                let pushed = g.buffer.push_slice(batch.as_slice());
                assert(pushed is Ok);
            },
            State::Dummy(_) => {},
        }
    }

    /// Adds a quad to the frame as two triangles sharing the edge from its
    /// second to its third vertex.
    pub fn push_quad(&mut self, vertices: [Vertex; 4])
        requires
            old(self).wf(),
        ensures
            final(self).wf(),
            final(self).config() == old(self).config(),
            final(self).active() == old(self).active(),
            final(self).gl_resources() == old(self).gl_resources(),
            final(self).recorded().len() >= old(self).recorded().len(),
            final(self).recorded().subrange(0, old(self).recorded().len() as int)
                == old(self).recorded(),
            !old(self).active() ==> final(self).recorded() == old(self).recorded(),
            old(self).active() && old(self).pending().len() + 6 <= VERTEX_BUFFER_LEN ==> {
                &&& final(self).pending() == old(self).pending() + seq![
                    vertices[0],
                    vertices[1],
                    vertices[2],
                    vertices[1],
                    vertices[2],
                    vertices[3],
                ]
                &&& final(self).recorded() == old(self).recorded()
            },
            final(self).frame_triangles() == old(self).frame_triangles() + if old(self).active() {
                2nat
            } else {
                0nat
            },
    {
        let ghost start = self.log@;
        self.push_triangle([vertices[0], vertices[1], vertices[2]]);
        let ghost mid = self.log@;
        self.push_triangle([vertices[1], vertices[2], vertices[3]]);
        proof {
            assert(self.log@.subrange(0, start.len() as int) =~= mid.subrange(
                0,
                start.len() as int,
            ));
            if old(self).active() && old(self).pending().len() + 6 <= VERTEX_BUFFER_LEN {
                assert(self.pending() =~= old(self).pending() + seq![
                    vertices[0],
                    vertices[1],
                    vertices[2],
                    vertices[1],
                    vertices[2],
                    vertices[3],
                ]);
            }
        }
    }

    /// Sets the offset added to drawing coordinates.
    pub fn set_draw_offset(&mut self, x: i16, y: i16)
        requires
            old(self).wf(),
        ensures
            final(self).wf(),
            final(self).config() == (DrawConfig { draw_offset: (x, y), ..old(self).config() }),
            final(self).active() == old(self).active(),
            final(self).gl_resources() == old(self).gl_resources(),
            final(self).pending() == old(self).pending(),
            final(self).recorded() == old(self).recorded(),
    {
        match &mut self.state {
            State::Active(g) => g.config.draw_offset = (x, y),
            State::Dummy(c) => c.draw_offset = (x, y),
        }
    }

    /// Sets the clip rectangle that drawing is limited to.
    pub fn set_draw_area(&mut self, top_left: (u16, u16), resolution: (u16, u16))
        requires
            old(self).wf(),
        ensures
            final(self).wf(),
            final(self).config() == (DrawConfig {
                draw_area_top_left: top_left,
                draw_area_resolution: resolution,
                ..old(self).config()
            }),
            final(self).active() == old(self).active(),
            final(self).gl_resources() == old(self).gl_resources(),
            final(self).pending() == old(self).pending(),
            final(self).recorded() == old(self).recorded(),
    {
        match &mut self.state {
            State::Active(g) => {
                g.config.draw_area_top_left = top_left;
                g.config.draw_area_resolution = resolution;
            },
            State::Dummy(c) => {
                c.draw_area_top_left = top_left;
                c.draw_area_resolution = resolution;
            },
        }
    }

    /// Sets the output resolution used by the next frame's viewport.
    pub fn set_resolution(&mut self, xres: u16, yres: u16)
        requires
            old(self).wf(),
        ensures
            final(self).wf(),
            final(self).config() == (DrawConfig { xres, yres, ..old(self).config() }),
            final(self).active() == old(self).active(),
            final(self).gl_resources() == old(self).gl_resources(),
            final(self).pending() == old(self).pending(),
            final(self).recorded() == old(self).recorded(),
    {
        match &mut self.state {
            State::Active(g) => {
                g.config.xres = xres;
                g.config.yres = yres;
            },
            State::Dummy(c) => {
                c.xres = xres;
                c.yres = yres;
            },
        }
    }

    /// Ends the frame: draws what is pending, then unbinds program, vertex
    /// array and draw framebuffer, and hands out the frame's commands.
    /// Whatever the frame recorded, the GPU is left with nothing bound.
    pub fn end_frame(&mut self) -> (r: Vec<GlCall>)
        requires
            old(self).wf(),
        ensures
            final(self).wf(),
            final(self).config() == old(self).config(),
            final(self).active() == old(self).active(),
            final(self).gl_resources() == old(self).gl_resources(),
            final(self).pending().len() == 0,
            final(self).recorded().len() == 0,
            old(self).active() ==> forall|b| #[trigger] run(b, r@) == neutral(),
            old(self).active() ==> r@.subrange(r@.len() - 3, r@.len() as int) == finish_calls(),
            old(self).active() && old(self).pending().len() == 0 ==> r@ == old(self).recorded()
                + finish_calls(),
            old(self).active() && old(self).pending().len() > 0 ==> {
                &&& r@.len() == old(self).recorded().len() + 7
                &&& RetroGl::records_draw(
                    old(self).recorded(),
                    old(self).gl_resources(),
                    old(self).pending(),
                    r@.subrange(0, r@.len() - 3),
                )
            },
            !old(self).active() ==> r@.len() == 0,
            old(self).active() ==> triangles(r@) == old(self).frame_triangles(),
    {
        if !self.is_active() {
            return Vec::new();
        }
        self.flush();
        let ghost body = self.log@;
        self.log.push(GlCall::UseProgram(0));
        self.log.push(GlCall::BindVertexArray(0));
        self.log.push(GlCall::BindFramebuffer(0));
        let mut r: Vec<GlCall> = Vec::new();
        r.append(&mut self.log);
        proof {
            assert(r@ =~= body + finish_calls());
            assert(r@.subrange(0, r@.len() - 3) =~= body);
            assert(r@.subrange(r@.len() - 3, r@.len() as int) =~= finish_calls());
            assert forall|b| #[trigger] run(b, r@) == neutral() by {
                lemma_finish_neutral(b, body);
            }
            lemma_triangles_concat(body, finish_calls());
            assert(finish_calls().drop_last().drop_last().drop_last() =~= Seq::<GlCall>::empty());
            reveal_with_fuel(triangles, 4);
        }
        r
    }

    /// Applies one drawing operation of the frame.
    pub fn apply_op(&mut self, op: DrawOp)
        requires
            old(self).wf(),
        ensures
            final(self).wf(),
            final(self).config() == op_config(old(self).config(), op),
            final(self).active() == old(self).active(),
            final(self).gl_resources() == old(self).gl_resources(),
            !old(self).active() ==> final(self).recorded() == old(self).recorded(),
            final(self).recorded().len() >= old(self).recorded().len(),
            final(self).recorded().subrange(0, old(self).recorded().len() as int)
                == old(self).recorded(),
            final(self).frame_triangles() == old(self).frame_triangles() + if old(self).active() {
                op_triangles(op)
            } else {
                0nat
            },
    {
        match op {
            DrawOp::Triangle(v) => self.push_triangle(v),
            DrawOp::Quad(v) => self.push_quad(v),
            DrawOp::SetDrawOffset(x, y) => self.set_draw_offset(x, y),
            DrawOp::SetDrawArea(t, r) => self.set_draw_area(t, r),
            DrawOp::SetResolution(x, y) => self.set_resolution(x, y),
        }
        proof {
            assert(self.recorded().subrange(0, old(self).recorded().len() as int)
                =~= old(self).recorded()) by {
                if !(op is Triangle) && !(op is Quad) {
                    assert(self.recorded() == old(self).recorded());
                }
            }
        }
    }

    /// Renders one frame on the host's framebuffer: prepare, the emulated
    /// GPU's drawing operations in order, then finish. The finishing step
    /// runs whatever the operations were, so the GPU is always left with no
    /// program, vertex array or draw framebuffer bound. Without a GPU context
    /// no command is produced, but the operations still update the
    /// configuration.
    pub fn render_frame(&mut self, framebuffer: u32, ops: &Vec<DrawOp>) -> (r: Vec<GlCall>)
        requires
            old(self).wf(),
        ensures
            final(self).wf(),
            final(self).config() == ops_config(old(self).config(), ops@),
            final(self).active() == old(self).active(),
            final(self).gl_resources() == old(self).gl_resources(),
            final(self).pending().len() == 0,
            final(self).recorded().len() == 0,
            old(self).active() ==> forall|b| #[trigger] run(b, r@) == neutral(),
            old(self).active() ==> r@.subrange(0, 3) == prepare_calls(
                framebuffer,
                old(self).config(),
            ),
            old(self).active() ==> r@.subrange(r@.len() - 3, r@.len() as int) == finish_calls(),
            !old(self).active() ==> r@.len() == 0,
            old(self).active() ==> triangles(r@) == ops_triangles(ops@),
    {
        self.begin_frame(framebuffer);
        let ghost prepared = self.log@;
        let mut i: usize = 0;
        while i < ops.len()
            invariant
                self.wf(),
                i <= ops@.len(),
                self.config() == ops_config(old(self).config(), ops@.subrange(0, i as int)),
                self.active() == old(self).active(),
                self.gl_resources() == old(self).gl_resources(),
                old(self).active() ==> prepared == prepare_calls(framebuffer, old(self).config()),
                !old(self).active() ==> self.recorded().len() == 0,
                self.recorded().len() >= 3 || !old(self).active(),
                old(self).active() ==> self.frame_triangles() == ops_triangles(
                    ops@.subrange(0, i as int),
                ),
                old(self).active() ==> self.recorded().subrange(0, 3) == prepared,
            decreases ops@.len() - i,
        {
            let ghost before = self.log@;
            self.apply_op(ops[i]);
            proof {
                assert(ops@.subrange(0, i + 1).drop_last() =~= ops@.subrange(0, i as int));
                if old(self).active() {
                    assert(self.recorded().subrange(0, 3) =~= before.subrange(0, 3));
                }
            }
            i = i + 1;
        }
        assert(ops@.subrange(0, i as int) =~= ops@);
        let ghost body = self.log@;
        let r = self.end_frame();
        proof {
            if old(self).active() {
                assert(r@.subrange(0, 3) =~= body.subrange(0, 3));
            }
        }
        r
    }
}

/// Resetting the context and destroying it again hands back the
/// configuration that was there before, whether or not the pipeline built.
pub proof fn lemma_config_round_trip(
    g0: RetroGl,
    built: Result<GlResources, RendererError>,
    g1: RetroGl,
    r: Result<(), RendererError>,
    g2: RetroGl,
)
    requires
        RetroGl::reset_outcome(g0, built, g1, r),
        RetroGl::destroy_outcome(g1, g2),
    ensures
        g2.config() == g0.config(),
        !g2.active(),
{
}

} // verus!
