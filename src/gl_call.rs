use vstd::prelude::*;

verus! {

/// One vertex of the emulated GPU: a position in drawing coordinates and a colour.
#[derive(Clone, Copy, Debug, PartialEq, Eq)]
pub struct Vertex {
    pub position: (i16, i16),
    pub color: (u8, u8, u8),
}

impl Vertex {
    pub fn new(position: (i16, i16), color: (u8, u8, u8)) -> (r: Vertex)
        ensures
            r.position == position,
            r.color == color,
    {
        Vertex { position, color }
    }
}

/// A GPU command that the renderer asks its host to issue, in order.
#[derive(Clone, Debug, PartialEq, Eq)]
pub enum GlCall {
    /// Bind a framebuffer as the draw target (0 is the neutral binding).
    BindFramebuffer(u32),
    /// Set the viewport to the given width and height, anchored at the origin.
    Viewport(u16, u16),
    /// Clear the colour buffer of the bound framebuffer.
    ClearColor,
    /// Make a program current (0 is the neutral binding).
    UseProgram(u32),
    /// Bind a vertex array object (0 is the neutral binding).
    BindVertexArray(u32),
    /// Upload vertices at the start of a vertex buffer.
    BufferSubData(u32, Vec<Vertex>),
    /// Draw a flat list of independent triangles: first vertex, vertex count.
    DrawTriangles(usize, usize),
    DeleteBuffer(u32),
    DeleteVertexArray(u32),
    DeleteProgram(u32),
    DeleteShader(u32),
}

/// What the renderer binds on the GPU: current program, vertex array and
/// draw framebuffer.
#[derive(Clone, Copy, Debug, PartialEq, Eq)]
pub struct Bindings {
    pub program: u32,
    pub vertex_array: u32,
    pub draw_framebuffer: u32,
}

/// Nothing bound: the state the host expects to find after a frame.
pub open spec fn neutral() -> Bindings {
    Bindings { program: 0, vertex_array: 0, draw_framebuffer: 0 }
}

/// The bindings after issuing one command.
pub open spec fn apply(b: Bindings, c: GlCall) -> Bindings {
    match c {
        GlCall::UseProgram(p) => Bindings { program: p, vertex_array: b.vertex_array, draw_framebuffer: b.draw_framebuffer },
        GlCall::BindVertexArray(v) => Bindings { program: b.program, vertex_array: v, draw_framebuffer: b.draw_framebuffer },
        GlCall::BindFramebuffer(f) => Bindings { program: b.program, vertex_array: b.vertex_array, draw_framebuffer: f },
        _ => b,
    }
}

/// The bindings after issuing a sequence of commands, starting from `b`.
pub open spec fn run(b: Bindings, s: Seq<GlCall>) -> Bindings
    decreases s.len(),
{
    if s.len() == 0 {
        b
    } else {
        apply(run(b, s.drop_last()), s.last())
    }
}

/// The vertices that a command draws: its count for a triangle draw, else 0.
pub open spec fn drawn_vertices(c: GlCall) -> nat {
    match c {
        GlCall::DrawTriangles(_, n) => n as nat,
        _ => 0,
    }
}

/// The number of draw calls over triangles in a sequence of commands.
pub open spec fn draw_calls(s: Seq<GlCall>) -> nat
    decreases s.len(),
{
    if s.len() == 0 {
        0
    } else {
        draw_calls(s.drop_last()) + if s.last() is DrawTriangles { 1nat } else { 0nat }
    }
}

/// The number of triangles that a sequence of commands draws.
pub open spec fn triangles(s: Seq<GlCall>) -> nat
    decreases s.len(),
{
    if s.len() == 0 {
        0
    } else {
        triangles(s.drop_last()) + drawn_vertices(s.last()) / 3
    }
}

/// Issuing one more command changes the bindings by that command alone.
pub proof fn lemma_run_push(b: Bindings, s: Seq<GlCall>, c: GlCall)
    ensures
        run(b, s.push(c)) == apply(run(b, s), c),
        triangles(s.push(c)) == triangles(s) + drawn_vertices(c) / 3,
        draw_calls(s.push(c)) == draw_calls(s) + if c is DrawTriangles { 1nat } else { 0nat },
{
    assert(s.push(c).drop_last() =~= s);
}

/// Triangles drawn by two sequences in turn add up.
pub proof fn lemma_triangles_concat(a: Seq<GlCall>, b: Seq<GlCall>)
    ensures
        triangles(a + b) == triangles(a) + triangles(b),
    decreases b.len(),
{
    if b.len() == 0 {
        assert(a + b =~= a);
    } else {
        lemma_triangles_concat(a, b.drop_last());
        assert((a + b).drop_last() =~= a + b.drop_last());
    }
}

/// The three commands that hand the GPU back to the host.
pub open spec fn finish_calls() -> Seq<GlCall> {
    seq![GlCall::UseProgram(0), GlCall::BindVertexArray(0), GlCall::BindFramebuffer(0)]
}

/// Whatever came before, ending with the finishing commands leaves nothing bound.
pub proof fn lemma_finish_neutral(b: Bindings, s: Seq<GlCall>)
    ensures
        run(b, s + finish_calls()) == neutral(),
{
    let s1 = s.push(GlCall::UseProgram(0));
    let s2 = s1.push(GlCall::BindVertexArray(0));
    let s3 = s2.push(GlCall::BindFramebuffer(0));
    assert(s + finish_calls() =~= s3);
    lemma_run_push(b, s, GlCall::UseProgram(0));
    lemma_run_push(b, s1, GlCall::BindVertexArray(0));
    lemma_run_push(b, s2, GlCall::BindFramebuffer(0));
}

} // verus!
