use vstd::prelude::*;

use crate::gl_call::{draw_calls, triangles, GlCall, Vertex};

verus! {

/// Why a batch refused vertices.
#[derive(Clone, Copy, Debug, PartialEq, Eq)]
pub enum DrawError {
    /// The batch would hold more vertices than the buffer was sized for.
    CapacityExceeded,
}

/// Native handles of the GPU objects that a draw buffer owns.
#[derive(Clone, Copy, Debug, PartialEq, Eq)]
pub struct GlResources {
    pub vertex_shader: u32,
    pub fragment_shader: u32,
    pub program: u32,
    pub vertex_array: u32,
    pub vertex_buffer: u32,
}

/// A batch of vertices bound for one vertex buffer of fixed capacity, drawn
/// as independent triangles through one program and one vertex array.
pub struct DrawBuffer {
    vertices: Vec<Vertex>,
    capacity: usize,
    resources: GlResources,
}

impl DrawBuffer {
    /// The vertices of the current batch.
    pub closed spec fn contents(&self) -> Seq<Vertex> {
        self.vertices@
    }

    pub closed spec fn spec_capacity(&self) -> nat {
        self.capacity as nat
    }

    pub closed spec fn spec_resources(&self) -> GlResources {
        self.resources
    }

    /// The batch never holds more vertices than the buffer was sized for.
    pub open spec fn wf(&self) -> bool {
        self.contents().len() <= self.spec_capacity()
    }

    /// The commands that draw a batch: bind, upload, then one triangle draw.
    pub open spec fn draw_sequence(res: GlResources, batch: Seq<Vertex>, s: Seq<GlCall>) -> bool {
        &&& s.len() == 4
        &&& s[0] == GlCall::UseProgram(res.program)
        &&& s[1] == GlCall::BindVertexArray(res.vertex_array)
        &&& (s[2] matches GlCall::BufferSubData(buf, data) && buf == res.vertex_buffer && data@ == batch)
        &&& s[3] == GlCall::DrawTriangles(0, batch.len() as usize)
    }

    /// What appending `v` to `before` gives: the batch grows by `v` when it
    /// fits, and is left as it was, with `CapacityExceeded`, when it does not.
    /// Capacity and GPU objects never change.
    pub open spec fn push_outcome(
        before: DrawBuffer,
        v: Seq<Vertex>,
        after: DrawBuffer,
        r: Result<(), DrawError>,
    ) -> bool {
        &&& after.wf()
        &&& after.spec_capacity() == before.spec_capacity()
        &&& after.spec_resources() == before.spec_resources()
        &&& if before.contents().len() + v.len() <= before.spec_capacity() {
            &&& r is Ok
            &&& after.contents() == before.contents() + v
        } else {
            &&& r == Err::<(), DrawError>(DrawError::CapacityExceeded)
            &&& after.contents() == before.contents()
        }
    }

    /// What emptying `before` gives: no vertices, same capacity and GPU objects.
    pub open spec fn clear_outcome(before: DrawBuffer, after: DrawBuffer) -> bool {
        &&& after.wf()
        &&& after.contents().len() == 0
        &&& after.spec_capacity() == before.spec_capacity()
        &&& after.spec_resources() == before.spec_resources()
    }

    /// The commands that draw a batch draw a third of its vertices as triangles.
    pub proof fn lemma_draw_sequence_triangles(res: GlResources, batch: Seq<Vertex>, s: Seq<GlCall>)
        requires
            DrawBuffer::draw_sequence(res, batch, s),
            batch.len() <= usize::MAX,
        ensures
            triangles(s) == batch.len() / 3,
    {
        assert(s.drop_last().drop_last().drop_last().drop_last() =~= Seq::<GlCall>::empty());
        reveal_with_fuel(triangles, 5);
    }

    pub fn new(capacity: usize, resources: GlResources) -> (r: DrawBuffer)
        ensures
            r.wf(),
            r.contents().len() == 0,
            r.spec_capacity() == capacity,
            r.spec_resources() == resources,
    {
        DrawBuffer { vertices: Vec::with_capacity(capacity), capacity, resources }
    }

    pub fn len(&self) -> (r: usize)
        ensures
            r == self.contents().len(),
    {
        self.vertices.len()
    }

    pub fn capacity(&self) -> (r: usize)
        ensures
            r == self.spec_capacity(),
    {
        self.capacity
    }

    pub fn resources(&self) -> (r: GlResources)
        ensures
            r == self.spec_resources(),
    {
        self.resources
    }

    pub fn remaining_capacity(&self) -> (r: usize)
        requires
            self.wf(),
        ensures
            r == self.spec_capacity() - self.contents().len(),
    {
        self.capacity - self.vertices.len()
    }

    /// Appends `v` to the batch, whole or not at all.
    pub fn push_slice(&mut self, v: &[Vertex]) -> (r: Result<(), DrawError>)
        requires
            old(self).wf(),
        ensures
            DrawBuffer::push_outcome(*old(self), v@, *final(self), r),
    {
        if v.len() > self.capacity - self.vertices.len() {
            return Err(DrawError::CapacityExceeded);
        }
        let ghost start = self.vertices@;
        let mut i: usize = 0;
        while i < v.len()
            invariant
                i <= v@.len(),
                self.capacity == old(self).capacity,
                self.resources == old(self).resources,
                start == old(self).vertices@,
                start.len() + v@.len() <= self.capacity,
                self.vertices@ == start + v@.subrange(0, i as int),
            decreases v@.len() - i,
        {
            self.vertices.push(v[i]);
            i = i + 1;
            assert(v@.subrange(0, i as int) =~= v@.subrange(0, (i - 1) as int).push(v@[i - 1]));
        }
        assert(v@.subrange(0, i as int) =~= v@);
        Ok(())
    }

    /// The commands that draw the current batch as independent triangles.
    pub fn draw_triangles(&self) -> (r: Vec<GlCall>)
        requires
            self.wf(),
            self.contents().len() % 3 == 0,
        ensures
            DrawBuffer::draw_sequence(self.spec_resources(), self.contents(), r@),
            draw_calls(r@) == 1,
            triangles(r@) == self.contents().len() / 3,
    {
        let mut data: Vec<Vertex> = Vec::with_capacity(self.vertices.len());
        let mut i: usize = 0;
        while i < self.vertices.len()
            invariant
                i <= self.vertices@.len(),
                data@ == self.vertices@.subrange(0, i as int),
            decreases self.vertices@.len() - i,
        {
            data.push(self.vertices[i]);
            i = i + 1;
            assert(data@ =~= self.vertices@.subrange(0, i as int));
        }
        assert(data@ =~= self.vertices@);
        let n = self.vertices.len();
        let r = vec![
            GlCall::UseProgram(self.resources.program),
            GlCall::BindVertexArray(self.resources.vertex_array),
            GlCall::BufferSubData(self.resources.vertex_buffer, data),
            GlCall::DrawTriangles(0, n),
        ];
        proof {
            let s = r@;
            assert(s.drop_last().drop_last().drop_last().drop_last() =~= Seq::<GlCall>::empty());
            reveal_with_fuel(draw_calls, 5);
            reveal_with_fuel(triangles, 5);
        }
        r
    }

    /// Empties the batch; the buffer keeps its capacity and its GPU objects.
    pub fn clear(&mut self)
        requires
            old(self).wf(),
        ensures
            DrawBuffer::clear_outcome(*old(self), *final(self)),
    {
        self.vertices.clear();
    }
}

/// A batch that fits, once emptied, takes the same vertices again: neither
/// push fails and the capacity stays what it was.
pub proof fn lemma_refill_after_clear(
    b0: DrawBuffer,
    v: Seq<Vertex>,
    b1: DrawBuffer,
    r1: Result<(), DrawError>,
    b2: DrawBuffer,
    b3: DrawBuffer,
    r3: Result<(), DrawError>,
)
    requires
        b0.wf(),
        b0.contents().len() == 0,
        v.len() <= b0.spec_capacity(),
        DrawBuffer::push_outcome(b0, v, b1, r1),
        DrawBuffer::clear_outcome(b1, b2),
        DrawBuffer::push_outcome(b2, v, b3, r3),
    ensures
        r1 is Ok,
        r3 is Ok,
        b3.contents() == v,
        b3.spec_capacity() == b0.spec_capacity(),
{
    assert(b2.contents() + v =~= v);
}

/// A slice longer than the room left is refused whole: the batch keeps the
/// vertices it had.
pub proof fn lemma_overflow_refused(
    b0: DrawBuffer,
    v: Seq<Vertex>,
    b1: DrawBuffer,
    r: Result<(), DrawError>,
)
    requires
        b0.wf(),
        v.len() == b0.spec_capacity() + 1,
        DrawBuffer::push_outcome(b0, v, b1, r),
    ensures
        r == Err::<(), DrawError>(DrawError::CapacityExceeded),
        b1.contents() == b0.contents(),
        b1.contents().len() == b0.contents().len(),
{
}

} // verus!
