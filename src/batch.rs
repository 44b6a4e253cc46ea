use vstd::prelude::*;

verus! {

/// Number of vertices that 16-bit indices can address within one batch.
pub const MAX_BATCH_VERTICES: usize = 65536;

/// Size in bytes of one entry of an index buffer (`u16`).
pub const INDEX_SIZE: u64 = 2;

/// Widest vertex layout a batch accepts, in bytes: the default limit that
/// WebGPU puts on a vertex buffer's array stride.
pub const MAX_VERTEX_STRIDE: u64 = 2048;

/// Errors that pushing geometry into a batch can report.
#[derive(Clone, Copy, Debug, PartialEq, Eq)]
pub enum RenderError {
    /// The atlas holds no cell for this character.
    UnsupportedGlyph { c: char },
    /// One more quad would need vertex numbers beyond the 16-bit index range.
    IndexOverflow,
}

/// What to do with one GPU buffer so that it holds a batch's current contents.
#[derive(Clone, Copy, Debug, PartialEq, Eq, Structural)]
pub enum BufferUpdate {
    /// Write the contents into the existing buffer from offset zero; any bytes
    /// past them are left as they were.
    Write,
    /// Release the buffer and create one of exactly `size` bytes holding the
    /// contents.
    Reallocate { size: u64 },
}

/// The grow-only policy: reallocate only when the buffer is too small.
pub open spec fn buffer_update(capacity: int, needed: int) -> BufferUpdate {
    if capacity < needed {
        BufferUpdate::Reallocate { size: needed as u64 }
    } else {
        BufferUpdate::Write
    }
}

/// Capacity of a buffer once `buffer_update` has been carried out.
pub open spec fn capacity_after(capacity: int, needed: int) -> int {
    if capacity < needed {
        needed
    } else {
        capacity
    }
}

/// The six indices of the two triangles `(0, 1, 2)` and `(0, 2, 3)` of a quad
/// whose first vertex has number `start`.
pub open spec fn quad_indices(start: int) -> Seq<u16> {
    seq![
        start as u16,
        (start + 1) as u16,
        (start + 2) as u16,
        start as u16,
        (start + 2) as u16,
        (start + 3) as u16,
    ]
}

/// Buffer updates for the vertex and the index buffer of one batch.
#[derive(Clone, Copy, Debug, PartialEq, Eq, Structural)]
pub struct UploadPlan {
    pub vertex: BufferUpdate,
    pub index: BufferUpdate,
}

/// One indexed draw of a batch, after its buffers were brought up to date.
#[derive(Clone, Copy, Debug, PartialEq, Eq, Structural)]
pub struct DrawCall {
    pub upload: UploadPlan,
    pub index_count: u32,
}

/// CPU-side geometry of one draw call per frame, together with the sizes of
/// the GPU buffers that back it.
///
/// A frame goes clear, pushes, upload, flush. Pushing after an upload is
/// allowed: the next upload or flush plans again from the whole contents, so
/// the draw always covers every quad pushed since the last clear.
pub struct Batch<V> {
    vertices: Vec<V>,
    indices: Vec<u16>,
    has_data: bool,
    vertex_stride: u64,
    vertex_capacity: u64,
    index_capacity: u64,
}

impl<V> Batch<V> {
    /// The vertices pushed since the last clear, in order.
    pub closed spec fn verts(&self) -> Seq<V> {
        self.vertices@
    }

    /// The indices pushed since the last clear, in order.
    pub closed spec fn idxs(&self) -> Seq<u16> {
        self.indices@
    }

    /// Whether something was pushed since the last clear.
    pub closed spec fn pending(&self) -> bool {
        self.has_data
    }

    /// Size in bytes of one vertex on the GPU.
    pub closed spec fn stride(&self) -> int {
        self.vertex_stride as int
    }

    /// Size in bytes of the GPU vertex buffer.
    pub closed spec fn vcap(&self) -> int {
        self.vertex_capacity as int
    }

    /// Size in bytes of the GPU index buffer.
    pub closed spec fn icap(&self) -> int {
        self.index_capacity as int
    }

    pub open spec fn vertex_bytes(&self) -> int {
        self.verts().len() * self.stride()
    }

    pub open spec fn index_bytes(&self) -> int {
        self.idxs().len() * INDEX_SIZE
    }

    /// Well-formedness: whole quads, indices that name pushed vertices, and a
    /// pending flag that tells whether there are any.
    pub closed spec fn wf(&self) -> bool {
        &&& self.vertices.len() <= MAX_BATCH_VERTICES
        &&& self.vertices.len() % 4 == 0
        &&& self.indices.len() * 2 == self.vertices.len() * 3
        &&& self.has_data == (self.vertices.len() > 0)
        &&& self.vertex_stride <= MAX_VERTEX_STRIDE
        &&& forall|i: int| 0 <= i < self.indices.len() ==> self.indices@[i] < self.vertices.len()
    }

    /// The plan that `upload_data` follows on a non-empty batch.
    pub open spec fn plan(&self) -> UploadPlan {
        UploadPlan {
            vertex: buffer_update(self.vcap(), self.vertex_bytes()),
            index: buffer_update(self.icap(), self.index_bytes()),
        }
    }

    /// What `upload_data` returns.
    pub open spec fn upload_spec(&self) -> Option<UploadPlan> {
        if self.verts().len() == 0 {
            None
        } else {
            Some(self.plan())
        }
    }

    /// What `flush` returns.
    pub open spec fn flush_spec(&self) -> Option<DrawCall> {
        if self.pending() {
            Some(DrawCall { upload: self.plan(), index_count: self.idxs().len() as u32 })
        } else {
            None
        }
    }

    /// `next` is this batch with its GPU buffers brought up to date: same
    /// contents, and buffer sizes grown where they were too small.
    pub open spec fn uploaded_to(&self, next: Batch<V>) -> bool {
        &&& next.verts() == self.verts()
        &&& next.idxs() == self.idxs()
        &&& next.pending() == self.pending()
        &&& next.stride() == self.stride()
        &&& if self.verts().len() == 0 {
            next.vcap() == self.vcap() && next.icap() == self.icap()
        } else {
            &&& next.vcap() == capacity_after(self.vcap(), self.vertex_bytes())
            &&& next.icap() == capacity_after(self.icap(), self.index_bytes())
        }
    }

    pub proof fn lemma_wf_bounds(&self)
        requires
            self.wf(),
        ensures
            self.verts().len() <= MAX_BATCH_VERTICES,
            self.idxs().len() * 2 == self.verts().len() * 3,
            self.stride() <= MAX_VERTEX_STRIDE,
            self.pending() == (self.verts().len() > 0),
            0 <= self.vertex_bytes() <= MAX_BATCH_VERTICES * MAX_VERTEX_STRIDE,
            0 <= self.index_bytes() <= MAX_BATCH_VERTICES * 3,
    {
        let n = self.vertices.len() as int;
        let s = self.vertex_stride as int;
        assert(0 <= n * s <= MAX_BATCH_VERTICES * MAX_VERTEX_STRIDE) by (nonlinear_arith)
            requires
                0 <= n <= MAX_BATCH_VERTICES,
                0 <= s <= MAX_VERTEX_STRIDE,
        ;
    }

    /// An empty batch whose GPU buffers are empty too.
    pub fn new(vertex_stride: u64) -> (r: Self)
        requires
            vertex_stride <= MAX_VERTEX_STRIDE,
        ensures
            r.wf(),
            r.verts().len() == 0,
            r.idxs().len() == 0,
            !r.pending(),
            r.stride() == vertex_stride,
            r.vcap() == 0,
            r.icap() == 0,
    {
        Batch {
            vertices: Vec::new(),
            indices: Vec::new(),
            has_data: false,
            vertex_stride,
            vertex_capacity: 0,
            index_capacity: 0,
        }
    }

    /// Appends one quad: its four corners in order, and the indices of the
    /// triangles `(0, 1, 2)` and `(0, 2, 3)` offset by the vertex count before
    /// the call. Fails, leaving the batch as it was, when the quad's vertices
    /// could not all be named by 16-bit indices.
    pub fn push_quad(&mut self, v0: V, v1: V, v2: V, v3: V) -> (r: Result<(), RenderError>)
        requires
            old(self).wf(),
        ensures
            final(self).wf(),
            final(self).stride() == old(self).stride(),
            final(self).vcap() == old(self).vcap(),
            final(self).icap() == old(self).icap(),
            old(self).verts().len() + 4 <= MAX_BATCH_VERTICES ==> {
                &&& r is Ok
                &&& final(self).verts() == old(self).verts() + seq![v0, v1, v2, v3]
                &&& final(self).idxs() == old(self).idxs() + quad_indices(old(self).verts().len() as int)
                &&& final(self).pending()
            },
            old(self).verts().len() + 4 > MAX_BATCH_VERTICES ==> {
                &&& r == Err::<(), RenderError>(RenderError::IndexOverflow)
                &&& final(self).verts() == old(self).verts()
                &&& final(self).idxs() == old(self).idxs()
                &&& final(self).pending() == old(self).pending()
            },
    {
        let n = self.vertices.len();
        if n > MAX_BATCH_VERTICES - 4 {
            return Err(RenderError::IndexOverflow);
        }
        let start = n as u16;
        let ghost old_idx = self.indices@;
        self.vertices.push(v0);
        self.vertices.push(v1);
        self.vertices.push(v2);
        self.vertices.push(v3);
        self.indices.push(start);
        self.indices.push(start + 1);
        self.indices.push(start + 2);
        self.indices.push(start);
        self.indices.push(start + 2);
        self.indices.push(start + 3);
        self.has_data = true;
        assert(self.indices@ == old_idx + quad_indices(n as int));
        assert(self.vertices@ =~= old(self).vertices@ + seq![v0, v1, v2, v3]);
        Ok(())
    }

    /// Empties the CPU-side lists for the next frame; the GPU buffers keep
    /// their sizes.
    pub fn clear(&mut self)
        requires
            old(self).wf(),
        ensures
            final(self).wf(),
            final(self).verts().len() == 0,
            final(self).idxs().len() == 0,
            !final(self).pending(),
            final(self).stride() == old(self).stride(),
            final(self).vcap() == old(self).vcap(),
            final(self).icap() == old(self).icap(),
    {
        self.indices.clear();
        self.vertices.clear();
        self.has_data = false;
    }

    /// Whether no vertex was pushed since the last clear.
    pub fn empty(&self) -> (r: bool)
        ensures
            r == (self.verts().len() == 0),
    {
        self.vertices.len() == 0
    }

    /// Decides how to bring both GPU buffers up to date with the CPU lists,
    /// and records their new sizes. Nothing is to be done for an empty batch.
    pub fn upload_data(&mut self) -> (r: Option<UploadPlan>)
        requires
            old(self).wf(),
        ensures
            final(self).wf(),
            r == old(self).upload_spec(),
            old(self).uploaded_to(*final(self)),
    {
        if self.vertices.len() == 0 {
            return None;
        }
        proof {
            self.lemma_wf_bounds();
        }
        let vertex_bytes = self.vertices.len() as u64 * self.vertex_stride;
        let index_bytes = self.indices.len() as u64 * INDEX_SIZE;
        let vertex = if self.vertex_capacity < vertex_bytes {
            self.vertex_capacity = vertex_bytes;
            BufferUpdate::Reallocate { size: vertex_bytes }
        } else {
            BufferUpdate::Write
        };
        let index = if self.index_capacity < index_bytes {
            self.index_capacity = index_bytes;
            BufferUpdate::Reallocate { size: index_bytes }
        } else {
            BufferUpdate::Write
        };
        Some(UploadPlan { vertex, index })
    }

    /// Prepares the batch's draw: nothing when nothing was pushed since the
    /// last clear; else the upload that brings the buffers up to date and an
    /// indexed draw over every accumulated index.
    pub fn flush(&mut self) -> (r: Option<DrawCall>)
        requires
            old(self).wf(),
        ensures
            final(self).wf(),
            r == old(self).flush_spec(),
            old(self).pending() ==> old(self).uploaded_to(*final(self)),
            !old(self).pending() ==> *final(self) == *old(self),
    {
        if !self.has_data {
            return None;
        }
        match self.upload_data() {
            Some(upload) => {
                proof {
                    self.lemma_wf_bounds();
                }
                Some(DrawCall { upload, index_count: self.indices.len() as u32 })
            },
            None => None,
        }
    }

    pub fn vertices(&self) -> (r: &Vec<V>)
        ensures
            r@ == self.verts(),
    {
        &self.vertices
    }

    pub fn indices(&self) -> (r: &Vec<u16>)
        ensures
            r@ == self.idxs(),
    {
        &self.indices
    }

    pub fn vertex_capacity(&self) -> (r: u64)
        ensures
            r == self.vcap(),
    {
        self.vertex_capacity
    }

    pub fn index_capacity(&self) -> (r: u64)
        ensures
            r == self.icap(),
    {
        self.index_capacity
    }
}

/// Buffer size after a sequence of non-empty frames that needed `sizes`
/// bytes, starting from `capacity`.
pub open spec fn capacity_over_frames(capacity: int, sizes: Seq<int>) -> int
    decreases sizes.len(),
{
    if sizes.len() == 0 {
        capacity
    } else {
        capacity_after(capacity_over_frames(capacity, sizes.drop_last()), sizes.last())
    }
}

/// Growth is monotonic: a buffer never shrinks, always ends large enough, and
/// one that is already large enough is written in place and kept.
pub proof fn lemma_capacity_grow_only(capacity: int, needed: int)
    ensures
        capacity_after(capacity, needed) >= capacity,
        capacity_after(capacity, needed) >= needed,
        needed <= capacity ==> buffer_update(capacity, needed) == BufferUpdate::Write,
        needed <= capacity ==> capacity_after(capacity, needed) == capacity,
{
}

/// Over any sequence of frames, growing or shrinking, a buffer's size at a
/// later frame is never below its size at an earlier one.
pub proof fn lemma_capacity_over_frames_monotonic(capacity: int, sizes: Seq<int>, i: int, j: int)
    requires
        0 <= i <= j <= sizes.len(),
    ensures
        capacity_over_frames(capacity, sizes.take(i)) <= capacity_over_frames(capacity, sizes.take(j)),
    decreases j - i,
{
    if i < j {
        lemma_capacity_over_frames_monotonic(capacity, sizes, i, j - 1);
        assert(sizes.take(j).drop_last() =~= sizes.take(j - 1));
    }
}

/// A frame that needs no more than an earlier frame of the sequence did is
/// served by the existing buffer: it is written in place, not reallocated.
pub proof fn lemma_smaller_frame_reuses_buffer(capacity: int, sizes: Seq<int>, i: int, j: int)
    requires
        0 <= i < j < sizes.len(),
        sizes[j] <= sizes[i],
    ensures
        buffer_update(capacity_over_frames(capacity, sizes.take(j)), sizes[j]) == BufferUpdate::Write,
        capacity_over_frames(capacity, sizes.take(j + 1)) == capacity_over_frames(capacity, sizes.take(j)),
{
    assert(sizes.take(i + 1).drop_last() =~= sizes.take(i));
    assert(sizes.take(i + 1).last() == sizes[i]);
    lemma_capacity_over_frames_monotonic(capacity, sizes, i + 1, j);
    assert(sizes.take(j + 1).drop_last() =~= sizes.take(j));
    assert(sizes.take(j + 1).last() == sizes[j]);
}

/// Uploading twice with no push in between: the second upload reallocates
/// neither buffer and leaves both sizes as the first one left them.
pub proof fn lemma_upload_idempotent<V>(first: Batch<V>, second: Batch<V>)
    requires
        second.verts() == first.verts(),
        second.idxs() == first.idxs(),
        second.stride() == first.stride(),
        second.vcap() == capacity_after(first.vcap(), first.vertex_bytes()),
        second.icap() == capacity_after(first.icap(), first.index_bytes()),
    ensures
        second.plan() == (UploadPlan { vertex: BufferUpdate::Write, index: BufferUpdate::Write }),
        capacity_after(second.vcap(), second.vertex_bytes()) == second.vcap(),
        capacity_after(second.icap(), second.index_bytes()) == second.icap(),
{
}

} // verus!
