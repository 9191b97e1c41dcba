//! The device submitter: the state that outlives a frame, and for each
//! frame what is uploaded and which draws are issued, in order.

use vstd::prelude::*;
use crate::buffers::{
    flat_indices, flat_vertices, flatten_indices, flatten_vertices, grow_capacity,
    grown_capacity, in_memory_order, index_counts, layout, lemma_flat_indices_len, mesh_lens,
    required_index_bytes, required_vertex_bytes, slices_of, total_bytes, vertex_counts,
    words_as_bytes, ByteRange,
    INDEX_BUFFER_START_CAPACITY, INDEX_SIZE, VERTEX_BUFFER_START_CAPACITY, VERTEX_SIZE,
};
use crate::error::RadiantError;
use crate::geometry::ScreenDescriptor;
use crate::mesh::{ClippedPrimitive, TextureId, Vertex};
use crate::scissor::{off_target, scissor_of, lemma_off_target_is_empty, ScissorRect};
use crate::textures::{
    ImageDelta, TextureCache, TextureCacheView, TextureInfo, TextureOptions, TextureUpdate,
};

verus! {

/// A device buffer that meshes are packed into: its capacity in bytes and
/// the range that each mesh of the current frame takes.
struct SlicedBuffer {
    slices: Vec<ByteRange>,
    capacity: u64,
}

/// The persistent state of the device submitter.
pub struct RadiantRenderer {
    index_buffer: SlicedBuffer,
    vertex_buffer: SlicedBuffer,
    previous_screen: ScreenDescriptor,
    textures: TextureCache,
    max_buffer_size: u64,
}

/// What a renderer holds.
pub struct RendererView {
    pub index_capacity: nat,
    pub vertex_capacity: nat,
    pub index_slices: Seq<ByteRange>,
    pub vertex_slices: Seq<ByteRange>,
    /// The surface whose size in points the device's uniform holds.
    pub screen: ScreenDescriptor,
    pub cache: TextureCacheView,
    /// The device's limit on the size of a buffer, in bytes.
    pub max_buffer_size: nat,
}

/// What has to reach the device before the draws of a frame.
#[derive(Debug)]
pub struct BufferUpload {
    /// Whether the uniform with the screen size in points is written.
    pub write_uniform: bool,
    /// The capacity to re-create the index buffer with, if it grew.
    pub index_capacity: Option<u64>,
    /// The capacity to re-create the vertex buffer with, if it grew.
    pub vertex_capacity: Option<u64>,
    /// Content of the index buffer, from its start: the indices of all
    /// meshes as bytes.
    pub index_bytes: Vec<u8>,
    /// Content of the vertex buffer, from its start.
    pub vertices: Vec<Vertex>,
}

/// One step of a frame's submission.
#[derive(Clone, Copy, Debug, PartialEq, Eq, Structural)]
pub enum RenderCommand {
    /// Set the viewport to the whole target, the pipeline, and the
    /// uniform binding.
    Prepare { width: u32, height: u32 },
    /// Clip what follows to a rectangle.
    SetScissor(ScissorRect),
    /// Bind the texture and the two buffer ranges, and draw the indices of
    /// the range, each relative to the first vertex of the vertex range.
    Draw { texture_id: TextureId, index_range: ByteRange, vertex_range: ByteRange, indices: usize },
    /// A draw was left out because its texture is not registered.
    MissingTexture(TextureId),
}

impl RendererView {
    /// Whether both buffers have room to double.
    pub open spec fn wf(self) -> bool {
        self.index_capacity > 0 && self.vertex_capacity > 0
    }

    /// Whether a frame's geometry is within the device's limit.
    pub open spec fn fits(self, jobs: Seq<ClippedPrimitive>) -> bool {
        &&& required_index_bytes(jobs) <= self.max_buffer_size
        &&& required_vertex_bytes(jobs) <= self.max_buffer_size
    }

    /// The renderer after a frame was packed: each buffer has grown as far
    /// as the frame requires, each mesh has its range in both, and the
    /// uniform follows the surface where its size in points changed.
    pub open spec fn packed(self, screen: ScreenDescriptor, jobs: Seq<ClippedPrimitive>)
        -> RendererView {
        RendererView {
            index_capacity: grown_capacity(
                self.index_capacity,
                required_index_bytes(jobs),
                self.max_buffer_size,
            ),
            vertex_capacity: grown_capacity(
                self.vertex_capacity,
                required_vertex_bytes(jobs),
                self.max_buffer_size,
            ),
            index_slices: slices_of(index_counts(jobs), INDEX_SIZE as nat),
            vertex_slices: slices_of(vertex_counts(jobs), VERTEX_SIZE as nat),
            screen: if self.screen.same_points(screen) {
                self.screen
            } else {
                screen
            },
            cache: self.cache,
            max_buffer_size: self.max_buffer_size,
        }
    }

    /// The commands of one mesh. A mesh whose scissor rectangle has no
    /// area, or that has no triangle, gives none; one whose texture is not
    /// registered is reported in place of its draw.
    pub open spec fn job_commands(self, screen: ScreenDescriptor, job: ClippedPrimitive, i: int)
        -> Seq<RenderCommand> {
        let rect = scissor_of(job.clip_rect, screen.pixels_per_point, screen.size_in_pixels);
        if rect.is_empty() || job.mesh@.is_empty() {
            Seq::empty()
        } else if self.cache.textures.contains_key(job.mesh.texture_id) {
            seq![
                RenderCommand::SetScissor(rect),
                RenderCommand::Draw {
                    texture_id: job.mesh.texture_id,
                    index_range: self.index_slices[i],
                    vertex_range: self.vertex_slices[i],
                    indices: job.mesh.indices@.len() as usize,
                },
            ]
        } else {
            seq![RenderCommand::SetScissor(rect), RenderCommand::MissingTexture(job.mesh.texture_id)]
        }
    }

    /// The commands of the first `n` meshes, in paint order.
    pub open spec fn draw_commands(
        self,
        screen: ScreenDescriptor,
        jobs: Seq<ClippedPrimitive>,
        n: int,
    ) -> Seq<RenderCommand>
        decreases n,
    {
        if n <= 0 {
            Seq::empty()
        } else {
            self.draw_commands(screen, jobs, n - 1) + self.job_commands(screen, jobs[n - 1], n - 1)
        }
    }

    /// The commands of a frame: the preparation, if there is any mesh;
    /// the commands of each mesh in paint order; and last the scissor set
    /// back to the whole target.
    pub open spec fn render_commands(self, screen: ScreenDescriptor, jobs: Seq<ClippedPrimitive>)
        -> Seq<RenderCommand> {
        let prepare = if jobs.len() > 0 {
            seq![
                RenderCommand::Prepare {
                    width: screen.size_in_pixels[0],
                    height: screen.size_in_pixels[1],
                },
            ]
        } else {
            Seq::empty()
        };
        prepare + self.draw_commands(screen, jobs, jobs.len() as int) + seq![
            RenderCommand::SetScissor(
                ScissorRect {
                    x: 0,
                    y: 0,
                    width: screen.size_in_pixels[0],
                    height: screen.size_in_pixels[1],
                },
            ),
        ]
    }
}

impl View for RadiantRenderer {
    type V = RendererView;

    closed spec fn view(&self) -> RendererView {
        RendererView {
            index_capacity: self.index_buffer.capacity as nat,
            vertex_capacity: self.vertex_buffer.capacity as nat,
            index_slices: self.index_buffer.slices@,
            vertex_slices: self.vertex_buffer.slices@,
            screen: self.previous_screen,
            cache: self.textures@,
            max_buffer_size: self.max_buffer_size as nat,
        }
    }
}

impl RadiantRenderer {
    /// A renderer for a device that takes buffers of up to
    /// `max_buffer_size` bytes. Both buffers start at their start capacity
    /// and hold no mesh; the uniform holds a surface of no size; no texture
    /// is registered.
    pub fn new(max_buffer_size: u64) -> (renderer: Self)
        ensures
            renderer@.wf(),
            renderer@.index_capacity == INDEX_BUFFER_START_CAPACITY,
            renderer@.vertex_capacity == VERTEX_BUFFER_START_CAPACITY,
            renderer@.index_slices == Seq::<ByteRange>::empty(),
            renderer@.vertex_slices == Seq::<ByteRange>::empty(),
            renderer@.screen == (ScreenDescriptor { size_in_pixels: [0, 0], pixels_per_point: 256 }),
            renderer@.cache.textures == Map::<TextureId, TextureInfo>::empty(),
            renderer@.cache.samplers == Set::<TextureOptions>::empty(),
            renderer@.max_buffer_size == max_buffer_size,
    {
        RadiantRenderer {
            index_buffer: SlicedBuffer {
                slices: Vec::new(),
                capacity: INDEX_BUFFER_START_CAPACITY,
            },
            vertex_buffer: SlicedBuffer {
                slices: Vec::new(),
                capacity: VERTEX_BUFFER_START_CAPACITY,
            },
            previous_screen: ScreenDescriptor { size_in_pixels: [0, 0], pixels_per_point: 256 },
            textures: TextureCache::new(),
            max_buffer_size,
        }
    }

    /// Packs the meshes of a frame. Fails, and changes nothing, exactly
    /// when the frame's indices or vertices take more bytes than the
    /// device allows in a buffer. Else each buffer grows by doubling as far
    /// as needed, each mesh gets its byte range in both, and the result
    /// holds what to upload: all indices, as bytes in the byte order of the
    /// machine, and all vertices, mesh after mesh.
    pub fn update_buffers(
        &mut self,
        screen_descriptor: &ScreenDescriptor,
        paint_jobs: &Vec<ClippedPrimitive>,
    ) -> (result: Result<BufferUpload, RadiantError>)
        requires
            old(self)@.wf(),
        ensures
            match result {
                Ok(upload) => {
                    &&& old(self)@.fits(paint_jobs@)
                    &&& final(self)@ == old(self)@.packed(*screen_descriptor, paint_jobs@)
                    &&& final(self)@.wf()
                    &&& final(self)@.index_capacity >= required_index_bytes(paint_jobs@)
                    &&& final(self)@.vertex_capacity >= required_vertex_bytes(paint_jobs@)
                    &&& upload.write_uniform == !old(self)@.screen.same_points(*screen_descriptor)
                    &&& upload.index_capacity == (if final(self)@.index_capacity != old(
                        self,
                    )@.index_capacity {
                        Some(final(self)@.index_capacity as u64)
                    } else {
                        None
                    })
                    &&& upload.vertex_capacity == (if final(self)@.vertex_capacity != old(
                        self,
                    )@.vertex_capacity {
                        Some(final(self)@.vertex_capacity as u64)
                    } else {
                        None
                    })
                    &&& in_memory_order(upload.index_bytes@, flat_indices(paint_jobs@))
                    &&& upload.index_bytes@.len() == required_index_bytes(paint_jobs@)
                    &&& upload.vertices@ == flat_vertices(paint_jobs@)
                },
                Err(e) => {
                    &&& e == RadiantError::CapacityExhausted
                    &&& !old(self)@.fits(paint_jobs@)
                    &&& final(self)@ == old(self)@
                },
            },
    {
        let (index_lens, vertex_lens) = mesh_lens(paint_jobs);
        let index_bytes: u64 = match total_bytes(&index_lens, INDEX_SIZE, self.max_buffer_size) {
            Some(bytes) => bytes,
            None => {
                return Err(RadiantError::CapacityExhausted);
            },
        };
        let vertex_bytes: u64 = match total_bytes(&vertex_lens, VERTEX_SIZE, self.max_buffer_size) {
            Some(bytes) => bytes,
            None => {
                return Err(RadiantError::CapacityExhausted);
            },
        };
        let write_uniform = !self.previous_screen.has_same_points(screen_descriptor);
        if write_uniform {
            self.previous_screen = *screen_descriptor;
        }
        let mut index_capacity: Option<u64> = None;
        if self.index_buffer.capacity < index_bytes {
            let grown: u64 = grow_capacity(
                self.index_buffer.capacity,
                index_bytes,
                self.max_buffer_size,
            );
            self.index_buffer.capacity = grown;
            index_capacity = Some(grown);
        }
        let mut vertex_capacity: Option<u64> = None;
        if self.vertex_buffer.capacity < vertex_bytes {
            let grown: u64 = grow_capacity(
                self.vertex_buffer.capacity,
                vertex_bytes,
                self.max_buffer_size,
            );
            self.vertex_buffer.capacity = grown;
            vertex_capacity = Some(grown);
        }
        self.index_buffer.slices = layout(&index_lens, INDEX_SIZE);
        self.vertex_buffer.slices = layout(&vertex_lens, VERTEX_SIZE);
        let indices = flatten_indices(paint_jobs);
        let index_bytes = words_as_bytes(&indices);
        let vertices = flatten_vertices(paint_jobs);
        proof {
            lemma_flat_indices_len(paint_jobs@);
        }
        Ok(BufferUpload { write_uniform, index_capacity, vertex_capacity, index_bytes, vertices })
    }

    /// Decides what the device has to do for new content of a texture: see
    /// `TextureCacheView::update_of`. The image data must hold one texel
    /// for each place of its size.
    pub fn update_texture(&mut self, id: TextureId, image_delta: &ImageDelta) -> (result: Result<
        TextureUpdate,
        RadiantError,
    >)
        requires
            image_delta.consistent(),
        ensures
            result == old(self)@.cache.update_of(id, *image_delta),
            final(self)@ == (RendererView {
                cache: old(self)@.cache.updated(id, *image_delta),
                ..old(self)@
            }),
    {
        self.textures.update(id, image_delta)
    }

    /// Forgets a texture, and says whether it was registered. A draw that
    /// still refers to it is left out from then on.
    pub fn free_texture(&mut self, id: TextureId) -> (freed: bool)
        ensures
            freed == old(self)@.cache.textures.contains_key(id),
            final(self)@ == (RendererView {
                cache: TextureCacheView {
                    textures: old(self)@.cache.textures.remove(id),
                    samplers: old(self)@.cache.samplers,
                },
                ..old(self)@
            }),
    {
        self.textures.free(id)
    }

    /// The capacity of the index buffer, in bytes.
    pub fn index_capacity(&self) -> (capacity: u64)
        ensures
            capacity == self@.index_capacity,
    {
        self.index_buffer.capacity
    }

    /// The capacity of the vertex buffer, in bytes.
    pub fn vertex_capacity(&self) -> (capacity: u64)
        ensures
            capacity == self@.vertex_capacity,
    {
        self.vertex_buffer.capacity
    }

    /// The byte range of each mesh in the index buffer, in paint order.
    pub fn index_slices(&self) -> (slices: &Vec<ByteRange>)
        ensures
            slices@ == self@.index_slices,
    {
        &self.index_buffer.slices
    }

    /// The byte range of each mesh in the vertex buffer, in paint order.
    pub fn vertex_slices(&self) -> (slices: &Vec<ByteRange>)
        ensures
            slices@ == self@.vertex_slices,
    {
        &self.vertex_buffer.slices
    }

    /// The device's limit on the size of a buffer, in bytes.
    pub fn max_buffer_size(&self) -> (limit: u64)
        ensures
            limit == self@.max_buffer_size,
    {
        self.max_buffer_size
    }

    /// The parameters that a texture is registered with, if it is.
    pub fn texture_info(&self, id: TextureId) -> (info: Option<TextureInfo>)
        ensures
            info == (if self@.cache.textures.contains_key(id) {
                Some(self@.cache.textures[id])
            } else {
                None
            }),
    {
        self.textures.get(id)
    }

    /// Whether a sampler exists for the given filters.
    pub fn has_sampler(&self, options: TextureOptions) -> (found: bool)
        ensures
            found == self@.cache.samplers.contains(options),
    {
        self.textures.has_sampler(options)
    }

    /// Whether the buffers are packed for as many meshes as given: what
    /// `render` asks of its caller.
    pub fn is_packed_for(&self, paint_jobs: &Vec<ClippedPrimitive>) -> (ok: bool)
        ensures
            ok == (self@.index_slices.len() == paint_jobs@.len() && self@.vertex_slices.len()
                == paint_jobs@.len()),
    {
        self.index_buffer.slices.len() == paint_jobs.len() && self.vertex_buffer.slices.len()
            == paint_jobs.len()
    }

    /// The commands that draw a frame, in paint order. The meshes are those
    /// that the buffers were last packed for.
    pub fn render(&self, screen_descriptor: &ScreenDescriptor, paint_jobs: &Vec<ClippedPrimitive>)
        -> (commands: Vec<RenderCommand>)
        requires
            self@.index_slices.len() == paint_jobs@.len(),
            self@.vertex_slices.len() == paint_jobs@.len(),
        ensures
            commands@ == self@.render_commands(*screen_descriptor, paint_jobs@),
    {
        let pixels_per_point: u16 = screen_descriptor.pixels_per_point;
        let size_in_pixels: [u32; 2] = screen_descriptor.size_in_pixels;
        let mut commands: Vec<RenderCommand> = Vec::new();
        if paint_jobs.len() > 0 {
            commands.push(
                RenderCommand::Prepare { width: size_in_pixels[0], height: size_in_pixels[1] },
            );
        }
        let ghost prepare = commands@;
        let mut i: usize = 0;
        while i < paint_jobs.len()
            invariant
                i <= paint_jobs.len(),
                self@.index_slices.len() == paint_jobs@.len(),
                self@.vertex_slices.len() == paint_jobs@.len(),
                pixels_per_point == screen_descriptor.pixels_per_point,
                size_in_pixels == screen_descriptor.size_in_pixels,
                commands@ == prepare + self@.draw_commands(
                    *screen_descriptor,
                    paint_jobs@,
                    i as int,
                ),
            decreases paint_jobs.len() - i,
        {
            let job = &paint_jobs[i];
            let ghost before = commands@;
            let rect = ScissorRect::new(&job.clip_rect, pixels_per_point, size_in_pixels);
            if !rect.has_no_area() && !job.mesh.is_empty() {
                commands.push(RenderCommand::SetScissor(rect));
                if self.textures.contains(job.mesh.texture_id) {
                    commands.push(
                        RenderCommand::Draw {
                            texture_id: job.mesh.texture_id,
                            index_range: self.index_buffer.slices[i],
                            vertex_range: self.vertex_buffer.slices[i],
                            indices: job.mesh.indices.len(),
                        },
                    );
                } else {
                    commands.push(RenderCommand::MissingTexture(job.mesh.texture_id));
                }
            }
            assert(commands@ == before + self@.job_commands(
                *screen_descriptor,
                paint_jobs@[i as int],
                i as int,
            ));
            i += 1;
        }
        commands.push(RenderCommand::SetScissor(ScissorRect::full(size_in_pixels)));
        commands
    }
}

/// A mesh whose clip rectangle lies wholly off the target is not drawn,
/// and this shifts nothing: the byte ranges of a frame depend on its meshes
/// alone, so every other mesh gets the commands that it would get if the
/// skipped mesh were clipped otherwise.
pub proof fn lemma_skipped_draw_keeps_ranges(
    renderer: RendererView,
    screen: ScreenDescriptor,
    jobs: Seq<ClippedPrimitive>,
    others: Seq<ClippedPrimitive>,
    skipped: int,
)
    requires
        0 <= skipped < jobs.len(),
        jobs.len() == others.len(),
        off_target(jobs[skipped].clip_rect, screen.pixels_per_point, screen.size_in_pixels),
        forall|k: int| 0 <= k < jobs.len() ==> (#[trigger] jobs[k]).mesh == others[k].mesh,
        forall|k: int|
            0 <= k < jobs.len() && k != skipped ==> (#[trigger] jobs[k]).clip_rect
                == others[k].clip_rect,
    ensures
        renderer.packed(screen, jobs) == renderer.packed(screen, others),
        renderer.packed(screen, jobs).job_commands(screen, jobs[skipped], skipped) == Seq::<
            RenderCommand,
        >::empty(),
        forall|k: int|
            0 <= k < jobs.len() && k != skipped ==> #[trigger] renderer.packed(
                screen,
                jobs,
            ).job_commands(screen, jobs[k], k) == renderer.packed(screen, others).job_commands(
                screen,
                others[k],
                k,
            ),
{
    lemma_off_target_is_empty(
        jobs[skipped].clip_rect,
        screen.pixels_per_point,
        screen.size_in_pixels,
    );
    assert(index_counts(jobs) =~= index_counts(others));
    assert(vertex_counts(jobs) =~= vertex_counts(others));
}

} // verus!
