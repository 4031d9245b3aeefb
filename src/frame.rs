use vstd::prelude::*;

use crate::error::RenderError;
use crate::layout::{encode_words, vertex_bytes, vertices_words};
use crate::material::Material;
use crate::model::{batches_view, material_keys_unique, material_of, Model};
use crate::texture::Texture;
use crate::vertex::{Float3, Float4, Mesh};

verus! {

/// Placement of an instance: translation, rotation quaternion and scale, each
/// scalar a binary32 bit pattern.
#[derive(Clone, Copy, PartialEq, Eq, Debug, Structural)]
pub struct Transform {
    pub translation: Float3,
    pub rotation: Float4,
    pub scale: Float3,
}

/// One request to draw a loaded model in the current frame.
#[derive(Clone, Copy, PartialEq, Eq, Debug, Structural)]
pub struct ModelQueueEntry {
    pub model_id: usize,
    pub transform: Transform,
}

#[derive(Clone, Copy, PartialEq, Eq, Debug, Structural)]
pub enum FramePhase {
    Idle,
    Building,
}

/// One non-indexed triangle-list draw of a whole batch.
#[derive(Clone, Copy, PartialEq, Eq, Debug, Structural)]
pub struct DrawCall {
    pub model_id: usize,
    /// Position of the batch in the model's batch list.
    pub mesh: usize,
    pub transform: Transform,
    /// Texture slot bound as albedo.
    pub texture: usize,
    /// Vertex buffer slot of the batch.
    pub vertex_buffer: usize,
    pub vertex_count: usize,
}

/// The renderer's tables and frame state. Device objects live with the
/// caller, which mirrors the slots handed out here: texture slot `i` and
/// vertex buffer slot `i` are the `i`-th texture and buffer it uploaded.
/// Models and textures are loaded between frames only, on the thread that
/// renders; no lock guards the tables.
pub struct Renderer {
    pub loaded_models: Vec<Model>,
    pub model_queue: Vec<ModelQueueEntry>,
    pub texture_count: usize,
    pub buffer_count: usize,
    pub tex_white: usize,
    pub phase: FramePhase,
    /// Transform buffers allocated for draws since the last `begin_frame`.
    pub transform_buffers: usize,
    pub width: u32,
    pub height: u32,
}

pub open spec fn meshes_bound(m: Model, buffer_count: usize) -> bool {
    forall|j: int| 0 <= j < m.meshes@.len() ==> ((#[trigger] m.meshes@[j]).mesh.buffer matches Some(s) && s < buffer_count)
}

/// Albedo slot of a material record, if it holds one that exists.
pub open spec fn albedo_of(mat: Option<Material>, texture_count: usize) -> Option<usize> {
    match mat {
        Some(m) => if 0 <= m.tex_alb < texture_count {
            Some(m.tex_alb as usize)
        } else {
            None
        },
        None => None,
    }
}

impl Renderer {
    pub open spec fn wf(&self) -> bool {
        &&& forall|i: int| 0 <= i < self.loaded_models@.len() ==> (#[trigger] self.loaded_models@[i]).wf()
        &&& forall|i: int| 0 <= i < self.loaded_models@.len() ==> meshes_bound(#[trigger] self.loaded_models@[i], self.buffer_count)
        &&& forall|i: int| 0 <= i < self.model_queue@.len() ==> (#[trigger] self.model_queue@[i]).model_id < self.loaded_models@.len()
        &&& self.tex_white < self.texture_count
        &&& self.width > 0 && self.height > 0
    }

    /// Texture bound for batch `j` of model `m`: the albedo texture of the
    /// material under the batch's key, else the white fallback.
    pub open spec fn texture_for(&self, m: Model, j: int) -> usize {
        match albedo_of(material_of(m.materials@, m.meshes@[j].key@), self.texture_count) {
            Some(s) => s,
            None => self.tex_white,
        }
    }

    pub open spec fn draw_for(&self, e: ModelQueueEntry, j: int) -> DrawCall {
        let m = self.loaded_models@[e.model_id as int];
        DrawCall {
            model_id: e.model_id,
            mesh: j as usize,
            transform: e.transform,
            texture: self.texture_for(m, j),
            vertex_buffer: m.meshes@[j].mesh.buffer->Some_0,
            vertex_count: m.meshes@[j].mesh.verts@.len() as usize,
        }
    }

    /// One draw per batch of the entry's model, in batch order.
    pub open spec fn entry_draws(&self, e: ModelQueueEntry) -> Seq<DrawCall> {
        Seq::new(
            self.loaded_models@[e.model_id as int].meshes@.len(),
            |j: int| self.draw_for(e, j),
        )
    }

    /// The draws of a queue, entry by entry in queue order.
    pub open spec fn queue_draws(&self, q: Seq<ModelQueueEntry>) -> Seq<DrawCall>
        decreases q.len(),
    {
        if q.len() == 0 {
            Seq::empty()
        } else {
            self.queue_draws(q.drop_last()) + self.entry_draws(q.last())
        }
    }

    /// A renderer whose texture table holds only the white fallback, in slot 0,
    /// and whose framebuffer has the given size. The caller uploads
    /// `Texture::white()` as its first texture.
    pub fn new(width: u32, height: u32) -> (r: Result<Renderer, RenderError>)
        ensures
            (width == 0 || height == 0) <==> r is Err,
            r is Err ==> r->Err_0 == RenderError::ZeroSizedFramebuffer,
            r matches Ok(s) ==> {
                &&& s.wf()
                &&& s.loaded_models@.len() == 0
                &&& s.model_queue@.len() == 0
                &&& s.texture_count == 1
                &&& s.tex_white == 0
                &&& s.buffer_count == 0
                &&& s.phase == FramePhase::Idle
                &&& s.transform_buffers == 0
                &&& s.width == width && s.height == height
            },
    {
        if width == 0 || height == 0 {
            return Err(RenderError::ZeroSizedFramebuffer);
        }
        Ok(Renderer {
            loaded_models: Vec::new(),
            model_queue: Vec::new(),
            texture_count: 1,
            buffer_count: 0,
            tex_white: 0,
            phase: FramePhase::Idle,
            transform_buffers: 0,
            width,
            height,
        })
    }

    /// Starts a frame: empties the draw queue and forgets the transform
    /// buffers of the previous frame.
    pub fn begin_frame(&mut self)
        requires
            old(self).wf(),
        ensures
            final(self).wf(),
            final(self).model_queue@.len() == 0,
            final(self).transform_buffers == 0,
            final(self).phase == FramePhase::Building,
            final(self).loaded_models@ == old(self).loaded_models@,
            final(self).texture_count == old(self).texture_count,
            final(self).buffer_count == old(self).buffer_count,
            final(self).tex_white == old(self).tex_white,
            final(self).width == old(self).width,
            final(self).height == old(self).height,
    {
        self.model_queue.clear();
        self.transform_buffers = 0;
        self.phase = FramePhase::Building;
    }

    /// Queues a draw of a loaded model; no device work happens here.
    pub fn draw_model(&mut self, model_queue_entry: ModelQueueEntry) -> (r: Result<(), RenderError>)
        requires
            old(self).wf(),
        ensures
            final(self).wf(),
            old(self).phase == FramePhase::Idle ==> r == Err::<(), RenderError>(RenderError::NotBuilding),
            old(self).phase == FramePhase::Building && model_queue_entry.model_id >= old(self).loaded_models@.len()
                ==> r == Err::<(), RenderError>(RenderError::UnknownModel),
            r is Ok <==> old(self).phase == FramePhase::Building && model_queue_entry.model_id < old(self).loaded_models@.len(),
            r is Ok ==> final(self).model_queue@ == old(self).model_queue@.push(model_queue_entry),
            r is Err ==> final(self).model_queue@ == old(self).model_queue@,
            final(self).loaded_models@ == old(self).loaded_models@,
            final(self).phase == old(self).phase,
            final(self).texture_count == old(self).texture_count,
            final(self).buffer_count == old(self).buffer_count,
            final(self).tex_white == old(self).tex_white,
            final(self).transform_buffers == old(self).transform_buffers,
            final(self).width == old(self).width,
            final(self).height == old(self).height,
    {
        if self.phase == FramePhase::Idle {
            return Err(RenderError::NotBuilding);
        }
        if model_queue_entry.model_id >= self.loaded_models.len() {
            return Err(RenderError::UnknownModel);
        }
        self.model_queue.push(model_queue_entry);
        Ok(())
    }

    fn texture_of(&self, m: &Model, j: usize) -> (t: usize)
        requires
            j < m.meshes@.len(),
            material_keys_unique(m.materials@),
        ensures
            t == self.texture_for(*m, j as int),
    {
        match m.material(&m.meshes[j].key) {
            Some(mat) => {
                if 0 <= mat.tex_alb && (mat.tex_alb as usize) < self.texture_count {
                    mat.tex_alb as usize
                } else {
                    self.tex_white
                }
            },
            None => self.tex_white,
        }
    }

    /// Ends the frame. With a presentable surface, returns the draws to issue,
    /// in queue order and within an entry in batch order, one transform buffer
    /// each; without one, drops the frame and returns no draws. Either way the
    /// renderer is idle afterwards.
    pub fn end_frame(&mut self, surface_available: bool) -> (r: Result<Vec<DrawCall>, RenderError>)
        requires
            old(self).wf(),
        ensures
            final(self).wf(),
            old(self).phase == FramePhase::Idle <==> r is Err,
            r is Err ==> r->Err_0 == RenderError::NotBuilding && *final(self) == *old(self),
            r matches Ok(d) ==> {
                &&& surface_available ==> d@ == old(self).queue_draws(old(self).model_queue@)
                &&& !surface_available ==> d@.len() == 0
                &&& final(self).phase == FramePhase::Idle
                &&& final(self).transform_buffers == d@.len()
                &&& final(self).model_queue@ == old(self).model_queue@
                &&& final(self).loaded_models@ == old(self).loaded_models@
                &&& final(self).texture_count == old(self).texture_count
                &&& final(self).buffer_count == old(self).buffer_count
                &&& final(self).tex_white == old(self).tex_white
                &&& final(self).width == old(self).width
                &&& final(self).height == old(self).height
            },
    {
        if self.phase == FramePhase::Idle {
            return Err(RenderError::NotBuilding);
        }
        let mut draws: Vec<DrawCall> = Vec::new();
        if surface_available {
            let q = &self.model_queue;
            let mut i: usize = 0;
            while i < q.len()
                invariant
                    self.wf(),
                    *self == *old(self),
                    q@ == self.model_queue@,
                    i <= q@.len(),
                    draws@ == self.queue_draws(q@.take(i as int)),
                decreases q@.len() - i,
            {
                let e = q[i];
                let m = &self.loaded_models[e.model_id];
                let mut j: usize = 0;
                while j < m.meshes.len()
                    invariant
                        self.wf(),
                        *self == *old(self),
                        q@ == self.model_queue@,
                        i < q@.len(),
                        e == q@[i as int],
                        *m == self.loaded_models@[e.model_id as int],
                        j <= m.meshes@.len(),
                        draws@ == self.queue_draws(q@.take(i as int)) + self.entry_draws(e).take(j as int),
                    decreases m.meshes@.len() - j,
                {
                    let buffer = match m.meshes[j].mesh.buffer {
                        Some(s) => s,
                        None => {
                            proof {
                                assert(meshes_bound(*m, self.buffer_count));
                                assert(m.meshes@[j as int].mesh.buffer is Some);
                            }
                            0
                        },
                    };
                    let d = DrawCall {
                        model_id: e.model_id,
                        mesh: j,
                        transform: e.transform,
                        texture: self.texture_of(m, j),
                        vertex_buffer: buffer,
                        vertex_count: m.meshes[j].mesh.verts.len(),
                    };
                    draws.push(d);
                    proof {
                        assert(d == self.draw_for(e, j as int));
                        assert(self.entry_draws(e).take(j + 1) =~= self.entry_draws(e).take(j as int).push(d));
                    }
                    j = j + 1;
                }
                proof {
                    assert(self.entry_draws(e).take(j as int) =~= self.entry_draws(e));
                    assert(q@.take(i + 1).drop_last() =~= q@.take(i as int));
                }
                i = i + 1;
            }
            proof {
                assert(q@.take(i as int) =~= q@);
            }
        }
        self.phase = FramePhase::Idle;
        self.transform_buffers = draws.len();
        Ok(draws)
    }

    /// Records a new framebuffer size, which the depth buffer follows. A zero
    /// dimension is refused and leaves the renderer unchanged.
    pub fn resize_framebuffer(&mut self, width: u32, height: u32) -> (r: Result<(), RenderError>)
        requires
            old(self).wf(),
        ensures
            final(self).wf(),
            (width == 0 || height == 0) <==> r is Err,
            r is Err ==> r->Err_0 == RenderError::ZeroSizedFramebuffer && *final(self) == *old(self),
            r is Ok ==> final(self).width == width && final(self).height == height,
            final(self).loaded_models@ == old(self).loaded_models@,
            final(self).model_queue@ == old(self).model_queue@,
            final(self).phase == old(self).phase,
            final(self).texture_count == old(self).texture_count,
            final(self).buffer_count == old(self).buffer_count,
            final(self).tex_white == old(self).tex_white,
            final(self).transform_buffers == old(self).transform_buffers,
    {
        if width == 0 || height == 0 {
            return Err(RenderError::ZeroSizedFramebuffer);
        }
        self.width = width;
        self.height = height;
        Ok(())
    }

    /// Takes the next texture slot for an uploaded texture and records it in
    /// the texture.
    pub fn upload_texture(&mut self, texture: &mut Texture) -> (r: Result<usize, RenderError>)
        requires
            old(self).wf(),
        ensures
            final(self).wf(),
            old(self).texture_count >= u32::MAX <==> r is Err,
            r is Err ==> r->Err_0 == RenderError::TooManyTextures && *final(self) == *old(self) && *final(texture) == *old(texture),
            r matches Ok(slot) ==> {
                &&& slot == old(self).texture_count
                &&& final(self).texture_count == old(self).texture_count + 1
                &&& final(texture).gl_id == slot
                &&& final(texture).data@ == old(texture).data@
                &&& final(texture).width == old(texture).width
                &&& final(texture).height == old(texture).height
                &&& final(texture).depth == old(texture).depth
            },
            final(self).loaded_models@ == old(self).loaded_models@,
            final(self).model_queue@ == old(self).model_queue@,
            final(self).phase == old(self).phase,
            final(self).buffer_count == old(self).buffer_count,
            final(self).tex_white == old(self).tex_white,
            final(self).width == old(self).width,
            final(self).height == old(self).height,
    {
        if self.texture_count >= 0xFFFF_FFFF {
            return Err(RenderError::TooManyTextures);
        }
        let slot = self.texture_count;
        texture.gl_id = slot as u32;
        self.texture_count = slot + 1;
        proof {
            assert forall|i: int| 0 <= i < self.loaded_models@.len() implies meshes_bound(#[trigger] self.loaded_models@[i], self.buffer_count) by {
                assert(meshes_bound(old(self).loaded_models@[i], old(self).buffer_count));
            }
        }
        Ok(slot)
    }

    /// Binds a batch that has no device buffer yet to the next buffer slot and
    /// returns the bytes to upload into it, sized exactly to its vertices. A
    /// batch that is already bound is left alone and nothing is returned.
    pub fn upload_vertex_buffer(&mut self, mesh: &mut Mesh) -> (r: Result<Option<Vec<u8>>, RenderError>)
        requires
            old(self).wf(),
        ensures
            final(self).wf(),
            final(mesh).verts@ == old(mesh).verts@,
            old(mesh).buffer is Some ==> r == Ok::<Option<Vec<u8>>, RenderError>(None) && *final(mesh) == *old(mesh) && final(self).buffer_count == old(self).buffer_count,
            old(mesh).buffer is None && old(self).buffer_count == usize::MAX ==> r == Err::<Option<Vec<u8>>, RenderError>(RenderError::TooManyBuffers) && *final(mesh) == *old(mesh) && final(self).buffer_count == old(self).buffer_count,
            old(mesh).buffer is None && old(self).buffer_count < usize::MAX ==> (r matches Ok(Some(b)) && {
                &&& b@ == encode_words(vertices_words(old(mesh).verts@))
                &&& final(mesh).buffer == Some(old(self).buffer_count)
                &&& final(self).buffer_count == old(self).buffer_count + 1
            }),
            final(self).loaded_models@ == old(self).loaded_models@,
            final(self).model_queue@ == old(self).model_queue@,
            final(self).phase == old(self).phase,
            final(self).texture_count == old(self).texture_count,
            final(self).tex_white == old(self).tex_white,
            final(self).width == old(self).width,
            final(self).height == old(self).height,
    {
        if mesh.buffer.is_some() {
            return Ok(None);
        }
        if self.buffer_count == usize::MAX {
            return Err(RenderError::TooManyBuffers);
        }
        let bytes = vertex_bytes(&mesh.verts);
        mesh.buffer = Some(self.buffer_count);
        self.buffer_count = self.buffer_count + 1;
        proof {
            assert forall|i: int| 0 <= i < self.loaded_models@.len() implies meshes_bound(#[trigger] self.loaded_models@[i], self.buffer_count) by {
                let m = self.loaded_models@[i];
                assert(meshes_bound(m, old(self).buffer_count));
                assert forall|j: int| 0 <= j < m.meshes@.len() implies ((#[trigger] m.meshes@[j]).mesh.buffer matches Some(s) && s < self.buffer_count) by {
                    assert(m.meshes@[j].mesh.buffer matches Some(s) && s < old(self).buffer_count);
                }
            }
        }
        Ok(Some(bytes))
    }

    /// Adds an imported model whose batches have no device buffers yet: binds
    /// batch `j` to buffer slot `buffer_count + j` and returns the model's id
    /// with the bytes to upload into each of those slots, in slot order.
    /// Refuses a model with repeated keys or an already bound batch.
    pub fn load_model(&mut self, model: Model) -> (r: Result<(usize, Vec<Vec<u8>>), RenderError>)
        requires
            old(self).wf(),
        ensures
            final(self).wf(),
            (!model.wf() || (exists|j: int| 0 <= j < model.meshes@.len() && (#[trigger] model.meshes@[j]).mesh.buffer is Some))
                ==> r == Err::<(usize, Vec<Vec<u8>>), RenderError>(RenderError::InvalidModel),
            r is Err ==> *final(self) == *old(self),
            r is Err <==> (!model.wf() || (exists|j: int| 0 <= j < model.meshes@.len() && (#[trigger] model.meshes@[j]).mesh.buffer is Some)
                || old(self).buffer_count + model.meshes@.len() > usize::MAX),
            r matches Ok((id, uploads)) ==> {
                let m = final(self).loaded_models@[id as int];
                &&& id == old(self).loaded_models@.len()
                &&& final(self).loaded_models@ == old(self).loaded_models@.push(m)
                &&& final(self).buffer_count == old(self).buffer_count + model.meshes@.len()
                &&& batches_view(m.meshes@) == batches_view(model.meshes@)
                &&& m.materials@ == model.materials@
                &&& uploads@.len() == model.meshes@.len()
                &&& forall|j: int| 0 <= j < model.meshes@.len() ==> (#[trigger] m.meshes@[j]).mesh.buffer == Some((old(self).buffer_count + j) as usize)
                &&& forall|j: int| 0 <= j < model.meshes@.len() ==> (#[trigger] uploads@[j])@ == encode_words(vertices_words(model.meshes@[j].mesh.verts@))
            },
            final(self).model_queue@ == old(self).model_queue@,
            final(self).phase == old(self).phase,
            final(self).texture_count == old(self).texture_count,
            final(self).tex_white == old(self).tex_white,
            final(self).transform_buffers == old(self).transform_buffers,
            final(self).width == old(self).width,
            final(self).height == old(self).height,
    {
        if !model.check_wf() {
            return Err(RenderError::InvalidModel);
        }
        let n = model.meshes.len();
        let mut k: usize = 0;
        while k < n
            invariant
                self.wf(),
                *self == *old(self),
                model.wf(),
                n == model.meshes@.len(),
                k <= n,
                forall|j: int| 0 <= j < k ==> (#[trigger] model.meshes@[j]).mesh.buffer is None,
            decreases n - k,
        {
            if model.meshes[k].mesh.buffer.is_some() {
                return Err(RenderError::InvalidModel);
            }
            k = k + 1;
        }
        if self.buffer_count > usize::MAX - n {
            return Err(RenderError::TooManyBuffers);
        }
        let ghost original = model;
        let mut model = model;
        let base = self.buffer_count;
        let mut uploads: Vec<Vec<u8>> = Vec::new();
        let mut j: usize = 0;
        while j < n
            invariant
                n == model.meshes@.len(),
                n == original.meshes@.len(),
                base + n <= usize::MAX,
                j <= n,
                uploads@.len() == j,
                model.materials@ == original.materials@,
                forall|a: int| 0 <= a < n ==> (#[trigger] model.meshes@[a]).key@ == original.meshes@[a].key@,
                forall|a: int| 0 <= a < n ==> (#[trigger] model.meshes@[a]).mesh.verts@ == original.meshes@[a].mesh.verts@,
                forall|a: int| 0 <= a < j ==> (#[trigger] model.meshes@[a]).mesh.buffer == Some((base + a) as usize),
                forall|a: int| 0 <= a < j ==> (#[trigger] uploads@[a])@ == encode_words(vertices_words(original.meshes@[a].mesh.verts@)),
            decreases n - j,
        {
            let bytes = vertex_bytes(&model.meshes[j].mesh.verts);
            model.meshes[j].mesh.buffer = Some(base + j);
            uploads.push(bytes);
            j = j + 1;
        }
        proof {
            assert(batches_view(model.meshes@) =~= batches_view(original.meshes@));
        }
        let id = self.loaded_models.len();
        self.loaded_models.push(model);
        self.buffer_count = base + n;
        proof {
            assert forall|i: int| 0 <= i < self.loaded_models@.len() implies meshes_bound(#[trigger] self.loaded_models@[i], self.buffer_count) by {
                if i < id {
                    let m = self.loaded_models@[i];
                    assert(meshes_bound(old(self).loaded_models@[i], old(self).buffer_count));
                    assert forall|a: int| 0 <= a < m.meshes@.len() implies ((#[trigger] m.meshes@[a]).mesh.buffer matches Some(s) && s < self.buffer_count) by {
                        assert(m.meshes@[a].mesh.buffer matches Some(s) && s < old(self).buffer_count);
                    }
                }
            }
        }
        Ok((id, uploads))
    }
}

/// With one queued entry, the frame issues one draw per batch of its model; a
/// model holding a single batch gets exactly one draw, over all of that
/// batch's vertices from its buffer.
pub proof fn lemma_single_entry_draws(r: Renderer, e: ModelQueueEntry)
    requires
        r.wf(),
        e.model_id < r.loaded_models@.len(),
    ensures
        r.queue_draws(seq![e]) == r.entry_draws(e),
        r.queue_draws(seq![e]).len() == r.loaded_models@[e.model_id as int].meshes@.len(),
        r.loaded_models@[e.model_id as int].meshes@.len() == 1 ==> {
            let m = r.loaded_models@[e.model_id as int];
            &&& r.queue_draws(seq![e]).len() == 1
            &&& r.queue_draws(seq![e])[0].vertex_count == m.meshes@[0].mesh.verts@.len() as usize
            &&& Some(r.queue_draws(seq![e])[0].vertex_buffer) == m.meshes@[0].mesh.buffer
        },
{
    let q = seq![e];
    assert(q.drop_last() =~= Seq::<ModelQueueEntry>::empty());
    assert(r.queue_draws(Seq::<ModelQueueEntry>::empty()) == Seq::<DrawCall>::empty());
    assert(r.queue_draws(q) =~= r.entry_draws(e));
    let m = r.loaded_models@[e.model_id as int];
    if m.meshes@.len() == 1 {
        assert(meshes_bound(m, r.buffer_count));
        assert(m.meshes@[0].mesh.buffer is Some);
    }
}

} // verus!
