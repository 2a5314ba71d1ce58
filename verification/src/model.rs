//! The model data structure and the per-frame draw protocol.
//!
//! A model owns an ordered sequence of meshes and one of materials; each
//! mesh names its material by index. GPU objects — vertex and index
//! buffers, bind groups — are carried as opaque handles: the core never
//! looks inside them, it only decides which handle is bound to which
//! slot and in what order, and the shell resolves the handles to real
//! GPU objects when it replays the recorded commands.
//!
//! The draw protocol extends any render-pass-like object — anything that
//! can bind buffers and groups and issue an indexed draw — with mesh-
//! and model-level drawing. Its binding contract: the material's bind
//! group goes to slot 0 and the camera's to slot 1, on every pipeline
//! that shares the protocol.

use vstd::prelude::*;

verus! {

/// Bind-group slot of the material's texture resources.
pub const MATERIAL_BIND_GROUP_SLOT: u32 = 0;

/// Bind-group slot of the camera uniform.
pub const CAMERA_BIND_GROUP_SLOT: u32 = 1;

/// Opaque handle to a GPU buffer owned by a mesh.
#[derive(Clone, Copy, PartialEq, Eq, Structural, Debug)]
pub struct BufferId(pub u64);

/// Opaque handle to a GPU bind group.
#[derive(Clone, Copy, PartialEq, Eq, Structural, Debug)]
pub struct BindGroupId(pub u64);

/// Width of the indices in an index buffer.
#[derive(Clone, Copy, PartialEq, Eq, Structural, Debug)]
pub enum IndexFormat {
    Uint16,
    Uint32,
}

/// A half-open range of indices or instances, drawn in one call.
#[derive(Clone, Copy, PartialEq, Eq, Structural, Debug)]
pub struct DrawRange {
    pub start: u32,
    pub end: u32,
}

/// A named texture bound to the pipeline through its bind group.
pub struct Material {
    pub name: String,
    pub bind_group: BindGroupId,
}

/// A mesh: its GPU-resident vertex and index buffers, how many indices
/// to draw, and the index of its material in the owning model.
pub struct Mesh {
    pub name: String,
    pub vertex_buffer: BufferId,
    pub index_buffer: BufferId,
    pub num_elements: u32,
    pub material: usize,
}

/// A model: meshes and the materials they refer to, both owned.
pub struct Model {
    pub meshes: Vec<Mesh>,
    pub materials: Vec<Material>,
}

impl Model {
    /// Every mesh's material index points into `materials`.
    pub open spec fn wf(self) -> bool {
        forall|i: int| 0 <= i < self.meshes@.len()
            ==> (#[trigger] self.meshes@[i]).material < self.materials@.len()
    }

    /// The runtime form of `wf`, for a caller that received the model
    /// from an unverified loader and must establish the draw protocol's
    /// precondition before drawing.
    pub fn check_wf(&self) -> (ok: bool)
        ensures
            ok == self.wf(),
    {
        let mut i: usize = 0;
        while i < self.meshes.len()
            invariant
                0 <= i <= self.meshes@.len(),
                forall|j: int| 0 <= j < i
                    ==> (#[trigger] self.meshes@[j]).material < self.materials@.len(),
            decreases self.meshes@.len() - i,
        {
            if self.meshes[i].material >= self.materials.len() {
                return false;
            }
            i = i + 1;
        }
        true
    }
}

/// One recorded render-pass command.
#[derive(Clone, Copy, PartialEq, Eq, Structural, Debug)]
pub enum RenderCommand {
    SetVertexBuffer { slot: u32, buffer: BufferId },
    SetIndexBuffer { buffer: BufferId, format: IndexFormat },
    SetBindGroup { slot: u32, group: BindGroupId },
    DrawIndexed { indices: DrawRange, base_vertex: i32, instances: DrawRange },
}

/// Anything render-pass-like: it accepts bindings and indexed draws, and
/// what it has accepted so far is its recorded command sequence.
pub trait RenderEncoder: Sized {
    /// The commands this pass has recorded, oldest first.
    spec fn recorded(&self) -> Seq<RenderCommand>;

    fn set_vertex_buffer(&mut self, slot: u32, buffer: BufferId)
        ensures
            final(self).recorded() == old(self).recorded().push(
                (RenderCommand::SetVertexBuffer { slot, buffer }),
            ),
    ;

    fn set_index_buffer(&mut self, buffer: BufferId, format: IndexFormat)
        ensures
            final(self).recorded() == old(self).recorded().push(
                (RenderCommand::SetIndexBuffer { buffer, format }),
            ),
    ;

    fn set_bind_group(&mut self, slot: u32, group: BindGroupId)
        ensures
            final(self).recorded() == old(self).recorded().push(
                (RenderCommand::SetBindGroup { slot, group }),
            ),
    ;

    fn draw_indexed(&mut self, indices: DrawRange, base_vertex: i32, instances: DrawRange)
        ensures
            final(self).recorded() == old(self).recorded().push(
                (RenderCommand::DrawIndexed { indices, base_vertex, instances }),
            ),
    ;
}

/// The commands one mesh draw records: bind the mesh's vertex buffer to
/// slot 0 and its index buffer as 32-bit indices, bind the material to
/// slot 0 and the camera to slot 1, then draw every index of the mesh
/// for the given instances.
pub open spec fn mesh_draw_commands(
    mesh: Mesh,
    material: Material,
    instances: DrawRange,
    camera_bind_group: BindGroupId,
) -> Seq<RenderCommand> {
    seq![
        RenderCommand::SetVertexBuffer { slot: 0, buffer: mesh.vertex_buffer },
        RenderCommand::SetIndexBuffer { buffer: mesh.index_buffer, format: IndexFormat::Uint32 },
        RenderCommand::SetBindGroup {
            slot: MATERIAL_BIND_GROUP_SLOT,
            group: material.bind_group,
        },
        RenderCommand::SetBindGroup { slot: CAMERA_BIND_GROUP_SLOT, group: camera_bind_group },
        RenderCommand::DrawIndexed {
            indices: DrawRange { start: 0, end: mesh.num_elements },
            base_vertex: 0,
            instances: instances,
        },
    ]
}

/// The commands drawing the first `n` meshes of a model records: each
/// mesh in storage order, with its own material, the shared camera bind
/// group and the shared instance range.
pub open spec fn model_draw_commands_upto(
    model: Model,
    instances: DrawRange,
    camera_bind_group: BindGroupId,
    n: int,
) -> Seq<RenderCommand>
    decreases n,
{
    if n <= 0 {
        Seq::empty()
    } else {
        model_draw_commands_upto(model, instances, camera_bind_group, n - 1)
            + mesh_draw_commands(
            model.meshes@[n - 1],
            model.materials@[model.meshes@[n - 1].material as int],
            instances,
            camera_bind_group,
        )
    }
}

/// The commands drawing a whole model records.
pub open spec fn model_draw_commands(
    model: Model,
    instances: DrawRange,
    camera_bind_group: BindGroupId,
) -> Seq<RenderCommand> {
    model_draw_commands_upto(model, instances, camera_bind_group, model.meshes@.len() as int)
}

/// Mesh- and model-level drawing over any render pass.
pub trait DrawModel: RenderEncoder {
    /// Draw one mesh for the single instance 0.
    fn draw_mesh(&mut self, mesh: &Mesh, material: &Material, camera_bind_group: BindGroupId)
        ensures
            final(self).recorded() == old(self).recorded() + mesh_draw_commands(
                *mesh,
                *material,
                (DrawRange { start: 0, end: 1 }),
                camera_bind_group,
            ),
    ;

    /// Draw one mesh for the given instance range.
    fn draw_mesh_instanced(
        &mut self,
        mesh: &Mesh,
        material: &Material,
        instances: DrawRange,
        camera_bind_group: BindGroupId,
    )
        ensures
            final(self).recorded() == old(self).recorded() + mesh_draw_commands(
                *mesh,
                *material,
                instances,
                camera_bind_group,
            ),
    ;

    /// Draw every mesh of a model for the single instance 0.
    fn draw_model(&mut self, model: &Model, camera_bind_group: BindGroupId)
        requires
            model.wf(),
        ensures
            final(self).recorded() == old(self).recorded() + model_draw_commands(
                *model,
                (DrawRange { start: 0, end: 1 }),
                camera_bind_group,
            ),
    ;

    /// Draw every mesh of a model, in storage order, each with the
    /// material its index names, all with the same camera bind group
    /// and instance range.
    fn draw_model_instanced(
        &mut self,
        model: &Model,
        instances: DrawRange,
        camera_bind_group: BindGroupId,
    )
        requires
            model.wf(),
        ensures
            final(self).recorded() == old(self).recorded() + model_draw_commands(
                *model,
                instances,
                camera_bind_group,
            ),
    ;
}

impl<P: RenderEncoder> DrawModel for P {
    fn draw_mesh(&mut self, mesh: &Mesh, material: &Material, camera_bind_group: BindGroupId) {
        self.draw_mesh_instanced(mesh, material, DrawRange { start: 0, end: 1 }, camera_bind_group);
    }

    fn draw_mesh_instanced(
        &mut self,
        mesh: &Mesh,
        material: &Material,
        instances: DrawRange,
        camera_bind_group: BindGroupId,
    ) {
        self.set_vertex_buffer(0, mesh.vertex_buffer);
        self.set_index_buffer(mesh.index_buffer, IndexFormat::Uint32);
        self.set_bind_group(MATERIAL_BIND_GROUP_SLOT, material.bind_group);
        self.set_bind_group(CAMERA_BIND_GROUP_SLOT, camera_bind_group);
        self.draw_indexed(
            DrawRange { start: 0, end: mesh.num_elements },
            0,
            instances,
        );
        proof {
            assert(self.recorded() =~= old(self).recorded() + mesh_draw_commands(
                *mesh,
                *material,
                instances,
                camera_bind_group,
            ));
        }
    }

    fn draw_model(&mut self, model: &Model, camera_bind_group: BindGroupId) {
        self.draw_model_instanced(model, DrawRange { start: 0, end: 1 }, camera_bind_group);
    }

    fn draw_model_instanced(
        &mut self,
        model: &Model,
        instances: DrawRange,
        camera_bind_group: BindGroupId,
    ) {
        let mut i: usize = 0;
        while i < model.meshes.len()
            invariant
                0 <= i <= model.meshes@.len(),
                model.wf(),
                self.recorded() == old(self).recorded() + model_draw_commands_upto(
                    *model,
                    instances,
                    camera_bind_group,
                    i as int,
                ),
            decreases model.meshes@.len() - i,
        {
            let mesh = &model.meshes[i];
            let material = &model.materials[mesh.material];
            let ghost prev = self.recorded();
            self.draw_mesh_instanced(mesh, material, instances, camera_bind_group);
            proof {
                assert(self.recorded() =~= old(self).recorded() + model_draw_commands_upto(
                    *model,
                    instances,
                    camera_bind_group,
                    i as int + 1,
                ));
            }
            i = i + 1;
        }
    }
}

/// How many indexed draw calls a command sequence holds.
pub open spec fn draw_call_count(commands: Seq<RenderCommand>) -> int
    decreases commands.len(),
{
    if commands.len() == 0 {
        0
    } else {
        draw_call_count(commands.drop_last()) + if commands.last() is DrawIndexed {
            1int
        } else {
            0int
        }
    }
}

proof fn lemma_draw_call_count_concat(a: Seq<RenderCommand>, b: Seq<RenderCommand>)
    ensures
        draw_call_count(a + b) == draw_call_count(a) + draw_call_count(b),
    decreases b.len(),
{
    if b.len() == 0 {
        assert(a + b =~= a);
    } else {
        assert((a + b).drop_last() =~= a + b.drop_last());
        assert((a + b).last() == b.last());
        lemma_draw_call_count_concat(a, b.drop_last());
    }
}

proof fn lemma_mesh_draw_commands_shape(
    mesh: Mesh,
    material: Material,
    instances: DrawRange,
    camera_bind_group: BindGroupId,
)
    ensures
        mesh_draw_commands(mesh, material, instances, camera_bind_group).len() == 5,
        draw_call_count(mesh_draw_commands(mesh, material, instances, camera_bind_group)) == 1,
{
    let m = mesh_draw_commands(mesh, material, instances, camera_bind_group);
    let m4 = m.drop_last();
    let m3 = m4.drop_last();
    let m2 = m3.drop_last();
    let m1 = m2.drop_last();
    let m0 = m1.drop_last();
    assert(m.last() == m[4]);
    assert(m4.last() == m[3]);
    assert(m3.last() == m[2]);
    assert(m2.last() == m[1]);
    assert(m1.last() == m[0]);
    assert(draw_call_count(m) == draw_call_count(m4) + 1);
    assert(draw_call_count(m4) == draw_call_count(m3));
    assert(draw_call_count(m3) == draw_call_count(m2));
    assert(draw_call_count(m2) == draw_call_count(m1));
    assert(draw_call_count(m1) == draw_call_count(m0));
    assert(draw_call_count(m0) == 0);
}

proof fn lemma_model_draw_commands_upto(
    model: Model,
    instances: DrawRange,
    camera_bind_group: BindGroupId,
    n: int,
)
    requires
        model.wf(),
        0 <= n <= model.meshes@.len(),
    ensures
        model_draw_commands_upto(model, instances, camera_bind_group, n).len() == 5 * n,
        draw_call_count(model_draw_commands_upto(model, instances, camera_bind_group, n)) == n,
        forall|i: int| 0 <= i < n
            ==> #[trigger] model_draw_commands_upto(model, instances, camera_bind_group, n)
                .subrange(5 * i, 5 * i + 5) == mesh_draw_commands(
                model.meshes@[i],
                model.materials@[model.meshes@[i].material as int],
                instances,
                camera_bind_group,
            ),
    decreases n,
{
    if n > 0 {
        lemma_model_draw_commands_upto(model, instances, camera_bind_group, n - 1);
        let prefix = model_draw_commands_upto(model, instances, camera_bind_group, n - 1);
        let block = mesh_draw_commands(
            model.meshes@[n - 1],
            model.materials@[model.meshes@[n - 1].material as int],
            instances,
            camera_bind_group,
        );
        let whole = model_draw_commands_upto(model, instances, camera_bind_group, n);
        lemma_mesh_draw_commands_shape(
            model.meshes@[n - 1],
            model.materials@[model.meshes@[n - 1].material as int],
            instances,
            camera_bind_group,
        );
        lemma_draw_call_count_concat(prefix, block);
        assert forall|i: int| 0 <= i < n implies #[trigger] whole.subrange(5 * i, 5 * i + 5)
            == mesh_draw_commands(
            model.meshes@[i],
            model.materials@[model.meshes@[i].material as int],
            instances,
            camera_bind_group,
        ) by {
            if i < n - 1 {
                assert(whole.subrange(5 * i, 5 * i + 5) =~= prefix.subrange(5 * i, 5 * i + 5));
            } else {
                assert(whole.subrange(5 * i, 5 * i + 5) =~= block);
            }
        }
    }
}

/// The law of the model draw: drawing a well-formed model records
/// exactly one indexed draw call per mesh — five commands per mesh, and
/// the `i`-th five are exactly the `i`-th mesh's block, so each draw
/// call binds the material that the mesh's index names, the one shared
/// camera bind group, and the one shared instance range.
pub proof fn lemma_model_draw_commands(
    model: Model,
    instances: DrawRange,
    camera_bind_group: BindGroupId,
)
    requires
        model.wf(),
    ensures
        model_draw_commands(model, instances, camera_bind_group).len() == 5
            * model.meshes@.len(),
        draw_call_count(model_draw_commands(model, instances, camera_bind_group))
            == model.meshes@.len(),
        forall|i: int| 0 <= i < model.meshes@.len()
            ==> #[trigger] model_draw_commands(model, instances, camera_bind_group)
                .subrange(5 * i, 5 * i + 5) == mesh_draw_commands(
                model.meshes@[i],
                model.materials@[model.meshes@[i].material as int],
                instances,
                camera_bind_group,
            ),
{
    lemma_model_draw_commands_upto(
        model,
        instances,
        camera_bind_group,
        model.meshes@.len() as int,
    );
}

/// A render pass that only records: the commands it accepts go into a
/// vector in order. It is the protocol's reference implementation, and
/// what a test replays to see exactly which draws a model produces.
pub struct CommandLog {
    pub commands: Vec<RenderCommand>,
}

impl CommandLog {
    /// An empty log.
    pub fn new() -> (log: CommandLog)
        ensures
            log.recorded() == Seq::<RenderCommand>::empty(),
    {
        CommandLog { commands: Vec::new() }
    }
}

impl RenderEncoder for CommandLog {
    open spec fn recorded(&self) -> Seq<RenderCommand> {
        self.commands@
    }

    fn set_vertex_buffer(&mut self, slot: u32, buffer: BufferId) {
        self.commands.push(RenderCommand::SetVertexBuffer { slot, buffer });
    }

    fn set_index_buffer(&mut self, buffer: BufferId, format: IndexFormat) {
        self.commands.push(RenderCommand::SetIndexBuffer { buffer, format });
    }

    fn set_bind_group(&mut self, slot: u32, group: BindGroupId) {
        self.commands.push(RenderCommand::SetBindGroup { slot, group });
    }

    fn draw_indexed(&mut self, indices: DrawRange, base_vertex: i32, instances: DrawRange) {
        self.commands.push(RenderCommand::DrawIndexed { indices, base_vertex, instances });
    }
}

} // verus!
