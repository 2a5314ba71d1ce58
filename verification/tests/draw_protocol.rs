use rendercore::model::{
    BindGroupId, BufferId, CommandLog, DrawModel, DrawRange, IndexFormat, Material, Mesh, Model,
    RenderCommand, CAMERA_BIND_GROUP_SLOT, MATERIAL_BIND_GROUP_SLOT,
};

fn mesh(name: &str, vertex_buffer: u64, index_buffer: u64, num_elements: u32, material: usize) -> Mesh {
    Mesh {
        name: name.to_string(),
        vertex_buffer: BufferId(vertex_buffer),
        index_buffer: BufferId(index_buffer),
        num_elements,
        material,
    }
}

fn material(name: &str, bind_group: u64) -> Material {
    Material { name: name.to_string(), bind_group: BindGroupId(bind_group) }
}

#[test]
fn slots_are_fixed() {
    assert_eq!(MATERIAL_BIND_GROUP_SLOT, 0);
    assert_eq!(CAMERA_BIND_GROUP_SLOT, 1);
}

#[test]
fn mesh_draw_records_five_commands() {
    let m = mesh("quad", 10, 11, 6, 0);
    let mat = material("stone", 20);
    let camera = BindGroupId(30);
    let mut pass = CommandLog::new();
    pass.draw_mesh_instanced(&m, &mat, DrawRange { start: 0, end: 4 }, camera);
    assert_eq!(
        pass.commands,
        vec![
            RenderCommand::SetVertexBuffer { slot: 0, buffer: BufferId(10) },
            RenderCommand::SetIndexBuffer { buffer: BufferId(11), format: IndexFormat::Uint32 },
            RenderCommand::SetBindGroup { slot: 0, group: BindGroupId(20) },
            RenderCommand::SetBindGroup { slot: 1, group: BindGroupId(30) },
            RenderCommand::DrawIndexed {
                indices: DrawRange { start: 0, end: 6 },
                base_vertex: 0,
                instances: DrawRange { start: 0, end: 4 },
            },
        ]
    );
}

#[test]
fn draw_mesh_is_single_instance() {
    let m = mesh("quad", 10, 11, 6, 0);
    let mat = material("stone", 20);
    let camera = BindGroupId(30);

    let mut plain = CommandLog::new();
    plain.draw_mesh(&m, &mat, camera);

    let mut instanced = CommandLog::new();
    instanced.draw_mesh_instanced(&m, &mat, DrawRange { start: 0, end: 1 }, camera);

    assert_eq!(plain.commands, instanced.commands);
}

#[test]
fn model_draw_issues_one_draw_call_per_mesh_with_its_material() {
    // Two meshes whose material indices cross: the first mesh uses the
    // second material and the second mesh the first.
    let model = Model {
        meshes: vec![mesh("m0", 100, 101, 9, 1), mesh("m1", 110, 111, 12, 0)],
        materials: vec![material("mat0", 200), material("mat1", 201)],
    };
    let camera = BindGroupId(300);
    let instances = DrawRange { start: 0, end: 2 };

    let mut pass = CommandLog::new();
    pass.draw_model_instanced(&model, instances, camera);

    let draws: Vec<&RenderCommand> = pass
        .commands
        .iter()
        .filter(|c| matches!(c, RenderCommand::DrawIndexed { .. }))
        .collect();
    assert_eq!(draws.len(), 2);

    assert_eq!(
        pass.commands,
        vec![
            // m0: its buffers, materials[1], the shared camera group.
            RenderCommand::SetVertexBuffer { slot: 0, buffer: BufferId(100) },
            RenderCommand::SetIndexBuffer { buffer: BufferId(101), format: IndexFormat::Uint32 },
            RenderCommand::SetBindGroup { slot: 0, group: BindGroupId(201) },
            RenderCommand::SetBindGroup { slot: 1, group: BindGroupId(300) },
            RenderCommand::DrawIndexed {
                indices: DrawRange { start: 0, end: 9 },
                base_vertex: 0,
                instances: DrawRange { start: 0, end: 2 },
            },
            // m1: its buffers, materials[0], the same camera group and
            // the same instance range.
            RenderCommand::SetVertexBuffer { slot: 0, buffer: BufferId(110) },
            RenderCommand::SetIndexBuffer { buffer: BufferId(111), format: IndexFormat::Uint32 },
            RenderCommand::SetBindGroup { slot: 0, group: BindGroupId(200) },
            RenderCommand::SetBindGroup { slot: 1, group: BindGroupId(300) },
            RenderCommand::DrawIndexed {
                indices: DrawRange { start: 0, end: 12 },
                base_vertex: 0,
                instances: DrawRange { start: 0, end: 2 },
            },
        ]
    );
}

#[test]
fn well_formedness_check_follows_the_material_indices() {
    let good = Model {
        meshes: vec![mesh("m0", 1, 2, 3, 1), mesh("m1", 4, 5, 6, 0)],
        materials: vec![material("a", 7), material("b", 8)],
    };
    assert!(good.check_wf());

    let bad = Model {
        meshes: vec![mesh("m0", 1, 2, 3, 2)],
        materials: vec![material("a", 7), material("b", 8)],
    };
    assert!(!bad.check_wf());

    let empty = Model { meshes: Vec::new(), materials: Vec::new() };
    assert!(empty.check_wf());
}

#[test]
fn model_draw_of_empty_model_records_nothing() {
    let model = Model { meshes: Vec::new(), materials: Vec::new() };
    let mut pass = CommandLog::new();
    pass.draw_model(&model, BindGroupId(1));
    assert!(pass.commands.is_empty());
}

#[test]
fn draw_model_is_single_instance() {
    let model = Model {
        meshes: vec![mesh("m0", 100, 101, 9, 0)],
        materials: vec![material("mat0", 200)],
    };
    let camera = BindGroupId(300);

    let mut plain = CommandLog::new();
    plain.draw_model(&model, camera);

    let mut instanced = CommandLog::new();
    instanced.draw_model_instanced(&model, DrawRange { start: 0, end: 1 }, camera);

    assert_eq!(plain.commands, instanced.commands);
}
