use rps_simulator::{
    surface_error_action, Color, DrawCommand, DrawMeshCommand, FrameAction, FramePlan, Instance,
    InstanceBuffer, LoadOp, Mesh, Renderer, SurfaceError, Transform,
};

fn mesh() -> Mesh {
    Mesh::rect(60.0f32.to_bits(), 60.0f32.to_bits())
}

#[test]
fn default_draw_uses_single_identity_instance() {
    let renderer = Renderer::new(640, 480);
    let quad = mesh();
    let command = DrawCommand::DrawMesh(DrawMeshCommand {
        texture_attachment: None,
        instance_buffer: None,
        clear_color: None,
        mesh: &quad,
    });

    match renderer.plan_draw(&command) {
        FramePlan::MeshPass(plan) => {
            // exactly one instance is drawn, over the fallback stream
            assert_eq!(plan.instance_start, 0);
            assert_eq!(plan.instance_end, 1);
            assert!(plan.use_default_instances);
            assert!(plan.use_default_texture);
            assert_eq!(plan.load, LoadOp::Load);
            assert_eq!(plan.index_count, 6);
        }
        other => panic!("expected a mesh pass, got {other:?}"),
    }

    // the fallback instance carries the identity transform and cell (0, 0)
    assert_eq!(renderer.default_instance.model, Transform::identity().0);
    assert_eq!(renderer.default_instance.uv_index, [0, 0]);
    // the fallback texture is the 16x16 blank with the plain (1, 1) grid
    assert_eq!(renderer.default_texture.width, 16);
    assert_eq!(renderer.default_texture.height, 16);
    assert_eq!(renderer.default_texture.grid_size(), (1, 1));
}

#[test]
fn clear_command_plan() {
    let renderer = Renderer::new(640, 480);
    let color = Color { r: 0, g: 0, b: 0, a: 1.0f64.to_bits() };
    match renderer.plan_draw(&DrawCommand::Clear(color)) {
        FramePlan::ClearPass(c) => assert_eq!(c, color),
        other => panic!("expected a clear pass, got {other:?}"),
    }
}

#[test]
fn mesh_command_with_buffer_plan() {
    let renderer = Renderer::new(640, 480);
    let quad = mesh();
    let instances: Vec<Instance> = (0..3)
        .map(|i| {
            Instance::new(
                Transform::identity().translate([(i as f32 * 70.0).to_bits(), 10.0f32.to_bits()]),
                [i, 0],
            )
        })
        .collect();
    let buffer = InstanceBuffer::new(&instances);
    let clear = Color { r: 0, g: 0, b: 0, a: 0 };
    let command = DrawCommand::DrawMesh(DrawMeshCommand {
        texture_attachment: None,
        instance_buffer: Some(&buffer),
        clear_color: Some(clear),
        mesh: &quad,
    });

    match renderer.plan_draw(&command) {
        FramePlan::MeshPass(plan) => {
            assert_eq!(plan.instance_start, 0);
            assert_eq!(plan.instance_end, 3);
            assert!(!plan.use_default_instances);
            assert!(plan.use_default_texture);
            assert_eq!(plan.load, LoadOp::Clear(clear));
            assert_eq!(plan.index_count, 6);
        }
        other => panic!("expected a mesh pass, got {other:?}"),
    }
}

#[test]
fn resize_zero_is_noop() {
    let mut renderer = Renderer::new(800, 600);
    let before = renderer.projection.bytes();

    assert!(!renderer.resize(0, 600));
    assert!(!renderer.resize(800, 0));
    assert!(!renderer.resize(0, 0));

    assert_eq!(renderer.width, 800);
    assert_eq!(renderer.height, 600);
    assert_eq!(renderer.projection.width, 800);
    assert_eq!(renderer.projection.height, 600);
    assert_eq!(renderer.projection.bytes(), before);
}

#[test]
fn resize_applies_viewport() {
    let mut renderer = Renderer::new(800, 600);
    assert!(renderer.resize(1024, 768));
    assert_eq!(renderer.width, 1024);
    assert_eq!(renderer.height, 768);
    // the projection tracks the viewport
    assert_eq!(renderer.projection.width, 1024);
    assert_eq!(renderer.projection.height, 768);
    assert_eq!(renderer.projection.data[0], (2.0f32 / 1024.0).to_bits());
}

#[test]
fn surface_error_policy() {
    assert_eq!(surface_error_action(SurfaceError::Lost), FrameAction::Reconfigure);
    assert_eq!(surface_error_action(SurfaceError::OutOfMemory), FrameAction::Fatal);
    assert_eq!(surface_error_action(SurfaceError::Timeout), FrameAction::SkipFrame);
    assert_eq!(surface_error_action(SurfaceError::Outdated), FrameAction::SkipFrame);
}
