//! Core of a retained-mode 2D sprite renderer: affine transform algebra over
//! IEEE-754 single-precision values carried as bit patterns, an orthographic
//! screen projection, a textured-quad mesh, grid-based texture-atlas
//! addressing, a GPU instance-buffer protocol, and the draw-command dispatch
//! that composes them into render passes. The graphics backend itself
//! (windowing, device, surface) is an external collaborator driven by the
//! companion application crate.

mod bytes;
mod math;
mod renderer;
mod scalar;
mod simulation;

pub use crate::bytes::{le2, le4, push_le2, push_le4};
pub use crate::math::{
    dot3, identity_mat, mat_mul, pseudo_identity, rotation_mat, scaling_mat, translation_mat,
    wf_entry, wf_mat, Deg, Rad, Transform,
};
pub use crate::renderer::{
    decoded_rgba, image_rgba_of, indices_le, instance_le, instances_bytes, instances_le,
    mesh_plan_ok, ortho_mat, quad_indices, rect_vertices, surface_error_action, vertex_le,
    vertices_le, words_le,
    AttributeFormat, Color, DrawCommand, DrawMeshCommand, FrameAction, FramePlan, Instance,
    InstanceBuffer, LoadOp, Mesh, MeshPassPlan, Projection, Renderer, StepMode, SurfaceError,
    Texture, TextureError, Vertex, VertexAttribute, VertexBufferLayout, INSTANCE_STRIDE,
};
pub use crate::scalar::{
    add_bits, div_bits, is_finite, is_nan, is_zero_val, mul_bits, negated, sign_bit,
    single_of_u32, sub_bits, F32_180, F32_NEG_ZERO, F32_ONE, F32_PI, F32_TWO, F32_ZERO,
};
pub use crate::simulation::{beats, FightResults, Shape, SimulationState};
