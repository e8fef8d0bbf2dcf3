//! The rendering abstraction layer: mesh, texture atlas, projection,
//! instance buffer, and the renderer state machine that dispatches draw
//! commands into render passes.
//!
//! The renderer's only steady state is a configured viewport. A resize
//! re-validates the dimensions (a degenerate viewport is a no-op) and keeps
//! the projection in step with the surface. A draw command is dispatched
//! into a pass plan — load operation, texture and instance-stream selection,
//! instance range, index count — which the application layer executes
//! against the graphics backend verbatim.

mod instance;
mod mesh;
mod projection;
mod texture;

pub use self::instance::{
    instance_le, instances_bytes, instances_le, Instance, InstanceBuffer, INSTANCE_STRIDE,
};
pub use self::mesh::{
    indices_le, quad_indices, rect_vertices, vertex_le, vertices_le, AttributeFormat, Mesh,
    StepMode, Vertex, VertexAttribute, VertexBufferLayout,
};
pub use self::projection::{ortho_mat, words_le, Projection};
pub use self::texture::{decoded_rgba, image_rgba_of, Texture, TextureError};

use crate::math::{identity_mat, Transform};
use vstd::prelude::*;

verus! {

/// A clear color: red, green, blue and alpha, each an IEEE-754
/// double-precision bit pattern (the backend takes doubles for clears).
#[derive(Debug, Clone, Copy, PartialEq, Eq, Structural)]
pub struct Color {
    pub r: u64,
    pub g: u64,
    pub b: u64,
    pub a: u64,
}

/// One frame's drawing request, borrowing every resource it references for
/// the duration of a single draw call.
#[derive(Debug)]
pub enum DrawCommand<'a> {
    /// Clear the target to a color; no geometry is issued.
    Clear(Color),
    /// Draw one mesh, instanced, with optional texture, instance buffer and
    /// clear-before-draw color.
    DrawMesh(DrawMeshCommand<'a>),
}

/// The borrowed ingredients of one instanced mesh draw.
#[derive(Debug)]
pub struct DrawMeshCommand<'a> {
    pub texture_attachment: Option<&'a Texture>,
    pub instance_buffer: Option<&'a InstanceBuffer>,
    pub clear_color: Option<Color>,
    pub mesh: &'a Mesh,
}

/// A render pass's load operation: clear to a color, or keep what the
/// target already holds.
#[derive(Debug, Clone, Copy, PartialEq, Eq, Structural)]
pub enum LoadOp {
    Clear(Color),
    Load,
}

/// The resolved parameters of one mesh pass: what to bind and what to draw.
/// Where a default is selected, the renderer's fallback resources stand in —
/// the blank texture, or the single identity instance.
#[derive(Debug, Clone, Copy, PartialEq, Eq, Structural)]
pub struct MeshPassPlan {
    pub load: LoadOp,
    pub use_default_texture: bool,
    pub use_default_instances: bool,
    pub instance_start: u32,
    pub instance_end: u32,
    pub index_count: u32,
}

/// What one dispatched frame records: a bare clear pass, or one instanced
/// mesh pass.
#[derive(Debug, Clone, Copy, PartialEq, Eq, Structural)]
pub enum FramePlan {
    ClearPass(Color),
    MeshPass(MeshPassPlan),
}

/// The backend's ways of failing to acquire the next presentable image.
#[derive(Debug, Clone, Copy, PartialEq, Eq, Structural)]
pub enum SurfaceError {
    Timeout,
    Outdated,
    Lost,
    OutOfMemory,
}

/// What the renderer does about one frame's acquisition failure.
#[derive(Debug, Clone, Copy, PartialEq, Eq, Structural)]
pub enum FrameAction {
    /// Reconfigure the surface at the current size and continue.
    Reconfigure,
    /// Out of memory: terminate the application loop.
    Fatal,
    /// Transient: drop this frame and try again next tick.
    SkipFrame,
}

/// Per-frame failure policy: a lost surface is reconfigured immediately,
/// out-of-memory is fatal, and any other acquisition failure drops the
/// frame. Never propagated past one frame except where fatal.
pub fn surface_error_action(error: SurfaceError) -> (r: FrameAction)
    ensures
        r == FrameAction::Reconfigure <==> error == SurfaceError::Lost,
        r == FrameAction::Fatal <==> error == SurfaceError::OutOfMemory,
        r == FrameAction::SkipFrame <==> (error == SurfaceError::Timeout || error
            == SurfaceError::Outdated),
{
    match error {
        SurfaceError::Lost => FrameAction::Reconfigure,
        SurfaceError::OutOfMemory => FrameAction::Fatal,
        SurfaceError::Timeout => FrameAction::SkipFrame,
        SurfaceError::Outdated => FrameAction::SkipFrame,
    }
}

/// The pass plan a mesh command resolves to: the load operation comes from
/// the optional clear color; the texture binding falls back to the default
/// blank texture; the instance stream falls back to the single default
/// identity instance with range `[0, 1)`, and otherwise covers the given
/// buffer's full range `[0, n)`; the indexed draw covers the mesh's indices.
pub open spec fn mesh_plan_ok(cmd: DrawMeshCommand<'_>, plan: MeshPassPlan) -> bool {
    &&& plan.load == (match cmd.clear_color {
        Some(c) => LoadOp::Clear(c),
        None => LoadOp::Load,
    })
    &&& plan.use_default_texture == (cmd.texture_attachment is None)
    &&& plan.use_default_instances == (cmd.instance_buffer is None)
    &&& plan.instance_start == 0
    &&& (match cmd.instance_buffer {
        Some(b) => plan.instance_end == b.contents().len(),
        None => plan.instance_end == 1,
    })
    &&& plan.index_count == cmd.mesh.num_indices
}

/// The renderer: the configured viewport, the projection kept in step with
/// it, and the fallback resources every draw can rely on.
#[derive(Debug)]
pub struct Renderer {
    pub width: u32,
    pub height: u32,
    pub projection: Projection,
    pub default_texture: Texture,
    pub default_instance: Instance,
}

impl Renderer {
    /// The steady state: a non-degenerate viewport, a projection reflecting
    /// exactly it, a 16 by 16 blank fallback texture with the plain `(1,1)`
    /// grid, and a fallback instance holding the identity transform and
    /// atlas cell `(0, 0)`.
    pub open spec fn wf(self) -> bool {
        &&& self.width >= 1
        &&& self.height >= 1
        &&& self.projection.wf()
        &&& self.projection.width == self.width
        &&& self.projection.height == self.height
        &&& self.default_texture.wf()
        &&& self.default_texture.width == 16
        &&& self.default_texture.height == 16
        &&& self.default_texture.grid_width == 1
        &&& self.default_texture.grid_height == 1
        &&& forall|i: int|
            0 <= i < self.default_texture.rgba@.len() ==> self.default_texture.rgba@[i] == 0
        &&& self.default_instance.model@ == identity_mat()
        &&& self.default_instance.uv_index@ == seq![0u32, 0u32]
    }

    /// Configure the renderer for a non-degenerate viewport and build the
    /// fallback resources.
    pub fn new(width: u32, height: u32) -> (r: Self)
        requires
            width >= 1,
            height >= 1,
        ensures
            r.wf(),
            r.width == width,
            r.height == height,
    {
        let projection = Projection::new(width, height);
        let default_texture = Texture::blank(16, 16);
        let default_instance = Instance::new(Transform::identity(), [0, 0]);
        proof {
            assert(default_instance.uv_index@ =~= seq![0u32, 0u32]);
        }
        Renderer { width, height, projection, default_texture, default_instance }
    }

    /// Re-validate and apply a viewport change. A degenerate size — zero
    /// width or height — is a complete no-op: no reconfiguration, no change
    /// of state. Otherwise the new size is adopted, the projection is
    /// recomputed for it, and the surface must be reconfigured.
    pub fn resize(&mut self, width: u32, height: u32) -> (reconfigured: bool)
        requires
            old(self).wf(),
        ensures
            final(self).wf(),
            (width == 0 || height == 0) ==> (*final(self) == *old(self) && !reconfigured),
            (width >= 1 && height >= 1) ==> (reconfigured && final(self).width == width
                && final(self).height == height
                && final(self).default_texture == old(self).default_texture
                && final(self).default_instance == old(self).default_instance),
    {
        if width == 0 || height == 0 {
            return false;
        }
        self.width = width;
        self.height = height;
        self.projection.resize(width, height);
        true
    }

    /// Dispatch one draw command into the pass it records: a bare clear
    /// pass for a clear command, and for a mesh command the resolved
    /// bindings and ranges of `mesh_plan_ok`.
    pub fn plan_draw(&self, command: &DrawCommand<'_>) -> (p: FramePlan)
        ensures
            (command matches DrawCommand::Clear(c) ==> p == FramePlan::ClearPass(*c)),
            (command matches DrawCommand::DrawMesh(m) ==> (p matches FramePlan::MeshPass(plan)
                && mesh_plan_ok(*m, plan))),
    {
        match command {
            DrawCommand::Clear(color) => FramePlan::ClearPass(*color),
            DrawCommand::DrawMesh(cmd) => {
                let load = match cmd.clear_color {
                    Some(c) => LoadOp::Clear(c),
                    None => LoadOp::Load,
                };
                let use_default_texture = cmd.texture_attachment.is_none();
                let (instance_end, use_default_instances) = match cmd.instance_buffer {
                    Some(buffer) => {
                        let r = buffer.range();
                        (r.1, false)
                    },
                    None => (1u32, true),
                };
                let index_count = cmd.mesh.num_indices();
                FramePlan::MeshPass(
                    MeshPassPlan {
                        load,
                        use_default_texture,
                        use_default_instances,
                        instance_start: 0,
                        instance_end,
                        index_count,
                    },
                )
            },
        }
    }
}

} // verus!
