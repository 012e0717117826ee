//! Presentation-surface state, per-frame failure policy, and the
//! recorded draw sequence.
//!
//! The surface state mirrors the negotiated swapchain configuration; a
//! resize with a zero dimension is a no-op so a minimized window never
//! produces a degenerate configuration. Per-frame GPU failures map to a
//! fixed recovery policy. A frame's draw work is recorded as an explicit
//! command sequence — resolve handles, bind, draw — that the GPU layer
//! replays against the real device.

use crate::assets_bank::{AssetRecord, AssetsBank};
use crate::fixed::FP_ONE;
use crate::handle::Handle;
use crate::resources::TextureFormat;
use vstd::prelude::*;

verus! {

/// Presentation mode of the surface; the engine always negotiates FIFO
/// (vsync), which bounds the queue to one in-flight frame.
#[derive(Clone, Copy, Debug, PartialEq, Eq, Structural)]
pub enum PresentMode {
    Fifo,
}

/// The negotiated swapchain configuration.
#[derive(Clone, Copy, Debug, PartialEq, Eq, Structural)]
pub struct SurfaceState {
    pub width: u32,
    pub height: u32,
    pub format: TextureFormat,
    pub present_mode: PresentMode,
}

impl SurfaceState {
    /// The initially negotiated configuration.
    pub fn new(width: u32, height: u32, format: TextureFormat) -> (surface: SurfaceState)
        ensures
            surface == (SurfaceState { width, height, format, present_mode: PresentMode::Fifo }),
    {
        SurfaceState { width, height, format, present_mode: PresentMode::Fifo }
    }

    /// Applies a window resize. A zero width or height leaves the prior
    /// configuration unchanged — the guard against minimized windows;
    /// otherwise only the dimensions change, never the format or the
    /// present mode. Returns whether the surface must be reconfigured.
    pub fn resize(&mut self, new_width: u32, new_height: u32) -> (changed: bool)
        ensures
            changed == (new_width > 0 && new_height > 0),
            changed ==> *final(self) == (SurfaceState {
                width: new_width,
                height: new_height,
                format: old(self).format,
                present_mode: old(self).present_mode,
            }),
            !changed ==> *final(self) == *old(self),
    {
        if new_width > 0 && new_height > 0 {
            self.width = new_width;
            self.height = new_height;
            true
        } else {
            false
        }
    }

    /// The aspect ratio as a fixed-point value: width over height.
    pub fn aspect_ratio_fp(&self) -> (aspect: i64)
        requires
            self.height > 0,
        ensures
            aspect == (self.width * FP_ONE) as int / (self.height as int),
            self.height <= self.width * FP_ONE ==> aspect > 0,
    {
        let scaled = (self.width as u64) * (FP_ONE as u64);
        let aspect = scaled / (self.height as u64);
        proof {
            if self.height <= self.width * FP_ONE {
                vstd::arithmetic::div_mod::lemma_div_non_zero(
                    scaled as int,
                    self.height as int,
                );
            }
            vstd::arithmetic::div_mod::lemma_div_is_ordered_by_denominator(
                scaled as int,
                1,
                self.height as int,
            );
        }
        aspect as i64
    }
}

/// A recoverable or fatal failure while acquiring or presenting a frame.
#[derive(Clone, Copy, Debug, PartialEq, Eq, Structural)]
pub enum FrameError {
    /// The surface was lost; it must be reconfigured at the last known
    /// size before the next frame.
    Lost,
    /// The surface no longer matches the window; skip and catch up.
    Outdated,
    /// Acquiring the next image timed out; skip and catch up.
    Timeout,
    /// The device is out of memory; the loop must terminate.
    OutOfMemory,
}

/// What the frame loop does about a frame failure.
#[derive(Clone, Copy, Debug, PartialEq, Eq, Structural)]
pub enum FrameAction {
    /// Reconfigure the surface at the last known size and continue.
    Reconfigure,
    /// Skip this frame; the display catches up next tick.
    SkipFrame,
    /// Terminate the loop.
    Terminate,
}

/// The fixed failure policy: a lost surface is locally recovered, memory
/// exhaustion is fatal, and transient conditions skip the frame.
pub open spec fn frame_error_action_spec(error: FrameError) -> FrameAction {
    match error {
        FrameError::Lost => FrameAction::Reconfigure,
        FrameError::Outdated => FrameAction::SkipFrame,
        FrameError::Timeout => FrameAction::SkipFrame,
        FrameError::OutOfMemory => FrameAction::Terminate,
    }
}

/// Decides how the frame loop handles a frame failure.
pub fn frame_error_action(error: FrameError) -> (action: FrameAction)
    ensures
        action == frame_error_action_spec(error),
{
    match error {
        FrameError::Lost => FrameAction::Reconfigure,
        FrameError::Outdated => FrameAction::SkipFrame,
        FrameError::Timeout => FrameAction::SkipFrame,
        FrameError::OutOfMemory => FrameAction::Terminate,
    }
}

/// One recorded command of a frame's render pass.
#[derive(Clone, Copy, Debug, PartialEq, Eq, Structural)]
pub enum DrawCommand {
    /// Make the resolved pipeline current.
    SetPipeline(Handle),
    /// Bind the camera uniform bind group.
    BindCameraGroup(Handle),
    /// Bind a material's texture bind group.
    BindTextureGroup(Handle),
    /// Bind an instance buffer at the instance-rate slot.
    BindInstanceBuffer(Handle),
    /// Bind a mesh's vertex buffer.
    BindVertexBuffer(Handle),
    /// Bind a mesh's index buffer.
    BindIndexBuffer(Handle),
    /// Draw `index_count` indices for each of `instance_count` instances.
    DrawIndexed { index_count: u32, instance_count: u32 },
}

/// One material-grouped batch of a frame: a texture, a mesh, and the
/// instances drawn with them.
#[derive(Clone, Copy, Debug, PartialEq, Eq, Structural)]
pub struct DrawBatch {
    pub texture: Handle,
    pub mesh: Handle,
    pub instances: Handle,
}

/// Everything one frame draws: the pipeline, the camera, and the
/// batches.
#[derive(Clone, Debug)]
pub struct FramePlan {
    pub pipeline: Handle,
    pub camera: Handle,
    pub batches: Vec<DrawBatch>,
}

/// Number of indices of the mesh behind a handle.
pub open spec fn mesh_index_count(bank: AssetsBank, handle: Handle) -> int {
    match bank.lookup(handle) {
        Some(AssetRecord::Mesh(mesh)) => mesh.index_count(),
        _ => 0,
    }
}

/// Number of instances in the set behind a handle.
pub open spec fn instance_count(bank: AssetsBank, handle: Handle) -> int {
    match bank.lookup(handle) {
        Some(AssetRecord::Instances(instances)) => instances@.len() as int,
        _ => 0,
    }
}

/// The commands one batch records: bind its texture, instances and mesh
/// buffers, then one indexed draw over all of the mesh's indices and all
/// of the set's instances.
pub open spec fn batch_commands(bank: AssetsBank, batch: DrawBatch) -> Seq<DrawCommand> {
    seq![
        DrawCommand::BindTextureGroup(batch.texture),
        DrawCommand::BindInstanceBuffer(batch.instances),
        DrawCommand::BindVertexBuffer(batch.mesh),
        DrawCommand::BindIndexBuffer(batch.mesh),
        DrawCommand::DrawIndexed {
            index_count: mesh_index_count(bank, batch.mesh) as u32,
            instance_count: instance_count(bank, batch.instances) as u32,
        },
    ]
}

/// The commands a sequence of batches records, in order.
pub open spec fn batches_commands(bank: AssetsBank, batches: Seq<DrawBatch>) -> Seq<DrawCommand>
    decreases batches.len(),
{
    if batches.len() == 0 {
        Seq::empty()
    } else {
        batches_commands(bank, batches.drop_last()) + batch_commands(bank, batches.last())
    }
}

/// The full command sequence of a frame: pipeline, camera, then each
/// batch in order.
pub open spec fn plan_commands(bank: AssetsBank, plan: FramePlan) -> Seq<DrawCommand> {
    seq![DrawCommand::SetPipeline(plan.pipeline), DrawCommand::BindCameraGroup(plan.camera)]
        + batches_commands(bank, plan.batches@)
}

/// Every handle the plan names resolves in the bank to a resource of
/// the right kind.
pub open spec fn plan_resolvable(bank: AssetsBank, plan: FramePlan) -> bool {
    &&& bank.has_pipeline(plan.pipeline)
    &&& bank.has_camera(plan.camera)
    &&& forall|i: int|
        0 <= i < plan.batches@.len() ==> {
            &&& bank.has_texture((#[trigger] plan.batches@[i]).texture)
            &&& bank.has_mesh(plan.batches@[i].mesh)
            &&& bank.has_instances(plan.batches@[i].instances)
        }
}

/// Records one frame's command sequence by resolving every handle
/// through the bank: the pipeline and camera are bound once, then each
/// batch binds its resources and issues exactly one indexed-instanced
/// draw whose counts come from the registered mesh and instance set.
pub fn record_frame(bank: &AssetsBank, plan: &FramePlan) -> (commands: Vec<DrawCommand>)
    requires
        bank.wf(),
        plan_resolvable(*bank, *plan),
    ensures
        commands@ == plan_commands(*bank, *plan),
{
    let mut commands: Vec<DrawCommand> = Vec::new();
    commands.push(DrawCommand::SetPipeline(plan.pipeline));
    commands.push(DrawCommand::BindCameraGroup(plan.camera));
    proof {
        assert(plan.batches@.take(0) =~= Seq::<DrawBatch>::empty());
        assert(commands@ =~= seq![
            DrawCommand::SetPipeline(plan.pipeline),
            DrawCommand::BindCameraGroup(plan.camera),
        ] + batches_commands(*bank, plan.batches@.take(0)));
    }
    let mut i: usize = 0;
    while i < plan.batches.len()
        invariant
            bank.wf(),
            plan_resolvable(*bank, *plan),
            0 <= i <= plan.batches@.len(),
            commands@ == seq![
                DrawCommand::SetPipeline(plan.pipeline),
                DrawCommand::BindCameraGroup(plan.camera),
            ] + batches_commands(*bank, plan.batches@.take(i as int)),
        decreases plan.batches@.len() - i,
    {
        let batch = plan.batches[i];
        let mesh = bank.get_mesh_data(batch.mesh);
        let index_count = mesh.num_indices();
        let instances = bank.get_instance_data(batch.instances);
        let instance_count_exec = instances.len() as u32;
        commands.push(DrawCommand::BindTextureGroup(batch.texture));
        commands.push(DrawCommand::BindInstanceBuffer(batch.instances));
        commands.push(DrawCommand::BindVertexBuffer(batch.mesh));
        commands.push(DrawCommand::BindIndexBuffer(batch.mesh));
        commands.push(
            DrawCommand::DrawIndexed { index_count, instance_count: instance_count_exec },
        );
        proof {
            assert(plan.batches@.take(i + 1).drop_last() =~= plan.batches@.take(i as int));
            assert(plan.batches@.take(i + 1).last() == plan.batches@[i as int]);
            assert(commands@ =~= seq![
                DrawCommand::SetPipeline(plan.pipeline),
                DrawCommand::BindCameraGroup(plan.camera),
            ] + batches_commands(*bank, plan.batches@.take(i + 1)));
        }
        i = i + 1;
    }
    proof {
        assert(plan.batches@.take(plan.batches@.len() as int) =~= plan.batches@);
    }
    commands
}

/// Number of indexed draws in a command sequence.
pub open spec fn count_draws(commands: Seq<DrawCommand>) -> int
    decreases commands.len(),
{
    if commands.len() == 0 {
        0
    } else {
        count_draws(commands.drop_last()) + (if commands.last() matches
            DrawCommand::DrawIndexed { .. } {
            1int
        } else {
            0int
        })
    }
}

/// Draw counting distributes over concatenation.
proof fn lemma_count_draws_concat(a: Seq<DrawCommand>, b: Seq<DrawCommand>)
    ensures
        count_draws(a + b) == count_draws(a) + count_draws(b),
    decreases b.len(),
{
    if b.len() == 0 {
        assert(a + b =~= a);
    } else {
        assert((a + b).drop_last() =~= a + b.drop_last());
        assert((a + b).last() == b.last());
        lemma_count_draws_concat(a, b.drop_last());
    }
}

/// A sequence without an indexed draw counts zero draws.
proof fn lemma_count_draws_none(commands: Seq<DrawCommand>)
    requires
        forall|i: int|
            0 <= i < commands.len() ==> !((#[trigger] commands[i]) matches
                DrawCommand::DrawIndexed { .. }),
    ensures
        count_draws(commands) == 0,
    decreases commands.len(),
{
    if commands.len() > 0 {
        assert(commands.last() == commands[commands.len() - 1]);
        lemma_count_draws_none(commands.drop_last());
    }
}

/// One batch records exactly one indexed draw.
proof fn lemma_count_draws_batch(bank: AssetsBank, batch: DrawBatch)
    ensures
        count_draws(batch_commands(bank, batch)) == 1,
{
    let s = batch_commands(bank, batch);
    let binds = s.drop_last();
    assert(s.last() == s[4]);
    lemma_count_draws_none(binds);
    assert(count_draws(s) == count_draws(binds) + 1);
}

/// A recorded frame contains exactly one indexed-instanced draw per
/// batch: submitting one frame plan with `n` batches yields `n` draws,
/// no more, no fewer.
pub proof fn lemma_one_draw_per_batch(bank: AssetsBank, plan: FramePlan)
    ensures
        count_draws(plan_commands(bank, plan)) == plan.batches@.len(),
{
    lemma_batches_draw_count(bank, plan.batches@);
    lemma_count_draws_concat(
        seq![DrawCommand::SetPipeline(plan.pipeline), DrawCommand::BindCameraGroup(plan.camera)],
        batches_commands(bank, plan.batches@),
    );
    let header = seq![
        DrawCommand::SetPipeline(plan.pipeline),
        DrawCommand::BindCameraGroup(plan.camera),
    ];
    lemma_count_draws_none(header);
}

/// Batch sequences record one draw per batch.
proof fn lemma_batches_draw_count(bank: AssetsBank, batches: Seq<DrawBatch>)
    ensures
        count_draws(batches_commands(bank, batches)) == batches.len(),
    decreases batches.len(),
{
    if batches.len() > 0 {
        lemma_batches_draw_count(bank, batches.drop_last());
        lemma_count_draws_concat(
            batches_commands(bank, batches.drop_last()),
            batch_commands(bank, batches.last()),
        );
        lemma_count_draws_batch(bank, batches.last());
    }
}

} // verus!
