//! What one frame records: a single render pass that clears the target and
//! draws the mesh once.

use crate::mesh::{whole_draw, DrawCall, Mesh};
use vstd::prelude::*;

verus! {

/// A color, each channel the bit pattern of a 32-bit float.
#[derive(Clone, Copy, Debug, PartialEq, Eq, Structural)]
pub struct ClearColor {
    pub r: u32,
    pub g: u32,
    pub b: u32,
    pub a: u32,
}

/// The bit pattern of the float `0.5`.
pub const HALF: u32 = 0x3f00_0000;

/// The bit pattern of the float `1.0`.
pub const ONE: u32 = 0x3f80_0000;

/// One command of a render pass.
#[derive(Clone, Copy, Debug, PartialEq, Eq, Structural)]
pub enum RenderCommand {
    /// Begin a pass on the frame's view: clear it to the color, store the
    /// result, no depth or stencil attachment.
    BeginPass { clear: ClearColor },
    SetPipeline,
    SetBindGroup { index: u32 },
    SetIndexBuffer { offset: u32 },
    SetVertexBuffer { offset: u32 },
    DrawIndexed(DrawCall),
    EndPass,
}

/// Opaque teal.
pub open spec fn teal() -> ClearColor {
    ClearColor { r: 0, g: HALF, b: HALF, a: ONE }
}

/// The commands of one frame that draws with `draw`.
pub open spec fn frame_commands(draw: DrawCall) -> Seq<RenderCommand> {
    seq![
        RenderCommand::BeginPass { clear: teal() },
        RenderCommand::SetPipeline,
        RenderCommand::SetBindGroup { index: 0 },
        RenderCommand::SetIndexBuffer { offset: 0 },
        RenderCommand::SetVertexBuffer { offset: 0 },
        RenderCommand::DrawIndexed(draw),
        RenderCommand::EndPass,
    ]
}

/// Number of draw calls among the commands.
pub open spec fn draw_count(commands: Seq<RenderCommand>) -> nat
    decreases commands.len(),
{
    if commands.len() == 0 {
        0
    } else {
        draw_count(commands.drop_last()) + if commands.last() is DrawIndexed {
            1nat
        } else {
            0nat
        }
    }
}

impl ClearColor {
    /// The fixed clear color: opaque teal.
    pub fn teal() -> (c: ClearColor)
        ensures
            c == teal(),
    {
        ClearColor { r: 0, g: HALF, b: HALF, a: ONE }
    }
}

/// Records the frame of `mesh`: one pass, cleared to teal, with one indexed
/// draw over the whole index list and a single instance.
pub fn record_frame(mesh: &Mesh) -> (commands: Vec<RenderCommand>)
    ensures
        commands@ == frame_commands(whole_draw(mesh.index_seq().len())),
{
    let draw = mesh.draw_call();
    let mut commands: Vec<RenderCommand> = Vec::new();
    commands.push(RenderCommand::BeginPass { clear: ClearColor::teal() });
    commands.push(RenderCommand::SetPipeline);
    commands.push(RenderCommand::SetBindGroup { index: 0 });
    commands.push(RenderCommand::SetIndexBuffer { offset: 0 });
    commands.push(RenderCommand::SetVertexBuffer { offset: 0 });
    commands.push(RenderCommand::DrawIndexed(draw));
    commands.push(RenderCommand::EndPass);
    assert(commands@ =~= frame_commands(whole_draw(mesh.index_seq().len())));
    commands
}

/// A recorded frame holds exactly one draw call.
pub proof fn lemma_one_draw_per_frame(draw: DrawCall)
    ensures
        draw_count(frame_commands(draw)) == 1,
{
    let c = frame_commands(draw);
    reveal_with_fuel(draw_count, 8);
    let c6 = c.drop_last();
    let c5 = c6.drop_last();
    let c4 = c5.drop_last();
    let c3 = c4.drop_last();
    let c2 = c3.drop_last();
    let c1 = c2.drop_last();
    assert(c.last() is EndPass);
    assert(c6.last() is DrawIndexed);
    assert(c5.last() is SetVertexBuffer);
    assert(c4.last() is SetIndexBuffer);
    assert(c3.last() is SetBindGroup);
    assert(c2.last() is SetPipeline);
    assert(c1.last() is BeginPass);
    assert(c1.drop_last().len() == 0);
}

} // verus!
