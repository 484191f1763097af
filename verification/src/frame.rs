//! What one frame asks of the graphics device, and what is to be done when the
//! device fails to hand out a surface to draw on.
//!
//! A frame is one submission: first the culling pass, which writes the visible tiles
//! into their buffer, then the draw, which reads as many instances from that buffer
//! as the tile counter has found. The device runs the passes of one submission in
//! order, so the draw sees what the culling pass wrote.

use crate::compute_params::{ComputeParamsUniform, COMPUTEGROUPSIZE};
use crate::geometry::VERTEX_COUNT;
use crate::tile_counter::{
    calc_visible_tiles, count_laws, lemma_visible_tile_count_bounds, visible_tile_count,
};
use vstd::prelude::*;

verus! {

/// The work of one frame: the number of work groups of the culling pass along each
/// axis, and the vertices and instances of the draw that follows it.
#[derive(Clone, Copy, Debug, PartialEq, Eq, Structural)]
pub struct FramePlan {
    pub workgroups_x: u32,
    pub workgroups_y: u32,
    pub workgroups_z: u32,
    pub vertices: u32,
    pub instances: u32,
}

/// Why the device handed out no surface to draw on.
#[derive(Clone, Copy, Debug, PartialEq, Eq, Structural)]
pub enum SurfaceFailure {
    /// The surface was not ready in time.
    Timeout,
    /// The surface has changed under the swap chain.
    Outdated,
    /// The swap chain is gone.
    Lost,
    /// The device has no memory left.
    OutOfMemory,
}

/// What the loop does after an attempt to render a frame.
#[derive(Clone, Copy, Debug, PartialEq, Eq, Structural)]
pub enum FrameAction {
    /// The frame was shown: go on.
    Continue,
    /// Configure the surface anew, and draw again with the next frame.
    Resize,
    /// Leave this frame out, and change nothing.
    Skip,
    /// End the loop.
    Exit,
}

/// The number of rows over which the culling pass is dispatched for a diamond of
/// `rows` runs: two for the stagger of each.
pub open spec fn staggered_rows(rows: int) -> int {
    rows * 2
}

/// The number of tiles that the buffer of visible tiles holds for a diamond of `rows`
/// runs of `columns` tiles: every tile of every run.
pub open spec fn visible_buffer_capacity(columns: int, rows: int) -> int {
    columns * rows
}

/// The number of instances that the draw of a frame reads: the visible tiles of the
/// diamond of the parameters.
pub open spec fn frame_instances(params: ComputeParamsUniform) -> int {
    visible_tile_count(
        params.start_pos[0] as int,
        params.start_pos[1] as int,
        params.columns as int,
        params.rows as int,
        params.map_size[0] as int,
        params.map_size[1] as int,
    )
}

/// The draw never reads more instances than the buffer of visible tiles holds.
pub proof fn lemma_instances_fit_visible_buffer(params: ComputeParamsUniform)
    requires
        0 <= params.columns,
        0 <= params.rows,
    ensures
        0 <= frame_instances(params) <= visible_buffer_capacity(
            params.columns as int,
            params.rows as int,
        ),
{
    lemma_visible_tile_count_bounds(
        params.start_pos[0] as int,
        params.start_pos[1] as int,
        params.columns as int,
        params.rows as int,
        params.map_size[0] as int,
        params.map_size[1] as int,
    );
}

/// Plans a frame: one work group for every block of `COMPUTEGROUPSIZE` tiles by
/// `COMPUTEGROUPSIZE` staggered rows, and one instance of the quad for every visible
/// tile of the diamond.
///
/// The draw reads no more instances than the diamond has tiles, and no more than the
/// map has: a buffer of visible tiles that is as large as either holds them all.
pub fn plan_frame(params: &ComputeParamsUniform) -> (plan: FramePlan)
    requires
        params.drawable(),
    ensures
        plan.workgroups_x == params.columns / COMPUTEGROUPSIZE,
        plan.workgroups_y == staggered_rows(params.rows as int) / (COMPUTEGROUPSIZE as int),
        plan.workgroups_z == 1,
        plan.vertices == VERTEX_COUNT,
        plan.instances == frame_instances(*params),
        count_laws(
            params.start_pos[0] as int,
            params.start_pos[1] as int,
            params.columns as int,
            params.rows as int,
            params.map_size[0] as int,
            params.map_size[1] as int,
        ),
        plan.instances <= visible_buffer_capacity(params.columns as int, params.rows as int),
        plan.instances <= params.columns * params.rows,
        params.map_size[0] >= 0 && params.map_size[1] >= 0 ==> plan.instances
            <= params.map_size[0] * params.map_size[1],
{
    let instances = calc_visible_tiles(
        params.start_pos[0],
        params.start_pos[1],
        params.columns,
        params.rows,
        params.map_size[0],
        params.map_size[1],
    );
    FramePlan {
        workgroups_x: (params.columns / COMPUTEGROUPSIZE) as u32,
        workgroups_y: ((params.rows * 2) / COMPUTEGROUPSIZE) as u32,
        workgroups_z: 1,
        vertices: VERTEX_COUNT,
        instances: instances as u32,
    }
}

/// What the loop does after an attempt to render a frame: it goes on after a frame
/// that was shown, configures the surface anew where the swap chain is lost or
/// outdated, ends where the device is out of memory, and leaves out the frame where
/// the surface was not ready in time.
pub fn render_outcome(result: Result<(), SurfaceFailure>) -> (action: FrameAction)
    ensures
        action == match result {
            Ok(_) => FrameAction::Continue,
            Err(SurfaceFailure::Lost) => FrameAction::Resize,
            Err(SurfaceFailure::Outdated) => FrameAction::Resize,
            Err(SurfaceFailure::OutOfMemory) => FrameAction::Exit,
            Err(SurfaceFailure::Timeout) => FrameAction::Skip,
        },
{
    match result {
        Ok(_) => FrameAction::Continue,
        Err(SurfaceFailure::Lost) => FrameAction::Resize,
        Err(SurfaceFailure::Outdated) => FrameAction::Resize,
        Err(SurfaceFailure::OutOfMemory) => FrameAction::Exit,
        Err(SurfaceFailure::Timeout) => FrameAction::Skip,
    }
}

/// Whether a surface of this size can be configured: a surface with no pixels
/// cannot, and a request to resize to one is passed over.
pub fn surface_size_is_valid(width: u32, height: u32) -> (valid: bool)
    ensures
        valid == (width > 0 && height > 0),
{
    !(width == 0 || height == 0)
}

} // verus!
