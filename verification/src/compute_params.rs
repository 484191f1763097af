//! The parameters that the culling pass reads: where the visible diamond starts, how
//! large the map is, and how many runs of how many tiles the diamond has.

use crate::map::SIZE;
use crate::projection::VisibleArea;
use vstd::prelude::*;

verus! {

/// The side of a compute work group: the culling pass handles the diamond in blocks of
/// this many tiles by this many runs.
pub const COMPUTEGROUPSIZE: i32 = 16;

/// The uniform that the culling pass reads: six 32-bit integers in this order.
///
/// `columns` is the length of a run of the diamond and `rows` the number of its runs.
/// The culling pass is dispatched over twice as many rows, two for the stagger of each.
#[derive(Clone, Copy, Debug, PartialEq, Eq)]
pub struct ComputeParamsUniform {
    pub start_pos: [i32; 2],
    pub map_size: [i32; 2],
    pub columns: i32,
    pub rows: i32,
}

/// `extent` rounded up to a multiple of the group size: the least multiple that is
/// not below it.
pub open spec fn rounded_up_to_group(extent: int) -> int {
    (extent + (COMPUTEGROUPSIZE - 1)) / (COMPUTEGROUPSIZE as int) * COMPUTEGROUPSIZE
}

/// `rounded_up_to_group` names a multiple of the group size that is not below
/// `extent` and less than one group above it. An extent that is a multiple stays as
/// it is.
pub proof fn lemma_rounded_up_to_group(extent: int)
    ensures
        rounded_up_to_group(extent) % (COMPUTEGROUPSIZE as int) == 0,
        extent <= rounded_up_to_group(extent) < extent + COMPUTEGROUPSIZE,
        extent % (COMPUTEGROUPSIZE as int) == 0 ==> rounded_up_to_group(extent) == extent,
{
}

/// No multiple of the group size that is not below `extent` is smaller than
/// `rounded_up_to_group` names.
pub proof fn lemma_rounded_up_to_group_is_least(extent: int, multiple: int)
    requires
        multiple % (COMPUTEGROUPSIZE as int) == 0,
        extent <= multiple,
    ensures
        rounded_up_to_group(extent) <= multiple,
{
}

impl VisibleArea {
    /// Whether the rectangle has no negative extent, and each extent leaves room below
    /// `i32::MAX` for rounding up to the group size.
    pub open spec fn wf(&self) -> bool {
        &&& 0 <= self.width <= i32::MAX - (COMPUTEGROUPSIZE - 1)
        &&& 0 <= self.height <= i32::MAX - (COMPUTEGROUPSIZE - 1)
    }

    /// Whether the rectangle has no negative extent, and each extent leaves room below
    /// `i32::MAX` for rounding up to the group size.
    pub fn is_wf(&self) -> (ok: bool)
        ensures
            ok == self.wf(),
    {
        0 <= self.width && self.width <= i32::MAX - (COMPUTEGROUPSIZE - 1) && 0 <= self.height
            && self.height <= i32::MAX - (COMPUTEGROUPSIZE - 1)
    }
}

/// Whether the parameters are those of the rectangle `area` on the map of `SIZE` by
/// `SIZE` tiles: the diamond starts at the rectangle's tile, `columns` is the
/// rectangle's width and `rows` its height, each rounded up to a multiple of the group
/// size.
pub open spec fn params_follow(params: ComputeParamsUniform, area: VisibleArea) -> bool {
    &&& params.start_pos[0] == area.x
    &&& params.start_pos[1] == area.y
    &&& params.map_size[0] == SIZE
    &&& params.map_size[1] == SIZE
    &&& params.columns == rounded_up_to_group(area.width as int)
    &&& params.rows == rounded_up_to_group(area.height as int)
}

fn round_up_to_group(extent: i32) -> (rounded: i32)
    requires
        0 <= extent <= i32::MAX - (COMPUTEGROUPSIZE - 1),
    ensures
        rounded == rounded_up_to_group(extent as int),
{
    (extent + (COMPUTEGROUPSIZE - 1)) / COMPUTEGROUPSIZE * COMPUTEGROUPSIZE
}

impl ComputeParamsUniform {
    /// The parameters of a rectangle of visible tiles: the diamond starts at the
    /// rectangle's tile, and both of its extents are rounded up to a multiple of the
    /// group size.
    pub fn new(visible_area: &VisibleArea) -> (params: Self)
        requires
            visible_area.wf(),
        ensures
            params_follow(params, *visible_area),
    {
        ComputeParamsUniform {
            map_size: [SIZE, SIZE],
            columns: round_up_to_group(visible_area.width),
            start_pos: [visible_area.x, visible_area.y],
            rows: round_up_to_group(visible_area.height),
        }
    }

    /// Whether a frame can be planned from these parameters: no extent is negative,
    /// twice `rows`, over which the culling pass is dispatched, fits in an `i32`, and
    /// `columns * rows`, the most tiles that the diamond can show, fits in the 32 bits
    /// in which the draw takes the number of its instances.
    pub open spec fn drawable(&self) -> bool {
        &&& 0 <= self.columns
        &&& 0 <= self.rows
        &&& 2 * self.rows <= i32::MAX
        &&& self.columns * self.rows <= u32::MAX
    }

    /// Whether a frame can be planned from these parameters.
    pub fn is_drawable(&self) -> (ok: bool)
        ensures
            ok == self.drawable(),
    {
        if self.columns < 0 || self.rows < 0 || self.rows > i32::MAX / 2 {
            return false;
        }
        let columns: i64 = self.columns as i64;
        let rows: i64 = self.rows as i64;
        assert(0 <= columns * rows <= 0x7fff_ffff * 0x7fff_ffff) by (nonlinear_arith)
            requires
                0 <= columns <= 0x7fff_ffff,
                0 <= rows <= 0x7fff_ffff,
        ;
        columns * rows <= u32::MAX as i64
    }
}

/// Brings the parameters up to date with the camera's rectangle: afterwards they are
/// what `ComputeParamsUniform::new` gives for it.
pub fn update_compute_params(
    compute_camera_uniform: &mut ComputeParamsUniform,
    visible_area: &VisibleArea,
)
    requires
        visible_area.wf(),
    ensures
        params_follow(*final(compute_camera_uniform), *visible_area),
{
    compute_camera_uniform.map_size = [SIZE, SIZE];
    compute_camera_uniform.columns = round_up_to_group(visible_area.width);
    compute_camera_uniform.rows = round_up_to_group(visible_area.height);
    compute_camera_uniform.start_pos = [visible_area.x, visible_area.y];
}

} // verus!
