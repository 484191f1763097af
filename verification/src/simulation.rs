//! The state that the loop owns, and what a step of the simulation and a frame do
//! to it.
//!
//! A frame takes in the time that has passed, runs the ticks that are due, and plans
//! the one render of the frame. A tick lets the keys steer the camera, brings the
//! parameters of the culling pass up to date with what the camera shows, and then
//! forgets which keys have just been pressed or released: the tick has seen them.

use crate::camera::{
    command_of, lemma_area_fits, update_input, CameraKeys, CustomCamera, ScreenSize, AREA_LIMIT,
    CAMERA_STEP, SCREEN_LIMIT, TILE_LIMIT,
};
use crate::compute_params::{
    lemma_rounded_up_to_group, params_follow, update_compute_params,
    ComputeParamsUniform,
};
use crate::frame::{frame_instances, plan_frame, surface_size_is_valid, FramePlan};
use crate::geometry::VERTEX_COUNT;
use crate::input::Input;
use crate::map::SIZE;
use crate::projection::{TilePos, VisibleArea, WORLD_LIMIT};
use crate::timestep::{
    pending_after, ticks_due, FixedTimestep, MAX_FRAME_NANOS, MAX_TICKS_PER_FRAME, STEP_NANOS,
};
use std::hash::Hash;
use vstd::prelude::*;
use vstd::std_specs::hash::obeys_key_model;

verus! {

/// All that the loop owns: the camera, the parameters of the culling pass, the state
/// of the keys, the keys that steer the camera, and the fixed timestep.
pub struct Simulation<T: Copy + Eq + Hash> {
    pub camera: CustomCamera,
    pub compute_params: ComputeParamsUniform,
    pub input: Input<T>,
    pub keys: CameraKeys<T>,
    pub timestep: FixedTimestep,
}

/// The work of one frame: the number of ticks that were run, and the render.
#[derive(Clone, Copy, Debug, PartialEq, Eq, Structural)]
pub struct FrameWork {
    pub ticks: u32,
    pub plan: FramePlan,
}

/// The camera after `ticks` ticks. The first tick sees the keys that have just been
/// pressed, the ticks after it see only the keys that are held.
pub open spec fn camera_after_ticks<T>(
    camera: CustomCamera,
    keys: CameraKeys<T>,
    pressed: Set<T>,
    just_pressed: Set<T>,
    ticks: nat,
) -> CustomCamera
    decreases ticks,
{
    if ticks == 0 {
        camera
    } else {
        camera_after_ticks(
            camera.after_command(command_of(keys, pressed, just_pressed)),
            keys,
            pressed,
            Set::<T>::empty(),
            (ticks - 1) as nat,
        )
    }
}

/// The parameters of a rectangle of visible tiles within `AREA_LIMIT` can be drawn.
pub proof fn lemma_params_of_area_are_drawable(params: ComputeParamsUniform, area: VisibleArea)
    requires
        0 <= area.width <= AREA_LIMIT,
        0 <= area.height <= AREA_LIMIT,
        params_follow(params, area),
    ensures
        params.drawable(),
{
    lemma_rounded_up_to_group(area.width as int);
    lemma_rounded_up_to_group(area.height as int);
    assert(params.columns * params.rows <= 0x4018 * 0x4018) by (nonlinear_arith)
        requires
            0 <= params.columns <= 0x4018,
            0 <= params.rows <= 0x4018,
    ;
}

impl<T: Copy + Eq + Hash> Simulation<T> {
    /// Whether the camera is well-formed and its rectangle of visible tiles is in
    /// range, and the parameters can be drawn and are those of the map of `SIZE` by
    /// `SIZE` tiles.
    pub open spec fn wf(&self) -> bool {
        &&& self.camera.wf()
        &&& self.camera.area_in_range()
        &&& self.compute_params.drawable()
        &&& self.compute_params.map_size[0] == SIZE
        &&& self.compute_params.map_size[1] == SIZE
    }

    /// Whether the camera stays within `WORLD_LIMIT` of the origin through the ticks
    /// of a frame.
    pub open spec fn can_run_frame(&self) -> bool {
        &&& -WORLD_LIMIT + MAX_TICKS_PER_FRAME * CAMERA_STEP <= self.camera.position.x
            <= WORLD_LIMIT - MAX_TICKS_PER_FRAME * CAMERA_STEP
        &&& -WORLD_LIMIT + MAX_TICKS_PER_FRAME * CAMERA_STEP <= self.camera.position.y
            <= WORLD_LIMIT - MAX_TICKS_PER_FRAME * CAMERA_STEP
    }

    /// Whether the camera is well-formed and its rectangle of visible tiles is in
    /// range, and the parameters can be drawn and are those of the map of `SIZE` by
    /// `SIZE` tiles.
    pub fn is_wf(&self) -> (ok: bool)
        ensures
            ok == self.wf(),
    {
        self.camera.is_wf() && self.camera.is_area_in_range() && self.compute_params.is_drawable()
            && self.compute_params.map_size[0]
            == SIZE && self.compute_params.map_size[1] == SIZE
    }

    /// Whether the camera stays within `WORLD_LIMIT` of the origin through the ticks
    /// of a frame.
    pub fn is_runnable(&self) -> (ok: bool)
        ensures
            ok == self.can_run_frame(),
    {
        let reach: i64 = (MAX_TICKS_PER_FRAME as i64) * CAMERA_STEP;
        -WORLD_LIMIT + reach <= self.camera.position.x && self.camera.position.x <= WORLD_LIMIT
            - reach && -WORLD_LIMIT + reach <= self.camera.position.y && self.camera.position.y
            <= WORLD_LIMIT - reach
    }

    /// The state at the start of the loop: the camera looks at the tile `pos`, no key
    /// is held, no time is pending, and the parameters are those of the rectangle that
    /// the camera shows.
    pub fn new(keys: CameraKeys<T>, pos: TilePos, screen_size: ScreenSize) -> (simulation: Self)
        requires
            screen_size.width <= SCREEN_LIMIT,
            screen_size.height <= SCREEN_LIMIT,
            -TILE_LIMIT <= pos.x <= TILE_LIMIT,
            -TILE_LIMIT <= pos.y <= TILE_LIMIT,
        ensures
            simulation.wf(),
            simulation.can_run_frame(),
            simulation.keys == keys,
            simulation.camera == CustomCamera::looking_at(pos.x as int, pos.y as int, screen_size),
            simulation.camera.area_is_current(),
            params_follow(simulation.compute_params, simulation.camera.visible_area),
            simulation.input.pressed_set() == Set::<T>::empty(),
            simulation.input.just_pressed_set() == Set::<T>::empty(),
            simulation.input.just_released_set() == Set::<T>::empty(),
            simulation.timestep.pending() == 0,
    {
        let camera = CustomCamera::new(pos, screen_size);
        let compute_params = ComputeParamsUniform::new(&camera.visible_area);
        proof {
            lemma_params_of_area_are_drawable(compute_params, camera.visible_area);
        }
        Simulation {
            camera,
            compute_params,
            input: Input::default(),
            keys,
            timestep: FixedTimestep::new(),
        }
    }

    /// Runs one tick: the keys steer the camera, the parameters of the culling pass
    /// follow what the camera shows, and the keys that have just been pressed or
    /// released are forgotten.
    pub fn tick(&mut self)
        requires
            obeys_key_model::<T>(),
            old(self).camera.wf(),
            old(self).camera.area_in_range(),
            old(self).camera.can_move(),
        ensures
            final(self).camera == old(self).camera.after_command(
                command_of(
                    old(self).keys,
                    old(self).input.pressed_set(),
                    old(self).input.just_pressed_set(),
                ),
            ),
            params_follow(final(self).compute_params, final(self).camera.visible_area),
            final(self).input.pressed_set() == old(self).input.pressed_set(),
            final(self).input.just_pressed_set() == Set::<T>::empty(),
            final(self).input.just_released_set() == Set::<T>::empty(),
            final(self).keys == old(self).keys,
            final(self).timestep == old(self).timestep,
            final(self).wf(),
    {
        update_input(&mut self.camera, &self.keys, &self.input);
        update_compute_params(&mut self.compute_params, &self.camera.visible_area);
        self.input.clear();
        proof {
            lemma_params_of_area_are_drawable(self.compute_params, self.camera.visible_area);
        }
    }

    /// Runs one frame that took `frame_nanos` nanoseconds: as many ticks as are due,
    /// then the plan of the one render. The render draws no more instances than the
    /// map has tiles.
    pub fn frame(&mut self, frame_nanos: u64) -> (work: FrameWork)
        requires
            obeys_key_model::<T>(),
            old(self).wf(),
            old(self).can_run_frame(),
        ensures
            work.ticks == ticks_due(old(self).timestep.pending() as int, frame_nanos as int),
            frame_nanos >= MAX_FRAME_NANOS ==> work.ticks == MAX_TICKS_PER_FRAME,
            old(self).timestep.pending() < STEP_NANOS,
            final(self).timestep.pending() < STEP_NANOS,
            work.ticks <= MAX_TICKS_PER_FRAME,
            final(self).timestep.pending() == pending_after(
                old(self).timestep.pending() as int,
                frame_nanos as int,
            ),
            final(self).camera == camera_after_ticks(
                old(self).camera,
                old(self).keys,
                old(self).input.pressed_set(),
                old(self).input.just_pressed_set(),
                work.ticks as nat,
            ),
            final(self).input.pressed_set() == old(self).input.pressed_set(),
            work.ticks == 0 ==> final(self).compute_params == old(self).compute_params
                && final(self).input.just_pressed_set() == old(self).input.just_pressed_set()
                && final(self).input.just_released_set() == old(self).input.just_released_set(),
            work.ticks > 0 ==> params_follow(
                final(self).compute_params,
                final(self).camera.visible_area,
            ) && final(self).input.just_pressed_set() == Set::<T>::empty()
                && final(self).input.just_released_set() == Set::<T>::empty(),
            final(self).keys == old(self).keys,
            final(self).wf(),
            work.plan.workgroups_x == final(self).compute_params.columns / 16,
            work.plan.workgroups_y == final(self).compute_params.rows * 2 / 16,
            work.plan.workgroups_z == 1,
            work.plan.vertices == VERTEX_COUNT,
            work.plan.instances == frame_instances(final(self).compute_params),
            work.plan.instances <= final(self).compute_params.columns
                * final(self).compute_params.rows,
            work.plan.instances <= SIZE * SIZE,
    {
        let ticks = self.timestep.advance(frame_nanos);
        let ghost end = camera_after_ticks(
            self.camera,
            self.keys,
            self.input.pressed_set(),
            self.input.just_pressed_set(),
            ticks as nat,
        );
        let mut done: u32 = 0;
        while done < ticks
            invariant
                obeys_key_model::<T>(),
                done <= ticks <= MAX_TICKS_PER_FRAME,
                self.wf(),
                -WORLD_LIMIT + (ticks - done) * CAMERA_STEP <= self.camera.position.x <= WORLD_LIMIT
                    - (ticks - done) * CAMERA_STEP,
                -WORLD_LIMIT + (ticks - done) * CAMERA_STEP <= self.camera.position.y <= WORLD_LIMIT
                    - (ticks - done) * CAMERA_STEP,
                camera_after_ticks(
                    self.camera,
                    self.keys,
                    self.input.pressed_set(),
                    self.input.just_pressed_set(),
                    (ticks - done) as nat,
                ) == end,
                self.keys == old(self).keys,
                self.timestep.pending() == pending_after(
                    old(self).timestep.pending() as int,
                    frame_nanos as int,
                ),
                self.input.pressed_set() == old(self).input.pressed_set(),
                done == 0 ==> self.compute_params == old(self).compute_params
                    && self.input.just_pressed_set() == old(self).input.just_pressed_set()
                    && self.input.just_released_set() == old(self).input.just_released_set(),
                done > 0 ==> params_follow(self.compute_params, self.camera.visible_area)
                    && self.input.just_pressed_set() == Set::<T>::empty()
                    && self.input.just_released_set() == Set::<T>::empty(),
            decreases ticks - done,
        {
            self.tick();
            done = done + 1;
        }
        let plan = plan_frame(&self.compute_params);
        FrameWork { ticks, plan }
    }

    /// Takes in a new size of the window, and says whether the surface is to be
    /// configured anew. A window without pixels changes nothing.
    pub fn resize(&mut self, size: ScreenSize) -> (configure: bool)
        requires
            old(self).camera.wf(),
            size.width <= SCREEN_LIMIT,
            size.height <= SCREEN_LIMIT,
        ensures
            configure == (size.width > 0 && size.height > 0),
            !configure ==> final(self).camera == old(self).camera,
            configure ==> final(self).camera == (CustomCamera {
                size,
                ..old(self).camera
            }).with_current_area(),
            final(self).camera.wf(),
            final(self).compute_params == old(self).compute_params,
            final(self).input == old(self).input,
            final(self).keys == old(self).keys,
            final(self).timestep == old(self).timestep,
    {
        if !surface_size_is_valid(size.width, size.height) {
            return false;
        }
        self.camera.update_projection(size);
        true
    }
}

} // verus!
