//! The game: a world populated with a grid of decorative circles and one
//! mobile circle, and the per-frame update and draw entry points the frame
//! driver calls.

use vstd::prelude::*;
use vstd::arithmetic::div_mod::lemma_fundamental_div_mod_converse;
use crate::camera::Camera;
use crate::components::{Color, DeltaTime, Location, Size, Velocity};
use crate::draw::CircleCommand;
use crate::units::{MICROS_PER_UNIT, MILLIS_PER_UNIT};
use crate::world::World;

verus! {

/// Largest arena extent construction accepts, in world units; keeps the
/// grid's entity count within `usize` on every machine.
pub const MAX_ARENA_UNITS: u64 = 30_000;

/// Draw radius of a decorative grid entity: 3 units.
pub const DECOR_RADIUS: i64 = 3 * MICROS_PER_UNIT;

/// Draw radius of the mobile entity: 15 units.
pub const MOBILE_RADIUS: i64 = 15 * MICROS_PER_UNIT;

/// Starting coordinate of the mobile entity on both axes: 500 units.
pub const MOBILE_START: i64 = 500 * MICROS_PER_UNIT;

/// Horizontal velocity of the mobile entity: 10 units per second.
pub const MOBILE_VEL_X: i64 = 10 * MILLIS_PER_UNIT;

/// Vertical velocity of the mobile entity: 1 unit per second.
pub const MOBILE_VEL_Y: i64 = 1 * MILLIS_PER_UNIT;

/// How many interior grid lines fit along one axis of the arena: one less
/// than `extent / spacing` rounded down, and none when that would be
/// negative.
pub open spec fn grid_axis(extent: int, spacing: int) -> int
    recommends
        spacing > 0,
{
    let cells = extent / spacing;
    if cells >= 1 {
        cells - 1
    } else {
        0
    }
}

/// How many decorative entities the grid holds: one per interior grid
/// crossing.
pub open spec fn decorative_count(arena_width: int, arena_height: int, spacing: int) -> int
    recommends
        spacing > 0,
{
    grid_axis(arena_width, spacing) * grid_axis(arena_height, spacing)
}

/// Where decorative entity `k` stands: the grid fills column after column,
/// `rows` entities per column, columns and rows both starting one spacing
/// from the arena's edge.
pub open spec fn grid_location(k: int, spacing: int, rows: int) -> Location
    recommends
        spacing > 0,
        rows > 0,
{
    Location {
        x: ((k / rows + 1) * spacing * MICROS_PER_UNIT) as i64,
        y: ((k % rows + 1) * spacing * MICROS_PER_UNIT) as i64,
    }
}

/// Fill color of a decorative grid entity: white at low alpha.
pub open spec fn decorative_color() -> Color {
    Color { red: 1000, green: 1000, blue: 1000, alpha: 300 }
}

/// Fill color of the mobile entity: opaque yellow.
pub open spec fn mobile_color() -> Color {
    Color { red: 1000, green: 1000, blue: 0, alpha: 1000 }
}

/// The scene: the arena's extent, the world holding its entities, and how
/// many entities were created.
pub struct Game {
    pub arena_width: i64,
    pub arena_height: i64,
    pub world: World,
    pub entities_count: usize,
}

impl Game {
    /// The world is well formed and the recorded entity count is the
    /// world's.
    pub open spec fn wf(self) -> bool {
        &&& self.world.wf()
        &&& self.entities_count == self.world.entity_count
    }

    /// What construction with the given arena and spacing (in world units)
    /// builds: decorative entities at every interior grid crossing, in
    /// column-major order, then exactly one mobile entity, with the camera
    /// at the origin and a nominal 16 ms frame time.
    pub open spec fn built_with(self, aw: int, ah: int, spacing: int) -> bool {
        let rows = grid_axis(ah, spacing);
        let dec = decorative_count(aw, ah, spacing);
        &&& self.wf()
        &&& self.arena_width == aw * MICROS_PER_UNIT
        &&& self.arena_height == ah * MICROS_PER_UNIT
        &&& self.entities_count == dec + 1
        &&& forall|k: int|
            0 <= k < dec ==> #[trigger] self.world.locations@[k] == Some(
                grid_location(k, spacing, rows),
            )
        &&& forall|k: int|
            0 <= k < dec ==> #[trigger] self.world.sizes@[k] == Some(
                Size { radius: DECOR_RADIUS },
            )
        &&& forall|k: int|
            0 <= k < dec ==> #[trigger] self.world.colors@[k] == Some(decorative_color())
        &&& forall|k: int| 0 <= k < dec ==> #[trigger] self.world.velocities@[k] is None
        &&& self.world.locations@[dec] == Some(Location { x: MOBILE_START, y: MOBILE_START })
        &&& self.world.sizes@[dec] == Some(Size { radius: MOBILE_RADIUS })
        &&& self.world.colors@[dec] == Some(mobile_color())
        &&& self.world.velocities@[dec] == Some(Velocity { x: MOBILE_VEL_X, y: MOBILE_VEL_Y })
        &&& self.world.camera == Camera::spec_initial()
        &&& self.world.delta == (DeltaTime { millis: 16 })
    }

    /// Builds the scene over an arena of the given extent (world units)
    /// with one decorative entity per interior grid crossing at the given
    /// spacing, plus the mobile entity.
    pub fn with_arena(arena_width: u64, arena_height: u64, spacing: u64) -> (g: Game)
        requires
            1 <= spacing <= MAX_ARENA_UNITS,
            arena_width <= MAX_ARENA_UNITS,
            arena_height <= MAX_ARENA_UNITS,
        ensures
            g.built_with(arena_width as int, arena_height as int, spacing as int),
    {
        let ghost aw = arena_width as int;
        let ghost ah = arena_height as int;
        let ghost sp = spacing as int;
        let mut world = World::new();

        let cols = arena_width / spacing;
        let rows = arena_height / spacing;
        let axis_w: u64 = if cols >= 1 {
            cols - 1
        } else {
            0
        };
        let axis_h: u64 = if rows >= 1 {
            rows - 1
        } else {
            0
        };
        proof {
            assert(axis_w == grid_axis(aw, sp));
            assert(axis_h == grid_axis(ah, sp));
            assert(axis_w * axis_h <= 30_000 * 30_000) by (nonlinear_arith)
                requires
                    0 <= axis_w <= 30_000,
                    0 <= axis_h <= 30_000,
            ;
        }

        let mut wi: u64 = 0;
        while wi < axis_w
            invariant
                world.wf(),
                wi <= axis_w,
                aw == arena_width,
                ah == arena_height,
                sp == spacing,
                axis_w == grid_axis(aw, sp),
                axis_h == grid_axis(ah, sp),
                1 <= sp <= MAX_ARENA_UNITS,
                axis_w <= MAX_ARENA_UNITS,
                axis_h <= MAX_ARENA_UNITS,
                axis_w * axis_h <= 30_000 * 30_000,
                world.entity_count == wi * axis_h,
                forall|k: int|
                    0 <= k < world.entity_count ==> #[trigger] world.locations@[k] == Some(
                        grid_location(k, sp, axis_h as int),
                    ),
                forall|k: int|
                    0 <= k < world.entity_count ==> #[trigger] world.sizes@[k] == Some(
                        Size { radius: DECOR_RADIUS },
                    ),
                forall|k: int|
                    0 <= k < world.entity_count ==> #[trigger] world.colors@[k] == Some(
                        decorative_color(),
                    ),
                forall|k: int|
                    0 <= k < world.entity_count ==> #[trigger] world.velocities@[k] is None,
                world.camera == Camera::spec_initial(),
                world.delta == (DeltaTime { millis: 16 }),
            decreases axis_w - wi,
        {
            proof {
                assert(wi * axis_h <= axis_w * axis_h && (wi + 1) * axis_h <= axis_w * axis_h)
                    by (nonlinear_arith)
                    requires
                        0 <= axis_h,
                        0 <= wi,
                        wi + 1 <= axis_w,
                ;
            }
            let mut hi: u64 = 0;
            while hi < axis_h
                invariant
                    world.wf(),
                    hi <= axis_h,
                    wi < axis_w,
                    aw == arena_width,
                    ah == arena_height,
                    sp == spacing,
                    axis_w == grid_axis(aw, sp),
                    axis_h == grid_axis(ah, sp),
                    1 <= sp <= MAX_ARENA_UNITS,
                    axis_w <= MAX_ARENA_UNITS,
                    axis_h <= MAX_ARENA_UNITS,
                    axis_w * axis_h <= 30_000 * 30_000,
                    (wi + 1) * axis_h <= axis_w * axis_h,
                    world.entity_count == wi * axis_h + hi,
                    forall|k: int|
                        0 <= k < world.entity_count ==> #[trigger] world.locations@[k] == Some(
                            grid_location(k, sp, axis_h as int),
                        ),
                    forall|k: int|
                        0 <= k < world.entity_count ==> #[trigger] world.sizes@[k] == Some(
                            Size { radius: DECOR_RADIUS },
                        ),
                    forall|k: int|
                        0 <= k < world.entity_count ==> #[trigger] world.colors@[k] == Some(
                            decorative_color(),
                        ),
                    forall|k: int|
                        0 <= k < world.entity_count ==> #[trigger] world.velocities@[k] is None,
                    world.camera == Camera::spec_initial(),
                    world.delta == (DeltaTime { millis: 16 }),
                decreases axis_h - hi,
            {
                proof {
                    assert(wi * axis_h + hi + 1 <= (wi + 1) * axis_h) by (nonlinear_arith)
                        requires
                            0 <= wi,
                            0 <= hi,
                            hi + 1 <= axis_h,
                    ;
                    assert((wi + 1) * spacing <= 30_000 * 30_000) by (nonlinear_arith)
                        requires
                            0 <= wi,
                            wi + 1 <= 30_000,
                            0 <= spacing,
                            spacing <= 30_000,
                    ;
                    assert((hi + 1) * spacing <= 30_000 * 30_000) by (nonlinear_arith)
                        requires
                            0 <= hi,
                            hi + 1 <= 30_000,
                            0 <= spacing,
                            spacing <= 30_000,
                    ;
                }
                let id = world.create_entity();
                let x_units = (wi + 1) * spacing;
                let y_units = (hi + 1) * spacing;
                let x = (x_units * 1_000_000) as i64;
                let y = (y_units * 1_000_000) as i64;
                let loc = Location { x, y };
                world.set_location(id, loc);
                world.set_size(id, Size::new(DECOR_RADIUS));
                world.set_color(id, Color::new(1000, 1000, 1000, 300));
                proof {
                    lemma_fundamental_div_mod_converse(
                        id as int,
                        axis_h as int,
                        wi as int,
                        hi as int,
                    );
                    assert(loc == grid_location(id as int, sp, axis_h as int));
                }
                hi = hi + 1;
            }
            proof {
                assert((wi + 1) * axis_h == wi * axis_h + axis_h) by (nonlinear_arith);
            }
            wi = wi + 1;
        }

        proof {
            assert(world.entity_count == axis_w * axis_h);
        }
        let id = world.create_entity();
        world.set_location(id, Location::new(MOBILE_START, MOBILE_START));
        world.set_size(id, Size::new(MOBILE_RADIUS));
        world.set_color(id, Color::new(1000, 1000, 0, 1000));
        world.set_velocity(id, Velocity::new(MOBILE_VEL_X, MOBILE_VEL_Y));

        let entities_count = world.entity_count;
        Game {
            arena_width: (arena_width * 1_000_000) as i64,
            arena_height: (arena_height * 1_000_000) as i64,
            world,
            entities_count,
        }
    }

    /// The standard scene: a 10000 x 5000 unit arena with grid spacing 25,
    /// so 399 * 199 decorative entities, plus the mobile entity.
    pub fn new() -> (g: Game)
        ensures
            g.built_with(10_000, 5_000, 25),
            g.entities_count == decorative_count(10_000, 5_000, 25) + 1,
    {
        Game::with_arena(10_000, 5_000, 25)
    }

    /// One frame's update: stores the elapsed frame time, then runs the
    /// move pass when its bounds hold; returns whether it ran. When it does
    /// not run (an unbounded frame time or a mover leaving the model's
    /// coordinate range), the world keeps its state apart from the stored
    /// frame time.
    pub fn update(&mut self, delta_millis: u64) -> (moved: bool)
        requires
            old(self).wf(),
        ensures
            final(self).wf(),
            final(self).arena_width == old(self).arena_width,
            final(self).arena_height == old(self).arena_height,
            final(self).entities_count == old(self).entities_count,
            moved == World::with_delta(old(self).world, delta_millis).move_ok(),
            moved ==> World::move_rel(
                World::with_delta(old(self).world, delta_millis),
                final(self).world,
            ),
            !moved ==> final(self).world == World::with_delta(old(self).world, delta_millis),
    {
        self.world.set_delta(delta_millis);
        if self.world.check_move() {
            self.world.move_update();
            true
        } else {
            false
        }
    }

    /// One frame's draw: the circle commands for the entities visible in
    /// the camera's viewport, in entity order. Reads the world only.
    pub fn draw(&self) -> (cmds: Vec<CircleCommand>)
        requires
            self.wf(),
        ensures
            cmds@ == self.world.draw_seq(self.world.entity_count as int),
            cmds@.len() == self.world.visible_count(self.world.entity_count as int),
    {
        self.world.draw_pass()
    }
}

} // verus!
