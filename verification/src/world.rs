//! The world: all entity-component associations plus the two global
//! resources (camera, frame time), with the per-frame move and draw passes.

use vstd::prelude::*;
use crate::camera::Camera;
use crate::components::{Color, DeltaTime, Location, Size, Velocity};
use crate::table::Table;
use crate::units::{MAX_COORD, MAX_DELTA_MILLIS, MAX_VELOCITY};

verus! {

/// Entity-component store. An entity is an index into the four component
/// tables, which always all have one slot per entity.
pub struct World {
    pub entity_count: usize,
    pub locations: Table<Location>,
    pub sizes: Table<Size>,
    pub colors: Table<Color>,
    pub velocities: Table<Velocity>,
    pub camera: Camera,
    pub delta: DeltaTime,
}

impl World {
    /// Every table has one slot per entity, every stored component is
    /// within the model's bounds, and the camera is well formed.
    pub open spec fn wf(self) -> bool {
        &&& self.locations@.len() == self.entity_count
        &&& self.sizes@.len() == self.entity_count
        &&& self.colors@.len() == self.entity_count
        &&& self.velocities@.len() == self.entity_count
        &&& forall|i: int|
            0 <= i < self.entity_count && self.locations@[i] is Some
                ==> (#[trigger] self.locations@[i]).unwrap().wf()
        &&& forall|i: int|
            0 <= i < self.entity_count && self.velocities@[i] is Some
                ==> (#[trigger] self.velocities@[i]).unwrap().wf()
        &&& forall|i: int|
            0 <= i < self.entity_count && self.colors@[i] is Some
                ==> (#[trigger] self.colors@[i]).unwrap().wf()
        &&& self.camera.wf()
    }

    /// An empty world: no entities, the camera at the origin, and a
    /// nominal 16 ms frame time.
    pub fn new() -> (w: World)
        ensures
            w.wf(),
            w.entity_count == 0,
            w.camera == Camera::spec_initial(),
            w.delta == (DeltaTime { millis: 16 }),
    {
        World {
            entity_count: 0,
            locations: Table::new(),
            sizes: Table::new(),
            colors: Table::new(),
            velocities: Table::new(),
            camera: Camera::new(),
            delta: DeltaTime { millis: 16 },
        }
    }

    /// Creates a fresh entity carrying no components and returns its
    /// identifier. Existing identifiers keep their slots in every table.
    pub fn create_entity(&mut self) -> (id: usize)
        requires
            old(self).wf(),
            old(self).entity_count < usize::MAX,
        ensures
            final(self).wf(),
            id == old(self).entity_count,
            final(self).entity_count == old(self).entity_count + 1,
            final(self).locations@ == old(self).locations@.push(None),
            final(self).sizes@ == old(self).sizes@.push(None),
            final(self).colors@ == old(self).colors@.push(None),
            final(self).velocities@ == old(self).velocities@.push(None),
            final(self).camera == old(self).camera,
            final(self).delta == old(self).delta,
    {
        let id = self.entity_count;
        self.locations.push_empty();
        self.sizes.push_empty();
        self.colors.push_empty();
        self.velocities.push_empty();
        self.entity_count = self.entity_count + 1;
        id
    }

    /// Attaches a location to entity `id`, replacing any previous one.
    pub fn set_location(&mut self, id: usize, loc: Location)
        requires
            old(self).wf(),
            id < old(self).entity_count,
            loc.wf(),
        ensures
            final(self).wf(),
            *final(self) == (World {
                locations: final(self).locations,
                ..*old(self)
            }),
            final(self).locations@ == old(self).locations@.update(id as int, Some(loc)),
    {
        self.locations.set(id, loc);
    }

    /// Attaches a size to entity `id`, replacing any previous one.
    pub fn set_size(&mut self, id: usize, size: Size)
        requires
            old(self).wf(),
            id < old(self).entity_count,
        ensures
            final(self).wf(),
            *final(self) == (World { sizes: final(self).sizes, ..*old(self) }),
            final(self).sizes@ == old(self).sizes@.update(id as int, Some(size)),
    {
        self.sizes.set(id, size);
    }

    /// Attaches a color to entity `id`, replacing any previous one.
    pub fn set_color(&mut self, id: usize, color: Color)
        requires
            old(self).wf(),
            id < old(self).entity_count,
            color.wf(),
        ensures
            final(self).wf(),
            *final(self) == (World { colors: final(self).colors, ..*old(self) }),
            final(self).colors@ == old(self).colors@.update(id as int, Some(color)),
    {
        self.colors.set(id, color);
    }

    /// Attaches a velocity to entity `id`, replacing any previous one.
    pub fn set_velocity(&mut self, id: usize, vel: Velocity)
        requires
            old(self).wf(),
            id < old(self).entity_count,
            vel.wf(),
        ensures
            final(self).wf(),
            *final(self) == (World {
                velocities: final(self).velocities,
                ..*old(self)
            }),
            final(self).velocities@ == old(self).velocities@.update(id as int, Some(vel)),
    {
        self.velocities.set(id, vel);
    }

    /// Detaches the velocity of entity `id`, leaving all other tables and
    /// every other entity untouched.
    pub fn clear_velocity(&mut self, id: usize)
        requires
            old(self).wf(),
            id < old(self).entity_count,
        ensures
            final(self).wf(),
            *final(self) == (World {
                velocities: final(self).velocities,
                ..*old(self)
            }),
            final(self).velocities@ == old(self).velocities@.update(id as int, None),
    {
        self.velocities.clear(id);
    }

    /// Overwrites the frame-time resource, as the frame driver does once
    /// per frame before the move pass.
    pub fn set_delta(&mut self, millis: u64)
        ensures
            *final(self) == (World { delta: DeltaTime { millis }, ..*old(self) }),
    {
        self.delta = DeltaTime { millis };
    }

    /// The world as it stands once the frame driver has stored a new frame
    /// time, everything else untouched.
    pub open spec fn with_delta(w: World, millis: u64) -> World {
        World { delta: DeltaTime { millis }, ..w }
    }

    /// Entity `i` carries both a location and a velocity, so the move pass
    /// advances it.
    pub open spec fn is_mover(self, i: int) -> bool {
        &&& 0 <= i < self.entity_count
        &&& self.locations@[i] is Some
        &&& self.velocities@[i] is Some
    }

    /// Some entity is advanced by the move pass.
    pub open spec fn has_mover(self) -> bool {
        exists|i: int| self.is_mover(i)
    }

    /// Entity `i` is the mover the move pass processes last, so the camera
    /// ends the pass following it.
    pub open spec fn is_last_mover(self, i: int) -> bool {
        &&& self.is_mover(i)
        &&& forall|j: int| i < j < self.entity_count ==> !self.is_mover(j)
    }

    /// Where mover `i` stands after one move pass: its location advanced by
    /// `velocity * delta.millis` micro-units, componentwise.
    pub open spec fn moved_location(self, i: int) -> Location {
        let l = self.locations@[i].unwrap();
        let v = self.velocities@[i].unwrap();
        Location {
            x: (l.x + v.x * self.delta.millis) as i64,
            y: (l.y + v.y * self.delta.millis) as i64,
        }
    }

    /// The frame time is bounded and every mover's advanced location stays
    /// within the model's coordinate range, so one move pass neither
    /// overflows nor leaves the model.
    pub open spec fn move_ok(self) -> bool {
        &&& self.delta.millis <= MAX_DELTA_MILLIS
        &&& forall|i: int|
            #[trigger] self.is_mover(i) ==> {
                let l = self.locations@[i].unwrap();
                let v = self.velocities@[i].unwrap();
                &&& -MAX_COORD <= l.x + v.x * self.delta.millis <= MAX_COORD
                &&& -MAX_COORD <= l.y + v.y * self.delta.millis <= MAX_COORD
            }
    }

    /// How one move pass turns `pre` into `post`: every mover's location is
    /// advanced by `velocity * delta.millis`, everything else is kept, and
    /// the camera ends centered on the last mover (or untouched when
    /// nothing moves).
    pub open spec fn move_rel(pre: World, post: World) -> bool {
        &&& post.entity_count == pre.entity_count
        &&& post.sizes@ == pre.sizes@
        &&& post.colors@ == pre.colors@
        &&& post.velocities@ == pre.velocities@
        &&& post.delta == pre.delta
        &&& post.locations@.len() == pre.locations@.len()
        &&& forall|i: int|
            #[trigger] pre.is_mover(i) ==> post.locations@[i] == Some(pre.moved_location(i))
        &&& forall|i: int|
            0 <= i < pre.entity_count && !pre.is_mover(i)
                ==> post.locations@[i] == #[trigger] pre.locations@[i]
        &&& post.camera.width == pre.camera.width
        &&& post.camera.height == pre.camera.height
        &&& !pre.has_mover() ==> post.camera == pre.camera
        &&& forall|i: int|
            #[trigger] pre.is_last_mover(i)
                ==> post.camera == Camera::spec_following(
                    pre.moved_location(i),
                    pre.camera.width,
                    pre.camera.height,
                )
    }

    /// Decides whether a move pass may run now: true exactly when the frame
    /// time and every mover's advanced location are within the model's
    /// bounds. Reads the world only.
    pub fn check_move(&self) -> (ok: bool)
        requires
            self.wf(),
        ensures
            ok == self.move_ok(),
    {
        if self.delta.millis > MAX_DELTA_MILLIS {
            return false;
        }
        let dt = self.delta.millis;
        let mut i: usize = 0;
        while i < self.entity_count
            invariant
                self.wf(),
                i <= self.entity_count,
                self.delta.millis == dt,
                dt <= MAX_DELTA_MILLIS,
                forall|j: int|
                    0 <= j < i && #[trigger] self.is_mover(j) ==> {
                        let l = self.locations@[j].unwrap();
                        let v = self.velocities@[j].unwrap();
                        &&& -MAX_COORD <= l.x + v.x * dt <= MAX_COORD
                        &&& -MAX_COORD <= l.y + v.y * dt <= MAX_COORD
                    },
            decreases self.entity_count - i,
        {
            let vel = *self.velocities.get(i);
            let loc = *self.locations.get(i);
            if let (Some(v), Some(l)) = (vel, loc) {
                proof {
                    assert(self.is_mover(i as int));
                }
                let dtw = dt as i128;
                assert(-(MAX_VELOCITY as i128) * (MAX_DELTA_MILLIS as i128) <= (v.x as i128) * dtw
                    && (v.x as i128) * dtw <= (MAX_VELOCITY as i128) * (MAX_DELTA_MILLIS as i128))
                    by (nonlinear_arith)
                    requires
                        -(MAX_VELOCITY as i128) <= (v.x as i128),
                        (v.x as i128) <= MAX_VELOCITY as i128,
                        0 <= dtw,
                        dtw <= MAX_DELTA_MILLIS as i128,
                ;
                assert(-(MAX_VELOCITY as i128) * (MAX_DELTA_MILLIS as i128) <= (v.y as i128) * dtw
                    && (v.y as i128) * dtw <= (MAX_VELOCITY as i128) * (MAX_DELTA_MILLIS as i128))
                    by (nonlinear_arith)
                    requires
                        -(MAX_VELOCITY as i128) <= (v.y as i128),
                        (v.y as i128) <= MAX_VELOCITY as i128,
                        0 <= dtw,
                        dtw <= MAX_DELTA_MILLIS as i128,
                ;
                let nx = l.x as i128 + (v.x as i128) * dtw;
                let ny = l.y as i128 + (v.y as i128) * dtw;
                let bound = MAX_COORD as i128;
                if nx < -bound || nx > bound || ny < -bound || ny > bound {
                    return false;
                }
            }
            i = i + 1;
        }
        true
    }

    /// The move pass: advances every entity carrying both a location and a
    /// velocity by `velocity * delta.millis`, and re-centers the camera on
    /// each mover in turn, so the last mover processed wins.
    pub fn move_update(&mut self)
        requires
            old(self).wf(),
            old(self).move_ok(),
        ensures
            final(self).wf(),
            World::move_rel(*old(self), *final(self)),
    {
        let ghost pre = *self;
        let dt = self.delta.millis;
        let mut i: usize = 0;
        while i < self.entity_count
            invariant
                self.wf(),
                pre.wf(),
                pre.move_ok(),
                i <= self.entity_count,
                self.entity_count == pre.entity_count,
                self.sizes@ == pre.sizes@,
                self.colors@ == pre.colors@,
                self.velocities@ == pre.velocities@,
                self.delta == pre.delta,
                dt == pre.delta.millis,
                self.locations@.len() == pre.locations@.len(),
                self.camera.width == pre.camera.width,
                self.camera.height == pre.camera.height,
                forall|j: int|
                    #[trigger] pre.is_mover(j) && j < i
                        ==> self.locations@[j] == Some(pre.moved_location(j)),
                forall|j: int|
                    0 <= j < pre.entity_count && !(pre.is_mover(j) && j < i)
                        ==> self.locations@[j] == #[trigger] pre.locations@[j],
                (forall|j: int| 0 <= j < i ==> !(#[trigger] pre.is_mover(j)))
                    ==> self.camera == pre.camera,
                forall|j: int|
                    #[trigger] pre.is_mover(j) && j < i
                        && (forall|k: int| j < k < i ==> !(#[trigger] pre.is_mover(k)))
                        ==> self.camera == Camera::spec_following(
                            pre.moved_location(j),
                            pre.camera.width,
                            pre.camera.height,
                        ),
            decreases self.entity_count - i,
        {
            let vel = *self.velocities.get(i);
            if let Some(v) = vel {
                let loc = *self.locations.get(i);
                if let Some(l) = loc {
                    proof {
                        assert(pre.is_mover(i as int));
                        assert(self.locations@[i as int] == pre.locations@[i as int]);
                    }
                    assert(-MAX_COORD <= v.x * (dt as i64)
                        && v.x * (dt as i64) <= MAX_COORD) by (nonlinear_arith)
                        requires
                            -MAX_VELOCITY <= v.x,
                            v.x <= MAX_VELOCITY,
                            0 <= (dt as i64),
                            (dt as i64) <= MAX_DELTA_MILLIS as i64,
                    ;
                    assert(-MAX_COORD <= v.y * (dt as i64)
                        && v.y * (dt as i64) <= MAX_COORD) by (nonlinear_arith)
                        requires
                            -MAX_VELOCITY <= v.y,
                            v.y <= MAX_VELOCITY,
                            0 <= (dt as i64),
                            (dt as i64) <= MAX_DELTA_MILLIS as i64,
                    ;
                    let nx = l.x + v.x * (dt as i64);
                    let ny = l.y + v.y * (dt as i64);
                    let new_loc = Location { x: nx, y: ny };
                    proof {
                        assert(new_loc == pre.moved_location(i as int));
                    }
                    self.locations.set(i, new_loc);
                    self.camera.follow(new_loc);
                }
            }
            i = i + 1;
        }
    }
}

/// After any move pass with frame time `dt`, every entity that carried both
/// a location and a velocity stands at `old_location + velocity * dt`,
/// componentwise and exactly.
pub proof fn lemma_move_adds_velocity_times_delta(pre: World, post: World, i: int)
    requires
        pre.wf(),
        pre.move_ok(),
        World::move_rel(pre, post),
        pre.is_mover(i),
    ensures
        post.locations@[i] is Some,
        post.locations@[i].unwrap().x == pre.locations@[i].unwrap().x
            + pre.velocities@[i].unwrap().x * pre.delta.millis,
        post.locations@[i].unwrap().y == pre.locations@[i].unwrap().y
            + pre.velocities@[i].unwrap().y * pre.delta.millis,
{
}

/// After any move pass over a world whose only mover is entity `i` — the
/// tracked entity — the camera's origin is that entity's new location
/// shifted by half the viewport on each axis, so the viewport stays
/// centered on it.
pub proof fn lemma_camera_follows_sole_mover(pre: World, post: World, i: int)
    requires
        pre.wf(),
        pre.move_ok(),
        World::move_rel(pre, post),
        pre.is_mover(i),
        forall|j: int| j != i ==> !pre.is_mover(j),
    ensures
        post.camera.x == pre.moved_location(i).x - pre.camera.width / 2,
        post.camera.y == pre.moved_location(i).y - pre.camera.height / 2,
{
    assert(pre.is_last_mover(i));
}

} // verus!
