//! The draw pass: culls entities against the camera viewport and emits one
//! filled-circle command, in camera-local coordinates, per visible entity.

use vstd::prelude::*;
use crate::camera::Camera;
use crate::components::Color;
use crate::world::World;

verus! {

/// One filled-circle draw command: center in camera-local micro-units,
/// radius in micro-units, and fill color.
#[derive(Clone, Copy, PartialEq, Eq, Structural, Debug)]
pub struct CircleCommand {
    pub x: i64,
    pub y: i64,
    pub radius: i64,
    pub color: Color,
}

impl World {
    /// Entity `i` carries a location, a size and a color, so the draw pass
    /// considers it.
    pub open spec fn drawable(self, i: int) -> bool {
        &&& 0 <= i < self.entity_count
        &&& self.locations@[i] is Some
        &&& self.sizes@[i] is Some
        &&& self.colors@[i] is Some
    }

    /// The draw pass renders entity `i`: it is drawable and its location
    /// lies in the camera's half-open viewport rectangle.
    pub open spec fn visible(self, i: int) -> bool {
        &&& self.drawable(i)
        &&& self.camera.contains(self.locations@[i].unwrap())
    }

    /// The circle the draw pass emits for visible entity `i`: its location
    /// translated to camera-local coordinates, with its radius and color.
    pub open spec fn circle_at(self, i: int) -> CircleCommand {
        let l = self.locations@[i].unwrap();
        CircleCommand {
            x: (l.x - self.camera.x) as i64,
            y: (l.y - self.camera.y) as i64,
            radius: self.sizes@[i].unwrap().radius,
            color: self.colors@[i].unwrap(),
        }
    }

    /// The commands the draw pass emits for entities `0 .. n`, in entity
    /// order: one circle per visible entity, nothing for the rest.
    pub open spec fn draw_seq(self, n: int) -> Seq<CircleCommand>
        decreases n,
    {
        if n <= 0 {
            Seq::empty()
        } else if self.visible(n - 1) {
            self.draw_seq(n - 1).push(self.circle_at(n - 1))
        } else {
            self.draw_seq(n - 1)
        }
    }

    /// How many of the entities `0 .. n` the draw pass renders: the number
    /// whose location passes the half-open containment test against the
    /// camera rectangle (among those carrying location, size and color).
    pub open spec fn visible_count(self, n: int) -> int
        decreases n,
    {
        if n <= 0 {
            0
        } else {
            self.visible_count(n - 1) + if self.visible(n - 1) { 1int } else { 0int }
        }
    }

    /// The visible count over entities `0 .. n` is the cardinality of the
    /// set of those entities whose location passes the half-open
    /// containment test against the camera rectangle (among those carrying
    /// location, size and color).
    pub proof fn lemma_visible_count_is_cardinality(self, n: int)
        requires
            0 <= n,
        ensures
            Set::new(|i: int| 0 <= i < n && self.visible(i)).finite(),
            self.visible_count(n) == Set::new(|i: int| 0 <= i < n && self.visible(i)).len(),
        decreases n,
    {
        let cur = Set::new(|i: int| 0 <= i < n && self.visible(i));
        if n == 0 {
            assert(cur =~= Set::<int>::empty());
        } else {
            self.lemma_visible_count_is_cardinality(n - 1);
            let prev = Set::new(|i: int| 0 <= i < n - 1 && self.visible(i));
            if self.visible(n - 1) {
                assert(cur =~= prev.insert(n - 1));
            } else {
                assert(cur =~= prev);
            }
        }
    }

    /// The draw pass emits exactly one command per visible entity.
    pub proof fn lemma_draw_seq_len(self, n: int)
        ensures
            self.draw_seq(n).len() == self.visible_count(n),
        decreases n,
    {
        if n > 0 {
            self.lemma_draw_seq_len(n - 1);
        }
    }

    /// The draw pass. Reads the world only and returns the circle commands
    /// for the visible entities, in entity order; their number is the
    /// visible count.
    pub fn draw_pass(&self) -> (cmds: Vec<CircleCommand>)
        requires
            self.wf(),
        ensures
            cmds@ == self.draw_seq(self.entity_count as int),
            cmds@.len() == self.visible_count(self.entity_count as int),
    {
        let mut cmds: Vec<CircleCommand> = Vec::new();
        let mut i: usize = 0;
        while i < self.entity_count
            invariant
                self.wf(),
                i <= self.entity_count,
                cmds@ == self.draw_seq(i as int),
            decreases self.entity_count - i,
        {
            let loc = *self.locations.get(i);
            let size = *self.sizes.get(i);
            let color = *self.colors.get(i);
            if let (Some(l), Some(s), Some(c)) = (loc, size, color) {
                let inside_x = l.x >= self.camera.x
                    && l.x < self.camera.x + self.camera.width as i64;
                let inside_y = l.y >= self.camera.y
                    && l.y < self.camera.y + self.camera.height as i64;
                if inside_x && inside_y {
                    let cmd = CircleCommand {
                        x: l.x - self.camera.x,
                        y: l.y - self.camera.y,
                        radius: s.radius,
                        color: c,
                    };
                    proof {
                        assert(self.visible(i as int));
                        assert(cmd == self.circle_at(i as int));
                    }
                    cmds.push(cmd);
                } else {
                    proof {
                        assert(!self.camera.contains(l));
                    }
                }
            }
            i = i + 1;
        }
        proof {
            self.lemma_draw_seq_len(self.entity_count as int);
        }
        cmds
    }
}

/// Running the draw pass twice on the same world, with no move pass in
/// between, yields the same commands, and so the same visible count, both
/// times: the pass reads the world without mutating it.
pub proof fn lemma_draw_pass_idempotent(
    w: World,
    first: Seq<CircleCommand>,
    second: Seq<CircleCommand>,
)
    requires
        first == w.draw_seq(w.entity_count as int),
        second == w.draw_seq(w.entity_count as int),
    ensures
        first == second,
        first.len() == second.len(),
{
}

} // verus!
