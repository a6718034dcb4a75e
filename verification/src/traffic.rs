//! The obstacle pool: cars scroll down the stage each tick and are recycled
//! in place (fresh random lane, staggered re-entry above the stage) once
//! they leave it.  The pool never grows or shrinks during a session.

use vstd::prelude::*;
use vstd::pervasive::VecAdditionalExecFns;

use crate::boundary::Boundary;
use crate::geometry::Rect;
use crate::geometry::Vector2i;
use crate::geometry::rect_wf;
use crate::rng::SeededRng;
use crate::rng::random_in_range;

verus! {

/// Recycled cars re-enter with `y` drawn from `[ENTRY_Y_MIN, ENTRY_Y_MAX)`,
/// staggered above the visible stage.
pub const ENTRY_Y_MIN: i32 = -800;

pub const ENTRY_Y_MAX: i32 = -400;

/// A freshly drawn car: an existing lane and a `y` in the re-entry band.
pub open spec fn car_fresh(lane_count: int, c: TrafficCar) -> bool {
    &&& 0 <= c.lane < lane_count
    &&& ENTRY_Y_MIN <= c.y < ENTRY_Y_MAX
}

/// One obstacle: a lane index and a vertical position.  Its horizontal
/// position is `boundary.left + lane * lane_width`; its size is shared with
/// the player's.
#[derive(Clone, Copy, PartialEq, Eq, Structural, Debug)]
pub struct TrafficCar {
    pub lane: i32,
    pub y: i32,
}

/// The fixed pool of obstacles and the stage parameters they scroll under.
#[derive(Debug)]
pub struct TrafficField {
    pub cars: Vec<TrafficCar>,
    pub lane_count: i32,
    pub stage_height: i32,
    pub scroll_speed: i32,
}

impl TrafficField {
    /// Stage parameters are positive and small enough that one scroll step
    /// cannot overflow.
    pub open spec fn config_ok(self) -> bool {
        &&& 0 < self.lane_count <= 1000
        &&& 0 < self.stage_height <= 0x10_0000
        &&& 0 < self.scroll_speed <= 0x10_0000
    }

    /// A car the field can hold: its lane exists and its `y` lies between
    /// the re-entry band and the recycling threshold.
    pub open spec fn car_ok(self, c: TrafficCar) -> bool {
        &&& 0 <= c.lane < self.lane_count
        &&& ENTRY_Y_MIN <= c.y <= self.stage_height
    }

    pub open spec fn wf(self) -> bool {
        &&& self.config_ok()
        &&& forall|i: int| 0 <= i < self.cars@.len() ==> self.car_ok(self.cars@[i])
    }

    /// The stage parameters do not change over a session.
    pub open spec fn same_config(self, other: TrafficField) -> bool {
        &&& self.lane_count == other.lane_count
        &&& self.stage_height == other.stage_height
        &&& self.scroll_speed == other.scroll_speed
    }

    /// A car is recycled when the coming scroll step would take it past the
    /// bottom of the stage.
    pub open spec fn spec_needs_recycle(self, c: TrafficCar) -> bool {
        c.y + self.scroll_speed > self.stage_height
    }

    /// What any freshly recycled car looks like: an existing lane and a `y`
    /// in the re-entry band.
    pub open spec fn spec_recycled_ok(self, c: TrafficCar) -> bool {
        car_fresh(self.lane_count as int, c)
    }

    /// How one tick moves one car: scrolled down by `scroll_speed`, or
    /// recycled once that would leave the stage.
    pub open spec fn spec_car_step_ok(self, before: TrafficCar, after: TrafficCar) -> bool {
        if self.spec_needs_recycle(before) {
            self.spec_recycled_ok(after)
        } else {
            after == (TrafficCar { lane: before.lane, y: (before.y + self.scroll_speed) as i32 })
        }
    }

    /// How one tick moves the whole field: the pool size and the stage
    /// parameters are unchanged, and every car took one step.
    pub open spec fn spec_advanced(self, post: TrafficField) -> bool {
        &&& self.same_config(post)
        &&& post.cars@.len() == self.cars@.len()
        &&& forall|i: int|
            0 <= i < self.cars@.len() ==> self.spec_car_step_ok(self.cars@[i], post.cars@[i])
    }

    /// Law: one advance step keeps the field well-formed, keeps the pool
    /// size, and keeps every lane in `[0, lane_count)`.  Both facts are
    /// inductive, so they hold across any sequence of advances.
    pub proof fn lemma_advance_invariants(pre: TrafficField, post: TrafficField)
        requires
            pre.wf(),
            pre.spec_advanced(post),
        ensures
            post.wf(),
            post.cars@.len() == pre.cars@.len(),
            forall|i: int|
                0 <= i < post.cars@.len() ==> 0 <= #[trigger] post.cars@[i].lane < pre.lane_count,
    {
        assert forall|i: int| 0 <= i < post.cars@.len() implies post.car_ok(
            #[trigger] post.cars@[i],
        ) by {
            assert(pre.spec_car_step_ok(pre.cars@[i], post.cars@[i]));
            assert(pre.car_ok(pre.cars@[i]));
        }
    }

    /// Builds a pool of `pool_size` cars, each on a random lane with a
    /// random staggered start above the stage.
    pub fn new(pool_size: usize, lane_count: i32, stage_height: i32, scroll_speed: i32) -> (r:
        TrafficField)
        requires
            0 < lane_count <= 1000,
            0 < stage_height <= 0x10_0000,
            0 < scroll_speed <= 0x10_0000,
        ensures
            r.wf(),
            r.cars@.len() == pool_size,
            r.lane_count == lane_count,
            r.stage_height == stage_height,
            r.scroll_speed == scroll_speed,
            forall|i: int| 0 <= i < pool_size ==> r.spec_recycled_ok(r.cars@[i]),
    {
        let mut cars: Vec<TrafficCar> = Vec::new();
        let mut i: usize = 0;
        while i < pool_size
            invariant
                i <= pool_size,
                cars@.len() == i,
                0 < lane_count <= 1000,
                forall|j: int| 0 <= j < i ==> car_fresh(lane_count as int, #[trigger] cars@[j]),
            decreases pool_size - i,
        {
            let lane = random_in_range(0, lane_count);
            let y = random_in_range(ENTRY_Y_MIN, ENTRY_Y_MAX);
            cars.push(TrafficCar { lane, y });
            i = i + 1;
        }
        TrafficField { cars, lane_count, stage_height, scroll_speed }
    }

    /// As `new`, drawing from a seedable generator instead of the
    /// thread-local one, for deterministic sessions.
    pub fn new_seeded(
        pool_size: usize,
        lane_count: i32,
        stage_height: i32,
        scroll_speed: i32,
        rng: &mut SeededRng,
    ) -> (r: TrafficField)
        requires
            old(rng).wf(),
            0 < lane_count <= 1000,
            0 < stage_height <= 0x10_0000,
            0 < scroll_speed <= 0x10_0000,
        ensures
            final(rng).wf(),
            r.wf(),
            r.cars@.len() == pool_size,
            r.lane_count == lane_count,
            r.stage_height == stage_height,
            r.scroll_speed == scroll_speed,
            forall|i: int| 0 <= i < pool_size ==> r.spec_recycled_ok(r.cars@[i]),
    {
        let mut cars: Vec<TrafficCar> = Vec::new();
        let mut i: usize = 0;
        while i < pool_size
            invariant
                i <= pool_size,
                cars@.len() == i,
                0 < lane_count <= 1000,
                rng.wf(),
                forall|j: int| 0 <= j < i ==> car_fresh(lane_count as int, #[trigger] cars@[j]),
            decreases pool_size - i,
        {
            let lane = rng.next_below(lane_count);
            let y = rng.next_in_range(ENTRY_Y_MIN, ENTRY_Y_MAX);
            cars.push(TrafficCar { lane, y });
            i = i + 1;
        }
        TrafficField { cars, lane_count, stage_height, scroll_speed }
    }

    /// Advances every car one tick: `y` grows by `scroll_speed`; a car that
    /// would leave the stage is recycled in place with a random lane and a
    /// random re-entry offset.  The pool size never changes, and every lane
    /// stays in `[0, lane_count)`.
    pub fn advance(&mut self)
        requires
            old(self).wf(),
        ensures
            final(self).wf(),
            old(self).spec_advanced(*final(self)),
    {
        let n = self.cars.len();
        let mut idx: usize = 0;
        while idx < n
            invariant
                idx <= n,
                self.cars@.len() == n,
                old(self).cars@.len() == n,
                self.same_config(*old(self)),
                self.config_ok(),
                forall|i: int| idx <= i < n ==> self.cars@[i] == old(self).cars@[i],
                forall|i: int|
                    0 <= i < idx ==> old(self).spec_car_step_ok(
                        old(self).cars@[i],
                        self.cars@[i],
                    ),
                forall|i: int| 0 <= i < n ==> old(self).car_ok(old(self).cars@[i]),
                forall|i: int| 0 <= i < idx ==> self.car_ok(self.cars@[i]),
            decreases n - idx,
        {
            let car = self.cars[idx];
            let ny = car.y + self.scroll_speed;
            if ny > self.stage_height {
                let lane = random_in_range(0, self.lane_count);
                let y = random_in_range(ENTRY_Y_MIN, ENTRY_Y_MAX);
                self.cars.set(idx, TrafficCar { lane, y });
            } else {
                self.cars.set(idx, TrafficCar { lane: car.lane, y: ny });
            }
            idx = idx + 1;
        }
    }

    /// As `advance`, drawing recycled lanes and offsets from a seedable
    /// generator instead of the thread-local one.
    pub fn advance_seeded(&mut self, rng: &mut SeededRng)
        requires
            old(self).wf(),
            old(rng).wf(),
        ensures
            final(self).wf(),
            final(rng).wf(),
            old(self).spec_advanced(*final(self)),
    {
        let n = self.cars.len();
        let mut idx: usize = 0;
        while idx < n
            invariant
                idx <= n,
                self.cars@.len() == n,
                old(self).cars@.len() == n,
                self.same_config(*old(self)),
                self.config_ok(),
                rng.wf(),
                forall|i: int| idx <= i < n ==> self.cars@[i] == old(self).cars@[i],
                forall|i: int|
                    0 <= i < idx ==> old(self).spec_car_step_ok(
                        old(self).cars@[i],
                        self.cars@[i],
                    ),
                forall|i: int| 0 <= i < n ==> old(self).car_ok(old(self).cars@[i]),
                forall|i: int| 0 <= i < idx ==> self.car_ok(self.cars@[i]),
            decreases n - idx,
        {
            let car = self.cars[idx];
            let ny = car.y + self.scroll_speed;
            if ny > self.stage_height {
                let lane = rng.next_below(self.lane_count);
                let y = rng.next_in_range(ENTRY_Y_MIN, ENTRY_Y_MAX);
                self.cars.set(idx, TrafficCar { lane, y });
            } else {
                self.cars.set(idx, TrafficCar { lane: car.lane, y: ny });
            }
            idx = idx + 1;
        }
    }

    /// The box one car occupies, given the corridor and the shared box size.
    pub open spec fn spec_car_rect(
        self,
        c: TrafficCar,
        b: Boundary,
        lane_width: int,
        size: Vector2i,
    ) -> Rect {
        Rect {
            pos: Vector2i { x: (b.left + c.lane * lane_width) as i32, y: c.y },
            size,
        }
    }

    /// The boxes all cars occupy, in pool order, for collision testing and
    /// rendering.
    pub fn car_rects(&self, b: &Boundary, lane_width: i32, size: Vector2i) -> (r: Vec<Rect>)
        requires
            self.wf(),
            0 < lane_width <= 500,
            -0x10_0000 <= b.left,
            b.left + self.lane_count * lane_width <= 0x10_0000,
            0 <= size.x <= 0x10_0000,
            0 <= size.y <= 0x10_0000,
        ensures
            r@.len() == self.cars@.len(),
            forall|i: int|
                0 <= i < r@.len() ==> r@[i] == self.spec_car_rect(
                    self.cars@[i],
                    *b,
                    lane_width as int,
                    size,
                ),
            forall|i: int| 0 <= i < r@.len() ==> rect_wf(r@[i]),
    {
        let n = self.cars.len();
        let mut r: Vec<Rect> = Vec::new();
        let mut idx: usize = 0;
        while idx < n
            invariant
                idx <= n,
                self.cars@.len() == n,
                r@.len() == idx,
                self.wf(),
                0 < lane_width <= 500,
                -0x10_0000 <= b.left,
                b.left + self.lane_count * lane_width <= 0x10_0000,
                0 <= size.x <= 0x10_0000,
                0 <= size.y <= 0x10_0000,
                forall|i: int|
                    0 <= i < idx ==> r@[i] == self.spec_car_rect(
                        self.cars@[i],
                        *b,
                        lane_width as int,
                        size,
                    ),
                forall|i: int| 0 <= i < idx ==> rect_wf(r@[i]),
            decreases n - idx,
        {
            let c = self.cars[idx];
            assert(0 <= c.lane * lane_width && c.lane * lane_width + lane_width <= self.lane_count
                * lane_width) by (nonlinear_arith)
                requires
                    0 <= c.lane < self.lane_count,
                    0 < lane_width,
            ;
            let x = b.left + c.lane * lane_width;
            r.push(Rect { pos: Vector2i { x, y: c.y }, size });
            idx = idx + 1;
        }
        r
    }
}

} // verus!
