//! The player-controlled vehicle: fixed size, position advanced from the
//! current input and clamped to the corridor and the stage.

use vstd::prelude::*;

use crate::boundary::Boundary;
use crate::geometry::Rect;
use crate::geometry::Vector2i;
use crate::geometry::rect_wf;
use crate::input::InputState;

verus! {

/// The player's box: a mutable position and a size fixed for the session.
#[derive(Clone, Copy, PartialEq, Eq, Structural, Debug)]
pub struct Player {
    pub pos: Vector2i,
    pub size: Vector2i,
}

/// Clamping to a closed interval (`lo <= hi`).
pub open spec fn spec_clamp(v: int, lo: int, hi: int) -> int {
    if v < lo {
        lo
    } else if v > hi {
        hi
    } else {
        v
    }
}

/// Law: re-clamping an already-clamped value is a no-op.
pub proof fn lemma_clamp_idempotent(v: int, lo: int, hi: int)
    requires
        lo <= hi,
    ensures
        spec_clamp(spec_clamp(v, lo, hi), lo, hi) == spec_clamp(v, lo, hi),
{
}

/// Horizontal steering: right takes priority over left when both are held.
pub open spec fn spec_x_direction(input: InputState) -> int {
    if input.right {
        1
    } else if input.left {
        -1
    } else {
        0
    }
}

/// Vertical steering: up takes priority over down when both are held.
pub open spec fn spec_y_direction(input: InputState) -> int {
    if input.up {
        -1
    } else if input.down {
        1
    } else {
        0
    }
}

impl Player {
    /// The box the player occupies.
    pub open spec fn spec_rect(self) -> Rect {
        Rect { pos: self.pos, size: self.size }
    }

    /// The player fits the corridor and the stage, with geometry the
    /// arithmetic below cannot overflow on.
    pub open spec fn fits(self, b: Boundary, stage_height: int) -> bool {
        &&& 0 < self.size.x <= 0x10_0000
        &&& 0 < self.size.y <= 0x10_0000
        &&& -0x10_0000 <= b.left
        &&& b.right <= 0x10_0000
        &&& b.left + self.size.x <= b.right
        &&& self.size.y <= stage_height <= 0x10_0000
    }

    /// The position is inside the corridor horizontally and the stage
    /// vertically.
    pub open spec fn in_bounds(self, b: Boundary, stage_height: int) -> bool {
        &&& b.left <= self.pos.x
        &&& self.pos.x + self.size.x <= b.right
        &&& 0 <= self.pos.y
        &&& self.pos.y + self.size.y <= stage_height
    }

    /// How one tick moves the player: one speed-sized step per axis in the
    /// steered direction, then clamped to the corridor and the stage.
    pub open spec fn spec_advanced(
        self,
        post: Player,
        input: InputState,
        b: Boundary,
        stage_height: int,
        x_speed: int,
        y_speed: int,
    ) -> bool {
        &&& post.size == self.size
        &&& post.pos.x == spec_clamp(
            self.pos.x + x_speed * spec_x_direction(input),
            b.left as int,
            b.right - self.size.x,
        )
        &&& post.pos.y == spec_clamp(
            self.pos.y + y_speed * spec_y_direction(input),
            0,
            stage_height - self.size.y,
        )
    }

    /// Advances the position one tick from the held directions, clamped so
    /// the player never exits the corridor or the stage (at rest at an edge
    /// when still pressing outward).  Always succeeds.
    pub fn advance(
        &mut self,
        input: &InputState,
        b: &Boundary,
        stage_height: i32,
        x_speed: i32,
        y_speed: i32,
    )
        requires
            old(self).fits(*b, stage_height as int),
            -0x10_0000 <= old(self).pos.x <= 0x10_0000,
            -0x10_0000 <= old(self).pos.y <= 0x10_0000,
            0 <= x_speed <= 0x10_0000,
            0 <= y_speed <= 0x10_0000,
        ensures
            old(self).spec_advanced(
                *final(self),
                *input,
                *b,
                stage_height as int,
                x_speed as int,
                y_speed as int,
            ),
            final(self).in_bounds(*b, stage_height as int),
            rect_wf(final(self).spec_rect()),
    {
        let dx: i32 = if input.right {
            x_speed
        } else if input.left {
            -x_speed
        } else {
            0
        };
        assert(dx == x_speed * spec_x_direction(*input));
        let mut x: i32 = self.pos.x + dx;
        if x < b.left {
            x = b.left;
        } else if x > b.right - self.size.x {
            x = b.right - self.size.x;
        }
        self.pos.x = x;

        let dy: i32 = if input.up {
            -y_speed
        } else if input.down {
            y_speed
        } else {
            0
        };
        assert(dy == y_speed * spec_y_direction(*input));
        let mut y: i32 = self.pos.y + dy;
        if y < 0 {
            y = 0;
        } else if y > stage_height - self.size.y {
            y = stage_height - self.size.y;
        }
        self.pos.y = y;
    }
}

} // verus!
