//! The drivable corridor: its horizontal extent derived from the stage and
//! lane configuration.

use vstd::prelude::*;

verus! {

/// The horizontal extent of the drivable corridor.  Lane `k` starts at
/// `left + k * lane_width`.
#[derive(Clone, Copy, PartialEq, Eq, Structural, Debug)]
pub struct Boundary {
    pub left: i32,
    pub right: i32,
}

/// A configuration defect found while building a session: a non-positive
/// lane count or lane width, or dimensions no stage could hold.
#[derive(Clone, Copy, PartialEq, Eq, Structural, Debug)]
pub enum ConfigError {
    InvalidConfiguration,
}

/// Half the corridor width: `(lane_count * lane_width) / 2`.
pub open spec fn spec_half_corridor(lane_count: int, lane_width: int) -> int {
    (lane_count * lane_width) / 2
}

/// The corridor is centred on the stage.
pub open spec fn spec_left(stage_width: int, lane_count: int, lane_width: int) -> int {
    stage_width / 2 - spec_half_corridor(lane_count, lane_width)
}

pub open spec fn spec_right(stage_width: int, lane_count: int, lane_width: int) -> int {
    stage_width / 2 + spec_half_corridor(lane_count, lane_width)
}

impl Boundary {
    /// Derives the corridor extent from the stage width and the lane
    /// configuration.  Fails fast with `InvalidConfiguration` when the lane
    /// count or lane width is non-positive; otherwise the corridor is the
    /// block of `lane_count` lanes centred on the stage.
    pub fn compute(stage_width: i32, lane_count: i32, lane_width: i32) -> (r: Result<
        Boundary,
        ConfigError,
    >)
        requires
            0 <= stage_width <= 0x10_0000,
            lane_count <= 1000,
            lane_width <= 1000,
        ensures
            r is Ok <==> (lane_count > 0 && lane_width > 0),
            r is Err ==> r->Err_0 == ConfigError::InvalidConfiguration,
            r is Ok ==> {
                &&& r->Ok_0.left == spec_left(stage_width as int, lane_count as int, lane_width as int)
                &&& r->Ok_0.right == spec_right(
                    stage_width as int,
                    lane_count as int,
                    lane_width as int,
                )
                &&& r->Ok_0.left <= r->Ok_0.right
            },
    {
        if lane_count <= 0 || lane_width <= 0 {
            return Err(ConfigError::InvalidConfiguration);
        }
        assert(lane_count * lane_width <= 1_000_000) by (nonlinear_arith)
            requires
                0 < lane_count <= 1000,
                0 < lane_width <= 1000,
        ;
        let total: i32 = lane_count * lane_width;
        let half: i32 = total / 2;
        Ok(Boundary { left: stage_width / 2 - half, right: stage_width / 2 + half })
    }
}

} // verus!
