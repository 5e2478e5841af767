//! Where newly spawned balls enter the field.

use vstd::prelude::*;

verus! {

/// Number of spawn lanes; successive balls cycle through them.
pub const SPAWN_LANES: usize = 5;

/// The lane offset of the ball spawned after `spawn_count` earlier spawns:
/// lanes are taken in turn, and the offset runs from -2 to 2 around the
/// middle of the field.
pub open spec fn spec_lane_offset(spawn_count: nat) -> int {
    (spawn_count % 5) as int - 2
}

/// The lane offset, from -2 to 2, of the ball spawned after `spawn_count`
/// earlier spawns.
pub fn spawn_lane_offset(spawn_count: usize) -> (offset: i8)
    ensures
        offset == spec_lane_offset(spawn_count as nat),
        -2 <= offset <= 2,
{
    let lane = (spawn_count % SPAWN_LANES) as i8;
    lane - 2
}

/// Spawn lanes repeat every five spawns, and consecutive spawns never share
/// a lane.
pub proof fn lanes_cycle(spawn_count: nat)
    ensures
        spec_lane_offset(spawn_count + 5) == spec_lane_offset(spawn_count),
        spec_lane_offset(spawn_count + 1) != spec_lane_offset(spawn_count),
{
}

/// How many balls have been spawned since the scene was last reset; it picks
/// the lane of the next ball.
#[derive(Clone, Copy, Debug, PartialEq, Eq, Structural)]
pub struct SpawnLanes {
    pub count: usize,
}

impl SpawnLanes {
    /// A counter for a freshly reset scene: no ball spawned yet.
    pub fn new() -> (lanes: SpawnLanes)
        ensures
            lanes.count == 0,
    {
        SpawnLanes { count: 0 }
    }

    /// The lane offset of the ball being spawned now; the count then moves
    /// on by one (wrapping to zero past `usize::MAX`).
    pub fn next_lane(&mut self) -> (offset: i8)
        ensures
            offset == spec_lane_offset(old(self).count as nat),
            final(self).count == (if old(self).count == usize::MAX {
                0
            } else {
                old(self).count + 1
            }),
    {
        let offset = spawn_lane_offset(self.count);
        self.count = self.count.wrapping_add(1);
        offset
    }
}

/// The first ball after a reset enters in the leftmost lane, and the next
/// four take the remaining lanes from left to right.
pub proof fn lanes_after_reset()
    ensures
        spec_lane_offset(0) == -2,
        spec_lane_offset(1) == -1,
        spec_lane_offset(2) == 0,
        spec_lane_offset(3) == 1,
        spec_lane_offset(4) == 2,
{
}

} // verus!
