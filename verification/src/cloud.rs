//! Small puffs that drift for a few frames: a pool of bounded size.

use vstd::prelude::*;
use crate::subpixel::{clamp, clamp_spec};

verus! {

/// Most clouds alive at one time.
pub const MAX_CLOUDS: usize = 16;

/// Frames that a cloud lives.
pub const CLOUD_LIFETIME: u32 = 20;

/// Clouds stay within this distance of the origin, along each axis.
pub const CLOUD_POSITION_LIMIT: i64 = 0x100_0000_0000;

/// A cloud moves at most this far in a frame, along each axis.
pub const CLOUD_SPEED_LIMIT: i64 = 0x10_0000;

/// A drifting puff: where it is, how far it moves each frame, and how many
/// frames it has left.
#[derive(Clone, Copy, Debug, PartialEq, Eq, Structural)]
pub struct Cloud {
    pub x: i64,
    pub y: i64,
    pub vx: i64,
    pub vy: i64,
    pub lifetime: u32,
}

/// The cloud that a spawn at `(x, y)` with speed `(vx, vy)` makes.
pub open spec fn new_cloud(x: i64, y: i64, vx: i64, vy: i64) -> Cloud {
    Cloud {
        x: clamp_spec(x as int, -CLOUD_POSITION_LIMIT as int, CLOUD_POSITION_LIMIT as int) as i64,
        y: clamp_spec(y as int, -CLOUD_POSITION_LIMIT as int, CLOUD_POSITION_LIMIT as int) as i64,
        vx: clamp_spec(vx as int, -CLOUD_SPEED_LIMIT as int, CLOUD_SPEED_LIMIT as int) as i64,
        vy: clamp_spec(vy as int, -CLOUD_SPEED_LIMIT as int, CLOUD_SPEED_LIMIT as int) as i64,
        lifetime: CLOUD_LIFETIME,
    }
}

/// The pool after an attempt to spawn a cloud: a full pool stays as it is.
pub open spec fn pushed_clouds(clouds: Seq<Cloud>, x: i64, y: i64, vx: i64, vy: i64) -> Seq<Cloud> {
    if clouds.len() < MAX_CLOUDS {
        clouds.push(new_cloud(x, y, vx, vy))
    } else {
        clouds
    }
}

/// The pool after one frame: each cloud has moved and aged, and those whose
/// time was up are gone. The others keep their order.
pub open spec fn updated_clouds(clouds: Seq<Cloud>) -> Seq<Cloud>
    decreases clouds.len(),
{
    if clouds.len() == 0 {
        Seq::empty()
    } else {
        let earlier = updated_clouds(clouds.drop_last());
        let last = clouds.last();
        if last.lifetime > 1 {
            earlier.push(last.drifted())
        } else {
            earlier
        }
    }
}

/// Whether every cloud of the pool is well formed and the pool is not over full.
pub open spec fn clouds_wf(clouds: Seq<Cloud>) -> bool {
    &&& clouds.len() <= MAX_CLOUDS
    &&& forall|i: int| 0 <= i < clouds.len() ==> (#[trigger] clouds[i]).wf()
}

impl Cloud {
    /// Position and speed are within their limits.
    pub open spec fn wf(self) -> bool {
        &&& -CLOUD_POSITION_LIMIT <= self.x <= CLOUD_POSITION_LIMIT
        &&& -CLOUD_POSITION_LIMIT <= self.y <= CLOUD_POSITION_LIMIT
        &&& -CLOUD_SPEED_LIMIT <= self.vx <= CLOUD_SPEED_LIMIT
        &&& -CLOUD_SPEED_LIMIT <= self.vy <= CLOUD_SPEED_LIMIT
    }

    /// The cloud one frame later: moved by its speed, held to the position
    /// limit, with one frame less to live.
    pub open spec fn drifted(self) -> Cloud {
        Cloud {
            x: clamp_spec(
                self.x + self.vx,
                -CLOUD_POSITION_LIMIT as int,
                CLOUD_POSITION_LIMIT as int,
            ) as i64,
            y: clamp_spec(
                self.y + self.vy,
                -CLOUD_POSITION_LIMIT as int,
                CLOUD_POSITION_LIMIT as int,
            ) as i64,
            vx: self.vx,
            vy: self.vy,
            lifetime: (self.lifetime - 1) as u32,
        }
    }

    /// Spawns a cloud unless the pool is full; then nothing happens.
    pub fn try_push_cloud(clouds: &mut Vec<Cloud>, x: i64, y: i64, vx: i64, vy: i64)
        requires
            clouds_wf(old(clouds)@),
        ensures
            final(clouds)@ == pushed_clouds(old(clouds)@, x, y, vx, vy),
            clouds_wf(final(clouds)@),
    {
        if clouds.len() < MAX_CLOUDS {
            let cloud = Cloud {
                x: clamp(x, -CLOUD_POSITION_LIMIT, CLOUD_POSITION_LIMIT),
                y: clamp(y, -CLOUD_POSITION_LIMIT, CLOUD_POSITION_LIMIT),
                vx: clamp(vx, -CLOUD_SPEED_LIMIT, CLOUD_SPEED_LIMIT),
                vy: clamp(vy, -CLOUD_SPEED_LIMIT, CLOUD_SPEED_LIMIT),
                lifetime: CLOUD_LIFETIME,
            };
            clouds.push(cloud);
        }
    }

    /// Moves and ages every cloud, and drops those whose time is up.
    pub fn update_clouds(clouds: &mut Vec<Cloud>)
        requires
            clouds_wf(old(clouds)@),
        ensures
            final(clouds)@ == updated_clouds(old(clouds)@),
            clouds_wf(final(clouds)@),
    {
        let mut kept: Vec<Cloud> = Vec::new();
        let n: usize = clouds.len();
        let mut i: usize = 0;
        assert(clouds@.subrange(0, 0) =~= Seq::<Cloud>::empty());
        while i < n
            invariant
                i <= n,
                n == clouds@.len(),
                clouds@ == old(clouds)@,
                clouds_wf(clouds@),
                kept@ == updated_clouds(clouds@.subrange(0, i as int)),
                kept@.len() <= i,
                forall|k: int| 0 <= k < kept@.len() ==> (#[trigger] kept@[k]).wf(),
            decreases n - i,
        {
            let c: Cloud = clouds[i];
            assert(c.wf());
            assert(clouds@.subrange(0, i + 1).drop_last() =~= clouds@.subrange(0, i as int));
            if c.lifetime > 1 {
                kept.push(
                    Cloud {
                        x: clamp(c.x + c.vx, -CLOUD_POSITION_LIMIT, CLOUD_POSITION_LIMIT),
                        y: clamp(c.y + c.vy, -CLOUD_POSITION_LIMIT, CLOUD_POSITION_LIMIT),
                        vx: c.vx,
                        vy: c.vy,
                        lifetime: c.lifetime - 1,
                    },
                );
            }
            i = i + 1;
        }
        assert(clouds@.subrange(0, n as int) =~= clouds@);
        *clouds = kept;
    }
}

} // verus!
