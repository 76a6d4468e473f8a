//! Bounding boxes, movement against the tile map, and characters touching.

use vstd::prelude::*;
use crate::ability_cards::AbilityCardTypes;
use crate::cloud::{clouds_wf, pushed_clouds, Cloud};
use crate::entities::{
    Character, KittyStates, MovingEntity, OptionallyEnabledPlayer, Player, Species, WarpAbility,
    WarpState, SPEED_LIMIT, X_MAX, X_MIN, Y_MAX, Y_MIN,
};
use crate::game_state::{GameModel, GameState};
use crate::game_map::{GameMap, GameMapView};
use crate::multiplatform_defs::{BUTTON_1, BUTTON_DOWN, BUTTON_LEFT, BUTTON_RIGHT, BUTTON_UP};
use crate::subpixel::{clamp, clamp_spec, px_of, scale_percent, scale_spec, to_px, UNITS_PER_PX};

verus! {

/// Added to the downward speed of a falling character in every frame.
pub const GRAVITY: i64 = 300;

/// Added to the sideways speed in every frame that a direction is held.
pub const WALK_ACCEL: i64 = 400;

pub const MAX_WALK_SPEED: i64 = 2000;

pub const MAX_FALL_SPEED: i64 = 4000;

/// Hundredths of the sideways speed that are left after a frame without a direction.
pub const FRICTION_PERCENT: i64 = 80;

/// Upward speed that a jump starts with.
pub const JUMP_SPEED: i64 = 4500;

/// Speed along each axis in god mode.
pub const GOD_SPEED: i64 = 3000;

/// Upward speed that keeps a character pressed to a ceiling.
pub const CEILING_GRIP_SPEED: i64 = 1000;

/// Frames that the down button is held before a warp begins.
pub const WARP_CHARGE_TICKS: u32 = 30;

/// Frames that a warp takes.
pub const WARP_TRAVEL_TICKS: u32 = 6;

/// How far a warp carries a character, in position units.
pub const WARP_DISTANCE: i64 = 40000;

/// Upward speed of the puff that marks the ends of a warp.
pub const PUFF_RISE: i64 = 500;

/// An axis-aligned rectangle: its top left corner and its size.
#[derive(Clone, Copy, Debug, PartialEq, Eq)]
pub struct AbsoluteBoundingBox<P, S> {
    pub x: P,
    pub y: P,
    pub width: S,
    pub height: S,
}

/// What a character touched on its way down or up.
#[derive(Clone, Copy, Debug, PartialEq, Eq, Structural)]
pub enum Contact {
    Nothing,
    Floor,
    Ceiling,
}

/// Where a move along one axis ended, the speed that is left, and whether a
/// solid tile was in the way.
#[derive(Clone, Copy, Debug, PartialEq, Eq, Structural)]
pub struct Sweep {
    pub pos: i64,
    pub vel: i64,
    pub hit: bool,
}

/// A character after the warp part of a frame, whether the warp holds it
/// still for the rest of the frame, and whether a puff marks the moment.
#[derive(Clone, Copy, Debug, PartialEq, Eq, Structural)]
pub struct WarpOutcome {
    pub character: Character,
    pub frozen: bool,
    pub puff: bool,
}

/// Whether `button` is among the buttons of `input`.
pub open spec fn held(input: u8, button: u8) -> bool {
    input & button != 0
}

/// Whether `button` is among the buttons of `input`.
pub fn is_held(input: u8, button: u8) -> (b: bool)
    ensures
        b == held(input, button),
{
    input & button != 0
}

/// The box of a character in pixels: its position, rounded toward zero, and
/// the size of its sprite.
pub open spec fn bound_of(c: Character) -> AbsoluteBoundingBox<i32, u32> {
    AbsoluteBoundingBox {
        x: px_of(c.x_pos as int) as i32,
        y: px_of(c.y_pos as int) as i32,
        width: c.sprite.first.width as u32,
        height: c.sprite.first.height as u32,
    }
}

/// The box of a character in pixels.
pub fn get_bound_of_character(c: &Character) -> (b: AbsoluteBoundingBox<i32, u32>)
    ensures
        b == bound_of(*c),
{
    AbsoluteBoundingBox {
        x: to_px(c.x_pos),
        y: to_px(c.y_pos),
        width: c.sprite.first.width as u32,
        height: c.sprite.first.height as u32,
    }
}

/// Whether two boxes share a pixel.
pub open spec fn boxes_overlap(a: AbsoluteBoundingBox<i32, u32>, b: AbsoluteBoundingBox<i32, u32>)
    -> bool {
    &&& a.x < b.x + b.width
    &&& b.x < a.x + a.width
    &&& a.y < b.y + b.height
    &&& b.y < a.y + a.height
}

/// Whether two boxes share a pixel.
pub fn overlaps(a: &AbsoluteBoundingBox<i32, u32>, b: &AbsoluteBoundingBox<i32, u32>) -> (r: bool)
    ensures
        r == boxes_overlap(*a, *b),
{
    let ax: i64 = a.x as i64;
    let ay: i64 = a.y as i64;
    let bx: i64 = b.x as i64;
    let by: i64 = b.y as i64;
    ax < bx + b.width as i64 && bx < ax + a.width as i64 && ay < by + b.height as i64 && by < ay
        + a.height as i64
}

/// The side of a tile in position units: tiles are squares of
/// `TILE_WIDTH_PX` pixels.
pub const TILE_UNITS: i64 = 5000;

/// Whether a box whose top left corner is at `(left, top)`, in position
/// units, and which is `width` by `height` pixels, covers a part of a solid
/// tile.
pub open spec fn box_hits(map: GameMapView, left: int, top: int, width: int, height: int) -> bool {
    exists|tx: int, ty: int|
        left / TILE_UNITS as int <= tx <= (left + width * UNITS_PER_PX - 1) / TILE_UNITS as int
            && top / TILE_UNITS as int <= ty <= (top + height * UNITS_PER_PX - 1)
            / TILE_UNITS as int && #[trigger] map.solid_at(tx, ty)
}

/// Whether a box whose top left corner is at `(left, top)`, in position
/// units, and which is `width` by `height` pixels, covers a part of a solid
/// tile.
pub fn hits_solid(map: &GameMap, left: i64, top: i64, width: u32, height: u32) -> (hit: bool)
    requires
        map@.wf(),
        0 <= left <= 0x1000_0000,
        0 <= top <= 0x1000_0000,
        1 <= width <= 255,
        1 <= height <= 255,
    ensures
        hit == box_hits(map@, left as int, top as int, width as int, height as int),
{
    let first_col: i32 = (left / TILE_UNITS) as i32;
    let last_col: i32 = ((left + width as i64 * UNITS_PER_PX - 1) / TILE_UNITS) as i32;
    let first_row: i32 = (top / TILE_UNITS) as i32;
    let last_row: i32 = ((top + height as i64 * UNITS_PER_PX - 1) / TILE_UNITS) as i32;
    let mut ty: i32 = first_row;
    while ty <= last_row
        invariant
            map@.wf(),
            first_row <= ty <= last_row + 1,
            last_row <= 0x100_0000,
            last_col <= 0x100_0000,
            first_col == left as int / TILE_UNITS as int,
            last_col == (left + width * UNITS_PER_PX - 1) / TILE_UNITS as int,
            first_row == top as int / TILE_UNITS as int,
            last_row == (top + height * UNITS_PER_PX - 1) / TILE_UNITS as int,
            forall|x: int, y: int|
                first_col <= x <= last_col && first_row <= y < ty ==> !#[trigger] map@.solid_at(
                    x,
                    y,
                ),
        decreases last_row + 1 - ty,
    {
        let mut tx: i32 = first_col;
        while tx <= last_col
            invariant
                map@.wf(),
                first_col <= tx,
                tx <= last_col + 1 || first_col > last_col,
                first_row <= ty <= last_row,
                last_col <= 0x100_0000,
                first_col == left as int / TILE_UNITS as int,
                last_col == (left + width * UNITS_PER_PX - 1) / TILE_UNITS as int,
                first_row == top as int / TILE_UNITS as int,
                last_row == (top + height * UNITS_PER_PX - 1) / TILE_UNITS as int,
                forall|x: int, y: int|
                    first_col <= x <= last_col && first_row <= y < ty ==> !#[trigger] map@.solid_at(
                        x,
                        y,
                    ),
                forall|x: int| first_col <= x < tx ==> !#[trigger] map@.solid_at(x, ty as int),
            decreases last_col + 1 - tx,
        {
            if map.get_tile_at(tx, ty) != 0 {
                assert(map@.solid_at(tx as int, ty as int));
                return true;
            }
            tx = tx + 1;
        }
        ty = ty + 1;
    }
    false
}

/// The sideways speed after a frame's steering: a held direction
/// accelerates up to the walking speed, and without one the speed decays.
pub open spec fn steer_x(vel: i64, input: u8) -> i64 {
    let left = held(input, BUTTON_LEFT);
    let right = held(input, BUTTON_RIGHT);
    if left && !right {
        clamp_spec(vel - WALK_ACCEL, -MAX_WALK_SPEED as int, MAX_WALK_SPEED as int) as i64
    } else if right && !left {
        clamp_spec(vel + WALK_ACCEL, -MAX_WALK_SPEED as int, MAX_WALK_SPEED as int) as i64
    } else {
        scale_spec(vel as int, FRICTION_PERCENT as int) as i64
    }
}

/// Which way a character faces after a frame's steering.
pub open spec fn facing_after(facing_right: bool, input: u8) -> bool {
    let left = held(input, BUTTON_LEFT);
    let right = held(input, BUTTON_RIGHT);
    if left && !right {
        false
    } else if right && !left {
        true
    } else {
        facing_right
    }
}

/// The vertical speed after a frame's steering. In god mode the up and down
/// buttons move the character and nothing pulls it down. Otherwise the jump
/// button starts a jump from the ground, or from anywhere for a character
/// that can fly, and holds a character to a ceiling that it is pressed
/// against; with none of these, gravity adds to the speed.
pub open spec fn steer_y(c: Character, input: u8, godmode: bool) -> i64 {
    if godmode {
        if held(input, BUTTON_UP) {
            (-GOD_SPEED) as i64
        } else if held(input, BUTTON_DOWN) {
            GOD_SPEED
        } else {
            0
        }
    } else if held(input, BUTTON_1) && (c.state is Grounded || c.can_fly) {
        (-JUMP_SPEED) as i64
    } else if held(input, BUTTON_1) && c.state is OnCeiling {
        (-CEILING_GRIP_SPEED) as i64
    } else {
        clamp_spec(c.y_vel + GRAVITY, -SPEED_LIMIT as int, MAX_FALL_SPEED as int) as i64
    }
}

/// Where a box is set back to when a tile stops it: against the near edge
/// of the tile that its leading edge ran into. A box that did not move
/// stays where it was.
pub open spec fn snapped_pos(wanted: int, size: int, vel: int, old_pos: int) -> int {
    if vel > 0 {
        ((wanted + size - 1) / TILE_UNITS as int) * TILE_UNITS - size
    } else if vel < 0 {
        (wanted / TILE_UNITS as int + 1) * TILE_UNITS
    } else {
        old_pos
    }
}

/// The end of a move along one axis from `old_pos` toward `wanted`, for a
/// box that is `size` pixels long along the axis. Where a tile was hit, the
/// box is set back against it, within `[lo, hi]`, and it stops; otherwise it
/// arrives and keeps its speed.
pub open spec fn sweep_spec(
    hit: bool,
    old_pos: i64,
    wanted: i64,
    size: int,
    vel: i64,
    lo: i64,
    hi: i64,
) -> Sweep {
    if hit {
        Sweep {
            pos: clamp_spec(
                snapped_pos(wanted as int, size * UNITS_PER_PX, vel as int, old_pos as int),
                lo as int,
                hi as int,
            ) as i64,
            vel: 0,
            hit: true,
        }
    } else {
        Sweep { pos: wanted, vel, hit: false }
    }
}

/// The end of a sideways move at speed `vel`.
pub open spec fn swept_x(map: GameMapView, c: Character, vel: i64) -> Sweep {
    let wanted = clamp_spec(c.x_pos + vel, X_MIN as int, X_MAX as int) as i64;
    let hit = box_hits(
        map,
        wanted as int,
        c.y_pos as int,
        c.sprite.first.width as int,
        c.sprite.first.height as int,
    );
    sweep_spec(hit, c.x_pos, wanted, c.sprite.first.width as int, vel, X_MIN, X_MAX)
}

/// The end of a vertical move at speed `vel`.
pub open spec fn swept_y(map: GameMapView, c: Character, vel: i64) -> Sweep {
    let wanted = clamp_spec(c.y_pos + vel, Y_MIN as int, Y_MAX as int) as i64;
    let hit = box_hits(
        map,
        c.x_pos as int,
        wanted as int,
        c.sprite.first.width as int,
        c.sprite.first.height as int,
    );
    sweep_spec(hit, c.y_pos, wanted, c.sprite.first.height as int, vel, Y_MIN, Y_MAX)
}

/// What a vertical move at speed `vel` touched.
pub open spec fn contact_of(sweep: Sweep, vel: i64) -> Contact {
    if sweep.hit && vel > 0 {
        Contact::Floor
    } else if sweep.hit && vel < 0 {
        Contact::Ceiling
    } else {
        Contact::Nothing
    }
}

/// The state that follows from a frame's vertical contact: on a floor the
/// character is grounded, against a ceiling it is on the ceiling and counts
/// the frames there, and without contact it is airborne.
pub open spec fn state_after(previous: KittyStates, contact: Contact) -> KittyStates {
    match contact {
        Contact::Floor => KittyStates::Grounded,
        Contact::Ceiling => match previous {
            KittyStates::OnCeiling(t) => KittyStates::OnCeiling(
                if t < u32::MAX {
                    (t + 1) as u32
                } else {
                    t
                },
            ),
            _ => KittyStates::OnCeiling(0),
        },
        Contact::Nothing => KittyStates::Airborne,
    }
}

/// The frame of its strip that a character shows: 0 at rest, 1 and 2 in
/// turn while it walks, 3 in the air.
pub open spec fn frame_for(c: Character) -> i32 {
    match c.state {
        KittyStates::Airborne => 3,
        KittyStates::Warping(_) => 3,
        _ => if c.x_vel == 0 {
            0
        } else {
            (1 + (px_of(c.x_pos as int) / 4) % 2) as i32
        },
    }
}

/// The warp part of a frame. A character that can warp charges while the
/// down button is held, and starts over when it is let go. A full charge
/// begins the warp, which holds the character still and, when its time
/// is up, sets it down `WARP_DISTANCE` ahead, inside the world.
pub open spec fn warp_step(c: Character, input: u8) -> WarpOutcome {
    match c.warp_ability {
        WarpAbility::CannotWarp => WarpOutcome { character: c, frozen: false, puff: false },
        WarpAbility::CanWarp(WarpState::Charging(t)) => {
            if !held(input, BUTTON_DOWN) {
                WarpOutcome {
                    character: Character {
                        warp_ability: WarpAbility::CanWarp(WarpState::Charging(0)),
                        ..c
                    },
                    frozen: false,
                    puff: false,
                }
            } else if t >= WARP_CHARGE_TICKS - 1 {
                WarpOutcome {
                    character: Character {
                        warp_ability: WarpAbility::CanWarp(WarpState::Warping(WARP_TRAVEL_TICKS)),
                        state: KittyStates::Warping(WARP_TRAVEL_TICKS),
                        x_vel: 0,
                        y_vel: 0,
                        ..c
                    },
                    frozen: true,
                    puff: true,
                }
            } else {
                WarpOutcome {
                    character: Character {
                        warp_ability: WarpAbility::CanWarp(WarpState::Charging((t + 1) as u32)),
                        ..c
                    },
                    frozen: false,
                    puff: false,
                }
            }
        },
        WarpAbility::CanWarp(WarpState::Warping(k)) => {
            if k > 1 {
                WarpOutcome {
                    character: Character {
                        warp_ability: WarpAbility::CanWarp(WarpState::Warping((k - 1) as u32)),
                        state: KittyStates::Warping((k - 1) as u32),
                        ..c
                    },
                    frozen: true,
                    puff: false,
                }
            } else {
                WarpOutcome {
                    character: Character {
                        x_pos: clamp_spec(
                            c.x_pos + (if c.is_facing_right {
                                WARP_DISTANCE as int
                            } else {
                                -WARP_DISTANCE
                            }),
                            X_MIN as int,
                            X_MAX as int,
                        ) as i64,
                        warp_ability: WarpAbility::CanWarp(WarpState::Charging(0)),
                        state: KittyStates::Airborne,
                        ..c
                    },
                    frozen: true,
                    puff: true,
                }
            }
        },
    }
}

/// The character after the movement part of a frame: steering, then the
/// move sideways, then the move down or up from where that ended.
pub open spec fn walked(map: GameMapView, c: Character, input: u8, godmode: bool) -> Character {
    let across = swept_x(map, c, steer_x(c.x_vel, input));
    let turned = Character {
        x_pos: across.pos,
        x_vel: across.vel,
        is_facing_right: facing_after(c.is_facing_right, input),
        ..c
    };
    let vel = steer_y(c, input, godmode);
    let down = swept_y(map, turned, vel);
    let landed = Character {
        y_pos: down.pos,
        y_vel: down.vel,
        state: state_after(c.state, contact_of(down, vel)),
        ..turned
    };
    Character { current_sprite_i: frame_for(landed), ..landed }
}

/// A character one frame later.
pub open spec fn moved_character(map: GameMapView, c: Character, input: u8, godmode: bool)
    -> Character {
    let warp = warp_step(c, input);
    if warp.frozen {
        warp.character
    } else {
        walked(map, warp.character, input, godmode)
    }
}

/// An entity one frame later. A player slot that is not in use stays so.
pub open spec fn moved_entity(map: GameMapView, entity: MovingEntity, input: u8, godmode: bool)
    -> MovingEntity {
    match entity.character() {
        Some(c) => entity.with_character(moved_character(map, c, input, godmode)),
        None => entity,
    }
}

/// The pool of clouds after an entity's frame: a puff rises where a warp
/// began or ended.
pub open spec fn clouds_after_move(clouds: Seq<Cloud>, entity: MovingEntity, input: u8) -> Seq<
    Cloud,
> {
    match entity.character() {
        Some(c) => {
            let warp = warp_step(c, input);
            if warp.puff {
                pushed_clouds(
                    clouds,
                    warp.character.x_pos,
                    warp.character.y_pos,
                    0,
                    (-PUFF_RISE) as i64,
                )
            } else {
                clouds
            }
        },
        None => clouds,
    }
}

fn steer_sideways(vel: i64, input: u8) -> (v: i64)
    requires
        -SPEED_LIMIT <= vel <= SPEED_LIMIT,
    ensures
        v == steer_x(vel, input),
        -SPEED_LIMIT <= v <= SPEED_LIMIT,
{
    let left: bool = is_held(input, BUTTON_LEFT);
    let right: bool = is_held(input, BUTTON_RIGHT);
    if left && !right {
        clamp(vel - WALK_ACCEL, -MAX_WALK_SPEED, MAX_WALK_SPEED)
    } else if right && !left {
        clamp(vel + WALK_ACCEL, -MAX_WALK_SPEED, MAX_WALK_SPEED)
    } else {
        scale_percent(vel, FRICTION_PERCENT)
    }
}

fn steer_vertical(c: &Character, input: u8, godmode: bool) -> (v: i64)
    requires
        c.wf(),
    ensures
        v == steer_y(*c, input, godmode),
        -SPEED_LIMIT <= v <= SPEED_LIMIT,
{
    let grounded: bool = match c.state {
        KittyStates::Grounded => true,
        _ => false,
    };
    let on_ceiling: bool = match c.state {
        KittyStates::OnCeiling(_) => true,
        _ => false,
    };
    if godmode {
        if is_held(input, BUTTON_UP) {
            -GOD_SPEED
        } else if is_held(input, BUTTON_DOWN) {
            GOD_SPEED
        } else {
            0
        }
    } else if is_held(input, BUTTON_1) && (grounded || c.can_fly) {
        -JUMP_SPEED
    } else if is_held(input, BUTTON_1) && on_ceiling {
        -CEILING_GRIP_SPEED
    } else {
        clamp(c.y_vel + GRAVITY, -SPEED_LIMIT, MAX_FALL_SPEED)
    }
}

fn sweep(hit: bool, old_pos: i64, wanted: i64, size: u8, vel: i64, lo: i64, hi: i64) -> (s: Sweep)
    requires
        0 <= lo <= hi <= 0x1000_0000,
        lo <= old_pos <= hi,
        lo <= wanted <= hi,
        1 <= size,
        -SPEED_LIMIT <= vel <= SPEED_LIMIT,
    ensures
        s == sweep_spec(hit, old_pos, wanted, size as int, vel, lo, hi),
        lo <= s.pos <= hi,
        -SPEED_LIMIT <= s.vel <= SPEED_LIMIT,
{
    if hit {
        let length: i64 = size as i64 * UNITS_PER_PX;
        let snapped: i64 = if vel > 0 {
            let edge: i64 = (wanted + length - 1) / TILE_UNITS;
            edge * TILE_UNITS - length
        } else if vel < 0 {
            let edge: i64 = wanted / TILE_UNITS;
            (edge + 1) * TILE_UNITS
        } else {
            old_pos
        };
        Sweep { pos: clamp(snapped, lo, hi), vel: 0, hit: true }
    } else {
        Sweep { pos: wanted, vel, hit: false }
    }
}

fn px_in_world(v: i64) -> (p: i32)
    requires
        0 <= v <= 0x1000_0000,
    ensures
        p == px_of(v as int),
        0 <= p <= 0x10_0000,
{
    let p: i32 = to_px(v);
    assert(0 <= p <= 0x10_0000) by (nonlinear_arith)
        requires
            p == px_of(v as int),
            0 <= v <= 0x1000_0000,
    ;
    p
}

fn sweep_sideways(map: &GameMap, c: &Character, vel: i64) -> (s: Sweep)
    requires
        map@.wf(),
        c.wf(),
        -SPEED_LIMIT <= vel <= SPEED_LIMIT,
    ensures
        s == swept_x(map@, *c, vel),
        X_MIN <= s.pos <= X_MAX,
        -SPEED_LIMIT <= s.vel <= SPEED_LIMIT,
{
    let wanted: i64 = clamp(c.x_pos + vel, X_MIN, X_MAX);
    let hit: bool = hits_solid(
        map,
        wanted,
        c.y_pos,
        c.sprite.first.width as u32,
        c.sprite.first.height as u32,
    );
    sweep(hit, c.x_pos, wanted, c.sprite.first.width, vel, X_MIN, X_MAX)
}

fn sweep_vertical(map: &GameMap, c: &Character, vel: i64) -> (s: Sweep)
    requires
        map@.wf(),
        c.wf(),
        -SPEED_LIMIT <= vel <= SPEED_LIMIT,
    ensures
        s == swept_y(map@, *c, vel),
        Y_MIN <= s.pos <= Y_MAX,
        -SPEED_LIMIT <= s.vel <= SPEED_LIMIT,
{
    let wanted: i64 = clamp(c.y_pos + vel, Y_MIN, Y_MAX);
    let hit: bool = hits_solid(
        map,
        c.x_pos,
        wanted,
        c.sprite.first.width as u32,
        c.sprite.first.height as u32,
    );
    sweep(hit, c.y_pos, wanted, c.sprite.first.height, vel, Y_MIN, Y_MAX)
}

fn next_state(previous: KittyStates, sweep: &Sweep, vel: i64) -> (state: KittyStates)
    ensures
        state == state_after(previous, contact_of(*sweep, vel)),
{
    if sweep.hit && vel > 0 {
        KittyStates::Grounded
    } else if sweep.hit && vel < 0 {
        match previous {
            KittyStates::OnCeiling(t) => KittyStates::OnCeiling(
                if t < u32::MAX {
                    t + 1
                } else {
                    t
                },
            ),
            _ => KittyStates::OnCeiling(0),
        }
    } else {
        KittyStates::Airborne
    }
}

fn pick_frame(c: &Character) -> (frame: i32)
    requires
        X_MIN <= c.x_pos <= X_MAX,
    ensures
        frame == frame_for(*c),
        0 <= frame < 4,
{
    match c.state {
        KittyStates::Airborne => 3,
        KittyStates::Warping(_) => 3,
        _ => if c.x_vel == 0 {
            0
        } else {
            1 + (px_in_world(c.x_pos) / 4) % 2
        },
    }
}

fn advance_warp(c: &Character, input: u8) -> (outcome: WarpOutcome)
    requires
        c.wf(),
    ensures
        outcome == warp_step(*c, input),
        outcome.character.wf(),
        outcome.character.following_i == c.following_i,
{
    match c.warp_ability {
        WarpAbility::CannotWarp => WarpOutcome { character: *c, frozen: false, puff: false },
        WarpAbility::CanWarp(WarpState::Charging(t)) => {
            if !is_held(input, BUTTON_DOWN) {
                WarpOutcome {
                    character: Character {
                        warp_ability: WarpAbility::CanWarp(WarpState::Charging(0)),
                        ..*c
                    },
                    frozen: false,
                    puff: false,
                }
            } else if t >= WARP_CHARGE_TICKS - 1 {
                WarpOutcome {
                    character: Character {
                        warp_ability: WarpAbility::CanWarp(WarpState::Warping(WARP_TRAVEL_TICKS)),
                        state: KittyStates::Warping(WARP_TRAVEL_TICKS),
                        x_vel: 0,
                        y_vel: 0,
                        ..*c
                    },
                    frozen: true,
                    puff: true,
                }
            } else {
                WarpOutcome {
                    character: Character {
                        warp_ability: WarpAbility::CanWarp(WarpState::Charging(t + 1)),
                        ..*c
                    },
                    frozen: false,
                    puff: false,
                }
            }
        },
        WarpAbility::CanWarp(WarpState::Warping(k)) => {
            if k > 1 {
                WarpOutcome {
                    character: Character {
                        warp_ability: WarpAbility::CanWarp(WarpState::Warping(k - 1)),
                        state: KittyStates::Warping(k - 1),
                        ..*c
                    },
                    frozen: true,
                    puff: false,
                }
            } else {
                let step: i64 = if c.is_facing_right {
                    WARP_DISTANCE
                } else {
                    -WARP_DISTANCE
                };
                WarpOutcome {
                    character: Character {
                        x_pos: clamp(c.x_pos + step, X_MIN, X_MAX),
                        warp_ability: WarpAbility::CanWarp(WarpState::Charging(0)),
                        state: KittyStates::Airborne,
                        ..*c
                    },
                    frozen: true,
                    puff: true,
                }
            }
        },
    }
}

fn walk(map: &GameMap, c: &Character, input: u8, godmode: bool) -> (moved: Character)
    requires
        map@.wf(),
        c.wf(),
    ensures
        moved == walked(map@, *c, input, godmode),
        moved.wf(),
        moved.following_i == c.following_i,
{
    let across: Sweep = sweep_sideways(map, c, steer_sideways(c.x_vel, input));
    let left: bool = is_held(input, BUTTON_LEFT);
    let right: bool = is_held(input, BUTTON_RIGHT);
    let facing: bool = if left && !right {
        false
    } else if right && !left {
        true
    } else {
        c.is_facing_right
    };
    let turned = Character {
        x_pos: across.pos,
        x_vel: across.vel,
        is_facing_right: facing,
        ..*c
    };
    let vel: i64 = steer_vertical(c, input, godmode);
    let down: Sweep = sweep_vertical(map, &turned, vel);
    let landed = Character {
        y_pos: down.pos,
        y_vel: down.vel,
        state: next_state(c.state, &down, vel),
        ..turned
    };
    Character { current_sprite_i: pick_frame(&landed), ..landed }
}

/// Moves one character by one frame and lets its puff rise, if it makes one.
pub fn update_character(
    map: &GameMap,
    c: &Character,
    input: u8,
    godmode: bool,
    clouds: &mut Vec<Cloud>,
) -> (moved: Character)
    requires
        map@.wf(),
        c.wf(),
        clouds_wf(old(clouds)@),
    ensures
        moved == moved_character(map@, *c, input, godmode),
        final(clouds)@ == clouds_after_move(old(clouds)@, MovingEntity::NPC(*c), input),
        clouds_wf(final(clouds)@),
        moved.wf(),
        moved.following_i == c.following_i,
{
    let warp: WarpOutcome = advance_warp(c, input);
    if warp.puff {
        Cloud::try_push_cloud(clouds, warp.character.x_pos, warp.character.y_pos, 0, -PUFF_RISE);
    }
    if warp.frozen {
        warp.character
    } else {
        walk(map, &warp.character, input, godmode)
    }
}

/// Moves one entity by one frame: the warp, steering and gravity, the move
/// sideways and then the move down or up against the tiles of `map`, and
/// the new state and frame. The result lies inside the world.
pub fn update_pos(
    map: &GameMap,
    entity: MovingEntity,
    input: u8,
    godmode: bool,
    clouds: &mut Vec<Cloud>,
) -> (moved: MovingEntity)
    requires
        map@.wf(),
        entity.wf(),
        clouds_wf(old(clouds)@),
    ensures
        moved == moved_entity(map@, entity, input, godmode),
        final(clouds)@ == clouds_after_move(old(clouds)@, entity, input),
        clouds_wf(final(clouds)@),
        moved.wf(),
        moved.character() matches Some(c) ==> c.in_bounds(),
{
    match entity {
        MovingEntity::OptionalPlayer(OptionallyEnabledPlayer::Enabled(p)) => {
            let c: Character = update_character(map, &p.character, input, godmode, clouds);
            MovingEntity::OptionalPlayer(
                OptionallyEnabledPlayer::Enabled(Player { character: c, ..p }),
            )
        },
        MovingEntity::OptionalPlayer(OptionallyEnabledPlayer::Disabled) => entity,
        MovingEntity::NPC(npc) => {
            MovingEntity::NPC(update_character(map, &npc, input, godmode, clouds))
        },
    }
}

/// The slot of the first player from `from` on whose box shares a pixel
/// with that of `npc`, or the number of slots where there is none.
pub open spec fn tagger_from(players: Seq<OptionallyEnabledPlayer>, npc: Character, from: int)
    -> int
    decreases players.len() - from,
{
    if from < 0 || from >= players.len() {
        players.len() as int
    } else if players[from] matches OptionallyEnabledPlayer::Enabled(p) && boxes_overlap(
        bound_of(p.character),
        bound_of(npc),
    ) {
        from
    } else {
        tagger_from(players, npc, from + 1)
    }
}

/// The card that finding an animal of this species gives.
pub open spec fn card_for(species: Species) -> AbilityCardTypes {
    match species {
        Species::Cat => AbilityCardTypes::Time,
        Species::Pig => AbilityCardTypes::Fly,
        Species::Lizard => AbilityCardTypes::Warp,
    }
}

/// A player's slot after the player found an animal of this species: one
/// more found, and its card on the stack if there was room.
pub open spec fn awarded(slot: OptionallyEnabledPlayer, species: Species)
    -> OptionallyEnabledPlayer {
    match slot {
        OptionallyEnabledPlayer::Enabled(p) => OptionallyEnabledPlayer::Enabled(
            Player {
                card_stack: p.card_stack.pushed(card_for(species)),
                kitties_found: p.kitties_found.wrapping_add(1),
                ..p
            },
        ),
        OptionallyEnabledPlayer::Disabled => slot,
    }
}

/// Whether `npc` is found in this frame: it follows nobody yet and a player touches it.
pub open spec fn is_found_now(players: Seq<OptionallyEnabledPlayer>, npc: Character) -> bool {
    npc.following_i.is_none() && tagger_from(players, npc, 0) < players.len()
}

/// The players after the first `n` animals were looked at, in their order.
pub open spec fn players_after_meeting(
    players: Seq<OptionallyEnabledPlayer>,
    npcs: Seq<Character>,
    n: int,
) -> Seq<OptionallyEnabledPlayer>
    decreases n,
{
    if n <= 0 {
        players
    } else {
        let earlier = players_after_meeting(players, npcs, n - 1);
        let npc = npcs[n - 1];
        if is_found_now(players, npc) {
            let by = tagger_from(players, npc, 0);
            earlier.update(by, awarded(earlier[by], npc.species))
        } else {
            earlier
        }
    }
}

/// An animal after the players were held against it: one that followed
/// nobody and is touched follows the first player that touches it.
pub open spec fn npc_after_meeting(players: Seq<OptionallyEnabledPlayer>, npc: Character)
    -> Character {
    if is_found_now(players, npc) {
        Character { following_i: Some(tagger_from(players, npc, 0) as u8), ..npc }
    } else {
        npc
    }
}

/// The state after players and animals were held against each other.
pub open spec fn after_entity_collisions(m: GameModel) -> GameModel {
    GameModel {
        players: players_after_meeting(m.players, m.npcs, m.npcs.len() as int),
        npcs: Seq::new(m.npcs.len(), |i: int| npc_after_meeting(m.players, m.npcs[i])),
        ..m
    }
}

/// The slot of the first player that touches an animal is a slot from
/// `from` on, or the number of slots.
pub proof fn lemma_tagger_range(players: Seq<OptionallyEnabledPlayer>, npc: Character, from: int)
    requires
        0 <= from <= players.len(),
    ensures
        from <= tagger_from(players, npc, from) <= players.len(),
    decreases players.len() - from,
{
    if from < players.len() {
        lemma_tagger_range(players, npc, from + 1);
    }
}

fn find_tagger(players: &[OptionallyEnabledPlayer; 4], npc: &Character) -> (by: usize)
    ensures
        by == tagger_from(players@, *npc, 0),
        by <= 4,
        by < 4 ==> players@[by as int] is Enabled,
{
    let npc_bound = get_bound_of_character(npc);
    let mut i: usize = 0;
    while i < 4
        invariant
            i <= 4,
            npc_bound == bound_of(*npc),
            tagger_from(players@, *npc, 0) == tagger_from(players@, *npc, i as int),
        decreases 4 - i,
    {
        match players[i] {
            OptionallyEnabledPlayer::Enabled(p) => {
                let p_bound = get_bound_of_character(&p.character);
                if overlaps(&p_bound, &npc_bound) {
                    return i;
                }
            },
            OptionallyEnabledPlayer::Disabled => {},
        }
        i = i + 1;
    }
    4
}

fn award(slot: OptionallyEnabledPlayer, species: Species) -> (r: OptionallyEnabledPlayer)
    requires
        slot.wf(),
    ensures
        r == awarded(slot, species),
        r.wf(),
{
    match slot {
        OptionallyEnabledPlayer::Enabled(p) => {
            let kind = match species {
                Species::Cat => AbilityCardTypes::Time,
                Species::Pig => AbilityCardTypes::Fly,
                Species::Lizard => AbilityCardTypes::Warp,
            };
            let mut stack = p.card_stack;
            let _ = stack.try_push_card(kind);
            OptionallyEnabledPlayer::Enabled(
                Player {
                    card_stack: stack,
                    kitties_found: p.kitties_found.wrapping_add(1),
                    ..p
                },
            )
        },
        OptionallyEnabledPlayer::Disabled => slot,
    }
}

/// Holds every player in use against every animal. An animal that follows
/// nobody and shares a pixel with a player's box follows that player from
/// now on, the first in slot order where several touch it, and the player
/// is given the animal's card. An animal that follows a player stays as it is.
pub fn check_entity_collisions(game_state: &mut GameState)
    requires
        old(game_state)@.wf(),
    ensures
        final(game_state)@ == after_entity_collisions(old(game_state)@),
        final(game_state)@.wf(),
        final(game_state)@.npcs.len() == old(game_state)@.npcs.len(),
        forall|i: int|
            0 <= i < old(game_state)@.npcs.len() && (#[trigger] old(
                game_state,
            )@.npcs[i]).following_i.is_some() ==> final(game_state)@.npcs[i] == old(
                game_state,
            )@.npcs[i],
{
    let ghost start = game_state@;
    let before: [OptionallyEnabledPlayer; 4] = game_state.players;
    let n: usize = game_state.npcs.len();
    let mut j: usize = 0;
    while j < n
        invariant
            j <= n,
            n == start.npcs.len(),
            start.wf(),
            before@ == start.players,
            game_state.npcs@.len() == n,
            game_state.players@ == players_after_meeting(start.players, start.npcs, j as int),
            forall|k: int| 0 <= k < 4 ==> (#[trigger] game_state.players@[k]).wf(),
            forall|k: int|
                0 <= k < 4 ==> ((#[trigger] game_state.players@[k]) is Enabled
                    <==> start.players[k] is Enabled),
            forall|k: int|
                0 <= k < j ==> #[trigger] game_state.npcs@[k] == npc_after_meeting(
                    start.players,
                    start.npcs[k],
                ),
            forall|k: int| j <= k < n ==> #[trigger] game_state.npcs@[k] == start.npcs[k],
            game_state@ == (GameModel {
                players: game_state.players@,
                npcs: game_state.npcs@,
                ..start
            }),
        decreases n - j,
    {
        let npc: Character = game_state.npcs[j];
        assert(npc == start.npcs[j as int]);
        if npc.following_i.is_none() {
            let by: usize = find_tagger(&before, &npc);
            if by < 4 {
                game_state.npcs[j] = Character { following_i: Some(by as u8), ..npc };
                let slot: OptionallyEnabledPlayer = game_state.players[by];
                game_state.players[by] = award(slot, npc.species);
            }
        }
        j = j + 1;
    }
    proof {
        let expected = after_entity_collisions(start);
        assert(game_state@.npcs =~= expected.npcs);
        assert forall|k: int| 0 <= k < game_state@.npcs.len() implies (
        #[trigger] game_state@.npcs[k]).wf() by {
            assert(start.npcs[k].wf());
            assert(game_state@.npcs[k] == npc_after_meeting(start.players, start.npcs[k]));
            lemma_tagger_range(start.players, start.npcs[k], 0);
        }
    }
}

} // verus!
