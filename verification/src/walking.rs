//! What holds of a character that walks to the right: it never loses
//! ground, and from the spawn point it gains some.

use vstd::prelude::*;
use crate::collision::{
    box_hits, facing_after, held, moved_character, snapped_pos, steer_x, steer_y, swept_x,
    swept_y, warp_step, MAX_WALK_SPEED, TILE_UNITS, WALK_ACCEL,
};
use crate::collision::{lemma_tagger_range, moved_entity, players_after_meeting};
use crate::entities::{
    Character, MovingEntity, OptionallyEnabledPlayer, WarpAbility, WarpState, SPEED_LIMIT, X_MAX,
    X_MIN, Y_MAX, Y_MIN,
};
use crate::frame::{
    cards_done, frame_state, mode_stepped, npcs_done, players_done, simulated, FrameInput,
};
use crate::collision::bound_of;
use crate::game_constants::START_DIFFICULTY_LEVEL;
use crate::game_map::{
    generated_map, lemma_generated_is_unique, lemma_generated_open_tiles, GameMapView,
};
use crate::game_state::{fresh_player, level_columns, GameModel, SPAWN_X, SPAWN_Y};
use crate::multiplatform_defs::BUTTON_1;
use crate::subpixel::px_of;
use crate::laws::{
    lemma_npcs_moved_keeps_players, lemma_npcs_thought_keeps_players,
    lemma_simulation_keeps_mode,
};
use crate::menus::{GameMode, NormalPlayModes};
use crate::modes::{confirmed, found_now, modal_stepped, played};
use crate::multiplatform_defs::{BUTTON_DOWN, BUTTON_LEFT, BUTTON_RIGHT};
use crate::play::{card_used_by, cards_settled, cards_used};
use crate::simulation::{
    begun, met, npc_inputs, npcs_thought, player_input, players_moved, slot_of,
};
use crate::subpixel::{clamp_spec, UNITS_PER_PX};

verus! {

/// Whether the box of a character covers no part of a solid tile.
pub open spec fn box_is_clear(map: GameMapView, c: Character) -> bool {
    !box_hits(
        map,
        c.x_pos as int,
        c.y_pos as int,
        c.sprite.first.width as int,
        c.sprite.first.height as int,
    )
}

/// Whether the buttons steer to the right and do not charge a warp.
pub open spec fn heads_right(input: u8) -> bool {
    held(input, BUTTON_RIGHT) && !held(input, BUTTON_LEFT) && !held(input, BUTTON_DOWN)
}

/// Whether a character is free to walk on: it is inside the world and not
/// too fast, its box is clear of solid tiles, it does not move to the left,
/// and it is not in the middle of a warp.
pub open spec fn walks_freely(map: GameMapView, c: Character) -> bool {
    &&& c.in_bounds()
    &&& 0 <= c.x_vel <= SPEED_LIMIT
    &&& -SPEED_LIMIT <= c.y_vel <= SPEED_LIMIT
    &&& c.sprite.first.width >= 1
    &&& c.sprite.first.height >= 1
    &&& box_is_clear(map, c)
    &&& !(c.warp_ability matches WarpAbility::CanWarp(WarpState::Warping(_)))
}

/// The first and the last tile that a box of `size` position units covers
/// along one axis, from `pos` on.
pub open spec fn first_tile(pos: int) -> int {
    pos / TILE_UNITS as int
}

pub open spec fn last_tile(pos: int, size: int) -> int {
    (pos + size - 1) / TILE_UNITS as int
}

/// A move of less than a tile along one axis reaches at most one new tile.
/// Where it reaches none, the box covers no tile at its goal that it did
/// not cover before. Where it reaches one, the place that it is set back to
/// lies between the start and the goal, and the box covers no new tile there.
proof fn lemma_set_back(pos: int, wanted: int, size: int, vel: int)
    requires
        0 <= pos,
        0 <= wanted,
        1 <= size,
        -TILE_UNITS < wanted - pos < TILE_UNITS,
        vel > 0 ==> wanted >= pos,
        vel < 0 ==> wanted <= pos,
        vel == 0 ==> wanted == pos,
    ensures
        ({
            let s = snapped_pos(wanted, size, vel, pos);
            let reaches_new = first_tile(wanted) < first_tile(pos) || last_tile(wanted, size)
                > last_tile(pos, size);
            &&& !reaches_new ==> first_tile(pos) <= first_tile(wanted) && last_tile(wanted, size)
                <= last_tile(pos, size)
            &&& reaches_new ==> first_tile(pos) <= first_tile(s) && last_tile(s, size) <= last_tile(
                pos,
                size,
            )
            &&& reaches_new && vel > 0 ==> pos <= s <= wanted
            &&& reaches_new && vel < 0 ==> wanted <= s <= pos
        }),
{
}

/// A sideways move to the right from a clear place ends at a clear place,
/// not left of where it began, and does not turn the speed to the left.
/// Where the box reaches no new column of tiles, the move arrives.
pub proof fn lemma_sweep_right(map: GameMapView, c: Character, vel: i64)
    requires
        walks_freely(map, c),
        0 < vel < TILE_UNITS,
    ensures
        ({
            let across = swept_x(map, c, vel);
            let wanted = clamp_spec(c.x_pos + vel, X_MIN as int, X_MAX as int);
            &&& c.x_pos <= across.pos <= X_MAX
            &&& 0 <= across.vel <= vel
            &&& !box_hits(
                map,
                across.pos as int,
                c.y_pos as int,
                c.sprite.first.width as int,
                c.sprite.first.height as int,
            )
            &&& last_tile(wanted, c.sprite.first.width * UNITS_PER_PX) == last_tile(
                c.x_pos as int,
                c.sprite.first.width * UNITS_PER_PX,
            ) ==> across.pos == wanted && across.vel == vel
        }),
{
    let size = c.sprite.first.width * UNITS_PER_PX;
    let wanted = clamp_spec(c.x_pos + vel, X_MIN as int, X_MAX as int);
    lemma_set_back(c.x_pos as int, wanted, size, vel as int);
    let s = snapped_pos(wanted, size, vel as int, c.x_pos as int);
    let w = c.sprite.first.width as int;
    let h = c.sprite.first.height as int;
    let y = c.y_pos as int;
    let reaches_new = first_tile(wanted) < first_tile(c.x_pos as int) || last_tile(wanted, size)
        > last_tile(c.x_pos as int, size);
    if !reaches_new {
        assert(!box_hits(map, wanted, y, w, h));
    } else {
        assert(!box_hits(map, s, y, w, h));
    }
}

/// A move down or up from a clear place ends at a clear place in the world.
pub proof fn lemma_sweep_vertical(map: GameMapView, c: Character, vel: i64)
    requires
        walks_freely(map, c),
        -TILE_UNITS < vel < TILE_UNITS,
    ensures
        ({
            let down = swept_y(map, c, vel);
            &&& Y_MIN <= down.pos <= Y_MAX
            &&& down.vel == vel || down.vel == 0
            &&& !box_hits(
                map,
                c.x_pos as int,
                down.pos as int,
                c.sprite.first.width as int,
                c.sprite.first.height as int,
            )
        }),
{
    let size = c.sprite.first.height * UNITS_PER_PX;
    let wanted = clamp_spec(c.y_pos + vel, Y_MIN as int, Y_MAX as int);
    lemma_set_back(c.y_pos as int, wanted, size, vel as int);
    let s = snapped_pos(wanted, size, vel as int, c.y_pos as int);
    let w = c.sprite.first.width as int;
    let h = c.sprite.first.height as int;
    let x = c.x_pos as int;
    let reaches_new = first_tile(wanted) < first_tile(c.y_pos as int) || last_tile(wanted, size)
        > last_tile(c.y_pos as int, size);
    if !reaches_new {
        assert(!box_hits(map, x, wanted, w, h));
    } else {
        assert(!box_hits(map, x, s, w, h));
    }
}

/// A character that is free to walk and is steered to the right is free to
/// walk on after a frame, and not left of where it was. Its sideways speed
/// grows by `WALK_ACCEL` up to the walking speed, and where its box reaches
/// no new column of tiles, it covers that distance.
pub proof fn lemma_walking_right(map: GameMapView, c: Character, input: u8, godmode: bool)
    requires
        walks_freely(map, c),
        heads_right(input),
    ensures
        ({
            let d = moved_character(map, c, input, godmode);
            let steer = clamp_spec(
                c.x_vel + WALK_ACCEL,
                -MAX_WALK_SPEED as int,
                MAX_WALK_SPEED as int,
            );
            let wanted = clamp_spec(c.x_pos + steer, X_MIN as int, X_MAX as int);
            let size = c.sprite.first.width * UNITS_PER_PX;
            &&& walks_freely(map, d)
            &&& d.x_pos >= c.x_pos
            &&& d.sprite == c.sprite
            &&& last_tile(wanted, size) == last_tile(c.x_pos as int, size) ==> d.x_pos == wanted
                && d.x_vel == steer
        }),
{
    let warp = warp_step(c, input);
    let c1 = warp.character;
    assert(!warp.frozen);
    assert(walks_freely(map, c1));
    let steer = steer_x(c1.x_vel, input);
    assert(steer == clamp_spec(c.x_vel + WALK_ACCEL, -MAX_WALK_SPEED as int, MAX_WALK_SPEED as int));
    lemma_sweep_right(map, c1, steer);
    let across = swept_x(map, c1, steer);
    let turned = Character {
        x_pos: across.pos,
        x_vel: across.vel,
        is_facing_right: facing_after(c1.is_facing_right, input),
        ..c1
    };
    assert(walks_freely(map, turned));
    let vel = steer_y(c1, input, godmode);
    lemma_sweep_vertical(map, turned, vel);
}

/// Whether a frame sets up a new level: a box that says that the level is
/// won takes its confirmation.
pub open spec fn sets_up_level(m: GameModel, input: FrameInput) -> bool {
    m.game_mode.modal() matches Some(open) && open.menu_type is WonLevel && open.advanced(
        input.waves.modal_sway,
    ).ready_to_show_text() && confirmed(open.advanced(input.waves.modal_sway), input.pressed)
}

/// Whether the first player of a state is free to walk.
pub open spec fn first_player_walks_freely(m: GameModel) -> bool {
    &&& m.players.len() == 4
    &&& m.players[0] matches OptionallyEnabledPlayer::Enabled(p) && walks_freely(
        m.map,
        p.character,
    )
}

/// The character of the first player.
pub open spec fn first_player(m: GameModel) -> Character {
    (m.players[0]->0).character
}

/// Whether a slot holds a player whose body is that of the player in
/// another: the same place, speed and sprite, and no warp under way that
/// the other was not in.
pub open spec fn same_body(a: OptionallyEnabledPlayer, b: OptionallyEnabledPlayer) -> bool {
    a matches OptionallyEnabledPlayer::Enabled(p) ==> (b matches OptionallyEnabledPlayer::Enabled(
        q,
    ) && q.character.x_pos == p.character.x_pos && q.character.y_pos == p.character.y_pos
        && q.character.x_vel == p.character.x_vel && q.character.y_vel == p.character.y_vel
        && q.character.sprite == p.character.sprite && ((q.character.warp_ability matches WarpAbility::CanWarp(
        WarpState::Warping(_),
    )) ==> (p.character.warp_ability matches WarpAbility::CanWarp(WarpState::Warping(_)))))
}

proof fn lemma_meeting_keeps_character(
    players: Seq<OptionallyEnabledPlayer>,
    npcs: Seq<Character>,
    n: int,
)
    requires
        0 < players.len(),
        0 <= n <= npcs.len(),
        players[0] is Enabled,
    ensures
        players_after_meeting(players, npcs, n).len() == players.len(),
        players_after_meeting(players, npcs, n)[0] matches OptionallyEnabledPlayer::Enabled(q)
            && q.character == (players[0]->0).character,
    decreases n,
{
    if n > 0 {
        lemma_meeting_keeps_character(players, npcs, n - 1);
        lemma_tagger_range(players, npcs[n - 1], 0);
    }
}

/// The start of a frame and the meeting with the animals leave the first
/// player where it is.
proof fn lemma_start_keeps_first_player(m: GameModel, input: FrameInput)
    requires
        m.players.len() == 4,
        m.players[0] is Enabled,
    ensures
        ({
            let start = met(begun(m, input.sw, input.sh));
            &&& start.players.len() == 4
            &&& start.map == m.map
            &&& start.godmode == m.godmode
            &&& start.game_mode == m.game_mode
            &&& start.players[0] matches OptionallyEnabledPlayer::Enabled(q) && q.character
                == first_player(m)
        }),
{
    let started = begun(m, input.sw, input.sh);
    if !started.game_mode.modal().is_some() {
        lemma_meeting_keeps_character(started.players, started.npcs, started.npcs.len() as int);
    }
}

/// The players' moves move the first player as its gamepad says, while
/// the game is in play.
proof fn lemma_players_done_moves_first_player(m: GameModel, input: FrameInput)
    requires
        m.players.len() == 4,
        m.game_mode is NormalPlay,
        m.players[0] is Enabled,
    ensures
        ({
            let done = players_done(m, input);
            &&& done.players.len() == 4
            &&& done.map == m.map
            &&& done.players[0] matches OptionallyEnabledPlayer::Enabled(q) && q.character
                == moved_character(m.map, first_player(m), input.held[0], m.godmode)
        }),
{
    lemma_start_keeps_first_player(m, input);
    let start = met(begun(m, input.sw, input.sh));
    lemma_first_player_moves_first(start, input.held, 4);
    assert(player_input(start, input.held, 0) == input.held[0]);
}

proof fn lemma_first_player_moves_first(m: GameModel, held: Seq<u8>, upto: int)
    requires
        m.players.len() == 4,
        1 <= upto <= 4,
    ensures
        players_moved(m, held, upto).players.len() == 4,
        players_moved(m, held, upto).map == m.map,
        players_moved(m, held, upto).godmode == m.godmode,
        players_moved(m, held, upto).players[0] == slot_of(
            moved_entity(
                m.map,
                MovingEntity::OptionalPlayer(m.players[0]),
                player_input(m, held, 0),
                m.godmode,
            ),
            m.players[0],
        ),
    decreases upto,
{
    reveal_with_fuel(players_moved, 2);
    if upto > 1 {
        lemma_first_player_moves_first(m, held, upto - 1);
    }
}

proof fn lemma_cards_used_keeps_body(m: GameModel, pressed: Seq<u8>, upto: int)
    requires
        m.players.len() == 4,
        0 <= upto <= 4,
    ensures
        cards_used(m, pressed, upto).players.len() == 4,
        cards_used(m, pressed, upto).map == m.map,
        cards_used(m, pressed, upto).game_mode == m.game_mode,
        same_body(m.players[0], cards_used(m, pressed, upto).players[0]),
    decreases upto,
{
    if upto > 0 {
        lemma_cards_used_keeps_body(m, pressed, upto - 1);
        let prev = cards_used(m, pressed, upto - 1);
        let after = card_used_by(prev, upto - 1);
        assert(after.players.len() == 4);
        assert(same_body(prev.players[0], after.players[0]));
    }
}

/// The part of a frame that is the same in every mode moves the first
/// player as its gamepad says, while the game is in play, and leaves the
/// map as it is.
pub proof fn lemma_simulation_moves_first_player(m: GameModel, input: FrameInput)
    requires
        m.players.len() == 4,
        m.game_mode is NormalPlay,
        m.players[0] is Enabled,
    ensures
        simulated(m, input).players.len() == 4,
        simulated(m, input).map == m.map,
        simulated(m, input).game_mode == m.game_mode,
        simulated(m, input).players[0] matches OptionallyEnabledPlayer::Enabled(q)
            && q.character == moved_character(
            m.map,
            first_player(m),
            input.held[0],
            m.godmode,
        ),
{
    lemma_players_done_moves_first_player(m, input);
    let before = players_done(m, input);
    let n = before.npcs.len() as int;
    lemma_npcs_thought_keeps_players(before, n);
    let thought = npcs_thought(before, n);
    lemma_npcs_moved_keeps_players(thought, npc_inputs(before, n), n);
    assert(npcs_done(m, input).players == before.players);
    assert(npcs_done(m, input).map == before.map);
    lemma_simulation_keeps_mode(m, input);
}

proof fn lemma_cards_done_keeps_body(m: GameModel, input: FrameInput)
    requires
        m.players.len() == 4,
    ensures
        cards_done(m, input).players.len() == 4,
        cards_done(m, input).map == m.map,
        cards_done(m, input).game_mode == m.game_mode,
        same_body(m.players[0], cards_done(m, input).players[0]),
{
    let aged = GameModel { popups: m.popups.aged(), ..m };
    lemma_cards_used_keeps_body(aged, input.pressed, 4);
    let used = if m.game_mode.modal().is_some() {
        aged
    } else {
        cards_used(aged, input.pressed, 4)
    };
    assert(same_body(m.players[0], used.players[0]));
    let settled = cards_settled(used, input.sw);
    assert(same_body(used.players[0], settled.players[0]));
}

/// The part of a frame of play that belongs to the mode leaves the first
/// player's body and the map as they are, unless it sets up a new level.
proof fn lemma_mode_step_keeps_body(m: GameModel, input: FrameInput)
    requires
        m.players.len() == 4,
        m.game_mode is NormalPlay,
        !sets_up_level(m, input),
    ensures
        mode_stepped(m, input).players.len() == 4,
        mode_stepped(m, input).map == m.map,
        same_body(m.players[0], mode_stepped(m, input).players[0]),
{
    lemma_cards_done_keeps_body(m, input);
    let c = cards_done(m, input);
    match m.game_mode {
        GameMode::NormalPlay(NormalPlayModes::MainGameplay) => {
            let a = played(c, found_now(m), input.sw, input.sh);
            assert(a.players == c.players);
            assert(a.map == c.map);
        },
        GameMode::NormalPlay(NormalPlayModes::HoverModal(_)) => {
            let a = modal_stepped(
                c,
                input.pressed,
                input.waves.modal_sway,
                input.sw,
                input.sh,
            );
            assert(a.players == c.players);
            assert(a.map == c.map);
        },
        _ => {},
    }
}

/// In a frame of play that does not set up a new level, a first player
/// that is free to walk and is steered to the right is free to walk on
/// afterwards, on the same map, and not left of where it was. Its sideways
/// speed grows by `WALK_ACCEL` up to the walking speed, and where its box
/// reaches no new column of tiles, it covers that distance.
pub proof fn lemma_frame_walking_right(m: GameModel, input: FrameInput)
    requires
        first_player_walks_freely(m),
        m.game_mode is NormalPlay,
        heads_right(input.held[0]),
        !sets_up_level(m, input),
    ensures
        ({
            let after = frame_state(m, input);
            let p = first_player(m);
            let q = first_player(after);
            let steer = clamp_spec(
                p.x_vel + WALK_ACCEL,
                -MAX_WALK_SPEED as int,
                MAX_WALK_SPEED as int,
            );
            let wanted = clamp_spec(p.x_pos + steer, X_MIN as int, X_MAX as int);
            let size = p.sprite.first.width * UNITS_PER_PX;
            &&& first_player_walks_freely(after)
            &&& after.map == m.map
            &&& q.x_pos >= p.x_pos
            &&& q.sprite == p.sprite
            &&& last_tile(wanted, size) == last_tile(p.x_pos as int, size) ==> q.x_pos == wanted
                && q.x_vel == steer
        }),
{
    lemma_simulation_moves_first_player(m, input);
    let s = simulated(m, input);
    lemma_walking_right(m.map, first_player(m), input.held[0], m.godmode);
    assert(sets_up_level(s, input) == sets_up_level(m, input));
    lemma_mode_step_keeps_body(s, input);
}

/// The state after the frames of `inputs`, one after the other.
pub open spec fn after_frames(m: GameModel, inputs: Seq<FrameInput>) -> GameModel
    decreases inputs.len(),
{
    if inputs.len() == 0 {
        m
    } else {
        frame_state(after_frames(m, inputs.drop_last()), inputs.last())
    }
}

/// The state after the first `k` frames of `inputs`.
pub open spec fn state_at(m: GameModel, inputs: Seq<FrameInput>, k: int) -> GameModel {
    after_frames(m, inputs.subrange(0, k))
}

/// Whether the frames of `inputs` are frames of play on one level: each
/// begins in play, and none sets up a new level.
pub open spec fn plays_one_level(m: GameModel, inputs: Seq<FrameInput>) -> bool {
    forall|k: int|
        0 <= k < inputs.len() ==> (#[trigger] state_at(m, inputs, k)).game_mode is NormalPlay
            && !sets_up_level(state_at(m, inputs, k), inputs[k])
}

/// Whether the first gamepad steers to the right in every frame of `inputs`.
pub open spec fn holds_right(inputs: Seq<FrameInput>) -> bool {
    forall|k: int| 0 <= k < inputs.len() ==> heads_right((#[trigger] inputs[k]).held[0])
}

proof fn lemma_state_step(m: GameModel, inputs: Seq<FrameInput>, k: int)
    requires
        0 <= k < inputs.len(),
    ensures
        state_at(m, inputs, k + 1) == frame_state(state_at(m, inputs, k), inputs[k]),
        state_at(m, inputs, 0) == m,
        state_at(m, inputs, inputs.len() as int) == after_frames(m, inputs),
{
    let longer = inputs.subrange(0, k + 1);
    assert(longer.drop_last() =~= inputs.subrange(0, k));
    assert(longer.last() == inputs[k]);
    assert(inputs.subrange(0, inputs.len() as int) =~= inputs);
}

/// While play goes on on one level and the first gamepad steers to the
/// right, a first player that is free to walk stays so, on the same map.
pub proof fn lemma_states_walk(m: GameModel, inputs: Seq<FrameInput>, k: int)
    requires
        first_player_walks_freely(m),
        plays_one_level(m, inputs),
        holds_right(inputs),
        0 <= k <= inputs.len(),
    ensures
        first_player_walks_freely(state_at(m, inputs, k)),
        state_at(m, inputs, k).map == m.map,
        first_player(state_at(m, inputs, k)).sprite == first_player(m).sprite,
    decreases k,
{
    if k > 0 {
        lemma_states_walk(m, inputs, k - 1);
        lemma_state_step(m, inputs, k - 1);
        let s = state_at(m, inputs, k - 1);
        assert(s.game_mode is NormalPlay && !sets_up_level(s, inputs[k - 1]));
        assert(heads_right(inputs[k - 1].held[0]));
        lemma_frame_walking_right(s, inputs[k - 1]);
    } else {
        assert(inputs.subrange(0, 0).len() == 0);
    }
}

/// While play goes on on one level and the first gamepad steers to the
/// right, a first player that is free to walk never loses ground.
pub proof fn lemma_no_ground_lost(m: GameModel, inputs: Seq<FrameInput>, j: int, k: int)
    requires
        first_player_walks_freely(m),
        plays_one_level(m, inputs),
        holds_right(inputs),
        0 <= j <= k <= inputs.len(),
    ensures
        first_player(state_at(m, inputs, k)).x_pos >= first_player(state_at(m, inputs, j)).x_pos,
    decreases k - j,
{
    if k > j {
        lemma_no_ground_lost(m, inputs, j, k - 1);
        lemma_states_walk(m, inputs, k - 1);
        lemma_state_step(m, inputs, k - 1);
        let s = state_at(m, inputs, k - 1);
        assert(s.game_mode is NormalPlay && !sets_up_level(s, inputs[k - 1]));
        assert(heads_right(inputs[k - 1].held[0]));
        lemma_frame_walking_right(s, inputs[k - 1]);
    }
}

/// The buttons for right and jump steer to the right.
pub proof fn lemma_right_and_jump_heads_right()
    ensures
        heads_right(BUTTON_RIGHT | BUTTON_1),
{
    assert((32u8 | 1u8) & 32u8 != 0) by (bit_vector);
    assert((32u8 | 1u8) & 16u8 == 0) by (bit_vector);
    assert((32u8 | 1u8) & 128u8 == 0) by (bit_vector);
}

/// The first player of a first level that was just set up stands at the
/// spawn point, at rest, and is free to walk.
pub proof fn lemma_fresh_player_walks_freely(prior: GameModel)
    requires
        prior.players.len() == 4,
        prior.difficulty_level == START_DIFFICULTY_LEVEL,
    ensures
        first_player_walks_freely(prior.regenerated()),
        first_player(prior.regenerated()) == fresh_player().character,
{
    let m = prior.regenerated();
    let map = m.map;
    assert(level_columns(prior.difficulty_level) == 2);
    assert(map == generated_map(2, prior.rng));
    lemma_generated_is_unique(map, 2, prior.rng);
    let c = fresh_player().character;
    assert(m.players[0] == OptionallyEnabledPlayer::Enabled(fresh_player()));
    assert forall|tx: int, ty: int|
        SPAWN_X as int / TILE_UNITS as int <= tx <= (SPAWN_X + 8 * UNITS_PER_PX - 1)
            / TILE_UNITS as int && SPAWN_Y as int / TILE_UNITS as int <= ty <= (SPAWN_Y + 8
            * UNITS_PER_PX - 1) / TILE_UNITS as int implies !#[trigger] map.solid_at(tx, ty) by {
        assert(2 <= tx <= 3 && 61 <= ty <= 62);
        lemma_generated_open_tiles(map, 2, prior.rng, tx, ty);
    }
}

/// While the box of the first player reaches no new column of tiles, a
/// frame carries it as far as its speed, which grows by `WALK_ACCEL`.
proof fn lemma_clear_run(m: GameModel, inputs: Seq<FrameInput>, k: int, x: int, v: int)
    requires
        first_player_walks_freely(m),
        plays_one_level(m, inputs),
        holds_right(inputs),
        0 <= k < inputs.len(),
        first_player(state_at(m, inputs, k)).x_pos == x,
        first_player(state_at(m, inputs, k)).x_vel == v,
        first_player(m).sprite.first.width == 8,
        10000 <= x,
        0 <= v <= 1600,
        x + v + 400 + 7999 < 20000,
    ensures
        first_player(state_at(m, inputs, k + 1)).x_pos == x + v + 400,
        first_player(state_at(m, inputs, k + 1)).x_vel == v + 400,
{
    lemma_states_walk(m, inputs, k);
    lemma_state_step(m, inputs, k);
    let s = state_at(m, inputs, k);
    assert(s.game_mode is NormalPlay && !sets_up_level(s, inputs[k]));
    assert(heads_right(inputs[k].held[0]));
    lemma_frame_walking_right(s, inputs[k]);
    let p = first_player(s);
    let size = p.sprite.first.width * UNITS_PER_PX;
    assert(size == 8000);
    assert(last_tile(x + v + 400, size) == 3 && last_tile(x, size) == 3);
}

/// The first two frames from the spawn point carry the first player from
/// 10000 to 11200 position units.
proof fn lemma_first_steps(m: GameModel, inputs: Seq<FrameInput>)
    requires
        first_player_walks_freely(m),
        plays_one_level(m, inputs),
        holds_right(inputs),
        2 <= inputs.len(),
        first_player(m).x_pos == 10000,
        first_player(m).x_vel == 0,
        first_player(m).sprite.first.width == 8,
    ensures
        first_player(state_at(m, inputs, 2)).x_pos == 11200,
{
    lemma_state_step(m, inputs, 0);
    lemma_clear_run(m, inputs, 0, 10000, 0);
    lemma_clear_run(m, inputs, 1, 10400, 400);
}

proof fn lemma_pixels_gained(x: i64)
    requires
        11200 <= x <= 1280000,
    ensures
        px_of(x as int) >= 11,
        px_of(10000) == 10,
{
    assert(px_of(x as int) >= 11 && px_of(10000) == 10) by (nonlinear_arith)
        requires
            11200 <= x <= 1280000,
    ;
}

/// One hundred and twenty frames of right and jump gain ground. From a
/// first level that was just set up, while play goes on on that level and
/// the first gamepad holds right and jump, the box of the first player
/// ends to the right of where it began, inside the world.
pub proof fn lemma_right_and_jump_gains_ground(prior: GameModel, inputs: Seq<FrameInput>)
    requires
        prior.players.len() == 4,
        prior.difficulty_level == START_DIFFICULTY_LEVEL,
        inputs.len() == 120,
        forall|k: int|
            0 <= k < inputs.len() ==> (#[trigger] inputs[k]).held[0] == BUTTON_RIGHT | BUTTON_1,
        plays_one_level(prior.regenerated(), inputs),
    ensures
        bound_of(first_player(after_frames(prior.regenerated(), inputs))).x > bound_of(
            first_player(prior.regenerated()),
        ).x,
        first_player(after_frames(prior.regenerated(), inputs)).in_bounds(),
{
    let m = prior.regenerated();
    lemma_right_and_jump_heads_right();
    lemma_fresh_player_walks_freely(prior);
    assert(holds_right(inputs));
    lemma_first_steps(m, inputs);
    lemma_no_ground_lost(m, inputs, 2, 120);
    lemma_states_walk(m, inputs, 120);
    lemma_state_step(m, inputs, 119);
    let last = first_player(after_frames(m, inputs));
    lemma_pixels_gained(last.x_pos);
}

} // verus!
