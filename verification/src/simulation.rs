//! The part of a frame that is the same in every mode: the camera, the
//! players, the animals and what they decide, and the clouds.

use vstd::prelude::*;
use crate::camera::Camera;
use crate::cloud::Cloud;
use crate::collision::{
    after_entity_collisions, bound_of, check_entity_collisions, clouds_after_move,
    get_bound_of_character, moved_entity, update_pos,
};
use crate::entities::{Character, MovingEntity, OptionallyEnabledPlayer};
use crate::game_state::{GameModel, GameState};
use crate::menus::{GameMode, NormalPlayModes};
use crate::multiplatform_defs::{
    command_views, emit, emit_blit, BlitSubFlags, DrawCommand, DrawCommandView, Spritesheet,
    BUTTON_1, BUTTON_LEFT, BUTTON_RIGHT, MAX_SCREEN_DIM,
};
use crate::render::{character_commands, drawcharacter};
use crate::spritesheet::{palette, palette_spec, preset_sprite, PresetSprites, Sprite, SpriteFrame};
use crate::rng::{lemma_input_adds, GameRng};
use crate::subpixel::{px_of, to_px, UNITS_PER_HALF_PX, UNITS_PER_PX};

verus! {

/// An animal that is farther than this many pixels from the player it
/// follows, along either axis, is set down at the player.
pub const TELEPORT_AXIS_MIN_DIST: u32 = 160;

/// `i32::abs_diff` is the absolute difference of two numbers as a `u32`.
pub assume_specification[ i32::abs_diff ](a: i32, b: i32) -> (d: u32)
    ensures
        d == (if a >= b {
            a - b
        } else {
            b - a
        }),
;

/// The view follows the first player, if that slot is in use, and moves a
/// part of the way to where it is aimed.
pub open spec fn camera_followed(m: GameModel, sw: u32, sh: u32) -> Camera {
    (match m.players[0] {
        OptionallyEnabledPlayer::Enabled(p) => m.camera.aimed_at(
            p.character.x_pos,
            p.character.y_pos,
            (sw * UNITS_PER_HALF_PX) as i64,
            (sh * UNITS_PER_HALF_PX) as i64,
        ),
        OptionallyEnabledPlayer::Disabled => m.camera,
    }).slewed()
}

/// Whether the clock stands still in this frame: it runs during play and
/// stands while a box is open.
pub open spec fn paused_after(m: GameModel) -> bool {
    match m.game_mode {
        GameMode::NormalPlay(NormalPlayModes::MainGameplay) => false,
        GameMode::NormalPlay(NormalPlayModes::HoverModal(_)) => true,
        _ => m.countdown_paused,
    }
}

/// The state after the start of a frame: the frame counter has gone on,
/// the camera has followed, and the clock runs or stands as the mode says.
pub open spec fn begun(m: GameModel, sw: u32, sh: u32) -> GameModel {
    GameModel {
        song_timer: m.song_timer.wrapping_add(1),
        camera: camera_followed(m, sw, sh),
        countdown_paused: paused_after(m),
        ..m
    }
}

/// The state after players and animals were held against each other, which
/// does not happen while a box is open.
pub open spec fn met(m: GameModel) -> GameModel {
    if m.game_mode.modal().is_some() {
        m
    } else {
        after_entity_collisions(m)
    }
}

/// The buttons that steer the cat on the title screen: a pattern that
/// follows from the frame counter.
pub open spec fn title_autopilot(song_timer: u32) -> u8 {
    let pattern = ((song_timer / 10).wrapping_mul(31) % 29) as u8 & !(BUTTON_LEFT | BUTTON_RIGHT);
    if pattern <= 2 {
        pattern | BUTTON_LEFT
    } else if pattern <= 6 {
        pattern | BUTTON_RIGHT
    } else {
        pattern
    }
}

/// The buttons that steer the player in slot `i`: those that are held on
/// its gamepad, but for the first slot on the title screen.
pub open spec fn player_input(m: GameModel, held: Seq<u8>, i: int) -> u8 {
    if i == 0 && m.game_mode is StartScreen {
        title_autopilot(m.song_timer)
    } else {
        held[i]
    }
}

/// The slot of a player entity.
pub open spec fn slot_of(entity: MovingEntity, or: OptionallyEnabledPlayer)
    -> OptionallyEnabledPlayer {
    match entity {
        MovingEntity::OptionalPlayer(slot) => slot,
        MovingEntity::NPC(_) => or,
    }
}

/// The character of an animal entity.
pub open spec fn npc_of(entity: MovingEntity, or: Character) -> Character {
    match entity {
        MovingEntity::NPC(c) => c,
        MovingEntity::OptionalPlayer(_) => or,
    }
}

/// The state after the first `upto` player slots were moved, in slot order.
pub open spec fn players_moved(m: GameModel, held: Seq<u8>, upto: int) -> GameModel
    decreases upto,
{
    if upto <= 0 {
        m
    } else {
        let prev = players_moved(m, held, upto - 1);
        let i = upto - 1;
        let entity = MovingEntity::OptionalPlayer(prev.players[i]);
        let input = player_input(m, held, i);
        GameModel {
            players: prev.players.update(
                i,
                slot_of(moved_entity(prev.map, entity, input, prev.godmode), prev.players[i]),
            ),
            clouds: clouds_after_move(prev.clouds, entity, input),
            ..prev
        }
    }
}

/// What drawing the first `upto` player slots adds to the frame: each is
/// drawn right after it moved.
pub open spec fn players_drawn(m: GameModel, held: Seq<u8>, upto: int) -> Seq<DrawCommandView>
    decreases upto,
{
    if upto <= 0 {
        Seq::empty()
    } else {
        players_drawn(m, held, upto - 1) + character_commands(
            m.camera,
            MovingEntity::OptionalPlayer(players_moved(m, held, upto).players[upto - 1]),
        )
    }
}

/// What an animal decided: itself, set down at its player if it was left
/// behind, the buttons it presses, and how many numbers it drew.
pub struct Thought {
    pub npc: Character,
    pub input: u8,
    pub draws: nat,
}

/// The buttons of an animal that wanders: mostly none, sometimes left or
/// right, seldom a jump.
pub open spec fn wander(roll: u8) -> u8 {
    if roll < 20 {
        BUTTON_LEFT
    } else if roll < 40 {
        BUTTON_RIGHT
    } else if roll < 42 {
        BUTTON_1
    } else {
        0
    }
}

/// The buttons of an animal that goes after `target`. One that is above
/// lets itself fall and one that is below jumps, and both head for the
/// target's very column; one at the target's height walks until the two
/// boxes touch.
pub open spec fn chase(npc: Character, target: Character) -> u8 {
    let npc_box = bound_of(npc);
    let target_box = bound_of(target);
    let above = npc.y_pos + npc_box.height * UNITS_PER_PX < target.y_pos;
    let below = npc.y_pos > target.y_pos + target_box.height * UNITS_PER_PX;
    let jump: u8 = if !above && below {
        BUTTON_1
    } else {
        0
    };
    let walk: u8 = if above || below {
        if npc.x_pos < target.x_pos {
            BUTTON_RIGHT
        } else if npc.x_pos > target.x_pos {
            BUTTON_LEFT
        } else {
            0
        }
    } else {
        if npc.x_pos + npc_box.width * UNITS_PER_PX < target.x_pos {
            BUTTON_RIGHT
        } else if npc.x_pos > target.x_pos + target_box.width * UNITS_PER_PX {
            BUTTON_LEFT
        } else {
            0
        }
    };
    jump | walk
}

/// Whether an animal is so far from `target` that it is set down there.
pub open spec fn left_behind(npc: Character, target: Character) -> bool {
    let npc_box = bound_of(npc);
    let target_box = bound_of(target);
    let dx = if target_box.x >= npc_box.x {
        target_box.x - npc_box.x
    } else {
        npc_box.x - target_box.x
    };
    let dy = if target_box.y >= npc_box.y {
        target_box.y - npc_box.y
    } else {
        npc_box.y - target_box.y
    };
    dx > TELEPORT_AXIS_MIN_DIST || dy > TELEPORT_AXIS_MIN_DIST
}

/// An animal set down at the corner of the box of `target`, at rest.
pub open spec fn set_down_at(npc: Character, target: Character) -> Character {
    Character {
        x_pos: (bound_of(target).x * UNITS_PER_PX) as i64,
        y_pos: (bound_of(target).y * UNITS_PER_PX) as i64,
        x_vel: 0,
        y_vel: 0,
        ..npc
    }
}

/// What an animal decides in a frame. Every animal draws a number. One
/// that follows nobody wanders by it. One that follows a player is set
/// down at the player if it was left behind; otherwise it draws a second
/// number and, nine times in ten, goes after the player, and wanders else.
/// One whose player's slot is no longer in use stands still.
pub open spec fn thought(players: Seq<OptionallyEnabledPlayer>, npc: Character, rng: crate::rng::GameRng)
    -> Thought {
    let roll = (rng.input_value(0) % 255) as u8;
    match npc.following_i {
        None => Thought { npc, input: wander(roll), draws: 1 },
        Some(slot) => match players[slot as int] {
            OptionallyEnabledPlayer::Enabled(p) => {
                if left_behind(npc, p.character) {
                    Thought { npc: set_down_at(npc, p.character), input: 0, draws: 1 }
                } else if rng.input_value(1) % 10 > 0 {
                    Thought { npc, input: chase(npc, p.character), draws: 2 }
                } else {
                    Thought { npc, input: wander(roll), draws: 2 }
                }
            },
            OptionallyEnabledPlayer::Disabled => Thought { npc, input: 0, draws: 1 },
        },
    }
}

/// The state after the first `upto` animals decided, in their order.
pub open spec fn npcs_thought(m: GameModel, upto: int) -> GameModel
    decreases upto,
{
    if upto <= 0 {
        m
    } else {
        let prev = npcs_thought(m, upto - 1);
        let t = thought(prev.players, prev.npcs[upto - 1], prev.rng);
        GameModel {
            npcs: prev.npcs.update(upto - 1, t.npc),
            rng: prev.rng.after_input(t.draws),
            ..prev
        }
    }
}

/// The buttons that the first `upto` animals press.
pub open spec fn npc_inputs(m: GameModel, upto: int) -> Seq<u8>
    decreases upto,
{
    if upto <= 0 {
        Seq::empty()
    } else {
        let prev = npcs_thought(m, upto - 1);
        npc_inputs(m, upto - 1).push(thought(prev.players, prev.npcs[upto - 1], prev.rng).input)
    }
}

/// The state after the first `upto` animals were moved, in their order.
pub open spec fn npcs_moved(m: GameModel, inputs: Seq<u8>, upto: int) -> GameModel
    decreases upto,
{
    if upto <= 0 {
        m
    } else {
        let prev = npcs_moved(m, inputs, upto - 1);
        let i = upto - 1;
        let entity = MovingEntity::NPC(prev.npcs[i]);
        GameModel {
            npcs: prev.npcs.update(
                i,
                npc_of(moved_entity(prev.map, entity, inputs[i], prev.godmode), prev.npcs[i]),
            ),
            clouds: clouds_after_move(prev.clouds, entity, inputs[i]),
            ..prev
        }
    }
}

/// What drawing the first `upto` animals adds to the frame.
pub open spec fn npcs_drawn(camera: Camera, npcs: Seq<Character>, upto: int) -> Seq<
    DrawCommandView,
>
    decreases upto,
{
    if upto <= 0 {
        Seq::empty()
    } else {
        npcs_drawn(camera, npcs, upto - 1) + character_commands(
            camera,
            MovingEntity::NPC(npcs[upto - 1]),
        )
    }
}

/// The blit of a cloud as the camera sees it, mirrored by the way it drifts.
pub open spec fn cloud_blit(camera: Camera, cloud: Cloud) -> DrawCommandView {
    let frame = preset_sprite(PresetSprites::Cloud).frame_spec(0);
    DrawCommandView::BlitSub {
        sheet: Spritesheet::Main,
        x: px_of(cloud.x - camera.current_viewing_x_offset) as i32,
        y: px_of(cloud.y - camera.current_viewing_y_offset) as i32,
        width: frame.width as u32,
        height: frame.height as u32,
        src_x: frame.start_x as u32,
        src_y: frame.start_y as u32,
        flags: BlitSubFlags { flip_x: cloud.vx > 0, flip_y: cloud.vy < 0 },
    }
}

/// What drawing the clouds adds to the frame: one blit each, in their order.
pub open spec fn clouds_drawn(camera: Camera, clouds: Seq<Cloud>) -> Seq<DrawCommandView> {
    Seq::new(clouds.len(), |i: int| cloud_blit(camera, clouds[i]))
}

/// The command that sets the palette of the level's mood.
pub open spec fn palette_commands(m: GameModel) -> Seq<DrawCommandView> {
    seq![DrawCommandView::SwitchPallette(palette_spec(m.pallette_idx))]
}

/// Whether every animal that follows a player in `before` follows the same
/// player in `after`.
#[verifier::opaque]
pub open spec fn followers_kept(before: Seq<Character>, after: Seq<Character>) -> bool {
    &&& after.len() == before.len()
    &&& forall|i: int|
        0 <= i < before.len() && (#[trigger] before[i]).following_i.is_some()
            ==> after[i].following_i == before[i].following_i
}

/// Whether no animal follows a player.
pub open spec fn nobody_follows(npcs: Seq<Character>) -> bool {
    forall|i: int| 0 <= i < npcs.len() ==> (#[trigger] npcs[i]).following_i.is_none()
}

/// Following is kept over two steps if it is kept over each.
pub proof fn lemma_followers_kept_twice(a: Seq<Character>, b: Seq<Character>, c: Seq<Character>)
    requires
        followers_kept(a, b),
        followers_kept(b, c),
    ensures
        followers_kept(a, c),
{
    reveal(followers_kept);
    assert forall|i: int| 0 <= i < a.len() && (#[trigger] a[i]).following_i.is_some() implies c[i].following_i
        == a[i].following_i by {
        assert(b[i].following_i == a[i].following_i);
    }
}

/// Starts the frame: the counter, the camera, and the clock's run or stand.
pub fn begin_frame(game_state: &mut GameState, sw: u32, sh: u32)
    requires
        old(game_state)@.wf(),
        sw <= MAX_SCREEN_DIM,
        sh <= MAX_SCREEN_DIM,
    ensures
        final(game_state)@ == begun(old(game_state)@, sw, sh),
        final(game_state)@.wf(),
        final(game_state)@.npcs == old(game_state)@.npcs,
{
    game_state.song_timer = game_state.song_timer.wrapping_add(1);
    let slot: OptionallyEnabledPlayer = game_state.players[0];
    assert(old(game_state)@.players[0].wf());
    match slot {
        OptionallyEnabledPlayer::Enabled(p) => {
            game_state.camera.aim_at(
                p.character.x_pos,
                p.character.y_pos,
                sw as i64 * UNITS_PER_HALF_PX,
                sh as i64 * UNITS_PER_HALF_PX,
            );
        },
        OptionallyEnabledPlayer::Disabled => {},
    }
    game_state.camera.slew();
    match game_state.game_mode {
        GameMode::NormalPlay(NormalPlayModes::MainGameplay) => {
            game_state.countdown_paused = false;
        },
        GameMode::NormalPlay(NormalPlayModes::HoverModal(_)) => {
            game_state.countdown_paused = true;
        },
        _ => {},
    }
}

/// Holds players and animals against each other, unless a box is open.
pub fn meet(game_state: &mut GameState)
    requires
        old(game_state)@.wf(),
    ensures
        final(game_state)@ == met(old(game_state)@),
        final(game_state)@.wf(),
        followers_kept(old(game_state)@.npcs, final(game_state)@.npcs),
{
    reveal(followers_kept);
    let showing_modal: bool = match game_state.game_mode {
        GameMode::NormalPlay(NormalPlayModes::HoverModal(_)) => true,
        _ => false,
    };
    if !showing_modal {
        check_entity_collisions(game_state);
    }
}

/// Sets the palette of the level's mood.
pub fn switch_palette(game_state: &GameState, out: &mut Vec<DrawCommand>)
    ensures
        command_views(final(out)@) == command_views(old(out)@) + palette_commands(game_state@),
{
    emit(out, DrawCommand::SwitchPallette(palette(game_state.pallette_idx)));
    assert(command_views(out@) =~= command_views(old(out)@) + palette_commands(game_state@));
}

fn autopilot(song_timer: u32) -> (input: u8)
    ensures
        input == title_autopilot(song_timer),
{
    let pattern: u8 = ((song_timer / 10).wrapping_mul(31) % 29) as u8 & !(BUTTON_LEFT
        | BUTTON_RIGHT);
    if pattern <= 2 {
        pattern | BUTTON_LEFT
    } else if pattern <= 6 {
        pattern | BUTTON_RIGHT
    } else {
        pattern
    }
}

/// Moves and draws the players, slot by slot.
pub fn move_players(game_state: &mut GameState, gamepads: &[u8; 4], out: &mut Vec<DrawCommand>)
    requires
        old(game_state)@.wf(),
    ensures
        final(game_state)@ == players_moved(old(game_state)@, gamepads@, 4),
        final(game_state)@.wf(),
        final(game_state)@.npcs == old(game_state)@.npcs,
        command_views(final(out)@) == command_views(old(out)@) + players_drawn(
            old(game_state)@,
            gamepads@,
            4,
        ),
{
    let ghost start = game_state@;
    let on_title: bool = match game_state.game_mode {
        GameMode::StartScreen => true,
        _ => false,
    };
    let mut i: usize = 0;
    assert(command_views(out@) =~= command_views(old(out)@) + players_drawn(start, gamepads@, 0));
    while i < 4
        invariant
            i <= 4,
            start.wf(),
            on_title == (start.game_mode is StartScreen),
            game_state@ == players_moved(start, gamepads@, i as int),
            game_state@.wf(),
            game_state@.camera == start.camera,
            game_state@.npcs == start.npcs,
            game_state@.game_mode == start.game_mode,
            game_state@.song_timer == start.song_timer,
            command_views(out@) == command_views(old(out)@) + players_drawn(
                start,
                gamepads@,
                i as int,
            ),
        decreases 4 - i,
    {
        let ghost prev = game_state@;
        let input: u8 = if i == 0 && on_title {
            autopilot(game_state.song_timer)
        } else {
            gamepads[i]
        };
        let slot: OptionallyEnabledPlayer = game_state.players[i];
        assert(prev.players[i as int].wf());
        let moved: MovingEntity = update_pos(
            &game_state.map,
            MovingEntity::OptionalPlayer(slot),
            input,
            game_state.godmode,
            &mut game_state.clouds,
        );
        let new_slot: OptionallyEnabledPlayer = match moved {
            MovingEntity::OptionalPlayer(s) => s,
            MovingEntity::NPC(_) => slot,
        };
        game_state.players[i] = new_slot;
        proof {
            assert(game_state@.players =~= players_moved(start, gamepads@, i + 1).players);
            assert forall|k: int| 0 <= k < 4 implies (#[trigger] game_state@.players[k]).wf() by {
                if k != i {
                    assert(game_state@.players[k] == prev.players[k]);
                }
            }
        }
        drawcharacter(&game_state.camera, MovingEntity::OptionalPlayer(new_slot), out);
        assert(command_views(out@) =~= command_views(old(out)@) + players_drawn(
            start,
            gamepads@,
            i + 1,
        ));
        i = i + 1;
    }
}

fn wander_input(roll: u8) -> (input: u8)
    ensures
        input == wander(roll),
{
    if roll < 20 {
        BUTTON_LEFT
    } else if roll < 40 {
        BUTTON_RIGHT
    } else if roll < 42 {
        BUTTON_1
    } else {
        0
    }
}

fn chase_input(npc: &Character, target: &Character) -> (input: u8)
    requires
        npc.wf(),
        target.wf(),
    ensures
        input == chase(*npc, *target),
{
    let npc_box = get_bound_of_character(npc);
    let target_box = get_bound_of_character(target);
    let above: bool = npc.y_pos + npc_box.height as i64 * UNITS_PER_PX < target.y_pos;
    let below: bool = npc.y_pos > target.y_pos + target_box.height as i64 * UNITS_PER_PX;
    let jump: u8 = if !above && below {
        BUTTON_1
    } else {
        0
    };
    let walk: u8 = if above || below {
        if npc.x_pos < target.x_pos {
            BUTTON_RIGHT
        } else if npc.x_pos > target.x_pos {
            BUTTON_LEFT
        } else {
            0
        }
    } else {
        if npc.x_pos + npc_box.width as i64 * UNITS_PER_PX < target.x_pos {
            BUTTON_RIGHT
        } else if npc.x_pos > target.x_pos + target_box.width as i64 * UNITS_PER_PX {
            BUTTON_LEFT
        } else {
            0
        }
    };
    jump | walk
}

fn is_left_behind(npc: &Character, target: &Character) -> (far: bool)
    ensures
        far == left_behind(*npc, *target),
{
    let npc_box = get_bound_of_character(npc);
    let target_box = get_bound_of_character(target);
    target_box.x.abs_diff(npc_box.x) > TELEPORT_AXIS_MIN_DIST || target_box.y.abs_diff(npc_box.y)
        > TELEPORT_AXIS_MIN_DIST
}

fn set_down(npc: &Character, target: &Character) -> (moved: Character)
    requires
        npc.wf(),
        target.wf(),
    ensures
        moved == set_down_at(*npc, *target),
        moved.wf(),
        moved.following_i == npc.following_i,
{
    let target_box = get_bound_of_character(target);
    assert(0 <= target_box.x <= 1280 && 0 <= target_box.y <= 320) by (nonlinear_arith)
        requires
            target_box.x == px_of(target.x_pos as int),
            target_box.y == px_of(target.y_pos as int),
            0 <= target.x_pos <= 1280000,
            0 <= target.y_pos <= 320000,
    ;
    Character {
        x_pos: target_box.x as i64 * UNITS_PER_PX,
        y_pos: target_box.y as i64 * UNITS_PER_PX,
        x_vel: 0,
        y_vel: 0,
        ..*npc
    }
}

/// Lets one animal decide.
fn think(players: &[OptionallyEnabledPlayer; 4], npc: &Character, rng: &mut GameRng) -> (r: (
    Character,
    u8,
))
    requires
        npc.wf(),
        forall|k: int| 0 <= k < 4 ==> (#[trigger] players@[k]).wf(),
    ensures
        r.0 == thought(players@, *npc, *old(rng)).npc,
        r.1 == thought(players@, *npc, *old(rng)).input,
        *final(rng) == old(rng).after_input(thought(players@, *npc, *old(rng)).draws),
        r.0.wf(),
        r.0.following_i == npc.following_i,
{
    proof {
        lemma_input_adds(*old(rng), 1, 0);
        lemma_input_adds(*old(rng), 1, 1);
    }
    let value: u32 = rng.next_for_input();
    let roll: u8 = (value % 255) as u8;
    match npc.following_i {
        None => (*npc, wander_input(roll)),
        Some(slot) => {
            assert(players@[slot as int].wf());
            match players[slot as usize] {
                OptionallyEnabledPlayer::Enabled(p) => {
                    if is_left_behind(npc, &p.character) {
                        (set_down(npc, &p.character), 0)
                    } else {
                        let second: u32 = rng.next_for_input();
                        if second % 10 > 0 {
                            (*npc, chase_input(npc, &p.character))
                        } else {
                            (*npc, wander_input(roll))
                        }
                    }
                },
                OptionallyEnabledPlayer::Disabled => (*npc, 0),
            }
        },
    }
}

/// Lets every animal decide, in their order, and returns the buttons that
/// each presses in this frame.
pub fn think_npcs(game_state: &mut GameState) -> (inputs: Vec<u8>)
    requires
        old(game_state)@.wf(),
    ensures
        final(game_state)@ == npcs_thought(old(game_state)@, old(game_state)@.npcs.len() as int),
        inputs@ == npc_inputs(old(game_state)@, old(game_state)@.npcs.len() as int),
        inputs@.len() == old(game_state)@.npcs.len(),
        final(game_state)@.wf(),
        final(game_state)@.npcs.len() == old(game_state)@.npcs.len(),
        followers_kept(old(game_state)@.npcs, final(game_state)@.npcs),
{
    reveal(followers_kept);
    let ghost start = game_state@;
    let n: usize = game_state.npcs.len();
    let mut inputs: Vec<u8> = Vec::new();
    let mut i: usize = 0;
    while i < n
        invariant
            i <= n,
            n == start.npcs.len(),
            start.wf(),
            game_state@ == npcs_thought(start, i as int),
            game_state@.wf(),
            game_state@.npcs.len() == n,
            game_state@.players == start.players,
            inputs@ == npc_inputs(start, i as int),
            inputs@.len() == i,
            forall|k: int|
                0 <= k < n ==> (#[trigger] game_state@.npcs[k]).following_i
                    == start.npcs[k].following_i,
        decreases n - i,
    {
        let ghost prev = game_state@;
        let npc: Character = game_state.npcs[i];
        assert(prev.npcs[i as int].wf());
        let decided: (Character, u8) = think(&game_state.players, &npc, &mut game_state.rng);
        game_state.npcs[i] = decided.0;
        inputs.push(decided.1);
        proof {
            assert(game_state@.npcs =~= npcs_thought(start, i + 1).npcs);
            assert forall|k: int| 0 <= k < n implies (#[trigger] game_state@.npcs[k]).wf()
                && game_state@.npcs[k].following_i == start.npcs[k].following_i by {
                if k != i {
                    assert(game_state@.npcs[k] == prev.npcs[k]);
                }
            }
        }
        i = i + 1;
    }
    inputs
}

/// Moves every animal by the buttons it presses, in their order.
pub fn move_npcs(game_state: &mut GameState, inputs: &Vec<u8>)
    requires
        old(game_state)@.wf(),
        inputs@.len() == old(game_state)@.npcs.len(),
    ensures
        final(game_state)@ == npcs_moved(
            old(game_state)@,
            inputs@,
            old(game_state)@.npcs.len() as int,
        ),
        final(game_state)@.wf(),
        final(game_state)@.npcs.len() == old(game_state)@.npcs.len(),
        followers_kept(old(game_state)@.npcs, final(game_state)@.npcs),
{
    reveal(followers_kept);
    let ghost start = game_state@;
    let n: usize = game_state.npcs.len();
    let mut i: usize = 0;
    while i < n
        invariant
            i <= n,
            n == start.npcs.len(),
            inputs@.len() == n,
            start.wf(),
            game_state@ == npcs_moved(start, inputs@, i as int),
            game_state@.wf(),
            game_state@.npcs.len() == n,
            forall|k: int|
                0 <= k < n ==> (#[trigger] game_state@.npcs[k]).following_i
                    == start.npcs[k].following_i,
        decreases n - i,
    {
        let ghost prev = game_state@;
        let npc: Character = game_state.npcs[i];
        assert(prev.npcs[i as int].wf());
        let moved: MovingEntity = update_pos(
            &game_state.map,
            MovingEntity::NPC(npc),
            inputs[i],
            game_state.godmode,
            &mut game_state.clouds,
        );
        let after: Character = match moved {
            MovingEntity::NPC(c) => c,
            MovingEntity::OptionalPlayer(_) => npc,
        };
        game_state.npcs[i] = after;
        proof {
            assert(game_state@.npcs =~= npcs_moved(start, inputs@, i + 1).npcs);
            assert forall|k: int| 0 <= k < n implies (#[trigger] game_state@.npcs[k]).wf()
                && game_state@.npcs[k].following_i == start.npcs[k].following_i by {
                if k != i {
                    assert(game_state@.npcs[k] == prev.npcs[k]);
                }
            }
        }
        i = i + 1;
    }
}

/// Draws every animal as the camera sees it.
pub fn draw_npcs(game_state: &GameState, out: &mut Vec<DrawCommand>)
    requires
        game_state@.wf(),
    ensures
        command_views(final(out)@) == command_views(old(out)@) + npcs_drawn(
            game_state@.camera,
            game_state@.npcs,
            game_state@.npcs.len() as int,
        ),
{
    let n: usize = game_state.npcs.len();
    let mut i: usize = 0;
    assert(command_views(out@) =~= command_views(old(out)@) + npcs_drawn(
        game_state.camera,
        game_state.npcs@,
        0,
    ));
    while i < n
        invariant
            i <= n,
            n == game_state.npcs@.len(),
            game_state@.wf(),
            command_views(out@) == command_views(old(out)@) + npcs_drawn(
                game_state.camera,
                game_state.npcs@,
                i as int,
            ),
        decreases n - i,
    {
        assert(game_state@.npcs[i as int].wf());
        drawcharacter(&game_state.camera, MovingEntity::NPC(game_state.npcs[i]), out);
        assert(command_views(out@) =~= command_views(old(out)@) + npcs_drawn(
            game_state.camera,
            game_state.npcs@,
            i + 1,
        ));
        i = i + 1;
    }
}

/// Draws every cloud as the camera sees it.
pub fn draw_clouds(game_state: &GameState, out: &mut Vec<DrawCommand>)
    requires
        game_state@.wf(),
    ensures
        command_views(final(out)@) == command_views(old(out)@) + clouds_drawn(
            game_state@.camera,
            game_state@.clouds,
        ),
{
    let n: usize = game_state.clouds.len();
    let sprite: Sprite = Sprite::from_preset(&PresetSprites::Cloud);
    let frame: SpriteFrame = sprite.frame(0);
    let ghost all = clouds_drawn(game_state.camera, game_state.clouds@);
    let mut i: usize = 0;
    assert(command_views(out@) =~= command_views(old(out)@) + all.subrange(0, 0));
    while i < n
        invariant
            i <= n,
            n == game_state.clouds@.len(),
            game_state@.wf(),
            frame == preset_sprite(PresetSprites::Cloud).frame_spec(0),
            all == clouds_drawn(game_state.camera, game_state.clouds@),
            command_views(out@) == command_views(old(out)@) + all.subrange(0, i as int),
        decreases n - i,
    {
        let cloud: Cloud = game_state.clouds[i];
        assert(game_state@.clouds[i as int].wf());
        emit_blit(
            out,
            Spritesheet::Main,
            to_px(cloud.x - game_state.camera.current_viewing_x_offset),
            to_px(cloud.y - game_state.camera.current_viewing_y_offset),
            frame.width as u32,
            frame.height as u32,
            frame.start_x as u32,
            frame.start_y as u32,
            BlitSubFlags { flip_x: cloud.vx > 0, flip_y: cloud.vy < 0 },
        );
        assert(command_views(out@) =~= command_views(old(out)@) + all.subrange(0, i + 1));
        i = i + 1;
    }
    assert(all.subrange(0, n as int) =~= all);
}

} // verus!
