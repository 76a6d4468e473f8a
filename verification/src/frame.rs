//! One frame of the game: the state moves on by one step, and the list of
//! what is to be drawn comes out.

use vstd::prelude::*;
use crate::cloud::{updated_clouds, Cloud};
use crate::game_state::{GameModel, GameState};
use crate::menus::{GameMode, NormalPlayModes};
use crate::modes::{
    found_now, hud_commands, hud_texts, hud_texts_of, modal_commands, modal_stepped, play_on,
    played, step_modal, HudTexts,
};
use crate::multiplatform_defs::{
    command_views, DrawCommand, DrawCommandView, Waves, MAX_SCREEN_DIM,
};
use crate::play::{
    bars_commands, cards_settled, cards_used, draw_bars, draw_cards, first_player_cards_drawn,
    popups_drawn, settle_cards, update_and_draw_popups, use_cards,
};
use crate::popup_text::POPUP_CAPACITY;
use crate::render::{drawmap, drawmap_commands};
use crate::screens::{
    select_screen_commands, select_stepped, step_select, step_title, title_screen_commands,
    title_stepped,
};
use crate::simulation::{
    begin_frame, begun, clouds_drawn, draw_clouds, draw_npcs, followers_kept,
    lemma_followers_kept_twice, meet, met, move_npcs, move_players, nobody_follows, npc_inputs,
    npcs_drawn, npcs_moved, npcs_thought, palette_commands, players_drawn, players_moved,
    switch_palette, think_npcs,
};

verus! {

/// What the host hands in for a frame: the size of the screen in pixels,
/// the buttons that went down in this frame and those that are held, for
/// each of the four gamepads, and the shifts of the wave motions.
pub struct FrameInput {
    pub sw: u32,
    pub sh: u32,
    pub pressed: Seq<u8>,
    pub held: Seq<u8>,
    pub waves: Waves,
}

impl FrameInput {
    /// The screen is not too large, and the waves are in range.
    pub open spec fn wf(self) -> bool {
        &&& self.sw <= MAX_SCREEN_DIM
        &&& self.sh <= MAX_SCREEN_DIM
        &&& self.pressed.len() == 4
        &&& self.held.len() == 4
        &&& self.waves.wf()
    }
}

/// The state after players and animals have met and the players have moved.
pub open spec fn players_done(m: GameModel, input: FrameInput) -> GameModel {
    players_moved(met(begun(m, input.sw, input.sh)), input.held, 4)
}

/// The state after the animals have decided and moved.
pub open spec fn npcs_done(m: GameModel, input: FrameInput) -> GameModel {
    let before = players_done(m, input);
    let n = before.npcs.len() as int;
    npcs_moved(npcs_thought(before, n), npc_inputs(before, n), n)
}

/// The state after the part of a frame that is the same in every mode: the
/// start of the frame, the meeting of players and animals, the moves of the
/// players and then of the animals, and the drift of the clouds.
pub open spec fn simulated(m: GameModel, input: FrameInput) -> GameModel {
    let moved = npcs_done(m, input);
    GameModel { clouds: updated_clouds(moved.clouds), ..moved }
}

/// What that part adds to the frame, in this order: the palette, the
/// map, the players, the animals, the clouds.
pub open spec fn simulation_commands(m: GameModel, input: FrameInput) -> Seq<DrawCommandView> {
    let met = met(begun(m, input.sw, input.sh));
    let moved = npcs_done(m, input);
    let after = simulated(m, input);
    palette_commands(met) + drawmap_commands(
        met.map,
        met.camera,
        met.tileset_idx,
        input.sw,
        input.sh,
    ) + players_drawn(met, input.held, 4) + npcs_drawn(
        moved.camera,
        moved.npcs,
        moved.npcs.len() as int,
    ) + clouds_drawn(after.camera, after.clouds)
}

/// The state after the floating texts have aged and the cards have been
/// used, which they are not while a box is open, and moved.
pub open spec fn cards_done(m: GameModel, input: FrameInput) -> GameModel {
    let aged = GameModel { popups: m.popups.aged(), ..m };
    let used = if m.game_mode.modal().is_some() {
        aged
    } else {
        cards_used(aged, input.pressed, 4)
    };
    cards_settled(used, input.sw)
}

/// The state after the part of a frame that belongs to the mode.
pub open spec fn mode_stepped(m: GameModel, input: FrameInput) -> GameModel {
    match m.game_mode {
        GameMode::StartScreen => title_stepped(m, input.pressed),
        GameMode::SelectScreen(_) => select_stepped(m, input.pressed),
        GameMode::NormalPlay(NormalPlayModes::MainGameplay) => played(
            cards_done(m, input),
            found_now(m),
            input.sw,
            input.sh,
        ),
        GameMode::NormalPlay(NormalPlayModes::HoverModal(_)) => modal_stepped(
            cards_done(m, input),
            input.pressed,
            input.waves.modal_sway,
            input.sw,
            input.sh,
        ),
    }
}

/// What the mode adds to the frame. In play: the status bars, the floating
/// texts, the cards, and then the texts of the status bars or the open box.
pub open spec fn mode_commands(m: GameModel, input: FrameInput) -> Seq<DrawCommandView> {
    match m.game_mode {
        GameMode::StartScreen => title_screen_commands(m, input.sw, input.waves),
        GameMode::SelectScreen(_) => select_screen_commands(
            m,
            input.pressed,
            input.sw,
            input.waves,
        ),
        GameMode::NormalPlay(play) => bars_commands(input.sw, input.sh) + popups_drawn(
            m.camera,
            m.popups.aged().texts,
            POPUP_CAPACITY as int,
        ) + first_player_cards_drawn(cards_done(m, input)) + (match play {
            NormalPlayModes::MainGameplay => hud_commands(hud_texts_of(m), input.sh),
            NormalPlayModes::HoverModal(_) => modal_commands(
                cards_done(m, input),
                hud_texts_of(m),
                input.waves.modal_sway,
            ),
        }),
    }
}

/// The state after a frame.
pub open spec fn frame_state(m: GameModel, input: FrameInput) -> GameModel {
    mode_stepped(simulated(m, input), input)
}

/// The commands of a frame, in the order in which they are to be drawn.
pub open spec fn frame_commands(m: GameModel, input: FrameInput) -> Seq<DrawCommandView> {
    simulation_commands(m, input) + mode_commands(simulated(m, input), input)
}

/// Starts the frame, lets players and animals meet, draws the map, and
/// moves the players.
fn run_players(
    game_state: &mut GameState,
    sw: u32,
    sh: u32,
    gamepads: &[u8; 4],
    out: &mut Vec<DrawCommand>,
)
    requires
        old(game_state)@.wf(),
        sw <= MAX_SCREEN_DIM,
        sh <= MAX_SCREEN_DIM,
    ensures
        final(game_state)@ == players_moved(met(begun(old(game_state)@, sw, sh)), gamepads@, 4),
        final(game_state)@.wf(),
        followers_kept(old(game_state)@.npcs, final(game_state)@.npcs),
        ({
            let met = met(begun(old(game_state)@, sw, sh));
            command_views(final(out)@) == command_views(old(out)@) + palette_commands(met)
                + drawmap_commands(met.map, met.camera, met.tileset_idx, sw, sh) + players_drawn(
                met,
                gamepads@,
                4,
            )
        }),
{
    begin_frame(game_state, sw, sh);
    meet(game_state);
    switch_palette(game_state, out);
    drawmap(game_state, out, sw, sh);
    move_players(game_state, gamepads, out);
}

/// Lets the animals decide and move, and draws them.
fn run_npcs(game_state: &mut GameState, out: &mut Vec<DrawCommand>)
    requires
        old(game_state)@.wf(),
    ensures
        ({
            let before = old(game_state)@;
            let n = before.npcs.len() as int;
            let moved = npcs_moved(npcs_thought(before, n), npc_inputs(before, n), n);
            &&& final(game_state)@ == moved
            &&& command_views(final(out)@) == command_views(old(out)@) + npcs_drawn(
                moved.camera,
                moved.npcs,
                moved.npcs.len() as int,
            )
        }),
        final(game_state)@.wf(),
        followers_kept(old(game_state)@.npcs, final(game_state)@.npcs),
{
    let ghost start = game_state@;
    let inputs: Vec<u8> = think_npcs(game_state);
    let ghost between = game_state@;
    move_npcs(game_state, &inputs);
    proof {
        lemma_followers_kept_twice(start.npcs, between.npcs, game_state@.npcs);
    }
    draw_npcs(game_state, out);
}

/// Lets the clouds drift, and draws them.
fn run_clouds(game_state: &mut GameState, out: &mut Vec<DrawCommand>)
    requires
        old(game_state)@.wf(),
    ensures
        final(game_state)@ == (GameModel {
            clouds: updated_clouds(old(game_state)@.clouds),
            ..old(game_state)@
        }),
        final(game_state)@.wf(),
        command_views(final(out)@) == command_views(old(out)@) + clouds_drawn(
            old(game_state)@.camera,
            updated_clouds(old(game_state)@.clouds),
        ),
{
    Cloud::update_clouds(&mut game_state.clouds);
    draw_clouds(game_state, out);
}

/// Runs the part of a frame that is the same in every mode.
fn simulate(
    game_state: &mut GameState,
    sw: u32,
    sh: u32,
    gamepads: &[u8; 4],
    Ghost(input): Ghost<FrameInput>,
    out: &mut Vec<DrawCommand>,
)
    requires
        old(game_state)@.wf(),
        input.wf(),
        input.sw == sw,
        input.sh == sh,
        input.held == gamepads@,
    ensures
        final(game_state)@ == simulated(old(game_state)@, input),
        final(game_state)@.wf(),
        followers_kept(old(game_state)@.npcs, final(game_state)@.npcs),
        command_views(final(out)@) == command_views(old(out)@) + simulation_commands(
            old(game_state)@,
            input,
        ),
{
    let ghost start = game_state@;
    run_players(game_state, sw, sh, gamepads, out);
    let ghost first = game_state@;
    let ghost drawn_first = command_views(out@);
    run_npcs(game_state, out);
    let ghost second = game_state@;
    let ghost drawn_second = command_views(out@);
    run_clouds(game_state, out);
    proof {
        lemma_followers_kept_twice(start.npcs, first.npcs, second.npcs);
        assert(first == players_done(start, input));
        assert(second == npcs_done(start, input));
        assert(game_state@ == simulated(start, input));
        let met = met(begun(start, sw, sh));
        assert(drawn_first == command_views(old(out)@) + palette_commands(met)
            + drawmap_commands(met.map, met.camera, met.tileset_idx, sw, sh) + players_drawn(
            met,
            input.held,
            4,
        ));
        assert(drawn_second == drawn_first + npcs_drawn(
            second.camera,
            second.npcs,
            second.npcs.len() as int,
        ));
        assert(command_views(out@) == drawn_second + clouds_drawn(
            second.camera,
            updated_clouds(second.clouds),
        ));
        assert(command_views(out@) =~= command_views(old(out)@) + simulation_commands(
            start,
            input,
        ));
    }
}

/// Runs the part of a frame of play that comes before the rules or the
/// open box: the status bars, the floating texts and the cards.
fn run_cards(
    game_state: &mut GameState,
    sw: u32,
    sh: u32,
    btns_pressed_this_frame: &[u8; 4],
    Ghost(input): Ghost<FrameInput>,
    out: &mut Vec<DrawCommand>,
)
    requires
        old(game_state)@.wf(),
        old(game_state)@.game_mode is NormalPlay,
        input.wf(),
        input.sw == sw,
        input.sh == sh,
        input.pressed == btns_pressed_this_frame@,
    ensures
        final(game_state)@ == cards_done(old(game_state)@, input),
        final(game_state)@.wf(),
        final(game_state)@.npcs == old(game_state)@.npcs,
        final(game_state)@.game_mode == old(game_state)@.game_mode,
        command_views(final(out)@) == command_views(old(out)@) + bars_commands(sw, sh)
            + popups_drawn(
            old(game_state)@.camera,
            old(game_state)@.popups.aged().texts,
            POPUP_CAPACITY as int,
        ) + first_player_cards_drawn(cards_done(old(game_state)@, input)),
{
    draw_bars(sw, sh, out);
    update_and_draw_popups(game_state, out);
    let showing_modal: bool = match game_state.game_mode {
        GameMode::NormalPlay(NormalPlayModes::HoverModal(_)) => true,
        _ => false,
    };
    if !showing_modal {
        use_cards(game_state, btns_pressed_this_frame);
    }
    settle_cards(game_state, sw);
    draw_cards(game_state, out);
    assert(command_views(out@) =~= command_views(old(out)@) + bars_commands(sw, sh)
        + popups_drawn(
        old(game_state)@.camera,
        old(game_state)@.popups.aged().texts,
        POPUP_CAPACITY as int,
    ) + first_player_cards_drawn(cards_done(old(game_state)@, input)));
}

/// Runs the part of a frame that belongs to the mode.
fn step_mode(
    game_state: &mut GameState,
    sw: u32,
    sh: u32,
    btns_pressed_this_frame: &[u8; 4],
    waves: &Waves,
    Ghost(input): Ghost<FrameInput>,
    out: &mut Vec<DrawCommand>,
)
    requires
        old(game_state)@.wf(),
        input.wf(),
        input.sw == sw,
        input.sh == sh,
        input.pressed == btns_pressed_this_frame@,
        input.waves == *waves,
    ensures
        final(game_state)@ == mode_stepped(old(game_state)@, input),
        final(game_state)@.wf(),
        final(game_state)@.npcs == old(game_state)@.npcs || nobody_follows(
            final(game_state)@.npcs,
        ),
        command_views(final(out)@) == command_views(old(out)@) + mode_commands(
            old(game_state)@,
            input,
        ),
{
    let ghost start = game_state@;
    match game_state.game_mode {
        GameMode::StartScreen => {
            step_title(game_state, btns_pressed_this_frame, sw, waves, out);
        },
        GameMode::SelectScreen(_) => {
            step_select(game_state, btns_pressed_this_frame, sw, waves, out);
        },
        GameMode::NormalPlay(play) => {
            let texts_and_found: (HudTexts, u32) = hud_texts(game_state);
            run_cards(game_state, sw, sh, btns_pressed_this_frame, Ghost(input), out);
            match play {
                NormalPlayModes::MainGameplay => {
                    play_on(game_state, texts_and_found.1, &texts_and_found.0, sw, sh, out);
                },
                NormalPlayModes::HoverModal(_) => {
                    step_modal(
                        game_state,
                        &texts_and_found.0,
                        btns_pressed_this_frame,
                        waves.modal_sway,
                        sw,
                        sh,
                        out,
                    );
                },
            }
            assert(command_views(out@) =~= command_views(old(out)@) + mode_commands(start, input));
        },
    }
}

/// Runs one frame. The state moves on by one step, and what is to be drawn
/// comes back as a list of commands in the order in which they are to be
/// drawn: later ones paint over earlier ones. Every character stays inside
/// the world. An animal that follows a player goes on following it, unless a
/// new level was set up, in which nobody follows anybody yet.
pub fn kittygame_update(
    game_state: &mut GameState,
    sw: u32,
    sh: u32,
    btns_pressed_this_frame: &[u8; 4],
    gamepads: &[u8; 4],
    waves: &Waves,
) -> (commands: Vec<DrawCommand>)
    requires
        old(game_state)@.wf(),
        sw <= MAX_SCREEN_DIM,
        sh <= MAX_SCREEN_DIM,
        waves.wf(),
    ensures
        final(game_state)@ == frame_state(
            old(game_state)@,
            FrameInput { sw, sh, pressed: btns_pressed_this_frame@, held: gamepads@, waves: *waves },
        ),
        command_views(commands@) == frame_commands(
            old(game_state)@,
            FrameInput { sw, sh, pressed: btns_pressed_this_frame@, held: gamepads@, waves: *waves },
        ),
        final(game_state)@.wf(),
        followers_kept(old(game_state)@.npcs, final(game_state)@.npcs) || nobody_follows(
            final(game_state)@.npcs,
        ),
{
    let ghost input = FrameInput {
        sw,
        sh,
        pressed: btns_pressed_this_frame@,
        held: gamepads@,
        waves: *waves,
    };
    let mut commands: Vec<DrawCommand> = Vec::new();
    assert(command_views(commands@) =~= Seq::<DrawCommandView>::empty());
    simulate(game_state, sw, sh, gamepads, Ghost(input), &mut commands);
    step_mode(game_state, sw, sh, btns_pressed_this_frame, waves, Ghost(input), &mut commands);
    assert(command_views(commands@) =~= frame_commands(old(game_state)@, input));
    commands
}

} // verus!
