//! The two screens in front of the game: the title, and the choice of
//! how levels come about.

use vstd::prelude::*;
use crate::collision::{held, is_held, AbsoluteBoundingBox};
use crate::game_constants::TIMER_INTERACTIVE_START;
use crate::game_state::{GameModel, GameState, RunType, Settings};
use crate::hud::{seed_text, seed_text_spec, version_text, version_text_spec};
use crate::menus::{GameMode, NormalPlayModes, SelectMenuFocuses, SelectSetup};
use crate::multiplatform_defs::{
    command_views, emit_text, DrawColor, DrawCommand, DrawCommandView, Waves, BUTTON_1, BUTTON_2,
    BUTTON_LEFT, BUTTON_RIGHT, MAX_SCREEN_DIM,
};
use crate::render::{
    draw_modal_bg, layertext, layertext_commands, lemma_box_in_pixel_range_is_drawable,
    lemma_title_near_the_screen_fits, modal_bg_commands, render_title, text_command,
    title_commands,
};
use crate::rng::{GameRng, Rng};
use crate::subpixel::{div_toward_zero, trunc_div, UNITS_PER_PX};

verus! {

/// Where the title stands on the title screen, in pixels from the top, and
/// how far left of the middle its left edge is.
pub const TITLE_Y: i32 = 15;

pub const TITLE_HALF_WIDTH: i32 = 76;

/// How much higher the title stands on the select screen.
pub const TITLE_RAISE: i32 = 8;

/// The box of the run type on the select screen.
pub const BOX_WIDTH: i32 = 120;

pub const BOX_HEIGHT: i32 = 60;

pub const RUN_TYPE_Y: i32 = 66;

pub const START_Y: i32 = 130;

pub const SETTING_GROUP_INLAY_DIST: i32 = 5;

/// Whether a text that blinks twice a second is lit.
pub open spec fn flash_lit(song_timer: u32) -> bool {
    song_timer % 30 >= 15
}

/// A box given in pixels, in position units.
pub open spec fn pixel_box(x: int, y: int, width: int, height: int) -> AbsoluteBoundingBox<
    i64,
    i64,
> {
    AbsoluteBoundingBox {
        x: (x * UNITS_PER_PX) as i64,
        y: (y * UNITS_PER_PX) as i64,
        width: (width * UNITS_PER_PX) as i64,
        height: (height * UNITS_PER_PX) as i64,
    }
}

/// The state after a frame of the title screen: the title song plays, a
/// number is drawn for play, and once buttons count any button leads to
/// the select screen.
pub open spec fn title_stepped(m: GameModel, pressed: Seq<u8>) -> GameModel {
    GameModel {
        song_idx: 1,
        game_mode: if m.song_timer >= TIMER_INTERACTIVE_START && pressed[0] != 0 {
            GameMode::SelectScreen(SelectSetup { current_selection: SelectMenuFocuses::RunType })
        } else {
            m.game_mode
        },
        rng: m.rng.after_input(1),
        ..m
    }
}

/// What the title screen adds to the frame: once buttons count, a veiled
/// box with the invitation, which blinks, the credits and the version; and
/// the title.
pub open spec fn title_screen_commands(m: GameModel, sw: u32, waves: Waves) -> Seq<
    DrawCommandView,
> {
    let cx = sw as int / 2;
    (if m.song_timer >= TIMER_INTERACTIVE_START {
        modal_bg_commands(pixel_box(15, 105, 130, 40), 0, DrawColor::Background) + (if flash_lit(
            m.song_timer,
        ) {
            seq![text_command("Any key: play"@, cx - 50, 110, DrawColor::MainKitty)]
        } else {
            Seq::empty()
        }) + seq![
            text_command("by CanyonTurtle"@, cx - 55, 125, DrawColor::MainKitty),
            text_command(" & BurntSugar  "@, cx - 50, 135, DrawColor::MainKitty),
            text_command(version_text_spec(), 40, 150, DrawColor::MainKitty),
        ]
    } else {
        Seq::empty()
    }) + title_commands(m.song_timer, (cx - TITLE_HALF_WIDTH) as i32, TITLE_Y, waves)
}

/// Runs a frame of the title screen.
pub fn step_title(
    game_state: &mut GameState,
    btns_pressed_this_frame: &[u8; 4],
    sw: u32,
    waves: &Waves,
    out: &mut Vec<DrawCommand>,
)
    requires
        old(game_state)@.wf(),
        old(game_state)@.game_mode is StartScreen,
        sw <= MAX_SCREEN_DIM,
        waves.wf(),
    ensures
        final(game_state)@ == title_stepped(old(game_state)@, btns_pressed_this_frame@),
        final(game_state)@.wf(),
        final(game_state)@.npcs == old(game_state)@.npcs,
        command_views(final(out)@) == command_views(old(out)@) + title_screen_commands(
            old(game_state)@,
            sw,
            *waves,
        ),
{
    let ghost start = game_state@;
    let cx: i32 = (sw / 2) as i32;
    game_state.song_idx = 1;
    if game_state.song_timer >= TIMER_INTERACTIVE_START {
        proof {
            lemma_box_in_pixel_range_is_drawable(pixel_box(15, 105, 130, 40));
        }
        draw_modal_bg(
            &AbsoluteBoundingBox { x: 15000, y: 105000, width: 130000, height: 40000 },
            0,
            &DrawColor::Background,
            out,
        );
        if game_state.song_timer % 30 >= 15 {
            emit_text(out, "Any key: play", cx - 50, 110, DrawColor::MainKitty);
        }
        emit_text(out, "by CanyonTurtle", cx - 55, 125, DrawColor::MainKitty);
        emit_text(out, " & BurntSugar  ", cx - 50, 135, DrawColor::MainKitty);
        let version: String = version_text();
        emit_text(out, version.as_str(), 40, 150, DrawColor::MainKitty);
        if btns_pressed_this_frame[0] != 0 {
            game_state.game_mode = GameMode::SelectScreen(
                SelectSetup { current_selection: SelectMenuFocuses::RunType },
            );
        }
    }
    proof {
        lemma_title_near_the_screen_fits(
            game_state.song_timer,
            (cx - TITLE_HALF_WIDTH) as i32,
            TITLE_Y,
            *waves,
        );
    }
    render_title(game_state.song_timer, cx - TITLE_HALF_WIDTH, TITLE_Y, waves, out);
    let _ = game_state.rng.next_for_input();
    assert(command_views(out@) =~= command_views(old(out)@) + title_screen_commands(
        start,
        sw,
        *waves,
    ));
}

/// The run type after the buttons of a frame of the select screen: left or
/// right changes between a random run and the seeded run of seed 0, and
/// the second button then raises the seed of a seeded run by one.
pub open spec fn run_type_chosen(run_type: RunType, pressed: u8) -> RunType {
    let toggled = if held(pressed, BUTTON_RIGHT | BUTTON_LEFT) {
        match run_type {
            RunType::Random => RunType::Speedrun(0),
            RunType::Speedrun(_) => RunType::Random,
        }
    } else {
        run_type
    };
    if held(pressed, BUTTON_2) {
        match toggled {
            RunType::Speedrun(n) => RunType::Speedrun(n.wrapping_add(1)),
            RunType::Random => toggled,
        }
    } else {
        toggled
    }
}

/// The state after a frame of the select screen: the run type follows the
/// buttons, and the first button starts the game, with both streams of
/// random numbers set to the seed in a seeded run, and sets up the level.
pub open spec fn select_stepped(m: GameModel, pressed: Seq<u8>) -> GameModel {
    let run_type = run_type_chosen(m.settings.run_type, pressed[0]);
    let chosen = GameModel { settings: Settings { run_type }, ..m };
    if held(pressed[0], BUTTON_1) {
        GameModel {
            game_mode: GameMode::NormalPlay(NormalPlayModes::MainGameplay),
            ..(GameModel {
                rng: match run_type {
                    RunType::Speedrun(n) => GameRng::FixedSeed(
                        Rng { state: n as u64 },
                        Rng { state: n as u64 },
                    ),
                    RunType::Random => m.rng,
                },
                ..chosen
            }).regenerated()
        }
    } else {
        chosen
    }
}

/// How far the box of the run type is from the left edge of the screen.
pub open spec fn box_margin(sw: u32) -> int {
    trunc_div(sw - BOX_WIDTH, 2)
}

/// The lines that say what the chosen run type is.
pub open spec fn run_type_commands(run_type: RunType, song_timer: u32, margin: int) -> Seq<
    DrawCommandView,
> {
    let left = margin + SETTING_GROUP_INLAY_DIST;
    let top = RUN_TYPE_Y + SETTING_GROUP_INLAY_DIST;
    match run_type {
        RunType::Random => layertext_commands("Normal Mode"@, left + 20, top)
            + layertext_commands("Random levels."@, left, top + 15) + layertext_commands(
            "Find kitties"@,
            left,
            top + 25,
        ) + layertext_commands("in time!"@, left, top + 35),
        RunType::Speedrun(n) => layertext_commands("Seed Mode"@, left + 25, top)
            + layertext_commands("Fixed maps"@, left, top + 15) + layertext_commands(
            "For speedruns!"@,
            left,
            top + 25,
        ) + layertext_commands(seed_text_spec(n), left + 1, top + 35) + (if flash_lit(song_timer) {
            seq![text_command("z"@, left, top + 35, DrawColor::MainKitty)]
        } else {
            Seq::empty()
        }),
    }
}

/// The veils, the border, the hints and the word that starts the game.
pub open spec fn select_frame_commands(song_timer: u32, sw: u32) -> Seq<DrawCommandView> {
    let cx = sw as int / 2;
    let start_x = cx - 25;
    let frame = pixel_box(box_margin(sw), RUN_TYPE_Y as int, BOX_WIDTH as int, BOX_HEIGHT as int);
    modal_bg_commands(pixel_box(0, 0, 159, 159), 0, DrawColor::Foreground) + modal_bg_commands(
        frame,
        0,
        DrawColor::Foreground,
    ) + modal_bg_commands(frame, 1, DrawColor::MainKitty) + (if flash_lit(song_timer) {
        seq![
            text_command(">"@, cx + 52, 72, DrawColor::MainKitty),
            text_command("x"@, start_x - 10, 136, DrawColor::MainKitty),
        ]
    } else {
        Seq::empty()
    }) + layertext_commands("Start!"@, start_x + 8, 136)
}

/// What the select screen shows for a run type.
pub open spec fn select_drawn(run_type: RunType, song_timer: u32, sw: u32, waves: Waves) -> Seq<
    DrawCommandView,
> {
    select_frame_commands(song_timer, sw) + run_type_commands(
        run_type,
        song_timer,
        box_margin(sw),
    ) + title_commands(
        song_timer,
        (sw as int / 2 - TITLE_HALF_WIDTH) as i32,
        (TITLE_Y - TITLE_RAISE) as i32,
        waves,
    )
}

/// What the select screen adds to the frame: a veil over the screen and
/// over the box of the run type, the border of that box, the hints, which
/// blink, the word that starts the game, the lines on the run type as it
/// is after this frame's buttons, and the title.
pub open spec fn select_screen_commands(m: GameModel, pressed: Seq<u8>, sw: u32, waves: Waves)
    -> Seq<DrawCommandView> {
    select_drawn(run_type_chosen(m.settings.run_type, pressed[0]), m.song_timer, sw, waves)
}

fn margin_of(sw: u32) -> (margin: i32)
    requires
        sw <= MAX_SCREEN_DIM,
    ensures
        margin == box_margin(sw),
        -60 <= margin <= 0x2000_0000,
{
    div_toward_zero(sw as i64 - BOX_WIDTH as i64, 2) as i32
}

fn draw_select_frame(song_timer: u32, sw: u32, out: &mut Vec<DrawCommand>)
    requires
        sw <= MAX_SCREEN_DIM,
    ensures
        command_views(final(out)@) == command_views(old(out)@) + select_frame_commands(
            song_timer,
            sw,
        ),
{
    let cx: i32 = (sw / 2) as i32;
    let margin: i32 = margin_of(sw);
    let start_x: i32 = cx - 25;
    let frame = AbsoluteBoundingBox {
        x: margin as i64 * UNITS_PER_PX,
        y: RUN_TYPE_Y as i64 * UNITS_PER_PX,
        width: BOX_WIDTH as i64 * UNITS_PER_PX,
        height: BOX_HEIGHT as i64 * UNITS_PER_PX,
    };
    proof {
        lemma_box_in_pixel_range_is_drawable(pixel_box(0, 0, 159, 159));
        lemma_box_in_pixel_range_is_drawable(frame);
    }
    draw_modal_bg(
        &AbsoluteBoundingBox { x: 0, y: 0, width: 159000, height: 159000 },
        0,
        &DrawColor::Foreground,
        out,
    );
    draw_modal_bg(&frame, 0, &DrawColor::Foreground, out);
    draw_modal_bg(&frame, 1, &DrawColor::MainKitty, out);
    let ghost before_hints = command_views(out@);
    if song_timer % 30 >= 15 {
        emit_text(out, ">", cx + 52, 72, DrawColor::MainKitty);
        emit_text(out, "x", start_x - 10, 136, DrawColor::MainKitty);
    }
    assert(command_views(out@) =~= before_hints + (if flash_lit(song_timer) {
        seq![
            text_command(">"@, cx + 52, 72, DrawColor::MainKitty),
            text_command("x"@, start_x - 10, 136, DrawColor::MainKitty),
        ]
    } else {
        Seq::empty()
    }));
    layertext(
        "Start!",
        start_x + SETTING_GROUP_INLAY_DIST + 3,
        START_Y + SETTING_GROUP_INLAY_DIST + 1,
        out,
    );
    assert(command_views(out@) =~= command_views(old(out)@) + select_frame_commands(
        song_timer,
        sw,
    ));
}

/// Draws the select screen for a run type.
fn draw_select(
    run_type: &RunType,
    song_timer: u32,
    sw: u32,
    waves: &Waves,
    out: &mut Vec<DrawCommand>,
)
    requires
        sw <= MAX_SCREEN_DIM,
        waves.wf(),
    ensures
        command_views(final(out)@) == command_views(old(out)@) + select_drawn(
            *run_type,
            song_timer,
            sw,
            *waves,
        ),
{
    draw_select_frame(song_timer, sw, out);
    draw_run_type(run_type, song_timer, margin_of(sw), out);
    proof {
        lemma_title_near_the_screen_fits(
            song_timer,
            (sw / 2 - TITLE_HALF_WIDTH) as i32,
            (TITLE_Y - TITLE_RAISE) as i32,
            *waves,
        );
    }
    render_title(
        song_timer,
        (sw / 2) as i32 - TITLE_HALF_WIDTH,
        TITLE_Y - TITLE_RAISE,
        waves,
        out,
    );
    assert(command_views(out@) =~= command_views(old(out)@) + select_drawn(
        *run_type,
        song_timer,
        sw,
        *waves,
    ));
}

fn draw_run_type(run_type: &RunType, song_timer: u32, margin: i32, out: &mut Vec<DrawCommand>)
    requires
        -0x1000 <= margin <= 0x4000_0000,
    ensures
        command_views(final(out)@) == command_views(old(out)@) + run_type_commands(
            *run_type,
            song_timer,
            margin as int,
        ),
{
    let left: i32 = margin + SETTING_GROUP_INLAY_DIST;
    let top: i32 = RUN_TYPE_Y + SETTING_GROUP_INLAY_DIST;
    match run_type {
        RunType::Random => {
            layertext("Normal Mode", left + 20, top, out);
            layertext("Random levels.", left, top + 15, out);
            layertext("Find kitties", left, top + 25, out);
            layertext("in time!", left, top + 35, out);
        },
        RunType::Speedrun(n) => {
            layertext("Seed Mode", left + 25, top, out);
            layertext("Fixed maps", left, top + 15, out);
            layertext("For speedruns!", left, top + 25, out);
            let seed: String = seed_text(*n);
            layertext(seed.as_str(), left + 1, top + 35, out);
            if song_timer % 30 >= 15 {
                emit_text(out, "z", left, top + 35, DrawColor::MainKitty);
            }
        },
    }
    assert(command_views(out@) =~= command_views(old(out)@) + run_type_commands(
        *run_type,
        song_timer,
        margin as int,
    ));
}

fn choose_run_type(run_type: RunType, pressed: u8) -> (chosen: RunType)
    ensures
        chosen == run_type_chosen(run_type, pressed),
{
    let toggled: RunType = if is_held(pressed, BUTTON_RIGHT | BUTTON_LEFT) {
        match run_type {
            RunType::Random => RunType::Speedrun(0),
            RunType::Speedrun(_) => RunType::Random,
        }
    } else {
        run_type
    };
    if is_held(pressed, BUTTON_2) {
        match toggled {
            RunType::Speedrun(n) => RunType::Speedrun(n.wrapping_add(1)),
            RunType::Random => toggled,
        }
    } else {
        toggled
    }
}

/// Runs a frame of the select screen.
pub fn step_select(
    game_state: &mut GameState,
    btns_pressed_this_frame: &[u8; 4],
    sw: u32,
    waves: &Waves,
    out: &mut Vec<DrawCommand>,
)
    requires
        old(game_state)@.wf(),
        old(game_state)@.game_mode is SelectScreen,
        sw <= MAX_SCREEN_DIM,
        waves.wf(),
    ensures
        final(game_state)@ == select_stepped(old(game_state)@, btns_pressed_this_frame@),
        final(game_state)@.wf(),
        final(game_state)@.npcs == old(game_state)@.npcs || forall|i: int|
            0 <= i < final(game_state)@.npcs.len() ==> (#[trigger] final(
                game_state
            )@.npcs[i]).following_i.is_none(),
        command_views(final(out)@) == command_views(old(out)@) + select_screen_commands(
            old(game_state)@,
            btns_pressed_this_frame@,
            sw,
            *waves,
        ),
{
    let pressed: u8 = btns_pressed_this_frame[0];
    let song_timer: u32 = game_state.song_timer;
    game_state.settings.run_type = choose_run_type(game_state.settings.run_type, pressed);
    let run_type: RunType = game_state.settings.run_type;
    if is_held(pressed, BUTTON_1) {
        match run_type {
            RunType::Speedrun(n) => {
                game_state.rng = GameRng::new_fixed_seed(n);
            },
            RunType::Random => {},
        }
        game_state.regenerate_map();
        game_state.game_mode = GameMode::NormalPlay(NormalPlayModes::MainGameplay);
    }
    draw_select(&run_type, song_timer, sw, waves, out);
}

} // verus!
