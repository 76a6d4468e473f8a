//! What a frame of play ends with: the rules of the game while play goes
//! on, and the box that is open while it does not.

use vstd::prelude::*;
use crate::collision::{held, is_held, AbsoluteBoundingBox};
use crate::game_constants::{COUNTDOWN_TIMER_START, FINAL_LEVEL, START_DIFFICULTY_LEVEL};
use crate::game_state::{GameModel, GameState, RunType};
use crate::hud::{
    bonus_text, bonus_text_spec, found_kitties_text, found_kitties_text_spec, score_text,
    score_text_spec, time_text, time_text_spec, world_level_text, world_level_text_spec,
};
use crate::menus::{GameMode, MenuTypes, Modal, NormalPlayModes, INTERACTIVE_DELAY};
use crate::multiplatform_defs::{
    command_views, emit_text, DrawColor, DrawCommand, DrawCommandView, BUTTON_1, BUTTON_2,
    MAX_SCREEN_DIM,
};
use crate::play::{count_found, found_count};
use crate::render::{
    draw_modal_bg, draw_spriteframe, layertext, layertext_commands, modal_bg_commands,
    spriteframe_blit, text_command,
};
use crate::spritesheet::{preset_sprite, PresetSprites, Sprite, SpriteFrame};
use crate::subpixel::{px_of, to_px};

verus! {

/// Where the texts of the status bars stand: two pixels from the top, and
/// eight from the bottom.
pub const TOP_UI_TEXT_Y: i32 = 2;

pub const BOTTOM_UI_TEXT_Y_OFFSET: i32 = -8;

/// The title of a box is shown steadily for this many frames and then
/// blinks with this period.
pub const BLINK_START: u32 = 50;

pub const BLINK_TITLE_PERIOD: u32 = 17;

/// A box that announces a level closes by itself after this many frames.
pub const START_LEVEL_FRAMES: u32 = 100;

/// The texts of the status bars, as they are at the start of a frame's
/// rules.
pub struct HudTexts {
    pub world_level: String,
    pub score: String,
    pub found_kitties: String,
}

pub struct HudTextsView {
    pub world_level: Seq<char>,
    pub score: Seq<char>,
    pub found_kitties: Seq<char>,
}

impl View for HudTexts {
    type V = HudTextsView;

    open spec fn view(&self) -> HudTextsView {
        HudTextsView {
            world_level: self.world_level@,
            score: self.score@,
            found_kitties: self.found_kitties@,
        }
    }
}

/// How many animals follow a player.
pub open spec fn found_now(m: GameModel) -> u32 {
    found_count(m.npcs, m.npcs.len() as int) as u32
}

/// The texts of the status bars for a state.
pub open spec fn hud_texts_of(m: GameModel) -> HudTextsView {
    HudTextsView {
        world_level: world_level_text_spec(m.difficulty_level),
        score: score_text_spec(m.settings.run_type, m.score, m.speedrun_timer_msec),
        found_kitties: found_kitties_text_spec(
            found_now(m),
            m.total_npcs_to_find,
            m.countdown_timer_msec,
        ),
    }
}

/// Writes the texts of the status bars and counts the animals found.
pub fn hud_texts(game_state: &GameState) -> (r: (HudTexts, u32))
    requires
        game_state@.wf(),
    ensures
        r.0@ == hud_texts_of(game_state@),
        r.1 == found_now(game_state@),
{
    let found: u32 = count_found(&game_state.npcs);
    let texts = HudTexts {
        world_level: world_level_text(game_state.difficulty_level),
        score: score_text(
            &game_state.settings.run_type,
            game_state.score,
            game_state.speedrun_timer_msec,
        ),
        found_kitties: found_kitties_text(
            found,
            game_state.total_npcs_to_find,
            game_state.countdown_timer_msec,
        ),
    };
    (texts, found)
}

/// A box of the given size whose corner is `(left, up)` pixels left of and
/// above the middle of the screen.
pub open spec fn centered_box(sw: u32, sh: u32, left: int, up: int, width: u32, height: u32)
    -> AbsoluteBoundingBox<i32, u32> {
    AbsoluteBoundingBox {
        x: (sw / 2 - left) as i32,
        y: (sh / 2 - up) as i32,
        width,
        height,
    }
}

/// A mode in which a box of kind `menu_type` has just opened.
pub open spec fn opening(target: AbsoluteBoundingBox<i32, u32>, menu_type: MenuTypes) -> GameMode {
    GameMode::NormalPlay(NormalPlayModes::HoverModal(Modal::opened(target, menu_type)))
}

/// Whether the help box is due: once, at the first tick of the first level.
pub open spec fn tutorial_due(m: GameModel) -> bool {
    &&& m.difficulty_level == 1
    &&& m.countdown_timer_msec == COUNTDOWN_TIMER_START - 1
    &&& m.tutorial_text_counter == 0
}

/// The state after the help box had its chance to open.
pub open spec fn after_tutorial(m: GameModel, sw: u32, sh: u32) -> GameModel {
    if tutorial_due(m) {
        GameModel {
            tutorial_text_counter: 1,
            game_mode: opening(centered_box(sw, sh, 70, 70, 140, 140), MenuTypes::StartGameMessage),
            ..m
        }
    } else {
        m
    }
}

/// The state after the level was checked for being won: it is when every
/// animal to find has been found. The last level wins the game.
pub open spec fn after_win_check(m: GameModel, found: u32, sw: u32, sh: u32) -> GameModel {
    if m.total_npcs_to_find == found {
        GameModel {
            game_mode: if m.difficulty_level == FINAL_LEVEL {
                opening(
                    AbsoluteBoundingBox { x: 25, y: 35, width: 110, height: 65 },
                    MenuTypes::WonGame,
                )
            } else {
                opening(centered_box(sw, sh, 40, 40, 80, 40), MenuTypes::WonLevel)
            },
            song_idx: 0,
            song_timer: 0,
            ..m
        }
    } else {
        m
    }
}

/// The state after the clock ticked, unless it stands. A clock that has
/// run out ends the game.
pub open spec fn after_clock(m: GameModel) -> GameModel {
    if m.countdown_paused {
        m
    } else if m.countdown_timer_msec - 1 <= 0 {
        GameModel {
            speedrun_timer_msec: m.speedrun_timer_msec.wrapping_add(1),
            countdown_timer_msec: (m.countdown_timer_msec - 1) as i32,
            song_idx: 0,
            game_mode: opening(
                AbsoluteBoundingBox { x: 15, y: 50, width: 130, height: 60 },
                MenuTypes::Done,
            ),
            ..m
        }
    } else {
        GameModel {
            speedrun_timer_msec: m.speedrun_timer_msec.wrapping_add(1),
            countdown_timer_msec: (m.countdown_timer_msec - 1) as i32,
            ..m
        }
    }
}

/// The state after the rules of play: the help box, the win, the clock.
pub open spec fn played(m: GameModel, found: u32, sw: u32, sh: u32) -> GameModel {
    after_clock(after_win_check(after_tutorial(m, sw, sh), found, sw, sh))
}

/// What drawing the texts of the status bars adds to the frame.
pub open spec fn hud_commands(texts: HudTextsView, sh: u32) -> Seq<DrawCommandView> {
    layertext_commands(texts.world_level, 0, sh + BOTTOM_UI_TEXT_Y_OFFSET) + layertext_commands(
        texts.score,
        60,
        sh + BOTTOM_UI_TEXT_Y_OFFSET,
    ) + layertext_commands(texts.found_kitties, 9, TOP_UI_TEXT_Y as int) + seq![
        spriteframe_blit(preset_sprite(PresetSprites::Clock).frame_spec(0), 48, 1),
        spriteframe_blit(preset_sprite(PresetSprites::CatHead).frame_spec(0), 1, 3),
    ]
}

fn box_around_middle(sw: u32, sh: u32, left: i32, up: i32, width: u32, height: u32) -> (b:
    AbsoluteBoundingBox<i32, u32>)
    requires
        sw <= MAX_SCREEN_DIM,
        sh <= MAX_SCREEN_DIM,
        0 <= left <= 4096,
        0 <= up <= 4096,
        width <= 4096,
        height <= 4096,
    ensures
        b == centered_box(sw, sh, left as int, up as int, width, height),
        crate::menus::target_in_range(b),
{
    AbsoluteBoundingBox { x: (sw / 2) as i32 - left, y: (sh / 2) as i32 - up, width, height }
}

/// Applies the rules of play and draws the texts of the status bars.
pub fn play_on(
    game_state: &mut GameState,
    found: u32,
    texts: &HudTexts,
    sw: u32,
    sh: u32,
    out: &mut Vec<DrawCommand>,
)
    requires
        old(game_state)@.wf(),
        old(game_state)@.game_mode.is_main_gameplay(),
        sw <= MAX_SCREEN_DIM,
        sh <= MAX_SCREEN_DIM,
    ensures
        final(game_state)@ == played(old(game_state)@, found, sw, sh),
        final(game_state)@.wf(),
        final(game_state)@.npcs == old(game_state)@.npcs,
        command_views(final(out)@) == command_views(old(out)@) + hud_commands(texts@, sh),
{
    if game_state.difficulty_level == 1 && game_state.countdown_timer_msec == COUNTDOWN_TIMER_START
        - 1 && game_state.tutorial_text_counter == 0 {
        game_state.tutorial_text_counter = 1;
        game_state.game_mode = GameMode::NormalPlay(
            NormalPlayModes::HoverModal(
                Modal::new(
                    box_around_middle(sw, sh, 70, 70, 140, 140),
                    MenuTypes::StartGameMessage,
                ),
            ),
        );
    }
    if game_state.total_npcs_to_find == found {
        if game_state.difficulty_level == FINAL_LEVEL {
            game_state.game_mode = GameMode::NormalPlay(
                NormalPlayModes::HoverModal(
                    Modal::new(
                        AbsoluteBoundingBox { x: 25, y: 35, width: 110, height: 65 },
                        MenuTypes::WonGame,
                    ),
                ),
            );
        } else {
            game_state.game_mode = GameMode::NormalPlay(
                NormalPlayModes::HoverModal(
                    Modal::new(box_around_middle(sw, sh, 40, 40, 80, 40), MenuTypes::WonLevel),
                ),
            );
        }
        game_state.song_idx = 0;
        game_state.song_timer = 0;
    }
    if !game_state.countdown_paused {
        game_state.speedrun_timer_msec = game_state.speedrun_timer_msec.wrapping_add(1);
        game_state.countdown_timer_msec = game_state.countdown_timer_msec - 1;
        if game_state.countdown_timer_msec <= 0 {
            game_state.song_idx = 0;
            game_state.game_mode = GameMode::NormalPlay(
                NormalPlayModes::HoverModal(
                    Modal::new(
                        AbsoluteBoundingBox { x: 15, y: 50, width: 130, height: 60 },
                        MenuTypes::Done,
                    ),
                ),
            );
        }
    }
    let bottom: i32 = sh as i32 + BOTTOM_UI_TEXT_Y_OFFSET;
    layertext(texts.world_level.as_str(), 0, bottom, out);
    layertext(texts.score.as_str(), 60, bottom, out);
    layertext(texts.found_kitties.as_str(), 9, TOP_UI_TEXT_Y, out);
    let clock: SpriteFrame = Sprite::from_preset(&PresetSprites::Clock).frame(0);
    draw_spriteframe(&clock, 48, TOP_UI_TEXT_Y - 1, out);
    let cat_head: SpriteFrame = Sprite::from_preset(&PresetSprites::CatHead).frame(0);
    draw_spriteframe(&cat_head, 1, TOP_UI_TEXT_Y + 1, out);
    assert(command_views(out@) =~= command_views(old(out)@) + hud_commands(texts@, sh));
}

/// Whether a blinking title is lit: steadily at first, then in every
/// other stretch of `BLINK_TITLE_PERIOD` frames.
pub open spec fn blink_lit(text_timer: u32) -> bool {
    text_timer < BLINK_START || (text_timer / BLINK_TITLE_PERIOD) % 2 == 0
}

/// The frames that a box has taken button presses for: its age once it
/// does, and none before.
pub open spec fn text_timer_of(modal: Modal) -> u32 {
    if modal.options_ready() {
        modal.timer
    } else {
        0
    }
}

/// Whether a button closes the box in this frame.
pub open spec fn confirmed(modal: Modal, pressed: Seq<u8>) -> bool {
    modal.options_ready() && held(pressed[0], BUTTON_1 | BUTTON_2)
}

/// A line of text at `(x, y)` from the corner of a box.
pub open spec fn modal_text(modal: Modal, t: Seq<char>, x: int, y: int) -> DrawCommandView {
    text_command(
        t,
        px_of(modal.actual_position.x as int) + x,
        px_of(modal.actual_position.y as int) + y,
        DrawColor::Foreground,
    )
}

/// A picture at `(x, y)` from the corner of a box.
pub open spec fn modal_icon(modal: Modal, preset: PresetSprites, x: int, y: int)
    -> DrawCommandView {
    spriteframe_blit(
        preset_sprite(preset).frame_spec(0),
        (px_of(modal.actual_position.x as int) + x) as i32,
        (px_of(modal.actual_position.y as int) + y) as i32,
    )
}

/// What a box shows once it has grown: the texts and pictures of its kind.
pub open spec fn modal_contents(m: GameModel, modal: Modal, texts: HudTextsView) -> Seq<
    DrawCommandView,
> {
    let lit = blink_lit(text_timer_of(modal));
    match modal.menu_type {
        MenuTypes::WonLevel => if lit {
            seq![
                modal_text(modal, texts.world_level, 16, 12),
                modal_text(modal, "Clear!"@, 16, 22),
            ]
        } else {
            Seq::empty()
        },
        MenuTypes::StartLevel => seq![
            modal_text(modal, texts.world_level, 16, 12),
            modal_text(modal, "Start!"@, 16, 22),
            modal_text(modal, bonus_text_spec(m.countdown_and_score_bonus), 33, 35),
            modal_icon(modal, PresetSprites::Clock, 25, 34),
        ],
        MenuTypes::Done => (if lit {
            seq![modal_text(modal, "Time's Up!"@, 20, 14)]
        } else {
            Seq::empty()
        }) + seq![
            modal_text(modal, "End: "@ + texts.world_level, 8, 30),
            modal_text(modal, texts.score, 8, 40),
        ],
        MenuTypes::WonGame => (if lit {
            seq![modal_text(modal, "YOU WON!!!"@, 20, 14)]
        } else {
            Seq::empty()
        }) + seq![
            modal_text(modal, "End: "@ + texts.world_level, 8, 30),
            modal_text(modal, texts.score, 8, 40),
        ] + (if m.settings.run_type is Random {
            seq![modal_text(modal, time_text_spec(m.speedrun_timer_msec), 8, 50)]
        } else {
            Seq::empty()
        }),
        MenuTypes::StartGameMessage => seq![
            modal_text(modal, "-- GOAL --"@, 30, 10),
            modal_text(modal, "Find all the"@, 20, 25),
            modal_text(modal, "kitties in time!"@, 10, 40),
            modal_text(modal, "-- CONTROLS --"@, 14, 100),
            modal_text(modal, "     to move,"@, 24, 114),
            modal_text(modal, " =jump,  =card"@, 16, 126),
            modal_icon(modal, PresetSprites::CatHead, 20, 62),
            modal_text(modal, " = # kittes"@, 28, 62),
            modal_icon(modal, PresetSprites::Clock, 20, 78),
            modal_text(modal, " = time left"@, 28, 78),
        ],
    }
}

/// What drawing the open box adds to the frame: its background with a
/// border, and its contents once it has grown wide enough.
pub open spec fn modal_commands(m: GameModel, texts: HudTextsView, sway: i32) -> Seq<
    DrawCommandView,
> {
    match m.game_mode.modal() {
        Some(opened) => {
            let modal = opened.advanced(sway);
            modal_bg_commands(modal.actual_position, 1, DrawColor::Foreground) + (
            if modal.ready_to_show_text() {
                modal_contents(m, modal, texts)
            } else {
                Seq::empty()
            })
        },
        None => Seq::empty(),
    }
}

/// The state after a frame with an open box. The box grows and ages. Once
/// it takes button presses, either action button closes it: a won level
/// leads to the next level and the box that announces it, that box and the
/// help box lead back to play, and the end of a game leads to the title
/// screen at the first level. The box that announces a level also closes by
/// itself.
pub open spec fn modal_stepped(m: GameModel, pressed: Seq<u8>, sway: i32, sw: u32, sh: u32)
    -> GameModel {
    match m.game_mode.modal() {
        None => m,
        Some(opened) => {
            let modal = opened.advanced(sway);
            let shown = GameModel {
                game_mode: GameMode::NormalPlay(NormalPlayModes::HoverModal(modal)),
                ..m
            };
            let go = confirmed(modal, pressed);
            if !modal.ready_to_show_text() {
                shown
            } else {
                match modal.menu_type {
                    MenuTypes::WonLevel => if go {
                        (GameModel {
                            difficulty_level: (m.difficulty_level + 1) as u32,
                            game_mode: opening(
                                centered_box(sw, sh, 35, 40, 70, 50),
                                MenuTypes::StartLevel,
                            ),
                            ..shown
                        }).regenerated()
                    } else {
                        shown
                    },
                    MenuTypes::StartLevel => if text_timer_of(modal) > START_LEVEL_FRAMES || go {
                        GameModel {
                            game_mode: GameMode::NormalPlay(NormalPlayModes::MainGameplay),
                            ..shown
                        }
                    } else {
                        shown
                    },
                    MenuTypes::Done | MenuTypes::WonGame => if go {
                        GameModel {
                            difficulty_level: START_DIFFICULTY_LEVEL,
                            game_mode: GameMode::StartScreen,
                            ..shown
                        }
                    } else {
                        shown
                    },
                    MenuTypes::StartGameMessage => if go {
                        GameModel {
                            game_mode: GameMode::NormalPlay(NormalPlayModes::MainGameplay),
                            ..shown
                        }
                    } else {
                        shown
                    },
                }
            }
        },
    }
}

fn draw_modal_text(modal: &Modal, t: &str, x: i32, y: i32, out: &mut Vec<DrawCommand>)
    requires
        modal.wf(),
        0 <= x <= 4096,
        0 <= y <= 4096,
    ensures
        command_views(final(out)@) == command_views(old(out)@).push(
            modal_text(*modal, t@, x as int, y as int),
        ),
{
    let left: i32 = to_px(modal.actual_position.x);
    let top: i32 = to_px(modal.actual_position.y);
    proof {
        lemma_modal_corner(*modal);
    }
    emit_text(out, t, left + x, top + y, DrawColor::Foreground);
}

fn draw_modal_icon(modal: &Modal, preset: PresetSprites, x: i32, y: i32, out: &mut Vec<DrawCommand>)
    requires
        modal.wf(),
        0 <= x <= 4096,
        0 <= y <= 4096,
    ensures
        command_views(final(out)@) == command_views(old(out)@).push(
            modal_icon(*modal, preset, x as int, y as int),
        ),
{
    let left: i32 = to_px(modal.actual_position.x);
    let top: i32 = to_px(modal.actual_position.y);
    proof {
        lemma_modal_corner(*modal);
    }
    let frame: SpriteFrame = Sprite::from_preset(&preset).frame(0);
    draw_spriteframe(&frame, left + x, top + y, out);
}

proof fn lemma_modal_corner(modal: Modal)
    requires
        modal.wf(),
    ensures
        -0x4100_0000 <= px_of(modal.actual_position.x as int) <= 0x4100_0000,
        -0x4100_0000 <= px_of(modal.actual_position.y as int) <= 0x4100_0000,
        crate::render::box_is_drawable(modal.actual_position),
{
    let x = modal.actual_position.x;
    let y = modal.actual_position.y;
    crate::render::lemma_box_in_pixel_range_is_drawable(modal.actual_position);
    assert(-0x4100_0000 <= px_of(x as int) <= 0x4100_0000 && -0x4100_0000 <= px_of(y as int)
        <= 0x4100_0000) by (nonlinear_arith)
        requires
            -1073750020000 <= x <= 1073750020000,
            -1073750020000 <= y <= 1073750020000,
    ;
}

fn is_blink_lit(text_timer: u32) -> (lit: bool)
    ensures
        lit == blink_lit(text_timer),
{
    text_timer < BLINK_START || (text_timer / BLINK_TITLE_PERIOD) % 2 == 0
}

fn draw_end_of_game(
    game_state: &GameState,
    modal: &Modal,
    texts: &HudTexts,
    title: &str,
    lit: bool,
    with_time: bool,
    out: &mut Vec<DrawCommand>,
)
    requires
        modal.wf(),
    ensures
        command_views(final(out)@) == command_views(old(out)@) + (if lit {
            seq![modal_text(*modal, title@, 20, 14)]
        } else {
            Seq::empty()
        }) + seq![
            modal_text(*modal, "End: "@ + texts@.world_level, 8, 30),
            modal_text(*modal, texts@.score, 8, 40),
        ] + (if with_time {
            seq![modal_text(*modal, time_text_spec(game_state@.speedrun_timer_msec), 8, 50)]
        } else {
            Seq::empty()
        }),
{
    if lit {
        draw_modal_text(modal, title, 20, 14, out);
    }
    let mut ending = String::new();
    crate::text::push_text(&mut ending, "End: ");
    crate::text::push_text(&mut ending, texts.world_level.as_str());
    assert(ending@ =~= "End: "@ + texts@.world_level);
    draw_modal_text(modal, ending.as_str(), 8, 30, out);
    draw_modal_text(modal, texts.score.as_str(), 8, 40, out);
    if with_time {
        let played: String = time_text(game_state.speedrun_timer_msec);
        draw_modal_text(modal, played.as_str(), 8, 50, out);
    }
    assert(command_views(out@) =~= command_views(old(out)@) + (if lit {
        seq![modal_text(*modal, title@, 20, 14)]
    } else {
        Seq::empty()
    }) + seq![
        modal_text(*modal, "End: "@ + texts@.world_level, 8, 30),
        modal_text(*modal, texts@.score, 8, 40),
    ] + (if with_time {
        seq![modal_text(*modal, time_text_spec(game_state@.speedrun_timer_msec), 8, 50)]
    } else {
        Seq::empty()
    }));
}

fn draw_help(modal: &Modal, out: &mut Vec<DrawCommand>)
    requires
        modal.wf(),
    ensures
        command_views(final(out)@) == command_views(old(out)@) + seq![
            modal_text(*modal, "-- GOAL --"@, 30, 10),
            modal_text(*modal, "Find all the"@, 20, 25),
            modal_text(*modal, "kitties in time!"@, 10, 40),
            modal_text(*modal, "-- CONTROLS --"@, 14, 100),
            modal_text(*modal, "     to move,"@, 24, 114),
            modal_text(*modal, " =jump,  =card"@, 16, 126),
            modal_icon(*modal, PresetSprites::CatHead, 20, 62),
            modal_text(*modal, " = # kittes"@, 28, 62),
            modal_icon(*modal, PresetSprites::Clock, 20, 78),
            modal_text(*modal, " = time left"@, 28, 78),
        ],
{
    draw_modal_text(modal, "-- GOAL --", 30, 10, out);
    draw_modal_text(modal, "Find all the", 20, 25, out);
    draw_modal_text(modal, "kitties in time!", 10, 40, out);
    draw_modal_text(modal, "-- CONTROLS --", 14, 100, out);
    draw_modal_text(modal, "     to move,", 24, 114, out);
    draw_modal_text(modal, " =jump,  =card", 16, 126, out);
    draw_modal_icon(modal, PresetSprites::CatHead, 20, 62, out);
    draw_modal_text(modal, " = # kittes", 28, 62, out);
    draw_modal_icon(modal, PresetSprites::Clock, 20, 78, out);
    draw_modal_text(modal, " = time left", 28, 78, out);
    assert(command_views(out@) =~= command_views(old(out)@) + seq![
        modal_text(*modal, "-- GOAL --"@, 30, 10),
        modal_text(*modal, "Find all the"@, 20, 25),
        modal_text(*modal, "kitties in time!"@, 10, 40),
        modal_text(*modal, "-- CONTROLS --"@, 14, 100),
        modal_text(*modal, "     to move,"@, 24, 114),
        modal_text(*modal, " =jump,  =card"@, 16, 126),
        modal_icon(*modal, PresetSprites::CatHead, 20, 62),
        modal_text(*modal, " = # kittes"@, 28, 62),
        modal_icon(*modal, PresetSprites::Clock, 20, 78),
        modal_text(*modal, " = time left"@, 28, 78),
    ]);
}

/// Draws what a grown box shows.
fn draw_modal_contents(
    game_state: &GameState,
    modal: &Modal,
    texts: &HudTexts,
    out: &mut Vec<DrawCommand>,
)
    requires
        modal.wf(),
        game_state@.wf(),
    ensures
        command_views(final(out)@) == command_views(old(out)@) + modal_contents(
            game_state@,
            *modal,
            texts@,
        ),
{
    let ready: bool = modal.is_ready_to_show_text() && modal.timer >= INTERACTIVE_DELAY;
    let text_timer: u32 = if ready {
        modal.timer
    } else {
        0
    };
    let lit: bool = is_blink_lit(text_timer);
    match modal.menu_type {
        MenuTypes::WonLevel => {
            if lit {
                draw_modal_text(modal, texts.world_level.as_str(), 16, 12, out);
                draw_modal_text(modal, "Clear!", 16, 22, out);
            }
        },
        MenuTypes::StartLevel => {
            draw_modal_text(modal, texts.world_level.as_str(), 16, 12, out);
            draw_modal_text(modal, "Start!", 16, 22, out);
            let gained: String = bonus_text(game_state.countdown_and_score_bonus);
            draw_modal_text(modal, gained.as_str(), 33, 35, out);
            draw_modal_icon(modal, PresetSprites::Clock, 25, 34, out);
        },
        MenuTypes::Done => {
            draw_end_of_game(game_state, modal, texts, "Time's Up!", lit, false, out);
        },
        MenuTypes::WonGame => {
            let random: bool = match game_state.settings.run_type {
                RunType::Random => true,
                _ => false,
            };
            draw_end_of_game(game_state, modal, texts, "YOU WON!!!", lit, random, out);
        },
        MenuTypes::StartGameMessage => {
            draw_help(modal, out);
        },
    }
    assert(command_views(out@) =~= command_views(old(out)@) + modal_contents(
        game_state@,
        *modal,
        texts@,
    ));
}

/// Lets the open box grow, draws it, and closes it when its time has come.
pub fn step_modal(
    game_state: &mut GameState,
    texts: &HudTexts,
    btns_pressed_this_frame: &[u8; 4],
    sway: i32,
    sw: u32,
    sh: u32,
    out: &mut Vec<DrawCommand>,
)
    requires
        old(game_state)@.wf(),
        old(game_state)@.game_mode.modal().is_some(),
        -crate::menus::MODAL_SWAY_MAX <= sway <= crate::menus::MODAL_SWAY_MAX,
        sw <= MAX_SCREEN_DIM,
        sh <= MAX_SCREEN_DIM,
    ensures
        final(game_state)@ == modal_stepped(
            old(game_state)@,
            btns_pressed_this_frame@,
            sway,
            sw,
            sh,
        ),
        final(game_state)@.wf(),
        final(game_state)@.npcs == old(game_state)@.npcs || forall|i: int|
            0 <= i < final(game_state)@.npcs.len() ==> (#[trigger] final(
                game_state
            )@.npcs[i]).following_i.is_none(),
        command_views(final(out)@) == command_views(old(out)@) + modal_commands(
            old(game_state)@,
            texts@,
            sway,
        ),
{
    let ghost start = game_state@;
    let opened: Modal = match game_state.game_mode {
        GameMode::NormalPlay(NormalPlayModes::HoverModal(m)) => m,
        _ => {
            return ;
        },
    };
    let mut modal: Modal = opened;
    modal.advance(sway);
    game_state.game_mode = GameMode::NormalPlay(NormalPlayModes::HoverModal(modal));
    proof {
        lemma_modal_corner(modal);
    }
    draw_modal_bg(&modal.actual_position, 1, &DrawColor::Foreground, out);
    if modal.is_ready_to_show_text() {
        draw_modal_contents(game_state, &modal, texts, out);
        assert(modal_contents(game_state@, modal, texts@) == modal_contents(start, modal, texts@));
        let options: bool = modal.timer >= INTERACTIVE_DELAY;
        let go: bool = options && is_held(btns_pressed_this_frame[0], BUTTON_1 | BUTTON_2);
        let text_timer: u32 = if options {
            modal.timer
        } else {
            0
        };
        match modal.menu_type {
            MenuTypes::WonLevel => {
                if go {
                    game_state.difficulty_level = game_state.difficulty_level + 1;
                    game_state.game_mode = GameMode::NormalPlay(
                        NormalPlayModes::HoverModal(
                            Modal::new(
                                box_around_middle(sw, sh, 35, 40, 70, 50),
                                MenuTypes::StartLevel,
                            ),
                        ),
                    );
                    game_state.regenerate_map();
                }
            },
            MenuTypes::StartLevel => {
                if text_timer > START_LEVEL_FRAMES || go {
                    game_state.game_mode = GameMode::NormalPlay(NormalPlayModes::MainGameplay);
                }
            },
            MenuTypes::Done => {
                if go {
                    game_state.difficulty_level = START_DIFFICULTY_LEVEL;
                    game_state.game_mode = GameMode::StartScreen;
                }
            },
            MenuTypes::WonGame => {
                if go {
                    game_state.difficulty_level = START_DIFFICULTY_LEVEL;
                    game_state.game_mode = GameMode::StartScreen;
                }
            },
            MenuTypes::StartGameMessage => {
                if go {
                    game_state.game_mode = GameMode::NormalPlay(NormalPlayModes::MainGameplay);
                }
            },
        }
    }
    assert(command_views(out@) =~= command_views(old(out)@) + modal_commands(start, texts@, sway));
}

} // verus!
