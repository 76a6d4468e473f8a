//! The game on a fantasy console with a 160 by 160 screen, four colors and
//! four gamepads: each drawing command becomes the calls that the console
//! takes, and the gamepads become the buttons of a frame.

use vstd::prelude::*;
use crate::frame::{frame_commands, frame_state, kittygame_update, FrameInput};
use crate::game_constants::TITLE_WIDTH;
use crate::game_state::GameState;
use crate::multiplatform_defs::{
    command_views, BlitSubFlags, DrawColor, DrawCommand, DrawCommandView, Pallette,
    PreviousFrameInput, Spritesheet, Waves,
};
use crate::spritesheet::KITTY_SPRITESHEET_DRAW_COLORS;

verus! {

/// Width and height of the console's screen.
pub const SCREEN_SIZE: u32 = 160;

/// The console's flags for a blit: two bits per pixel, and the mirrorings.
pub const BLIT_2BPP: u32 = 1;

pub const BLIT_FLIP_X: u32 = 2;

pub const BLIT_FLIP_Y: u32 = 4;

/// Flags and widths of the two spritesheets as the console stores them.
pub const KITTY_SPRITESHEET_FLAGS: u32 = BLIT_2BPP;

pub const KITTY_SPRITESHEET_STRIDE: u32 = 192;

pub const TITLE_FLAGS: u32 = BLIT_2BPP;

/// The draw colors that show the title.
pub const TITLE_DRAW_COLORS: u16 = 0x0034;

/// One call into the console.
#[derive(Clone, Debug, PartialEq, Eq)]
pub enum ConsoleCall {
    /// Store the draw colors register.
    DrawColors(u16),
    /// Copy a region of a sprite sheet that is `stride` pixels wide.
    BlitSub {
        sheet: Spritesheet,
        x: i32,
        y: i32,
        width: u32,
        height: u32,
        src_x: u32,
        src_y: u32,
        stride: u32,
        flags: u32,
    },
    Line { x1: i32, y1: i32, x2: i32, y2: i32 },
    Rect { x: i32, y: i32, width: u32, height: u32 },
    Text { text: String, x: i32, y: i32 },
    /// Store the palette register: background, foreground, pigs and
    /// lizards, main kitty.
    Palette([u32; 4]),
}

/// What a `ConsoleCall` says, with its text as a sequence of characters.
pub enum ConsoleCallView {
    DrawColors(u16),
    BlitSub {
        sheet: Spritesheet,
        x: i32,
        y: i32,
        width: u32,
        height: u32,
        src_x: u32,
        src_y: u32,
        stride: u32,
        flags: u32,
    },
    Line { x1: i32, y1: i32, x2: i32, y2: i32 },
    Rect { x: i32, y: i32, width: u32, height: u32 },
    Text { text: Seq<char>, x: i32, y: i32 },
    Palette(Seq<u32>),
}

impl View for ConsoleCall {
    type V = ConsoleCallView;

    open spec fn view(&self) -> ConsoleCallView {
        match *self {
            ConsoleCall::DrawColors(c) => ConsoleCallView::DrawColors(c),
            ConsoleCall::BlitSub { sheet, x, y, width, height, src_x, src_y, stride, flags } => {
                ConsoleCallView::BlitSub {
                    sheet,
                    x,
                    y,
                    width,
                    height,
                    src_x,
                    src_y,
                    stride,
                    flags,
                }
            },
            ConsoleCall::Line { x1, y1, x2, y2 } => ConsoleCallView::Line { x1, y1, x2, y2 },
            ConsoleCall::Rect { x, y, width, height } => ConsoleCallView::Rect {
                x,
                y,
                width,
                height,
            },
            ConsoleCall::Text { text, x, y } => ConsoleCallView::Text { text: text@, x, y },
            ConsoleCall::Palette(p) => ConsoleCallView::Palette(p@),
        }
    }
}

/// The views of a list of calls, in order.
pub open spec fn call_views(calls: Seq<ConsoleCall>) -> Seq<ConsoleCallView> {
    Seq::new(calls.len(), |i: int| calls[i]@)
}

fn call(out: &mut Vec<ConsoleCall>, c: ConsoleCall)
    ensures
        call_views(final(out)@) == call_views(old(out)@).push(c@),
{
    out.push(c);
    assert(call_views(out@) =~= call_views(old(out)@).push(c@));
}

/// The draw colors that paint with one color of the palette.
pub open spec fn draw_color_of(color: DrawColor) -> u16 {
    match color {
        DrawColor::MainKitty => 4,
        DrawColor::PigsLizards => 3,
        DrawColor::Foreground => 2,
        DrawColor::Background => 1,
    }
}

/// The draw colors that paint with one color of the palette.
pub fn map_draw_color(color: &DrawColor) -> (c: u16)
    ensures
        c == draw_color_of(*color),
{
    match color {
        DrawColor::MainKitty => 4,
        DrawColor::PigsLizards => 3,
        DrawColor::Foreground => 2,
        DrawColor::Background => 1,
    }
}

/// The console's flags for a blit from `sheet` that is mirrored as `flags` say.
pub open spec fn blit_flags_of(sheet: Spritesheet, flags: BlitSubFlags) -> u32 {
    let base = match sheet {
        Spritesheet::Main => KITTY_SPRITESHEET_FLAGS,
        Spritesheet::Title => TITLE_FLAGS,
    };
    let with_x = if flags.flip_x {
        base | BLIT_FLIP_X
    } else {
        base
    };
    if flags.flip_y {
        with_x | BLIT_FLIP_Y
    } else {
        with_x
    }
}

/// The calls for a blit: the draw colors of the sheet, and the blit with
/// the sheet's width and flags.
pub open spec fn blit_calls(
    sheet: Spritesheet,
    x: i32,
    y: i32,
    width: u32,
    height: u32,
    src_x: u32,
    src_y: u32,
    flags: BlitSubFlags,
) -> Seq<ConsoleCallView> {
    seq![
        ConsoleCallView::DrawColors(
            match sheet {
                Spritesheet::Main => KITTY_SPRITESHEET_DRAW_COLORS,
                Spritesheet::Title => TITLE_DRAW_COLORS,
            },
        ),
        ConsoleCallView::BlitSub {
            sheet,
            x,
            y,
            width,
            height,
            src_x,
            src_y,
            stride: match sheet {
                Spritesheet::Main => KITTY_SPRITESHEET_STRIDE,
                Spritesheet::Title => TITLE_WIDTH,
            },
            flags: blit_flags_of(sheet, flags),
        },
    ]
}

/// The calls for one drawing command. A line, a rectangle and a text set
/// the draw colors first.
pub open spec fn calls_of(command: DrawCommandView) -> Seq<ConsoleCallView> {
    match command {
        DrawCommandView::BlitSub { sheet, x, y, width, height, src_x, src_y, flags } => blit_calls(
            sheet,
            x,
            y,
            width,
            height,
            src_x,
            src_y,
            flags,
        ),
        DrawCommandView::Line { x1, y1, x2, y2, color } => seq![
            ConsoleCallView::DrawColors(draw_color_of(color)),
            ConsoleCallView::Line { x1, y1, x2, y2 },
        ],
        DrawCommandView::Rect { x, y, width, height, color } => seq![
            ConsoleCallView::DrawColors(draw_color_of(color)),
            ConsoleCallView::Rect { x, y, width, height },
        ],
        DrawCommandView::TextStr { text, x, y, color } => seq![
            ConsoleCallView::DrawColors(draw_color_of(color)),
            ConsoleCallView::Text { text, x, y },
        ],
        DrawCommandView::SwitchPallette(p) => seq![
            ConsoleCallView::Palette(
                seq![p.background, p.foreground, p.pigs_lizards, p.main_kitty],
            ),
        ],
    }
}

/// The calls for the first `upto` commands of a list.
pub open spec fn console_calls(commands: Seq<DrawCommandView>, upto: int) -> Seq<ConsoleCallView>
    decreases upto,
{
    if upto <= 0 {
        Seq::empty()
    } else {
        console_calls(commands, upto - 1) + calls_of(commands[upto - 1])
    }
}

/// Appends the calls for a blit.
pub fn my_blit_sub(
    spritesheet: Spritesheet,
    x: i32,
    y: i32,
    w: u32,
    h: u32,
    src_x: u32,
    src_y: u32,
    flags: BlitSubFlags,
    out: &mut Vec<ConsoleCall>,
)
    ensures
        call_views(final(out)@) == call_views(old(out)@) + blit_calls(
            spritesheet,
            x,
            y,
            w,
            h,
            src_x,
            src_y,
            flags,
        ),
{
    let colors: u16 = match spritesheet {
        Spritesheet::Main => KITTY_SPRITESHEET_DRAW_COLORS,
        Spritesheet::Title => TITLE_DRAW_COLORS,
    };
    call(out, ConsoleCall::DrawColors(colors));
    let mut bitflags: u32 = match spritesheet {
        Spritesheet::Main => KITTY_SPRITESHEET_FLAGS,
        Spritesheet::Title => TITLE_FLAGS,
    };
    if flags.flip_x {
        bitflags = bitflags | BLIT_FLIP_X;
    }
    if flags.flip_y {
        bitflags = bitflags | BLIT_FLIP_Y;
    }
    let stride: u32 = match spritesheet {
        Spritesheet::Main => KITTY_SPRITESHEET_STRIDE,
        Spritesheet::Title => TITLE_WIDTH,
    };
    call(
        out,
        ConsoleCall::BlitSub {
            sheet: spritesheet,
            x,
            y,
            width: w,
            height: h,
            src_x,
            src_y,
            stride,
            flags: bitflags,
        },
    );
    assert(call_views(out@) =~= call_views(old(out)@) + blit_calls(
        spritesheet,
        x,
        y,
        w,
        h,
        src_x,
        src_y,
        flags,
    ));
}

/// Appends the calls for a line.
pub fn my_line(x1: i32, y1: i32, x2: i32, y2: i32, color: &DrawColor, out: &mut Vec<ConsoleCall>)
    ensures
        call_views(final(out)@) == call_views(old(out)@) + calls_of(
            DrawCommandView::Line { x1, y1, x2, y2, color: *color },
        ),
{
    call(out, ConsoleCall::DrawColors(map_draw_color(color)));
    call(out, ConsoleCall::Line { x1, y1, x2, y2 });
    assert(call_views(out@) =~= call_views(old(out)@) + calls_of(
        DrawCommandView::Line { x1, y1, x2, y2, color: *color },
    ));
}

/// Appends the calls for a rectangle.
pub fn my_rect(x1: i32, y1: i32, w: u32, h: u32, color: &DrawColor, out: &mut Vec<ConsoleCall>)
    ensures
        call_views(final(out)@) == call_views(old(out)@) + calls_of(
            DrawCommandView::Rect { x: x1, y: y1, width: w, height: h, color: *color },
        ),
{
    call(out, ConsoleCall::DrawColors(map_draw_color(color)));
    call(out, ConsoleCall::Rect { x: x1, y: y1, width: w, height: h });
    assert(call_views(out@) =~= call_views(old(out)@) + calls_of(
        DrawCommandView::Rect { x: x1, y: y1, width: w, height: h, color: *color },
    ));
}

/// Appends the calls for a text.
pub fn my_text_str(t: &str, x: i32, y: i32, color: &DrawColor, out: &mut Vec<ConsoleCall>)
    ensures
        call_views(final(out)@) == call_views(old(out)@) + calls_of(
            DrawCommandView::TextStr { text: t@, x, y, color: *color },
        ),
{
    call(out, ConsoleCall::DrawColors(map_draw_color(color)));
    call(out, ConsoleCall::Text { text: t.to_owned(), x, y });
    assert(call_views(out@) =~= call_views(old(out)@) + calls_of(
        DrawCommandView::TextStr { text: t@, x, y, color: *color },
    ));
}

/// Appends the call that stores the palette.
pub fn set_palette(palette: &Pallette, out: &mut Vec<ConsoleCall>)
    ensures
        call_views(final(out)@) == call_views(old(out)@) + calls_of(
            DrawCommandView::SwitchPallette(*palette),
        ),
{
    let colors: [u32; 4] = [
        palette.background,
        palette.foreground,
        palette.pigs_lizards,
        palette.main_kitty,
    ];
    assert(colors@ =~= seq![
        palette.background,
        palette.foreground,
        palette.pigs_lizards,
        palette.main_kitty,
    ]);
    call(out, ConsoleCall::Palette(colors));
    assert(call_views(out@) =~= call_views(old(out)@) + calls_of(
        DrawCommandView::SwitchPallette(*palette),
    ));
}

/// The buttons of a gamepad that went down in this frame: those that are
/// held now and were not in the frame before.
pub open spec fn pressed_now(gamepad: u8, previous: u8) -> u8 {
    gamepad & (gamepad ^ previous)
}

/// The buttons of a frame, from the gamepads as they are and as they were:
/// first those that went down in this frame, then those that are held. The
/// gamepads are remembered for the next frame.
pub fn get_inputs_this_frame(gamepads: [u8; 4], previous_gamepad: &mut PreviousFrameInput) -> (inputs:
    [[u8; 4]; 2])
    ensures
        inputs@[1]@ == gamepads@,
        inputs@[0]@.len() == 4,
        forall|i: int|
            0 <= i < 4 ==> #[trigger] inputs@[0]@[i] == pressed_now(
                gamepads@[i],
                old(previous_gamepad).0@[i],
            ),
        final(previous_gamepad).0@ == gamepads@,
{
    let mut pressed: [u8; 4] = [0u8;4];
    let mut i: usize = 0;
    while i < 4
        invariant
            i <= 4,
            *previous_gamepad == *old(previous_gamepad),
            forall|k: int|
                0 <= k < i ==> #[trigger] pressed@[k] == pressed_now(
                    gamepads@[k],
                    previous_gamepad.0@[k],
                ),
        decreases 4 - i,
    {
        let gamepad: u8 = gamepads[i];
        let previous: u8 = previous_gamepad.0[i];
        pressed[i] = gamepad & (gamepad ^ previous);
        i = i + 1;
    }
    previous_gamepad.0 = gamepads;
    [pressed, gamepads]
}

/// Appends the calls for one drawing command.
pub fn push_console_calls(command: &DrawCommand, out: &mut Vec<ConsoleCall>)
    ensures
        call_views(final(out)@) == call_views(old(out)@) + calls_of(command@),
{
    match command {
        DrawCommand::BlitSub { sheet, x, y, width, height, src_x, src_y, flags } => {
            my_blit_sub(*sheet, *x, *y, *width, *height, *src_x, *src_y, *flags, out);
        },
        DrawCommand::Line { x1, y1, x2, y2, color } => {
            my_line(*x1, *y1, *x2, *y2, color, out);
        },
        DrawCommand::Rect { x, y, width, height, color } => {
            my_rect(*x, *y, *width, *height, color, out);
        },
        DrawCommand::TextStr { text, x, y, color } => {
            my_text_str(text.as_str(), *x, *y, color, out);
        },
        DrawCommand::SwitchPallette(p) => {
            set_palette(p, out);
        },
    }
}

/// Runs one frame on the console: works out the buttons from the
/// gamepads, runs the game on the console's screen, and returns the calls
/// that draw the frame, in order.
pub fn update(
    game_state: &mut GameState,
    previous_gamepad: &mut PreviousFrameInput,
    gamepads: [u8; 4],
    waves: &Waves,
) -> (calls: Vec<ConsoleCall>)
    requires
        old(game_state)@.wf(),
        waves.wf(),
    ensures
        ({
            let input = FrameInput {
                sw: SCREEN_SIZE,
                sh: SCREEN_SIZE,
                pressed: Seq::new(
                    4,
                    |i: int| pressed_now(gamepads@[i], old(previous_gamepad).0@[i]),
                ),
                held: gamepads@,
                waves: *waves,
            };
            let commands = frame_commands(old(game_state)@, input);
            &&& final(game_state)@ == frame_state(old(game_state)@, input)
            &&& call_views(calls@) == console_calls(commands, commands.len() as int)
        }),
        final(game_state)@.wf(),
        final(previous_gamepad).0@ == gamepads@,
{
    let inputs: [[u8; 4]; 2] = get_inputs_this_frame(gamepads, previous_gamepad);
    let pressed: [u8; 4] = inputs[0];
    let held: [u8; 4] = inputs[1];
    assert(pressed@ =~= Seq::new(
        4,
        |i: int| pressed_now(gamepads@[i], old(previous_gamepad).0@[i]),
    ));
    assert(held@ == gamepads@);
    let commands: Vec<DrawCommand> = kittygame_update(
        game_state,
        SCREEN_SIZE,
        SCREEN_SIZE,
        &pressed,
        &held,
        waves,
    );
    let mut calls: Vec<ConsoleCall> = Vec::new();
    let n: usize = commands.len();
    let mut i: usize = 0;
    assert(call_views(calls@) =~= console_calls(command_views(commands@), 0));
    while i < n
        invariant
            i <= n,
            n == commands@.len(),
            call_views(calls@) == console_calls(command_views(commands@), i as int),
        decreases n - i,
    {
        push_console_calls(&commands[i], &mut calls);
        assert(command_views(commands@)[i as int] == commands@[i as int]@);
        i = i + 1;
    }
    calls
}

} // verus!
