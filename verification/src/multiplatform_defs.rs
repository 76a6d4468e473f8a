use vstd::prelude::*;

verus! {

pub const BUTTON_1: u8 = 1;

pub const BUTTON_2: u8 = 2;

pub const BUTTON_LEFT: u8 = 16;

pub const BUTTON_RIGHT: u8 = 32;

pub const BUTTON_UP: u8 = 64;

pub const BUTTON_DOWN: u8 = 128;

/// Which spritesheet a blit reads from.
#[derive(Clone, Copy, Debug, PartialEq, Eq, Structural)]
pub enum Spritesheet {
    Main,
    Title,
}

/// Mirroring applied to a blit.
#[derive(Clone, Copy, Debug, PartialEq, Eq, Structural)]
pub struct BlitSubFlags {
    pub flip_x: bool,
    pub flip_y: bool,
}

/// The four 24-bit RGB colors in use.
#[derive(Clone, Copy, Debug, PartialEq, Eq, Structural)]
pub struct Pallette {
    pub main_kitty: u32,
    pub pigs_lizards: u32,
    pub foreground: u32,
    pub background: u32,
}

/// A slot of the palette.
#[derive(Clone, Copy, Debug, PartialEq, Eq, Structural)]
pub enum DrawColor {
    MainKitty,
    PigsLizards,
    Foreground,
    Background,
}

/// The buttons of the four gamepads as they were held in the frame before.
#[derive(Clone, Copy, Debug, PartialEq, Eq)]
pub struct PreviousFrameInput(pub [u8; 4]);

/// Largest width and height of the screen that the game draws to, in pixels.
pub const MAX_SCREEN_DIM: u32 = 0x4000_0000;

/// Rows of the title image, each of which is drawn with its own shift.
pub const TITLE_ROWS: usize = 50;

/// Largest shifts that the host may hand in, in pixels.
pub const WAVE_SWAY_MAX: i32 = 4;

pub const WAVE_BOB_MAX: i32 = 5;

pub const WAVE_RIPPLE_MAX: i32 = 3000000;

/// The shifts of this frame's wave motions, in whole pixels. The host
/// works them out from the frame counter: sines are its business, and the
/// game stays in whole numbers. `modal_sway` rocks an open box,
/// `title_bob` lifts and lowers the title, and `title_ripple` shifts
/// each row of the title sideways.
#[derive(Clone, Copy, Debug, PartialEq, Eq)]
pub struct Waves {
    pub modal_sway: i32,
    pub title_bob: i32,
    pub title_ripple: [i32; 50],
}

impl Waves {
    /// Each shift is within its largest size.
    pub open spec fn wf(self) -> bool {
        &&& -WAVE_SWAY_MAX <= self.modal_sway <= WAVE_SWAY_MAX
        &&& -WAVE_BOB_MAX <= self.title_bob <= WAVE_BOB_MAX
        &&& forall|row: int|
            0 <= row < TITLE_ROWS ==> -WAVE_RIPPLE_MAX <= #[trigger] self.title_ripple@[row]
                <= WAVE_RIPPLE_MAX
    }

    /// No motion at all.
    pub fn still() -> (waves: Waves)
        ensures
            waves.wf(),
            waves.modal_sway == 0,
            waves.title_bob == 0,
            forall|row: int| 0 <= row < TITLE_ROWS ==> #[trigger] waves.title_ripple@[row] == 0,
    {
        Waves { modal_sway: 0, title_bob: 0, title_ripple: [0i32;50] }
    }

    /// Whether each shift is within its largest size.
    pub fn is_valid(&self) -> (ok: bool)
        ensures
            ok == self.wf(),
    {
        if self.modal_sway < -WAVE_SWAY_MAX || self.modal_sway > WAVE_SWAY_MAX {
            return false;
        }
        if self.title_bob < -WAVE_BOB_MAX || self.title_bob > WAVE_BOB_MAX {
            return false;
        }
        let mut row: usize = 0;
        while row < TITLE_ROWS
            invariant
                row <= TITLE_ROWS,
                forall|k: int|
                    0 <= k < row ==> -WAVE_RIPPLE_MAX <= #[trigger] self.title_ripple@[k]
                        <= WAVE_RIPPLE_MAX,
            decreases TITLE_ROWS - row,
        {
            let shift: i32 = self.title_ripple[row];
            if shift < -WAVE_RIPPLE_MAX || shift > WAVE_RIPPLE_MAX {
                return false;
            }
            row = row + 1;
        }
        true
    }
}

/// One request to the host's renderer. A frame is an ordered list of these:
/// later commands paint over earlier ones.
#[derive(Clone, Debug, PartialEq, Eq)]
pub enum DrawCommand {
    /// Copy a `width` by `height` region of a spritesheet to the screen.
    BlitSub {
        sheet: Spritesheet,
        x: i32,
        y: i32,
        width: u32,
        height: u32,
        src_x: u32,
        src_y: u32,
        flags: BlitSubFlags,
    },
    /// A one-pixel line between two points, both included.
    Line { x1: i32, y1: i32, x2: i32, y2: i32, color: DrawColor },
    /// The outline of a rectangle.
    Rect { x: i32, y: i32, width: u32, height: u32, color: DrawColor },
    /// A line of text whose top left corner is at `(x, y)`.
    TextStr { text: String, x: i32, y: i32, color: DrawColor },
    /// Replace the palette for everything drawn afterwards.
    SwitchPallette(Pallette),
}

/// What a `DrawCommand` says, with its text as a sequence of characters.
pub enum DrawCommandView {
    BlitSub {
        sheet: Spritesheet,
        x: i32,
        y: i32,
        width: u32,
        height: u32,
        src_x: u32,
        src_y: u32,
        flags: BlitSubFlags,
    },
    Line { x1: i32, y1: i32, x2: i32, y2: i32, color: DrawColor },
    Rect { x: i32, y: i32, width: u32, height: u32, color: DrawColor },
    TextStr { text: Seq<char>, x: i32, y: i32, color: DrawColor },
    SwitchPallette(Pallette),
}

impl View for DrawCommand {
    type V = DrawCommandView;

    open spec fn view(&self) -> DrawCommandView {
        match *self {
            DrawCommand::BlitSub { sheet, x, y, width, height, src_x, src_y, flags } => {
                DrawCommandView::BlitSub { sheet, x, y, width, height, src_x, src_y, flags }
            },
            DrawCommand::Line { x1, y1, x2, y2, color } => DrawCommandView::Line {
                x1,
                y1,
                x2,
                y2,
                color,
            },
            DrawCommand::Rect { x, y, width, height, color } => DrawCommandView::Rect {
                x,
                y,
                width,
                height,
                color,
            },
            DrawCommand::TextStr { text, x, y, color } => DrawCommandView::TextStr {
                text: text@,
                x,
                y,
                color,
            },
            DrawCommand::SwitchPallette(p) => DrawCommandView::SwitchPallette(p),
        }
    }
}

/// The views of a list of commands, in order.
pub open spec fn command_views(commands: Seq<DrawCommand>) -> Seq<DrawCommandView> {
    Seq::new(commands.len(), |i: int| commands[i]@)
}

/// Appends `command` to `out`.
pub fn emit(out: &mut Vec<DrawCommand>, command: DrawCommand)
    ensures
        command_views(final(out)@) == command_views(old(out)@).push(command@),
{
    out.push(command);
    assert(command_views(out@) =~= command_views(old(out)@).push(command@));
}

/// Appends a blit of the region at `(src_x, src_y)` of `sheet`.
pub fn emit_blit(
    out: &mut Vec<DrawCommand>,
    sheet: Spritesheet,
    x: i32,
    y: i32,
    width: u32,
    height: u32,
    src_x: u32,
    src_y: u32,
    flags: BlitSubFlags,
)
    ensures
        command_views(final(out)@) == command_views(old(out)@).push(
            DrawCommandView::BlitSub { sheet, x, y, width, height, src_x, src_y, flags },
        ),
{
    emit(out, DrawCommand::BlitSub { sheet, x, y, width, height, src_x, src_y, flags });
}

/// Appends a line from `(x1, y1)` to `(x2, y2)`.
pub fn emit_line(out: &mut Vec<DrawCommand>, x1: i32, y1: i32, x2: i32, y2: i32, color: DrawColor)
    ensures
        command_views(final(out)@) == command_views(old(out)@).push(
            DrawCommandView::Line { x1, y1, x2, y2, color },
        ),
{
    emit(out, DrawCommand::Line { x1, y1, x2, y2, color });
}

/// Appends a rectangle outline.
pub fn emit_rect(
    out: &mut Vec<DrawCommand>,
    x: i32,
    y: i32,
    width: u32,
    height: u32,
    color: DrawColor,
)
    ensures
        command_views(final(out)@) == command_views(old(out)@).push(
            DrawCommandView::Rect { x, y, width, height, color },
        ),
{
    emit(out, DrawCommand::Rect { x, y, width, height, color });
}

/// Appends a line of text.
pub fn emit_text(out: &mut Vec<DrawCommand>, text: &str, x: i32, y: i32, color: DrawColor)
    ensures
        command_views(final(out)@) == command_views(old(out)@).push(
            DrawCommandView::TextStr { text: text@, x, y, color },
        ),
{
    emit(out, DrawCommand::TextStr { text: text.to_owned(), x, y, color });
}

} // verus!
