//! The modes of the game, and the boxes that open over the play field.

use vstd::prelude::*;
use crate::collision::AbsoluteBoundingBox;
use crate::subpixel::{ease, ease_spec, UNITS_PER_HALF_PX, UNITS_PER_PX};

verus! {

/// Hundredths of the remaining way that a box covers toward its target each frame.
pub const MODAL_EASE_PERCENT: i64 = 15;

/// A box shows its text once its width is within this of the target width,
/// in position units.
pub const MODAL_READY_TOLERANCE: i64 = 10000;

/// Frames before a box takes button presses.
pub const INTERACTIVE_DELAY: u32 = 60;

/// Target corners of a box lie within this many pixels of the origin.
pub const MODAL_COORD_LIMIT: i32 = 0x4000_1000;

/// Target sizes of a box are at most this many pixels.
pub const MODAL_SIZE_LIMIT: u32 = 4096;

/// A box rocks up and down by at most this many pixels.
pub const MODAL_SWAY_MAX: i32 = 4;

/// What a box over the play field says.
#[derive(Clone, Copy, Debug, PartialEq, Eq, Structural)]
pub enum MenuTypes {
    WonLevel,
    StartLevel,
    Done,
    WonGame,
    StartGameMessage,
}

/// A box that opens over the play field. `actual_position`, in position
/// units, is where it is drawn; it grows toward `target_position`, in
/// pixels. `timer` counts the frames since it opened.
#[derive(Clone, Copy, Debug, PartialEq, Eq)]
pub struct Modal {
    pub target_position: AbsoluteBoundingBox<i32, u32>,
    pub actual_position: AbsoluteBoundingBox<i64, i64>,
    pub menu_type: MenuTypes,
    pub timer: u32,
}

#[derive(Clone, Copy, Debug, PartialEq, Eq)]
pub enum NormalPlayModes {
    MainGameplay,
    HoverModal(Modal),
}

#[derive(Clone, Copy, Debug, PartialEq, Eq, Structural)]
pub enum SelectMenuFocuses {
    RunType,
}

#[derive(Clone, Copy, Debug, PartialEq, Eq, Structural)]
pub struct SelectSetup {
    pub current_selection: SelectMenuFocuses,
}

/// The mode of the whole game. Exactly one holds at any time.
#[derive(Clone, Copy, Debug, PartialEq, Eq)]
pub enum GameMode {
    StartScreen,
    SelectScreen(SelectSetup),
    NormalPlay(NormalPlayModes),
}

/// Whether `target` is a box that a modal may grow to.
pub open spec fn target_in_range(target: AbsoluteBoundingBox<i32, u32>) -> bool {
    &&& -MODAL_COORD_LIMIT <= target.x <= MODAL_COORD_LIMIT
    &&& -MODAL_COORD_LIMIT <= target.y <= MODAL_COORD_LIMIT
    &&& target.width <= MODAL_SIZE_LIMIT
    &&& target.height <= MODAL_SIZE_LIMIT
}

impl Modal {
    /// The target is in range, and the drawn box lies between the point
    /// where it opened and its target, the rocking included.
    pub open spec fn wf(self) -> bool {
        let reach = (MODAL_COORD_LIMIT + MODAL_SIZE_LIMIT + MODAL_SWAY_MAX) * UNITS_PER_PX;
        &&& target_in_range(self.target_position)
        &&& -reach <= self.actual_position.x <= reach
        &&& -reach <= self.actual_position.y <= reach
        &&& 0 <= self.actual_position.width <= MODAL_SIZE_LIMIT * UNITS_PER_PX
        &&& 0 <= self.actual_position.height <= MODAL_SIZE_LIMIT * UNITS_PER_PX
    }

    /// A box that has just opened: a point at the middle of its target.
    pub open spec fn opened(target: AbsoluteBoundingBox<i32, u32>, menu_type: MenuTypes) -> Modal {
        Modal {
            target_position: target,
            actual_position: AbsoluteBoundingBox {
                x: (target.x * UNITS_PER_PX + target.width * UNITS_PER_HALF_PX) as i64,
                y: (target.y * UNITS_PER_PX + target.height * UNITS_PER_HALF_PX) as i64,
                width: 0,
                height: 0,
            },
            menu_type,
            timer: 0,
        }
    }

    /// The box one frame later: grown toward its target, which is `sway`
    /// pixels lower than at rest, and one frame older.
    pub open spec fn advanced(self, sway: i32) -> Modal {
        Modal {
            actual_position: AbsoluteBoundingBox {
                x: ease_spec(
                    self.actual_position.x as int,
                    self.target_position.x * UNITS_PER_PX,
                    MODAL_EASE_PERCENT as int,
                ) as i64,
                y: ease_spec(
                    self.actual_position.y as int,
                    (self.target_position.y + sway) * UNITS_PER_PX,
                    MODAL_EASE_PERCENT as int,
                ) as i64,
                width: ease_spec(
                    self.actual_position.width as int,
                    self.target_position.width * UNITS_PER_PX,
                    MODAL_EASE_PERCENT as int,
                ) as i64,
                height: ease_spec(
                    self.actual_position.height as int,
                    self.target_position.height * UNITS_PER_PX,
                    MODAL_EASE_PERCENT as int,
                ) as i64,
            },
            timer: self.timer.wrapping_add(1),
            ..self
        }
    }

    /// Whether the box has grown wide enough to show its text.
    pub open spec fn ready_to_show_text(self) -> bool {
        let gap = self.actual_position.width - self.target_position.width * UNITS_PER_PX;
        -MODAL_READY_TOLERANCE < gap < MODAL_READY_TOLERANCE
    }

    /// Whether the box takes button presses: it shows its text and has been
    /// open for `INTERACTIVE_DELAY` frames.
    pub open spec fn options_ready(self) -> bool {
        self.ready_to_show_text() && self.timer >= INTERACTIVE_DELAY
    }

    /// Opens a box that grows to `target`.
    pub fn new(target: AbsoluteBoundingBox<i32, u32>, menu_type: MenuTypes) -> (modal: Modal)
        requires
            target_in_range(target),
        ensures
            modal == Modal::opened(target, menu_type),
            modal.wf(),
    {
        Modal {
            target_position: target,
            actual_position: AbsoluteBoundingBox {
                x: target.x as i64 * UNITS_PER_PX + target.width as i64 * UNITS_PER_HALF_PX,
                y: target.y as i64 * UNITS_PER_PX + target.height as i64 * UNITS_PER_HALF_PX,
                width: 0,
                height: 0,
            },
            menu_type,
            timer: 0,
        }
    }

    /// Lets the box grow and age by one frame.
    pub fn advance(&mut self, sway: i32)
        requires
            old(self).wf(),
            -MODAL_SWAY_MAX <= sway <= MODAL_SWAY_MAX,
        ensures
            *final(self) == old(self).advanced(sway),
            final(self).wf(),
    {
        let target = self.target_position;
        let actual = self.actual_position;
        self.actual_position = AbsoluteBoundingBox {
            x: ease(actual.x, target.x as i64 * UNITS_PER_PX, MODAL_EASE_PERCENT),
            y: ease(actual.y, (target.y as i64 + sway as i64) * UNITS_PER_PX, MODAL_EASE_PERCENT),
            width: ease(actual.width, target.width as i64 * UNITS_PER_PX, MODAL_EASE_PERCENT),
            height: ease(actual.height, target.height as i64 * UNITS_PER_PX, MODAL_EASE_PERCENT),
        };
        self.timer = self.timer.wrapping_add(1);
    }

    /// Whether the box has grown wide enough to show its text.
    pub fn is_ready_to_show_text(&self) -> (ready: bool)
        requires
            self.wf(),
        ensures
            ready == self.ready_to_show_text(),
    {
        let gap: i64 = self.actual_position.width - self.target_position.width as i64
            * UNITS_PER_PX;
        -MODAL_READY_TOLERANCE < gap && gap < MODAL_READY_TOLERANCE
    }
}

impl NormalPlayModes {
    pub open spec fn wf(self) -> bool {
        self matches NormalPlayModes::HoverModal(m) ==> m.wf()
    }
}

impl GameMode {
    /// The box of a modal mode is well formed.
    pub open spec fn wf(self) -> bool {
        self matches GameMode::NormalPlay(play) ==> play.wf()
    }

    /// The box that is open, if one is.
    pub open spec fn modal(self) -> Option<Modal> {
        match self {
            GameMode::NormalPlay(NormalPlayModes::HoverModal(m)) => Some(m),
            _ => None,
        }
    }

    /// Whether the game is in play with no box open.
    pub open spec fn is_main_gameplay(self) -> bool {
        self matches GameMode::NormalPlay(NormalPlayModes::MainGameplay)
    }
}

} // verus!
