//! The characters of the game: what is known of each, and the player slots.

use vstd::prelude::*;
use crate::ability_cards::CardStack;
use crate::game_constants::{X_LEFT_BOUND, X_RIGHT_BOUND, Y_LOWER_BOUND, Y_UPPER_BOUND};
use crate::spritesheet::{preset_sprite, PresetSprites, Sprite};
use crate::subpixel::UNITS_PER_PX;

verus! {

/// No character moves farther than this in a frame, along each axis. It is
/// less than the side of a tile.
pub const SPEED_LIMIT: i64 = 4999;

/// The edges of the world in position units.
pub const X_MIN: i64 = 0;

pub const X_MAX: i64 = 1280000;

pub const Y_MIN: i64 = 0;

pub const Y_MAX: i64 = 320000;

/// Frames in the strip of every character.
pub const CHARACTER_FRAMES: u8 = 4;

/// How a character stands to the tiles around it.
#[derive(Clone, Copy, Debug, PartialEq, Eq, Structural)]
pub enum KittyStates {
    Grounded,
    Airborne,
    /// Pressed against a ceiling, for this many frames so far.
    OnCeiling(u32),
    /// In the middle of a warp that ends in this many frames.
    Warping(u32),
}

/// The two phases of a warp.
#[derive(Clone, Copy, Debug, PartialEq, Eq, Structural)]
pub enum WarpState {
    /// The down button has been held for this many frames.
    Charging(u32),
    /// The warp ends in this many frames.
    Warping(u32),
}

#[derive(Clone, Copy, Debug, PartialEq, Eq, Structural)]
pub enum WarpAbility {
    CannotWarp,
    CanWarp(WarpState),
}

/// What kind of animal a character is.
#[derive(Clone, Copy, Debug, PartialEq, Eq, Structural)]
pub enum Species {
    Cat,
    Pig,
    Lizard,
}

/// A player's cat or one of the animals to be found. Positions and speeds
/// are in position units; `following_i` is the slot of the player that the
/// animal follows, once it was found.
#[derive(Clone, Copy, Debug, PartialEq, Eq, Structural)]
pub struct Character {
    pub x_pos: i64,
    pub y_pos: i64,
    pub x_vel: i64,
    pub y_vel: i64,
    pub is_facing_right: bool,
    pub state: KittyStates,
    pub current_sprite_i: i32,
    pub sprite: Sprite,
    pub species: Species,
    pub can_fly: bool,
    pub warp_ability: WarpAbility,
    pub following_i: Option<u8>,
}

#[derive(Clone, Copy, Debug, PartialEq, Eq, Structural)]
pub struct Player {
    pub character: Character,
    pub card_stack: CardStack,
    /// How many animals this player has found since the game began.
    pub kitties_found: u32,
}

#[derive(Clone, Copy, Debug, PartialEq, Eq, Structural)]
pub enum OptionallyEnabledPlayer {
    Enabled(Player),
    Disabled,
}

/// Anything that moves over the map.
#[derive(Clone, Copy, Debug, PartialEq, Eq, Structural)]
pub enum MovingEntity {
    OptionalPlayer(OptionallyEnabledPlayer),
    NPC(Character),
}

/// Whether `preset` is the strip of a character.
pub open spec fn is_character_preset(preset: PresetSprites) -> bool {
    preset_sprite(preset).n_frames == CHARACTER_FRAMES
}

impl Character {
    /// The position lies in the world.
    pub open spec fn in_bounds(self) -> bool {
        &&& X_LEFT_BOUND * UNITS_PER_PX <= self.x_pos <= X_RIGHT_BOUND * UNITS_PER_PX
        &&& Y_LOWER_BOUND * UNITS_PER_PX <= self.y_pos <= Y_UPPER_BOUND * UNITS_PER_PX
    }

    /// The character is in the world, not too fast, shows a frame that its
    /// strip has, and follows a player slot that exists, if any.
    pub open spec fn wf(self) -> bool {
        &&& self.in_bounds()
        &&& -SPEED_LIMIT <= self.x_vel <= SPEED_LIMIT
        &&& -SPEED_LIMIT <= self.y_vel <= SPEED_LIMIT
        &&& self.sprite.wf()
        &&& self.sprite.n_frames == CHARACTER_FRAMES
        &&& 0 <= self.current_sprite_i < CHARACTER_FRAMES
        &&& (self.following_i matches Some(i) ==> i < 4)
    }

    /// A character at rest in the air at `(x_pos, y_pos)`.
    pub open spec fn at_rest(preset: PresetSprites, species: Species, x_pos: i64, y_pos: i64)
        -> Character {
        Character {
            x_pos,
            y_pos,
            x_vel: 0,
            y_vel: 0,
            is_facing_right: true,
            state: KittyStates::Airborne,
            current_sprite_i: 0,
            sprite: preset_sprite(preset),
            species,
            can_fly: false,
            warp_ability: WarpAbility::CannotWarp,
            following_i: None,
        }
    }

    /// A character at rest in the air at `(x_pos, y_pos)`.
    pub fn new(preset: PresetSprites, species: Species, x_pos: i64, y_pos: i64) -> (c: Character)
        requires
            is_character_preset(preset),
            X_MIN <= x_pos <= X_MAX,
            Y_MIN <= y_pos <= Y_MAX,
        ensures
            c == Character::at_rest(preset, species, x_pos, y_pos),
            c.wf(),
    {
        Character {
            x_pos,
            y_pos,
            x_vel: 0,
            y_vel: 0,
            is_facing_right: true,
            state: KittyStates::Airborne,
            current_sprite_i: 0,
            sprite: Sprite::from_preset(&preset),
            species,
            can_fly: false,
            warp_ability: WarpAbility::CannotWarp,
            following_i: None,
        }
    }
}

impl Player {
    pub open spec fn wf(self) -> bool {
        self.character.wf() && self.card_stack.wf()
    }
}

impl OptionallyEnabledPlayer {
    pub open spec fn wf(self) -> bool {
        self matches OptionallyEnabledPlayer::Enabled(p) ==> p.wf()
    }
}

impl MovingEntity {
    pub open spec fn wf(self) -> bool {
        match self {
            MovingEntity::OptionalPlayer(p) => p.wf(),
            MovingEntity::NPC(c) => c.wf(),
        }
    }

    /// The character that moves, unless this is a player slot that is not in use.
    pub open spec fn character(self) -> Option<Character> {
        match self {
            MovingEntity::OptionalPlayer(OptionallyEnabledPlayer::Enabled(p)) => Some(p.character),
            MovingEntity::OptionalPlayer(OptionallyEnabledPlayer::Disabled) => None,
            MovingEntity::NPC(c) => Some(c),
        }
    }

    /// This entity with `c` in place of its character.
    pub open spec fn with_character(self, c: Character) -> MovingEntity {
        match self {
            MovingEntity::OptionalPlayer(OptionallyEnabledPlayer::Enabled(p)) => {
                MovingEntity::OptionalPlayer(
                    OptionallyEnabledPlayer::Enabled(Player { character: c, ..p }),
                )
            },
            MovingEntity::OptionalPlayer(OptionallyEnabledPlayer::Disabled) => self,
            MovingEntity::NPC(_) => MovingEntity::NPC(c),
        }
    }
}

} // verus!
