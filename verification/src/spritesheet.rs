//! Where each picture lies on the main spritesheet, and the palettes.

use vstd::prelude::*;
use crate::multiplatform_defs::Pallette;

verus! {

/// A rectangle of the spritesheet.
#[derive(Clone, Copy, Debug, PartialEq, Eq, Structural)]
pub struct SpriteFrame {
    pub start_x: u8,
    pub start_y: u8,
    pub width: u8,
    pub height: u8,
}

/// A strip of equally sized frames that lie side by side on the sheet.
#[derive(Clone, Copy, Debug, PartialEq, Eq, Structural)]
pub struct Sprite {
    pub first: SpriteFrame,
    pub n_frames: u8,
}

/// The sprites that the game knows by name.
#[derive(Clone, Copy, Debug, PartialEq, Eq, Structural)]
pub enum PresetSprites {
    MainCat,
    Kitty1,
    Kitty2,
    Kitty3,
    Kitty4,
    Pig,
    Lizard,
    TimeCard,
    FlyCard,
    WarpCard,
    Clock,
    CatHead,
    Cloud,
}

/// How many palettes there are.
pub const N_PALETTES: usize = 4;

/// How many background tiles the sheet holds, the blank tile 0 included.
pub const N_BACKGROUND_TILES: u8 = 17;

/// The value that selects all four palette colors for sprites.
pub const KITTY_SPRITESHEET_DRAW_COLORS: u16 = 0x4320;

pub open spec fn strip(start_x: u8, start_y: u8, width: u8, height: u8, n_frames: u8) -> Sprite {
    Sprite { first: SpriteFrame { start_x, start_y, width, height }, n_frames }
}

/// The strip that a preset names.
pub open spec fn preset_sprite(preset: PresetSprites) -> Sprite {
    match preset {
        PresetSprites::MainCat => strip(0, 0, 8, 8, 4),
        PresetSprites::Kitty1 => strip(32, 0, 8, 8, 4),
        PresetSprites::Kitty2 => strip(64, 0, 8, 8, 4),
        PresetSprites::Kitty3 => strip(96, 0, 8, 8, 4),
        PresetSprites::Kitty4 => strip(128, 0, 8, 8, 4),
        PresetSprites::Pig => strip(0, 8, 8, 8, 4),
        PresetSprites::Lizard => strip(32, 8, 8, 8, 4),
        PresetSprites::TimeCard => strip(0, 16, 12, 16, 1),
        PresetSprites::FlyCard => strip(12, 16, 12, 16, 1),
        PresetSprites::WarpCard => strip(24, 16, 12, 16, 1),
        PresetSprites::Clock => strip(36, 16, 8, 8, 1),
        PresetSprites::CatHead => strip(44, 16, 8, 8, 1),
        PresetSprites::Cloud => strip(52, 16, 8, 8, 1),
    }
}

/// The frame of background tile `tile_i`: tiles lie in one row of the sheet.
pub open spec fn background_tile_spec(tile_i: u8) -> SpriteFrame {
    SpriteFrame { start_x: (tile_i * 5) as u8, start_y: 40, width: 5, height: 5 }
}

/// The four colors of palette `idx`.
pub open spec fn palette_spec(idx: usize) -> Pallette {
    if idx == 0 {
        Pallette {
            main_kitty: 0xf8ffd2,
            pigs_lizards: 0xff6633,
            foreground: 0xe4f288,
            background: 0x57dab2,
        }
    } else if idx == 1 {
        Pallette {
            main_kitty: 0xfff6d3,
            pigs_lizards: 0xf9a875,
            foreground: 0xeb6b6f,
            background: 0x7c3f58,
        }
    } else if idx == 2 {
        Pallette {
            main_kitty: 0xe0f8cf,
            pigs_lizards: 0x86c06c,
            foreground: 0x306850,
            background: 0x071821,
        }
    } else {
        Pallette {
            main_kitty: 0xffe9c5,
            pigs_lizards: 0xff9d57,
            foreground: 0x8b6cc6,
            background: 0x2b2b52,
        }
    }
}

impl Sprite {
    /// The strip has a frame, its frames have an area, and all lie on the sheet.
    pub open spec fn wf(self) -> bool {
        &&& self.n_frames >= 1
        &&& self.first.width >= 1
        &&& self.first.height >= 1
        &&& self.first.start_x + self.n_frames * self.first.width <= 256
    }

    /// Frame `i` of the strip.
    pub open spec fn frame_spec(self, i: int) -> SpriteFrame {
        SpriteFrame {
            start_x: (self.first.start_x + i * self.first.width) as u8,
            start_y: self.first.start_y,
            width: self.first.width,
            height: self.first.height,
        }
    }

    /// Frame `i` of the strip.
    pub fn frame(&self, i: usize) -> (f: SpriteFrame)
        requires
            self.wf(),
            i < self.n_frames,
        ensures
            f == self.frame_spec(i as int),
            f.width == self.first.width,
            f.height == self.first.height,
    {
        assert(i * self.first.width <= self.n_frames * self.first.width) by (nonlinear_arith)
            requires
                i < self.n_frames,
                self.first.width >= 0,
        ;
        let offset: usize = i * (self.first.width as usize);
        SpriteFrame {
            start_x: (self.first.start_x as usize + offset) as u8,
            start_y: self.first.start_y,
            width: self.first.width,
            height: self.first.height,
        }
    }

    /// The strip that `preset` names.
    pub fn from_preset(preset: &PresetSprites) -> (sprite: Sprite)
        ensures
            sprite == preset_sprite(*preset),
            sprite.wf(),
    {
        match preset {
            PresetSprites::MainCat => Sprite::at(0, 0, 8, 8, 4),
            PresetSprites::Kitty1 => Sprite::at(32, 0, 8, 8, 4),
            PresetSprites::Kitty2 => Sprite::at(64, 0, 8, 8, 4),
            PresetSprites::Kitty3 => Sprite::at(96, 0, 8, 8, 4),
            PresetSprites::Kitty4 => Sprite::at(128, 0, 8, 8, 4),
            PresetSprites::Pig => Sprite::at(0, 8, 8, 8, 4),
            PresetSprites::Lizard => Sprite::at(32, 8, 8, 8, 4),
            PresetSprites::TimeCard => Sprite::at(0, 16, 12, 16, 1),
            PresetSprites::FlyCard => Sprite::at(12, 16, 12, 16, 1),
            PresetSprites::WarpCard => Sprite::at(24, 16, 12, 16, 1),
            PresetSprites::Clock => Sprite::at(36, 16, 8, 8, 1),
            PresetSprites::CatHead => Sprite::at(44, 16, 8, 8, 1),
            PresetSprites::Cloud => Sprite::at(52, 16, 8, 8, 1),
        }
    }

    fn at(start_x: u8, start_y: u8, width: u8, height: u8, n_frames: u8) -> (sprite: Sprite)
        ensures
            sprite == strip(start_x, start_y, width, height, n_frames),
    {
        Sprite { first: SpriteFrame { start_x, start_y, width, height }, n_frames }
    }
}

/// The frame of background tile `tile_i`.
pub fn background_tile(tile_i: u8) -> (f: SpriteFrame)
    requires
        tile_i < N_BACKGROUND_TILES,
    ensures
        f == background_tile_spec(tile_i),
{
    SpriteFrame { start_x: tile_i * 5, start_y: 40, width: 5, height: 5 }
}

/// The four colors of palette `idx`; an index past the last palette gives the last.
pub fn palette(idx: usize) -> (p: Pallette)
    ensures
        p == palette_spec(idx),
{
    if idx == 0 {
        Pallette {
            main_kitty: 0xf8ffd2,
            pigs_lizards: 0xff6633,
            foreground: 0xe4f288,
            background: 0x57dab2,
        }
    } else if idx == 1 {
        Pallette {
            main_kitty: 0xfff6d3,
            pigs_lizards: 0xf9a875,
            foreground: 0xeb6b6f,
            background: 0x7c3f58,
        }
    } else if idx == 2 {
        Pallette {
            main_kitty: 0xe0f8cf,
            pigs_lizards: 0x86c06c,
            foreground: 0x306850,
            background: 0x071821,
        }
    } else {
        Pallette {
            main_kitty: 0xffe9c5,
            pigs_lizards: 0xff9d57,
            foreground: 0x8b6cc6,
            background: 0x2b2b52,
        }
    }
}

} // verus!
