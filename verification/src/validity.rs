//! Run-time checks of well-formedness, for hosts that build or change a
//! state by hand before they run a frame on it.

use vstd::prelude::*;
use crate::ability_cards::{AbilityCard, AbilityCardTypes, CardStack, N_CARD_SLOTS};
use crate::camera::Camera;
use crate::cloud::{
    clouds_wf, Cloud, CLOUD_POSITION_LIMIT, CLOUD_SPEED_LIMIT, MAX_CLOUDS,
};
use crate::entities::{
    Character, OptionallyEnabledPlayer, CHARACTER_FRAMES, SPEED_LIMIT, X_MAX, X_MIN, Y_MAX, Y_MIN,
};
use crate::game_constants::{
    COUNTDOWN_TIMER_MAX, FINAL_LEVEL, MAX_N_NPCS, START_DIFFICULTY_LEVEL,
};
use crate::game_map::{
    Chunk, GameMap, MAX_CHUNKS, MAX_CHUNK_COORD, MAX_CHUNK_SIDE, N_TILESETS, TILESET_SIZE,
};
use crate::game_state::{GameState, N_SONGS};
use crate::menus::{
    GameMode, MenuTypes, Modal, NormalPlayModes, MODAL_COORD_LIMIT, MODAL_SIZE_LIMIT,
};
use crate::popup_text::{
    PopTextRingbuffer, PopupText, POPUP_CAPACITY, POPUP_DURATION, POPUP_POSITION_LIMIT,
};
use crate::spritesheet::{PresetSprites, Sprite, N_PALETTES};
use crate::subpixel::UNIT_LIMIT;

verus! {

fn within(v: i64, limit: i64) -> (ok: bool)
    requires
        0 <= limit < i64::MAX,
    ensures
        ok == (-limit <= v <= limit),
{
    -limit <= v && v <= limit
}

impl Sprite {
    /// Whether the strip is well formed.
    pub fn is_valid(&self) -> (ok: bool)
        ensures
            ok == self.wf(),
    {
        let frames: u32 = self.n_frames as u32;
        let width: u32 = self.first.width as u32;
        assert(frames * width <= 255 * 255) by (nonlinear_arith)
            requires
                frames <= 255,
                width <= 255,
        ;
        let span: u32 = frames * width;
        self.n_frames >= 1 && self.first.width >= 1 && self.first.height >= 1
            && self.first.start_x as u32 + span <= 256
    }

    /// Whether two strips are the same.
    pub fn same_as(&self, other: &Sprite) -> (same: bool)
        ensures
            same == (*self == *other),
    {
        self.n_frames == other.n_frames && self.first.start_x == other.first.start_x
            && self.first.start_y == other.first.start_y && self.first.width == other.first.width
            && self.first.height == other.first.height
    }
}

impl Character {
    /// Whether the character is well formed.
    pub fn is_valid(&self) -> (ok: bool)
        ensures
            ok == self.wf(),
    {
        let following_ok: bool = match self.following_i {
            Some(i) => i < 4,
            None => true,
        };
        X_MIN <= self.x_pos && self.x_pos <= X_MAX && Y_MIN <= self.y_pos && self.y_pos <= Y_MAX
            && within(self.x_vel, SPEED_LIMIT) && within(self.y_vel, SPEED_LIMIT)
            && self.sprite.is_valid() && self.sprite.n_frames == CHARACTER_FRAMES && 0
            <= self.current_sprite_i && self.current_sprite_i < CHARACTER_FRAMES as i32
            && following_ok
    }
}

impl AbilityCard {
    /// Whether the card is well formed.
    pub fn is_valid(&self) -> (ok: bool)
        ensures
            ok == self.wf(),
    {
        let preset = match self.kind {
            AbilityCardTypes::Time => PresetSprites::TimeCard,
            AbilityCardTypes::Fly => PresetSprites::FlyCard,
            AbilityCardTypes::Warp => PresetSprites::WarpCard,
        };
        let expected: Sprite = Sprite::from_preset(&preset);
        within(self.x_pos, UNIT_LIMIT) && within(self.y_pos, UNIT_LIMIT) && within(
            self.target_x,
            UNIT_LIMIT,
        ) && within(self.target_y, UNIT_LIMIT) && self.sprite.same_as(&expected)
    }
}

impl CardStack {
    /// Whether every card of the stack is well formed.
    pub fn is_valid(&self) -> (ok: bool)
        ensures
            ok == self.wf(),
    {
        let mut i: usize = 0;
        while i < N_CARD_SLOTS
            invariant
                i <= N_CARD_SLOTS,
                forall|k: int| 0 <= k < i ==> ((#[trigger] self.slot(k)) matches Some(c) ==> c.wf()),
            decreases N_CARD_SLOTS - i,
        {
            match self.get(i) {
                Some(c) => {
                    if !c.is_valid() {
                        assert(self.slot(i as int) == Some(c));
                        return false;
                    }
                },
                None => {},
            }
            i = i + 1;
        }
        true
    }
}

impl OptionallyEnabledPlayer {
    /// Whether the player in the slot, if there is one, is well formed.
    pub fn is_valid(&self) -> (ok: bool)
        ensures
            ok == self.wf(),
    {
        match self {
            OptionallyEnabledPlayer::Enabled(p) => p.character.is_valid()
                && p.card_stack.is_valid(),
            OptionallyEnabledPlayer::Disabled => true,
        }
    }
}

impl Camera {
    /// Whether the camera is well formed.
    pub fn is_valid(&self) -> (ok: bool)
        ensures
            ok == self.wf(),
    {
        X_MIN <= self.current_viewing_x_offset && self.current_viewing_x_offset <= X_MAX && Y_MIN
            <= self.current_viewing_y_offset && self.current_viewing_y_offset <= Y_MAX && X_MIN
            <= self.current_viewing_x_target && self.current_viewing_x_target <= X_MAX && Y_MIN
            <= self.current_viewing_y_target && self.current_viewing_y_target <= Y_MAX
    }
}

impl Cloud {
    /// Whether the cloud is well formed.
    pub fn is_valid(&self) -> (ok: bool)
        ensures
            ok == self.wf(),
    {
        within(self.x, CLOUD_POSITION_LIMIT) && within(self.y, CLOUD_POSITION_LIMIT) && within(
            self.vx,
            CLOUD_SPEED_LIMIT,
        ) && within(self.vy, CLOUD_SPEED_LIMIT)
    }
}

/// Whether a pool of clouds is well formed.
pub fn clouds_are_valid(clouds: &Vec<Cloud>) -> (ok: bool)
    ensures
        ok == clouds_wf(clouds@),
{
    let n: usize = clouds.len();
    if n > MAX_CLOUDS {
        return false;
    }
    let mut i: usize = 0;
    while i < n
        invariant
            i <= n,
            n == clouds@.len(),
            n <= MAX_CLOUDS,
            forall|k: int| 0 <= k < i ==> (#[trigger] clouds@[k]).wf(),
        decreases n - i,
    {
        if !clouds[i].is_valid() {
            return false;
        }
        i = i + 1;
    }
    true
}

/// Whether a list of animals is well formed.
pub fn npcs_are_valid(npcs: &Vec<Character>) -> (ok: bool)
    ensures
        ok == (npcs@.len() <= MAX_N_NPCS && forall|k: int|
            0 <= k < npcs@.len() ==> (#[trigger] npcs@[k]).wf()),
{
    let n: usize = npcs.len();
    if n > MAX_N_NPCS {
        return false;
    }
    let mut i: usize = 0;
    while i < n
        invariant
            i <= n,
            n == npcs@.len(),
            n <= MAX_N_NPCS,
            forall|k: int| 0 <= k < i ==> (#[trigger] npcs@[k]).wf(),
        decreases n - i,
    {
        if !npcs[i].is_valid() {
            return false;
        }
        i = i + 1;
    }
    true
}

impl PopupText {
    /// Whether the text is well formed.
    pub fn is_valid(&self) -> (ok: bool)
        ensures
            ok == self@.wf(),
    {
        within(self.x_pos, POPUP_POSITION_LIMIT) && within(self.y_pos, POPUP_POSITION_LIMIT)
            && within(self.target_x, POPUP_POSITION_LIMIT) && within(
            self.target_y,
            POPUP_POSITION_LIMIT,
        ) && self.duration_timer <= POPUP_DURATION
    }
}

impl PopTextRingbuffer {
    /// Whether the ring is well formed.
    pub fn is_valid(&self) -> (ok: bool)
        ensures
            ok == self@.wf(),
    {
        let n: usize = self.texts.len();
        assert(self@.texts.len() == n);
        if n != POPUP_CAPACITY || self.next_i >= POPUP_CAPACITY {
            return false;
        }
        let mut i: usize = 0;
        while i < n
            invariant
                i <= n,
                n == self.texts@.len(),
                n == self@.texts.len(),
                forall|k: int|
                    0 <= k < i ==> ((#[trigger] self@.texts[k]) matches Some(p) ==> p.wf()),
            decreases n - i,
        {
            assert(self@.texts[i as int] == crate::popup_text::slot_view(self.texts@[i as int]));
            match &self.texts[i] {
                Some(p) => {
                    if !p.is_valid() {
                        return false;
                    }
                },
                None => {},
            }
            i = i + 1;
        }
        true
    }
}

impl Modal {
    /// Whether the box is well formed.
    pub fn is_valid(&self) -> (ok: bool)
        ensures
            ok == self.wf(),
    {
        let reach: i64 = 1073750020000;
        let size: i64 = 4096000;
        let t = self.target_position;
        let a = self.actual_position;
        -MODAL_COORD_LIMIT <= t.x && t.x <= MODAL_COORD_LIMIT && -MODAL_COORD_LIMIT <= t.y && t.y
            <= MODAL_COORD_LIMIT && t.width <= MODAL_SIZE_LIMIT && t.height <= MODAL_SIZE_LIMIT
            && within(a.x, reach) && within(a.y, reach) && 0 <= a.width && a.width <= size && 0
            <= a.height && a.height <= size
    }
}

impl Chunk {
    /// Whether the chunk is well formed.
    pub fn is_valid(&self) -> (ok: bool)
        ensures
            ok == self@.wf(),
    {
        let b = self.bound;
        if b.width > MAX_CHUNK_SIDE || b.height > MAX_CHUNK_SIDE || b.x < -MAX_CHUNK_COORD || b.x
            > MAX_CHUNK_COORD || b.y < -MAX_CHUNK_COORD || b.y > MAX_CHUNK_COORD {
            return false;
        }
        assert(b.width * b.height <= 1024 * 1024) by (nonlinear_arith)
            requires
                b.width <= 1024,
                b.height <= 1024,
        ;
        let n: usize = self.tiles.len();
        if n as u64 != b.width as u64 * b.height as u64 {
            return false;
        }
        let mut i: usize = 0;
        while i < n
            invariant
                i <= n,
                n == self.tiles@.len(),
                forall|k: int| 0 <= k < i ==> #[trigger] self.tiles@[k] < TILESET_SIZE,
            decreases n - i,
        {
            if self.tiles[i] >= TILESET_SIZE {
                return false;
            }
            i = i + 1;
        }
        true
    }
}

impl GameMap {
    /// Whether the map is well formed.
    pub fn is_valid(&self) -> (ok: bool)
        ensures
            ok == self@.wf(),
    {
        let n: usize = self.chunks.len();
        if n > MAX_CHUNKS {
            return false;
        }
        let mut i: usize = 0;
        while i < n
            invariant
                i <= n,
                n == self.chunks@.len(),
                n == self@.chunks.len(),
                forall|k: int| 0 <= k < i ==> (#[trigger] self@.chunks[k]).wf(),
            decreases n - i,
        {
            assert(self@.chunks[i as int] == self.chunks@[i as int]@);
            if !self.chunks[i].is_valid() {
                return false;
            }
            i = i + 1;
        }
        true
    }
}

fn players_are_valid(players: &[OptionallyEnabledPlayer; 4]) -> (ok: bool)
    ensures
        ok == (forall|k: int| 0 <= k < 4 ==> (#[trigger] players@[k]).wf()),
{
    let mut i: usize = 0;
    while i < 4
        invariant
            i <= 4,
            forall|k: int| 0 <= k < i ==> (#[trigger] players@[k]).wf(),
        decreases 4 - i,
    {
        if !players[i].is_valid() {
            return false;
        }
        i = i + 1;
    }
    true
}

impl GameState {
    /// Whether the mode and the numbers of the state fit together.
    fn mode_is_valid(&self) -> (ok: bool)
        ensures
            ok == ({
                let m = self@;
                &&& m.game_mode.wf()
                &&& START_DIFFICULTY_LEVEL <= m.difficulty_level <= FINAL_LEVEL
                &&& 0 <= m.countdown_timer_msec <= COUNTDOWN_TIMER_MAX
                &&& (m.game_mode.is_main_gameplay() ==> m.countdown_timer_msec >= 1)
                &&& (m.game_mode.modal() matches Some(b) ==> (b.menu_type is WonLevel
                    ==> m.difficulty_level < FINAL_LEVEL))
                &&& (m.game_mode.modal() matches Some(b) ==> (b.menu_type is StartLevel
                    || b.menu_type is StartGameMessage || b.menu_type is WonLevel
                    ==> m.countdown_timer_msec >= 1))
                &&& 0 <= m.countdown_and_score_bonus
                &&& m.song_idx < N_SONGS
                &&& m.tileset_idx < N_TILESETS
                &&& m.pallette_idx < N_PALETTES
            }),
    {
        if self.difficulty_level < START_DIFFICULTY_LEVEL || self.difficulty_level > FINAL_LEVEL
            || self.countdown_timer_msec < 0 || self.countdown_timer_msec > COUNTDOWN_TIMER_MAX
            || self.countdown_and_score_bonus < 0 || self.song_idx >= N_SONGS || self.tileset_idx
            >= N_TILESETS || self.pallette_idx >= N_PALETTES {
            return false;
        }
        match self.game_mode {
            GameMode::NormalPlay(NormalPlayModes::MainGameplay) => self.countdown_timer_msec >= 1,
            GameMode::NormalPlay(NormalPlayModes::HoverModal(b)) => {
                if !b.is_valid() {
                    return false;
                }
                match b.menu_type {
                    MenuTypes::WonLevel => self.difficulty_level < FINAL_LEVEL
                        && self.countdown_timer_msec >= 1,
                    MenuTypes::StartLevel => self.countdown_timer_msec >= 1,
                    MenuTypes::StartGameMessage => self.countdown_timer_msec >= 1,
                    _ => true,
                }
            },
            _ => true,
        }
    }

    /// Whether the state is well formed, so that a frame can be run on it.
    pub fn is_valid(&self) -> (ok: bool)
        ensures
            ok == self@.wf(),
    {
        self.map.is_valid() && self.camera.is_valid() && players_are_valid(&self.players)
            && npcs_are_valid(&self.npcs) && clouds_are_valid(&self.clouds)
            && self.popup_text_ringbuffer.is_valid() && self.mode_is_valid()
    }
}

} // verus!
