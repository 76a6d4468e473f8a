//! Everything the game remembers from one frame to the next, and how a
//! level is set up.

use vstd::prelude::*;
use crate::ability_cards::CardStack;
use crate::camera::Camera;
use crate::cloud::{clouds_wf, Cloud};
use crate::entities::{Character, KittyStates, OptionallyEnabledPlayer, Player, Species};
use crate::game_constants::{
    CHUNK_SIDE_TILES, COUNTDOWN_TIMER_MAX, COUNTDOWN_TIMER_START, FINAL_LEVEL, LEVELS_PER_MOOD,
    MAX_COLS_OF_CHUNKS, MAX_N_NPCS, START_DIFFICULTY_LEVEL, TILE_HEIGHT_PX, TILE_WIDTH_PX,
};
use crate::game_map::{
    generated_map, is_open_row_tile, lemma_generated_reachable, reachable, spawn_tile, GameMap,
    GameMapView, DRAWS_PER_CHUNK, N_TILESETS,
};
use crate::menus::GameMode;
use crate::popup_text::{PopTextRingbuffer, PopTextRingbufferView};
use crate::rng::{lemma_worldgen_adds, GameRng, Rng};
use crate::spritesheet::{PresetSprites, N_PALETTES};
use crate::subpixel::px_of;

verus! {

/// Draws that the generator makes before the first level is built.
pub const PREWARM_DRAWS: u32 = 20;

/// Draws that place one animal: its column, its height and its kind.
pub const DRAWS_PER_NPC: u32 = 3;

/// Songs that the host knows: 0 is the fanfare, 1 the title song, and each
/// mood has one after that.
pub const N_SONGS: usize = 6;

/// Where the first player starts a level, in position units.
pub const SPAWN_X: i64 = 10000;

pub const SPAWN_Y: i64 = 307000;

/// How the levels of a game come about.
#[derive(Clone, Copy, Debug, PartialEq, Eq, Structural)]
pub enum RunType {
    /// Levels differ from game to game.
    Random,
    /// The levels are those of this seed, in every game.
    Speedrun(u32),
}

#[derive(Clone, Copy, Debug, PartialEq, Eq, Structural)]
pub struct Settings {
    pub run_type: RunType,
}

/// The whole state of the game.
#[derive(Clone, Debug)]
pub struct GameState {
    pub map: GameMap,
    pub camera: Camera,
    pub players: [OptionallyEnabledPlayer; 4],
    pub npcs: Vec<Character>,
    pub clouds: Vec<Cloud>,
    pub popup_text_ringbuffer: PopTextRingbuffer,
    pub rng: GameRng,
    pub game_mode: GameMode,
    pub settings: Settings,
    pub score: i32,
    /// Frames left on the clock.
    pub countdown_timer_msec: i32,
    pub countdown_paused: bool,
    /// Frames that the current level added to the clock and to the score.
    pub countdown_and_score_bonus: i32,
    /// Frames played since the game began.
    pub speedrun_timer_msec: u32,
    pub difficulty_level: u32,
    pub total_npcs_to_find: u32,
    pub tutorial_text_counter: u32,
    pub song_timer: u32,
    pub song_idx: usize,
    pub tileset_idx: usize,
    pub pallette_idx: usize,
    pub godmode: bool,
}

/// The state of the game with its lists as sequences.
pub struct GameModel {
    pub map: GameMapView,
    pub camera: Camera,
    pub players: Seq<OptionallyEnabledPlayer>,
    pub npcs: Seq<Character>,
    pub clouds: Seq<Cloud>,
    pub popups: PopTextRingbufferView,
    pub rng: GameRng,
    pub game_mode: GameMode,
    pub settings: Settings,
    pub score: i32,
    pub countdown_timer_msec: i32,
    pub countdown_paused: bool,
    pub countdown_and_score_bonus: i32,
    pub speedrun_timer_msec: u32,
    pub difficulty_level: u32,
    pub total_npcs_to_find: u32,
    pub tutorial_text_counter: u32,
    pub song_timer: u32,
    pub song_idx: usize,
    pub tileset_idx: usize,
    pub pallette_idx: usize,
    pub godmode: bool,
}

impl View for GameState {
    type V = GameModel;

    open spec fn view(&self) -> GameModel {
        GameModel {
            map: self.map@,
            camera: self.camera,
            players: self.players@,
            npcs: self.npcs@,
            clouds: self.clouds@,
            popups: self.popup_text_ringbuffer@,
            rng: self.rng,
            game_mode: self.game_mode,
            settings: self.settings,
            score: self.score,
            countdown_timer_msec: self.countdown_timer_msec,
            countdown_paused: self.countdown_paused,
            countdown_and_score_bonus: self.countdown_and_score_bonus,
            speedrun_timer_msec: self.speedrun_timer_msec,
            difficulty_level: self.difficulty_level,
            total_npcs_to_find: self.total_npcs_to_find,
            tutorial_text_counter: self.tutorial_text_counter,
            song_timer: self.song_timer,
            song_idx: self.song_idx,
            tileset_idx: self.tileset_idx,
            pallette_idx: self.pallette_idx,
            godmode: self.godmode,
        }
    }
}

/// How many chunks wide level `level` is.
pub open spec fn level_columns(level: u32) -> u32 {
    if 2 + (level - 1) / 2 > MAX_COLS_OF_CHUNKS {
        MAX_COLS_OF_CHUNKS
    } else {
        (2 + (level - 1) / 2) as u32
    }
}

/// How many animals level `level` holds.
pub open spec fn level_npcs(level: u32) -> usize {
    if 3 + level > MAX_N_NPCS {
        MAX_N_NPCS
    } else {
        (3 + level) as usize
    }
}

/// Frames that reaching level `level` adds to the clock and the score.
pub open spec fn level_bonus(level: u32) -> i32 {
    ((10 + 2 * level) * 60) as i32
}

/// The mood of level `level`: it picks the tiles, the palette and the song.
pub open spec fn level_mood(level: u32) -> usize {
    (((level - 1) / LEVELS_PER_MOOD as int) % N_TILESETS as int) as usize
}

/// The sprite of an animal of kind `kind`.
pub open spec fn npc_preset(kind: u32) -> PresetSprites {
    if kind % 8 == 0 || kind % 8 == 4 {
        PresetSprites::Kitty1
    } else if kind % 8 == 1 || kind % 8 == 5 {
        PresetSprites::Kitty2
    } else if kind % 8 == 2 {
        PresetSprites::Kitty3
    } else if kind % 8 == 3 {
        PresetSprites::Kitty4
    } else if kind % 8 == 6 {
        PresetSprites::Pig
    } else {
        PresetSprites::Lizard
    }
}

/// What animal an animal of kind `kind` is.
pub open spec fn npc_species(kind: u32) -> Species {
    if kind % 8 == 6 {
        Species::Pig
    } else if kind % 8 == 7 {
        Species::Lizard
    } else {
        Species::Cat
    }
}

/// The column of tiles that the draw `a` puts an animal in: between the
/// walls, with room for its width.
pub open spec fn npc_column(n_cols: u32, a: u32) -> int {
    2 + a as int % (n_cols * CHUNK_SIDE_TILES - 5)
}

/// The pixel row of the top of an animal that the draw `b` puts on
/// one of the fifteen platform rows or on the ground.
pub open spec fn npc_top_px(b: u32) -> int {
    let shelf = 1 + b as int % 16;
    if shelf == 16 {
        307
    } else {
        20 * shelf - 8
    }
}

/// The animal that three draws place in a level `n_cols` chunks wide.
pub open spec fn spawned_npc(n_cols: u32, a: u32, b: u32, kind: u32) -> Character {
    Character::at_rest(
        npc_preset(kind),
        npc_species(kind),
        (npc_column(n_cols, a) * TILE_WIDTH_PX * 1000) as i64,
        (npc_top_px(b) * 1000) as i64,
    )
}

/// The tile under the top left corner of a character.
pub open spec fn tile_of(c: Character) -> (int, int) {
    (
        px_of(c.x_pos as int) / TILE_WIDTH_PX as int,
        px_of(c.y_pos as int) / TILE_HEIGHT_PX as int,
    )
}

/// A player as a game begins: a cat at the spawn point, without cards.
pub open spec fn fresh_player() -> Player {
    Player {
        character: Character::at_rest(PresetSprites::MainCat, Species::Cat, SPAWN_X, SPAWN_Y),
        card_stack: CardStack::empty(),
        kitties_found: 0,
    }
}

/// The first player's slot as level `level` begins. The first level, and a
/// slot that was not in use, get a fresh player; later levels put the player
/// back at the spawn point, at rest, with all that it has gained.
pub open spec fn respawned(slot: OptionallyEnabledPlayer, level: u32) -> OptionallyEnabledPlayer {
    match slot {
        OptionallyEnabledPlayer::Enabled(p) if level != START_DIFFICULTY_LEVEL => {
            OptionallyEnabledPlayer::Enabled(
                Player {
                    character: Character {
                        x_pos: SPAWN_X,
                        y_pos: SPAWN_Y,
                        x_vel: 0,
                        y_vel: 0,
                        state: KittyStates::Airborne,
                        current_sprite_i: 0,
                        ..p.character
                    },
                    ..p
                },
            )
        },
        _ => OptionallyEnabledPlayer::Enabled(fresh_player()),
    }
}

impl GameModel {
    /// Every part is well formed, the level is one of the game's, the clock
    /// is in range and has not run out while play goes on or is about to, and
    /// a level that was just won is not the last.
    pub open spec fn wf(self) -> bool {
        &&& self.map.wf()
        &&& self.camera.wf()
        &&& self.players.len() == 4
        &&& forall|i: int| 0 <= i < 4 ==> (#[trigger] self.players[i]).wf()
        &&& self.npcs.len() <= MAX_N_NPCS
        &&& forall|i: int| 0 <= i < self.npcs.len() ==> (#[trigger] self.npcs[i]).wf()
        &&& clouds_wf(self.clouds)
        &&& self.popups.wf()
        &&& self.game_mode.wf()
        &&& START_DIFFICULTY_LEVEL <= self.difficulty_level <= FINAL_LEVEL
        &&& 0 <= self.countdown_timer_msec <= COUNTDOWN_TIMER_MAX
        &&& (self.game_mode.is_main_gameplay() ==> self.countdown_timer_msec >= 1)
        &&& (self.game_mode.modal() matches Some(m) ==> (m.menu_type is WonLevel
            ==> self.difficulty_level < FINAL_LEVEL))
        &&& (self.game_mode.modal() matches Some(m) ==> (m.menu_type is StartLevel
            || m.menu_type is StartGameMessage || m.menu_type is WonLevel
            ==> self.countdown_timer_msec >= 1))
        &&& 0 <= self.countdown_and_score_bonus
        &&& self.song_idx < N_SONGS
        &&& self.tileset_idx < N_TILESETS
        &&& self.pallette_idx < N_PALETTES
    }

    /// How many draws build the map of the current level.
    pub open spec fn map_draws(self) -> nat {
        (level_columns(self.difficulty_level) * 2 * DRAWS_PER_CHUNK) as nat
    }

    /// The animal in place `i` of the current level, as the draws that follow
    /// those for the map place it.
    pub open spec fn regenerated_npc(self, i: int) -> Character {
        let at = self.map_draws() + DRAWS_PER_NPC * i;
        spawned_npc(
            level_columns(self.difficulty_level),
            self.rng.worldgen_value(at as nat),
            self.rng.worldgen_value((at + 1) as nat),
            self.rng.worldgen_value((at + 2) as nat),
        )
    }

    /// The state after the current level was set up: its map and animals
    /// follow from the next draws for world generation, the first player
    /// stands at the spawn point, and the clock and score have their start
    /// values on the first level and the level's bonus on later ones.
    pub open spec fn regenerated(self) -> GameModel {
        let level = self.difficulty_level;
        let first = level == START_DIFFICULTY_LEVEL;
        let bonus = level_bonus(level);
        GameModel {
            map: generated_map(level_columns(level) as int, self.rng),
            players: self.players.update(0, respawned(self.players[0], level)),
            npcs: Seq::new(level_npcs(level) as nat, |i: int| self.regenerated_npc(i)),
            clouds: Seq::empty(),
            rng: self.rng.after_worldgen(
                (self.map_draws() + DRAWS_PER_NPC * level_npcs(level)) as nat,
            ),
            score: if first {
                0
            } else {
                self.score.wrapping_add(bonus)
            },
            countdown_timer_msec: if first {
                COUNTDOWN_TIMER_START
            } else if self.countdown_timer_msec + bonus > COUNTDOWN_TIMER_MAX {
                COUNTDOWN_TIMER_MAX
            } else {
                (self.countdown_timer_msec + bonus) as i32
            },
            countdown_and_score_bonus: bonus,
            speedrun_timer_msec: if first {
                0
            } else {
                self.speedrun_timer_msec
            },
            total_npcs_to_find: level_npcs(level) as u32,
            song_idx: (2 + level_mood(level)) as usize,
            tileset_idx: level_mood(level),
            pallette_idx: level_mood(level),
            ..self
        }
    }
}

fn columns_of_level(level: u32) -> (n_cols: u32)
    requires
        START_DIFFICULTY_LEVEL <= level <= FINAL_LEVEL,
    ensures
        n_cols == level_columns(level),
        2 <= n_cols <= MAX_COLS_OF_CHUNKS,
{
    let wanted: u32 = 2 + (level - 1) / 2;
    if wanted > MAX_COLS_OF_CHUNKS {
        MAX_COLS_OF_CHUNKS
    } else {
        wanted
    }
}

fn npcs_of_level(level: u32) -> (n: usize)
    requires
        START_DIFFICULTY_LEVEL <= level <= FINAL_LEVEL,
    ensures
        n == level_npcs(level),
        1 <= n <= MAX_N_NPCS,
{
    let wanted: usize = 3 + level as usize;
    if wanted > MAX_N_NPCS {
        MAX_N_NPCS
    } else {
        wanted
    }
}

fn mood_of_level(level: u32) -> (mood: usize)
    requires
        START_DIFFICULTY_LEVEL <= level <= FINAL_LEVEL,
    ensures
        mood == level_mood(level),
        mood < 4,
{
    (((level - 1) / LEVELS_PER_MOOD) % 4) as usize
}

/// Places one animal from three draws.
fn spawn_npc(n_cols: u32, a: u32, b: u32, kind: u32) -> (npc: Character)
    requires
        2 <= n_cols <= MAX_COLS_OF_CHUNKS,
    ensures
        npc == spawned_npc(n_cols, a, b, kind),
        npc.wf(),
        is_open_row_tile(n_cols as int, tile_of(npc).0, tile_of(npc).1),
{
    let k: u32 = kind % 8;
    let preset = if k == 0 || k == 4 {
        PresetSprites::Kitty1
    } else if k == 1 || k == 5 {
        PresetSprites::Kitty2
    } else if k == 2 {
        PresetSprites::Kitty3
    } else if k == 3 {
        PresetSprites::Kitty4
    } else if k == 6 {
        PresetSprites::Pig
    } else {
        PresetSprites::Lizard
    };
    let species = if k == 6 {
        Species::Pig
    } else if k == 7 {
        Species::Lizard
    } else {
        Species::Cat
    };
    let column: u32 = 2 + a % (n_cols * CHUNK_SIDE_TILES - 5);
    let shelf: u32 = 1 + b % 16;
    let top_px: u32 = if shelf == 16 {
        307
    } else {
        20 * shelf - 8
    };
    let x: i64 = column as i64 * 5 * 1000;
    let y: i64 = top_px as i64 * 1000;
    let npc = Character::new(preset, species, x, y);
    proof {
        assert(px_of(x as int) == column * 5) by (nonlinear_arith)
            requires
                x == column * 5 * 1000,
                0 <= column <= 256,
        ;
        assert(px_of(y as int) == top_px) by (nonlinear_arith)
            requires
                y == top_px * 1000,
                0 <= top_px <= 320,
        ;
        assert((column * 5) / 5 == column);
        if shelf != 16 {
            assert((20 * shelf - 8) / 5 == 4 * shelf - 2);
        }
    }
    npc
}

/// Places the animals of a level from the next draws, three for each.
fn place_npcs(n_cols: u32, n_npcs: usize, rng: &mut GameRng) -> (npcs: Vec<Character>)
    requires
        2 <= n_cols <= MAX_COLS_OF_CHUNKS,
        n_npcs <= MAX_N_NPCS,
    ensures
        npcs@.len() == n_npcs,
        *final(rng) == old(rng).after_worldgen((DRAWS_PER_NPC * n_npcs) as nat),
        forall|k: int|
            0 <= k < n_npcs ==> #[trigger] npcs@[k] == spawned_npc(
                n_cols,
                old(rng).worldgen_value((3 * k) as nat),
                old(rng).worldgen_value((3 * k + 1) as nat),
                old(rng).worldgen_value((3 * k + 2) as nat),
            ),
        forall|k: int| 0 <= k < n_npcs ==> (#[trigger] npcs@[k]).wf(),
        forall|k: int|
            0 <= k < n_npcs ==> is_open_row_tile(
                n_cols as int,
                tile_of(#[trigger] npcs@[k]).0,
                tile_of(npcs@[k]).1,
            ),
{
    let mut npcs: Vec<Character> = Vec::new();
    let mut i: usize = 0;
    while i < n_npcs
        invariant
            i <= n_npcs,
            n_npcs <= MAX_N_NPCS,
            2 <= n_cols <= MAX_COLS_OF_CHUNKS,
            npcs@.len() == i,
            *rng == old(rng).after_worldgen((DRAWS_PER_NPC * i) as nat),
            forall|k: int|
                0 <= k < i ==> #[trigger] npcs@[k] == spawned_npc(
                    n_cols,
                    old(rng).worldgen_value((3 * k) as nat),
                    old(rng).worldgen_value((3 * k + 1) as nat),
                    old(rng).worldgen_value((3 * k + 2) as nat),
                ),
            forall|k: int| 0 <= k < i ==> (#[trigger] npcs@[k]).wf(),
            forall|k: int|
                0 <= k < i ==> is_open_row_tile(
                    n_cols as int,
                    tile_of(#[trigger] npcs@[k]).0,
                    tile_of(npcs@[k]).1,
                ),
        decreases n_npcs - i,
    {
        let ghost at = (3 * i) as nat;
        proof {
            lemma_worldgen_adds(*old(rng), at, 0);
            lemma_worldgen_adds(*old(rng), at, 1);
            lemma_worldgen_adds(*old(rng), at + 1, 0);
            lemma_worldgen_adds(*old(rng), at + 1, 1);
            lemma_worldgen_adds(*old(rng), at + 2, 0);
            lemma_worldgen_adds(*old(rng), at + 2, 1);
        }
        let a: u32 = rng.next_for_worldgen();
        let b: u32 = rng.next_for_worldgen();
        let kind: u32 = rng.next_for_worldgen();
        let npc: Character = spawn_npc(n_cols, a, b, kind);
        npcs.push(npc);
        i = i + 1;
    }
    npcs
}

/// The first player's slot as level `level` begins.
fn respawn_player(slot: OptionallyEnabledPlayer, level: u32) -> (r: OptionallyEnabledPlayer)
    requires
        slot.wf(),
    ensures
        r == respawned(slot, level),
        r.wf(),
        r matches OptionallyEnabledPlayer::Enabled(p) && tile_of(p.character) == spawn_tile(),
{
    assert(px_of(SPAWN_X as int) == 10 && px_of(SPAWN_Y as int) == 307);
    match slot {
        OptionallyEnabledPlayer::Enabled(p) => {
            if level == START_DIFFICULTY_LEVEL {
                OptionallyEnabledPlayer::Enabled(GameState::new_player())
            } else {
                OptionallyEnabledPlayer::Enabled(
                    Player {
                        character: Character {
                            x_pos: SPAWN_X,
                            y_pos: SPAWN_Y,
                            x_vel: 0,
                            y_vel: 0,
                            state: KittyStates::Airborne,
                            current_sprite_i: 0,
                            ..p.character
                        },
                        ..p
                    },
                )
            }
        },
        OptionallyEnabledPlayer::Disabled => OptionallyEnabledPlayer::Enabled(
            GameState::new_player(),
        ),
    }
}

impl GameState {
    /// Sets the clock, the score and the looks of the current level.
    fn start_level_clock(&mut self)
        requires
            old(self)@.wf(),
        ensures
            final(self)@ == (GameModel {
                score: old(self)@.regenerated().score,
                countdown_timer_msec: old(self)@.regenerated().countdown_timer_msec,
                countdown_and_score_bonus: old(self)@.regenerated().countdown_and_score_bonus,
                speedrun_timer_msec: old(self)@.regenerated().speedrun_timer_msec,
                song_idx: old(self)@.regenerated().song_idx,
                tileset_idx: old(self)@.regenerated().tileset_idx,
                pallette_idx: old(self)@.regenerated().pallette_idx,
                ..old(self)@
            }),
            1 <= final(self).countdown_timer_msec <= COUNTDOWN_TIMER_MAX,
            final(self).song_idx < N_SONGS,
            final(self).tileset_idx < N_TILESETS,
            final(self).pallette_idx < N_PALETTES,
    {
        let level: u32 = self.difficulty_level;
        let bonus: i32 = ((10 + 2 * level) * 60) as i32;
        if level == START_DIFFICULTY_LEVEL {
            self.score = 0;
            self.countdown_timer_msec = COUNTDOWN_TIMER_START;
            self.speedrun_timer_msec = 0;
        } else {
            self.score = self.score.wrapping_add(bonus);
            self.countdown_timer_msec = if self.countdown_timer_msec + bonus
                > COUNTDOWN_TIMER_MAX {
                COUNTDOWN_TIMER_MAX
            } else {
                self.countdown_timer_msec + bonus
            };
        }
        self.countdown_and_score_bonus = bonus;
        let mood: usize = mood_of_level(level);
        self.song_idx = 2 + mood;
        self.tileset_idx = mood;
        self.pallette_idx = mood;
    }

    /// Sets up the current level: builds its map and places its animals
    /// from the next draws for world generation, puts the first player at
    /// the spawn point, and sets the clock and the score. A flood fill over
    /// empty tiles from the spawn tile covers the tile of every animal.
    pub fn regenerate_map(&mut self)
        requires
            old(self)@.wf(),
        ensures
            final(self)@ == old(self)@.regenerated(),
            final(self)@.wf(),
            final(self)@.game_mode == old(self)@.game_mode,
            forall|i: int|
                0 <= i < final(self)@.npcs.len() ==> reachable(
                    final(self)@.map,
                    spawn_tile(),
                    tile_of(#[trigger] final(self)@.npcs[i]),
                ),
            final(self)@.players[0] matches OptionallyEnabledPlayer::Enabled(p) && tile_of(
                p.character,
            ) == spawn_tile(),
            forall|i: int|
                0 <= i < final(self)@.npcs.len() ==> (#[trigger] final(
                    self
                )@.npcs[i]).following_i.is_none(),
    {
        let ghost start = self@;
        self.start_level_clock();
        let level: u32 = self.difficulty_level;
        let n_cols: u32 = columns_of_level(level);
        let n_npcs: usize = npcs_of_level(level);
        self.map = GameMap::generate(n_cols, &mut self.rng);
        let ghost middle = self.rng;
        self.npcs = place_npcs(n_cols, n_npcs, &mut self.rng);
        self.clouds = Vec::new();
        self.total_npcs_to_find = n_npcs as u32;
        let slot: OptionallyEnabledPlayer = self.players[0];
        assert(start.players[0].wf());
        self.players[0] = respawn_player(slot, level);
        proof {
            let expected = start.regenerated();
            lemma_worldgen_adds(start.rng, start.map_draws(), (DRAWS_PER_NPC * n_npcs) as nat);
            assert forall|k: int| 0 <= k < n_npcs implies #[trigger] self@.npcs[k]
                == expected.npcs[k] by {
                lemma_worldgen_adds(start.rng, start.map_draws(), (3 * k) as nat);
                lemma_worldgen_adds(start.rng, start.map_draws(), (3 * k + 1) as nat);
                lemma_worldgen_adds(start.rng, start.map_draws(), (3 * k + 2) as nat);
            }
            assert(self@.npcs =~= expected.npcs);
            assert(self@.players =~= expected.players);
            assert(self@.clouds =~= expected.clouds);
            assert(self@.map == expected.map);
            assert(self@.rng == expected.rng);
            assert forall|k: int| 0 <= k < self@.npcs.len() implies reachable(
                self@.map,
                spawn_tile(),
                tile_of(#[trigger] self@.npcs[k]),
            ) by {
                let t = tile_of(self@.npcs[k]);
                lemma_generated_reachable(self@.map, n_cols as int, start.rng, t.0, t.1);
            }
            assert forall|k: int| 0 <= k < 4 implies (#[trigger] self@.players[k]).wf() by {
                if k != 0 {
                    assert(self@.players[k] == start.players[k]);
                }
            }
        }
    }

    fn new_player() -> (p: Player)
        ensures
            p == fresh_player(),
            p.wf(),
    {
        Player {
            character: Character::new(PresetSprites::MainCat, Species::Cat, SPAWN_X, SPAWN_Y),
            card_stack: CardStack::new(),
            kitties_found: 0,
        }
    }

    /// The state before the first level is set up, for a generator at `rng`.
    pub open spec fn blank(rng: GameRng) -> GameModel {
        GameModel {
            map: GameMapView { chunks: Seq::empty() },
            camera: Camera {
                current_viewing_x_offset: 0,
                current_viewing_y_offset: 0,
                current_viewing_x_target: 0,
                current_viewing_y_target: 0,
            },
            players: Seq::new(4, |i: int| OptionallyEnabledPlayer::Disabled),
            npcs: Seq::empty(),
            clouds: Seq::empty(),
            popups: PopTextRingbufferView::empty(),
            rng,
            game_mode: GameMode::StartScreen,
            settings: Settings { run_type: RunType::Random },
            score: 0,
            countdown_timer_msec: COUNTDOWN_TIMER_START,
            countdown_paused: false,
            countdown_and_score_bonus: 0,
            speedrun_timer_msec: 0,
            difficulty_level: START_DIFFICULTY_LEVEL,
            total_npcs_to_find: 0,
            tutorial_text_counter: 0,
            song_timer: 0,
            song_idx: 1,
            tileset_idx: 0,
            pallette_idx: 0,
            godmode: false,
        }
    }

    /// The state in which a process starts for the seed `seed`: the title
    /// screen in front of the first level, which is built after
    /// `PREWARM_DRAWS` draws were thrown away.
    pub open spec fn booted(seed: u32) -> GameModel {
        GameState::blank(
            GameRng::Random(Rng { state: seed as u64 }).after_worldgen(PREWARM_DRAWS as nat),
        ).regenerated()
    }

    /// Starts the game. `seed` stands for what the host knows of the moment;
    /// a random run draws all its numbers from it. In the first level, as in
    /// every level, a flood fill from the spawn tile covers every animal.
    pub fn new(seed: u32) -> (state: GameState)
        ensures
            state@ == GameState::booted(seed),
            state@.wf(),
            forall|i: int|
                0 <= i < state@.npcs.len() ==> reachable(
                    state@.map,
                    spawn_tile(),
                    tile_of(#[trigger] state@.npcs[i]),
                ),
    {
        let mut rng = GameRng::Random(Rng::new_from_seed(seed));
        let ghost first = rng;
        let mut i: u32 = 0;
        while i < PREWARM_DRAWS
            invariant
                i <= PREWARM_DRAWS,
                rng == first.after_worldgen(i as nat),
            decreases PREWARM_DRAWS - i,
        {
            proof {
                lemma_worldgen_adds(first, i as nat, 1);
            }
            let _ = rng.next_for_worldgen();
            i = i + 1;
        }
        let mut state = GameState {
            map: GameMap { chunks: Vec::new() },
            camera: Camera::new(),
            players: [
                OptionallyEnabledPlayer::Disabled,
                OptionallyEnabledPlayer::Disabled,
                OptionallyEnabledPlayer::Disabled,
                OptionallyEnabledPlayer::Disabled,
            ],
            npcs: Vec::new(),
            clouds: Vec::new(),
            popup_text_ringbuffer: PopTextRingbuffer::new(),
            rng,
            game_mode: GameMode::StartScreen,
            settings: Settings { run_type: RunType::Random },
            score: 0,
            countdown_timer_msec: COUNTDOWN_TIMER_START,
            countdown_paused: false,
            countdown_and_score_bonus: 0,
            speedrun_timer_msec: 0,
            difficulty_level: START_DIFFICULTY_LEVEL,
            total_npcs_to_find: 0,
            tutorial_text_counter: 0,
            song_timer: 0,
            song_idx: 1,
            tileset_idx: 0,
            pallette_idx: 0,
            godmode: false,
        };
        proof {
            let expected = GameState::blank(rng);
            assert(state@.map.chunks =~= expected.map.chunks);
            assert(state@.players =~= expected.players);
            assert(state@.npcs =~= expected.npcs);
            assert(state@.clouds =~= expected.clouds);
            assert(state@ == expected);
        }
        state.regenerate_map();
        state
    }
}

/// Two seeded runs with one seed build the same level: the same map, the
/// same animals in the same places, and the same generator afterwards,
/// whatever else the two states hold.
pub proof fn lemma_seeded_levels_agree(first: GameModel, second: GameModel, seed: u32)
    requires
        first.difficulty_level == second.difficulty_level,
    ensures
        ({
            let rng = GameRng::FixedSeed(Rng { state: seed as u64 }, Rng { state: seed as u64 });
            let a = (GameModel { rng, ..first }).regenerated();
            let b = (GameModel { rng, ..second }).regenerated();
            &&& a.map == b.map
            &&& a.npcs == b.npcs
            &&& a.rng == b.rng
            &&& a.total_npcs_to_find == b.total_npcs_to_find
        }),
{
    let rng = GameRng::FixedSeed(Rng { state: seed as u64 }, Rng { state: seed as u64 });
    let a = (GameModel { rng, ..first }).regenerated();
    let b = (GameModel { rng, ..second }).regenerated();
    assert(a.npcs =~= b.npcs);
}

} // verus!
