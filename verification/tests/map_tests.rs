use kittygame::collision::AbsoluteBoundingBox;
use kittygame::game_constants::{MAP_HEIGHT_TILES, MAX_N_NPCS};
use kittygame::game_map::{
    tileset_lookup, Chunk, GameMap, TILE_EMPTY, TILE_GROUND, TILE_PLATFORM, TILE_WALL,
};
use kittygame::game_state::{GameState, SPAWN_X, SPAWN_Y};
use kittygame::entities::OptionallyEnabledPlayer;
use kittygame::rng::{GameRng, Rng};
use kittygame::subpixel::to_px;

fn flood_fill(map: &GameMap, width: i32, from: (i32, i32)) -> Vec<bool> {
    let height = MAP_HEIGHT_TILES;
    let mut seen = vec![false; (width * height) as usize];
    let mut stack = vec![from];
    while let Some((x, y)) = stack.pop() {
        if x < 0 || y < 0 || x >= width || y >= height {
            continue;
        }
        let i = (y * width + x) as usize;
        if seen[i] || map.get_tile_at(x, y) != TILE_EMPTY {
            continue;
        }
        seen[i] = true;
        stack.push((x + 1, y));
        stack.push((x - 1, y));
        stack.push((x, y + 1));
        stack.push((x, y - 1));
    }
    seen
}

fn level(seed: u32, difficulty: u32) -> GameState {
    let mut state = GameState::new(seed);
    state.difficulty_level = difficulty;
    state.regenerate_map();
    state
}

#[test]
fn a_flood_fill_from_the_spawn_tile_covers_every_animal() {
    for seed in 0..20u32 {
        for difficulty in 1..=12u32 {
            let state = level(seed, difficulty);
            let width = (state.map.chunks.len() as i32 / 2) * 32;
            let spawn = (to_px(SPAWN_X) / 5, to_px(SPAWN_Y) / 5);
            assert_eq!(spawn, (2, 61));
            let seen = flood_fill(&state.map, width, spawn);
            assert!(state.npcs.len() >= 4 && state.npcs.len() <= MAX_N_NPCS);
            assert_eq!(state.total_npcs_to_find as usize, state.npcs.len());
            for npc in state.npcs.iter() {
                let (x, y) = (to_px(npc.x_pos) / 5, to_px(npc.y_pos) / 5);
                assert!(seen[(y * width + x) as usize], "seed {} level {}", seed, difficulty);
                assert!(npc.following_i.is_none());
            }
        }
    }
}

#[test]
fn a_level_has_walls_ground_and_an_open_shaft() {
    let state = level(3, 1);
    let map = &state.map;
    assert_eq!(map.chunks.len(), 4);
    let width = 64;
    for x in 0..width {
        assert_eq!(map.get_tile_at(x, 0), TILE_GROUND);
        assert_eq!(map.get_tile_at(x, 63), TILE_GROUND);
    }
    for y in 1..63 {
        assert_eq!(map.get_tile_at(0, y), TILE_WALL);
        assert_eq!(map.get_tile_at(width - 1, y), TILE_WALL);
        assert_eq!(map.get_tile_at(1, y), TILE_EMPTY);
        assert_eq!(map.get_tile_at(2, y), TILE_EMPTY);
    }
    let mut platforms = 0;
    for y in 1..63 {
        for x in 1..(width - 1) {
            let t = map.get_tile_at(x, y);
            if y % 4 != 0 || x % 32 < 3 {
                assert_eq!(t, TILE_EMPTY);
            } else {
                assert!(t == TILE_EMPTY || t == TILE_PLATFORM);
                if t == TILE_PLATFORM {
                    platforms += 1;
                }
            }
        }
    }
    assert!(platforms > 0);
    assert_eq!(map.get_tile_at(-1, 5), TILE_EMPTY);
    assert_eq!(map.get_tile_at(width, 5), TILE_EMPTY);
    assert_eq!(map.get_tile_at(5, 64), TILE_EMPTY);
}

#[test]
fn chunks_lie_in_a_grid() {
    let state = level(3, 5);
    assert_eq!(state.map.chunks.len(), 8);
    for (i, chunk) in state.map.chunks.iter().enumerate() {
        let expected = AbsoluteBoundingBox {
            x: (i as i32 % 4) * 32,
            y: (i as i32 / 4) * 32,
            width: 32u32,
            height: 32u32,
        };
        assert_eq!(chunk.bound, expected);
        assert_eq!(chunk.tiles.len(), 1024);
    }
}

#[test]
fn platforms_follow_the_bits_of_a_draw() {
    let mut rng = GameRng::Random(Rng::new_from_seed(11));
    let mut twin = rng;
    let map = GameMap::generate(2, &mut rng);
    let mut draws: Vec<u32> = Vec::new();
    for _ in 0..32 {
        draws.push(twin.next_for_worldgen());
    }
    assert_eq!(rng, twin);
    for y in 1..63i32 {
        for x in 1..63i32 {
            let chunk = (y / 32) * 2 + x / 32;
            let bits = draws[(chunk * 8 + (y % 32) / 4) as usize];
            let solid = y % 4 == 0 && x % 32 >= 3 && (bits >> ((x % 32 - 3) / 5)) & 1 == 1;
            let expected = if solid { TILE_PLATFORM } else { TILE_EMPTY };
            assert_eq!(map.get_tile_at(x, y), expected, "tile {} {}", x, y);
        }
    }
}

#[test]
fn seeded_levels_are_the_same_in_every_run() {
    for seed in [0u32, 1, 99] {
        let mut a = GameState::new(5);
        let mut b = GameState::new(77777);
        a.rng = GameRng::new_fixed_seed(seed);
        b.rng = GameRng::new_fixed_seed(seed);
        b.score = 12;
        a.regenerate_map();
        b.regenerate_map();
        assert_eq!(a.npcs, b.npcs);
        assert_eq!(a.rng, b.rng);
        assert_eq!(a.map.chunks.len(), b.map.chunks.len());
        for (ca, cb) in a.map.chunks.iter().zip(b.map.chunks.iter()) {
            assert_eq!(ca.bound, cb.bound);
            assert_eq!(ca.tiles, cb.tiles);
        }
    }
}

#[test]
fn levels_grow_with_the_difficulty() {
    let widths: Vec<usize> = (1..=12u32).map(|d| level(1, d).map.chunks.len() / 2).collect();
    assert_eq!(widths, vec![2, 2, 3, 3, 4, 4, 5, 5, 6, 6, 7, 7]);
    let animals: Vec<usize> = (1..=12u32).map(|d| level(1, d).npcs.len()).collect();
    assert_eq!(animals, vec![4, 5, 6, 7, 8, 9, 10, 11, 12, 12, 12, 12]);
    let moods: Vec<usize> = (1..=12u32).map(|d| level(1, d).tileset_idx).collect();
    assert_eq!(moods, vec![0, 0, 0, 1, 1, 1, 2, 2, 2, 3, 3, 3]);
    let bonus: Vec<i32> = (1..=3u32).map(|d| level(1, d).countdown_and_score_bonus).collect();
    assert_eq!(bonus, vec![720, 840, 960]);
}

#[test]
fn the_first_level_resets_the_game_and_later_ones_add_a_bonus() {
    let mut state = GameState::new(9);
    assert_eq!(state.countdown_timer_msec, 3600);
    assert_eq!(state.score, 0);
    state.score = 100;
    state.countdown_timer_msec = 1000;
    state.speedrun_timer_msec = 55;
    state.difficulty_level = 2;
    state.regenerate_map();
    assert_eq!(state.countdown_timer_msec, 1840);
    assert_eq!(state.score, 940);
    assert_eq!(state.speedrun_timer_msec, 55);
    state.countdown_timer_msec = 5900;
    state.regenerate_map();
    assert_eq!(state.countdown_timer_msec, 5999);
    state.difficulty_level = 1;
    state.regenerate_map();
    assert_eq!(state.countdown_timer_msec, 3600);
    assert_eq!(state.score, 0);
    assert_eq!(state.speedrun_timer_msec, 0);
}

#[test]
fn the_first_player_starts_at_the_spawn_point() {
    let state = level(4, 3);
    match state.players[0] {
        OptionallyEnabledPlayer::Enabled(p) => {
            assert_eq!((p.character.x_pos, p.character.y_pos), (SPAWN_X, SPAWN_Y));
            assert_eq!((p.character.x_vel, p.character.y_vel), (0, 0));
        }
        OptionallyEnabledPlayer::Disabled => panic!("the first slot is in use"),
    }
    for slot in state.players[1..].iter() {
        assert_eq!(*slot, OptionallyEnabledPlayer::Disabled);
    }
    assert!(state.is_valid());
}

#[test]
fn tile_lookup_takes_the_first_chunk_that_holds_the_place() {
    let map = GameMap {
        chunks: vec![
            Chunk {
                bound: AbsoluteBoundingBox { x: -2, y: -1, width: 3, height: 2 },
                tiles: vec![1, 0, 2, 0, 3, 0],
            },
            Chunk {
                bound: AbsoluteBoundingBox { x: 0, y: 0, width: 2, height: 1 },
                tiles: vec![1, 1],
            },
        ],
    };
    assert!(map.is_valid());
    assert_eq!(map.get_tile_at(-2, -1), 1);
    assert_eq!(map.get_tile_at(0, -1), 2);
    assert_eq!(map.get_tile_at(-1, 0), 3);
    assert_eq!(map.get_tile_at(0, 0), 0);
    assert_eq!(map.get_tile_at(1, 0), 1);
    assert_eq!(map.get_tile_at(2, 0), 0);
    assert_eq!(map.chunks[0].get_tile(2, 0), 2);
    assert!(map.chunks[0].has_tile(0, 0));
    assert!(!map.chunks[0].has_tile(1, 0));
}

#[test]
fn tilesets_map_tiles_to_pictures() {
    assert_eq!(tileset_lookup(0, 0), 0);
    assert_eq!(tileset_lookup(0, 1), 1);
    assert_eq!(tileset_lookup(0, 3), 3);
    assert_eq!(tileset_lookup(2, 1), 9);
    assert_eq!(tileset_lookup(3, 3), 15);
    assert_eq!(tileset_lookup(4, 1), 0);
    assert_eq!(tileset_lookup(0, 4), 0);
}
