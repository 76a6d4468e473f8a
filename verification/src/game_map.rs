//! The tile map: rectangular chunks of tiles, tile lookup, the tilesets, and
//! the rule by which a level's tiles follow from the random draws.

use vstd::prelude::*;
use crate::collision::AbsoluteBoundingBox;
use crate::game_constants::{CHUNK_SIDE_TILES, MAP_HEIGHT_TILES, MAP_ROWS_OF_CHUNKS, MAX_COLS_OF_CHUNKS};
use crate::rng::GameRng;
use crate::spritesheet::N_BACKGROUND_TILES;

verus! {

/// Tile indices that a map may hold. 0 is empty; all others are solid.
pub const TILE_EMPTY: u8 = 0;

pub const TILE_GROUND: u8 = 1;

pub const TILE_WALL: u8 = 2;

pub const TILE_PLATFORM: u8 = 3;

/// Every tile index of a map is below this.
pub const TILESET_SIZE: u8 = 4;

pub const N_TILESETS: usize = 4;

/// The most chunks a map may hold, and the longest side of a chunk.
pub const MAX_CHUNKS: usize = 64;

pub const MAX_CHUNK_SIDE: u32 = 1024;

/// Chunk corners lie within this distance of the origin, in tiles.
pub const MAX_CHUNK_COORD: i32 = 0x10_0000;

/// Random draws that fix the platforms of one chunk: one per platform row.
pub const DRAWS_PER_CHUNK: u32 = 8;

/// Tiles between one platform row and the next.
pub const PLATFORM_SPACING: i32 = 4;

/// A platform row is cut into segments of this many tiles, to the right of
/// the three leftmost columns of its chunk. Each segment is solid or not
/// by one bit of the row's draw.
pub const PLATFORM_SEGMENT_TILES: i32 = 5;

/// Columns at the left of every chunk that platforms leave free.
pub const SHAFT_TILES: i32 = 3;

/// A rectangle of tiles. `bound` is in tile coordinates; `tiles` holds the
/// rows one after the other, top row first.
#[derive(Clone, Debug)]
pub struct Chunk {
    pub bound: AbsoluteBoundingBox<i32, u32>,
    pub tiles: Vec<u8>,
}

/// The chunks of a level, in the order in which a tile is looked for.
#[derive(Clone, Debug)]
pub struct GameMap {
    pub chunks: Vec<Chunk>,
}

/// A chunk with its tiles as a sequence.
pub struct ChunkView {
    pub bound: AbsoluteBoundingBox<i32, u32>,
    pub tiles: Seq<u8>,
}

/// A map with its chunks as a sequence.
pub struct GameMapView {
    pub chunks: Seq<ChunkView>,
}

impl View for Chunk {
    type V = ChunkView;

    open spec fn view(&self) -> ChunkView {
        ChunkView { bound: self.bound, tiles: self.tiles@ }
    }
}

impl View for GameMap {
    type V = GameMapView;

    open spec fn view(&self) -> GameMapView {
        GameMapView { chunks: Seq::new(self.chunks@.len(), |i: int| self.chunks@[i]@) }
    }
}

/// The sprite-sheet tile that tileset `tileset_idx` shows for map tile `tile_idx`.
pub open spec fn tileset_lookup_spec(tileset_idx: usize, tile_idx: u8) -> u8 {
    if tile_idx == 0 || tile_idx >= TILESET_SIZE || tileset_idx >= N_TILESETS {
        0
    } else {
        (tileset_idx * 4 + tile_idx) as u8
    }
}

/// The sprite-sheet tile that tileset `tileset_idx` shows for map tile
/// `tile_idx`; 0 where nothing is drawn.
pub fn tileset_lookup(tileset_idx: usize, tile_idx: u8) -> (sheet_tile: u8)
    ensures
        sheet_tile == tileset_lookup_spec(tileset_idx, tile_idx),
        sheet_tile < N_BACKGROUND_TILES,
{
    if tile_idx == 0 || tile_idx >= TILESET_SIZE || tileset_idx >= N_TILESETS {
        0
    } else {
        (tileset_idx * 4 + tile_idx as usize) as u8
    }
}

impl ChunkView {
    /// The chunk's sizes are in range, it holds one tile for each cell, and
    /// every tile is a key of the tilesets.
    pub open spec fn wf(self) -> bool {
        &&& self.bound.width <= MAX_CHUNK_SIDE
        &&& self.bound.height <= MAX_CHUNK_SIDE
        &&& -MAX_CHUNK_COORD <= self.bound.x <= MAX_CHUNK_COORD
        &&& -MAX_CHUNK_COORD <= self.bound.y <= MAX_CHUNK_COORD
        &&& self.tiles.len() == self.bound.width * self.bound.height
        &&& forall|i: int| 0 <= i < self.tiles.len() ==> #[trigger] self.tiles[i] < TILESET_SIZE
    }

    /// Whether the tile `(tx, ty)` of the world lies in this chunk.
    pub open spec fn contains(self, tx: int, ty: int) -> bool {
        &&& self.bound.x <= tx < self.bound.x + self.bound.width
        &&& self.bound.y <= ty < self.bound.y + self.bound.height
    }

    /// The tile in column `col` of row `row`, counted from the chunk's corner.
    pub open spec fn tile(self, col: int, row: int) -> u8 {
        self.tiles[row * self.bound.width + col]
    }
}

impl Chunk {

    /// The tile in column `col` of row `row`, counted from the chunk's corner.
    pub fn get_tile(&self, col: usize, row: usize) -> (t: u8)
        requires
            self@.wf(),
            col < self.bound.width,
            row < self.bound.height,
        ensures
            t == self@.tile(col as int, row as int),
            t < TILESET_SIZE,
    {
        let width: usize = self.bound.width as usize;
        assert(row * width + col < width * self.bound.height) by (nonlinear_arith)
            requires
                col < width,
                row < self.bound.height,
        ;
        assert(width * self.bound.height <= 1024 * 1024) by (nonlinear_arith)
            requires
                width <= 1024,
                self.bound.height <= 1024,
        ;
        self.tiles[row * width + col]
    }

    /// Whether the tile `(tx, ty)` of the world lies in this chunk.
    pub fn has_tile(&self, tx: i32, ty: i32) -> (b: bool)
        requires
            self@.wf(),
        ensures
            b == self@.contains(tx as int, ty as int),
    {
        let left: i64 = self.bound.x as i64;
        let top: i64 = self.bound.y as i64;
        let x: i64 = tx as i64;
        let y: i64 = ty as i64;
        left <= x && x < left + self.bound.width as i64 && top <= y && y < top
            + self.bound.height as i64
    }
}

/// The index of the first chunk from `from` on that holds tile `(tx, ty)`, or
/// the number of chunks where none does.
pub open spec fn first_containing(chunks: Seq<ChunkView>, tx: int, ty: int, from: int) -> int
    decreases chunks.len() - from,
{
    if from < 0 || from >= chunks.len() {
        chunks.len() as int
    } else if chunks[from].contains(tx, ty) {
        from
    } else {
        first_containing(chunks, tx, ty, from + 1)
    }
}

impl GameMapView {
    /// There are not too many chunks, and each is well formed.
    pub open spec fn wf(self) -> bool {
        &&& self.chunks.len() <= MAX_CHUNKS
        &&& forall|i: int| 0 <= i < self.chunks.len() ==> #[trigger] self.chunks[i].wf()
    }

    /// The tile at `(tx, ty)` of the world: that of the first chunk that holds
    /// the place, and empty where no chunk does.
    pub open spec fn tile_at(self, tx: int, ty: int) -> u8 {
        let i = first_containing(self.chunks, tx, ty, 0);
        if i < self.chunks.len() {
            self.chunks[i].tile(tx - self.chunks[i].bound.x, ty - self.chunks[i].bound.y)
        } else {
            TILE_EMPTY
        }
    }

    /// Whether the tile at `(tx, ty)` stops movement.
    pub open spec fn solid_at(self, tx: int, ty: int) -> bool {
        self.tile_at(tx, ty) != TILE_EMPTY
    }
}

impl GameMap {

    /// The tile at `(tx, ty)` of the world.
    pub fn get_tile_at(&self, tx: i32, ty: i32) -> (t: u8)
        requires
            self@.wf(),
        ensures
            t == self@.tile_at(tx as int, ty as int),
            t < TILESET_SIZE,
    {
        let n: usize = self.chunks.len();
        let mut i: usize = 0;
        while i < n
            invariant
                self@.wf(),
                n == self.chunks@.len(),
                i <= n,
                first_containing(self@.chunks, tx as int, ty as int, 0) == first_containing(
                    self@.chunks,
                    tx as int,
                    ty as int,
                    i as int,
                ),
            decreases n - i,
        {
            assert(self@.chunks[i as int] == self.chunks@[i as int]@);
            assert(self@.chunks[i as int].wf());
            if self.chunks[i].has_tile(tx, ty) {
                let chunk = &self.chunks[i];
                let col: usize = (tx as i64 - chunk.bound.x as i64) as usize;
                let row: usize = (ty as i64 - chunk.bound.y as i64) as usize;
                return chunk.get_tile(col, row);
            }
            i = i + 1;
        }
        TILE_EMPTY
    }
}

/// Whether `(x, y)` is a tile of a level that is `n_cols` chunks wide.
pub open spec fn in_level(n_cols: int, x: int, y: int) -> bool {
    0 <= x < n_cols * CHUNK_SIDE_TILES && 0 <= y < MAP_HEIGHT_TILES
}

/// The place of the chunk that holds tile `(x, y)` in a level's list of chunks.
pub open spec fn chunk_index_of(n_cols: int, x: int, y: int) -> int {
    (y / CHUNK_SIDE_TILES as int) * n_cols + x / CHUNK_SIDE_TILES as int
}

/// Which of the draws for a level's tiles decides the platform row through `(x, y)`.
pub open spec fn draw_index_of(n_cols: int, x: int, y: int) -> int {
    chunk_index_of(n_cols, x, y) * DRAWS_PER_CHUNK + (y % CHUNK_SIDE_TILES as int)
        / PLATFORM_SPACING as int
}

/// Whether the draw `bits` makes segment `segment` of a platform row solid.
pub open spec fn segment_is_solid(bits: u32, segment: u32) -> bool {
    (bits >> segment) & 1 == 1
}

/// The tile at `(x, y)` of a level `n_cols` chunks wide, where `bits` is the
/// draw for the platform row through it. The top and bottom rows are ground,
/// the leftmost and rightmost columns are walls, and solid tiles in between
/// lie only in every fourth row, never in the three leftmost columns of a chunk.
pub open spec fn tile_rule(n_cols: int, x: int, y: int, bits: u32) -> u8 {
    let local_x = x % CHUNK_SIDE_TILES as int;
    if y == 0 || y == MAP_HEIGHT_TILES - 1 {
        TILE_GROUND
    } else if x == 0 || x == n_cols * CHUNK_SIDE_TILES - 1 {
        TILE_WALL
    } else if y % PLATFORM_SPACING as int == 0 && local_x >= SHAFT_TILES && segment_is_solid(
        bits,
        ((local_x - SHAFT_TILES) / PLATFORM_SEGMENT_TILES as int) as u32,
    ) {
        TILE_PLATFORM
    } else {
        TILE_EMPTY
    }
}

/// The tile at `(x, y)` of the level that world generation builds from `rng`.
pub open spec fn generated_tile(n_cols: int, x: int, y: int, rng: GameRng) -> u8 {
    tile_rule(n_cols, x, y, rng.worldgen_value(draw_index_of(n_cols, x, y) as nat))
}

/// Where chunk `index` of a level `n_cols` chunks wide lies.
pub open spec fn grid_bound(n_cols: int, index: int) -> AbsoluteBoundingBox<i32, u32> {
    AbsoluteBoundingBox {
        x: ((index % n_cols) * CHUNK_SIDE_TILES) as i32,
        y: ((index / n_cols) * CHUNK_SIDE_TILES) as i32,
        width: CHUNK_SIDE_TILES,
        height: CHUNK_SIDE_TILES,
    }
}

/// Whether `map` is the level `n_cols` chunks wide that world generation
/// builds from `rng`: two rows of `n_cols` square chunks, top row first, that
/// hold the generated tiles.
pub open spec fn is_generated(map: GameMapView, n_cols: int, rng: GameRng) -> bool {
    &&& map.chunks.len() == n_cols * MAP_ROWS_OF_CHUNKS
    &&& forall|i: int|
        0 <= i < map.chunks.len() ==> (#[trigger] map.chunks[i]).bound == grid_bound(n_cols, i)
    &&& forall|i: int| 0 <= i < map.chunks.len() ==> (#[trigger] map.chunks[i]).tiles.len() == 1024
    &&& forall|i: int, col: int, row: int|
        0 <= i < map.chunks.len() && 0 <= col < CHUNK_SIDE_TILES && 0 <= row < CHUNK_SIDE_TILES
            ==> #[trigger] map.chunks[i].tile(col, row) == generated_tile(
            n_cols,
            (i % n_cols) * CHUNK_SIDE_TILES + col,
            (i / n_cols) * CHUNK_SIDE_TILES + row,
            rng,
        )
}

fn tile_for(n_cols: u32, x: u32, y: u32, bits: u32) -> (t: u8)
    requires
        1 <= n_cols <= MAX_COLS_OF_CHUNKS,
        x < n_cols * CHUNK_SIDE_TILES,
        y < MAP_HEIGHT_TILES,
    ensures
        t == tile_rule(n_cols as int, x as int, y as int, bits),
        t < TILESET_SIZE,
{
    let local_x: u32 = x % CHUNK_SIDE_TILES;
    if y == 0 || y == 63 {
        TILE_GROUND
    } else if x == 0 || x == n_cols * CHUNK_SIDE_TILES - 1 {
        TILE_WALL
    } else if y % 4 == 0 && local_x >= 3 && (bits >> ((local_x - 3) / 5)) & 1 == 1 {
        TILE_PLATFORM
    } else {
        TILE_EMPTY
    }
}

/// Draws the numbers that fix the platform rows of one chunk.
fn draw_row_bits(rng: &mut GameRng) -> (bits: Vec<u32>)
    ensures
        bits@.len() == DRAWS_PER_CHUNK,
        *final(rng) == old(rng).after_worldgen(DRAWS_PER_CHUNK as nat),
        forall|k: int|
            0 <= k < DRAWS_PER_CHUNK ==> #[trigger] bits@[k] == old(rng).worldgen_value(k as nat),
{
    let mut bits: Vec<u32> = Vec::new();
    let mut j: u32 = 0;
    while j < DRAWS_PER_CHUNK
        invariant
            j <= DRAWS_PER_CHUNK,
            bits@.len() == j,
            *rng == old(rng).after_worldgen(j as nat),
            forall|k: int| 0 <= k < j ==> #[trigger] bits@[k] == old(rng).worldgen_value(k as nat),
        decreases DRAWS_PER_CHUNK - j,
    {
        proof {
            crate::rng::lemma_worldgen_adds(*old(rng), j as nat, 1);
            crate::rng::lemma_worldgen_adds(*old(rng), j as nat, 0);
        }
        let value: u32 = rng.next_for_worldgen();
        bits.push(value);
        j = j + 1;
    }
    bits
}

/// Appends one row of a chunk to `tiles`.
fn push_row(tiles: &mut Vec<u8>, n_cols: u32, left: u32, y: u32, row_bits: u32)
    requires
        1 <= n_cols <= MAX_COLS_OF_CHUNKS,
        left + CHUNK_SIDE_TILES <= n_cols * CHUNK_SIDE_TILES,
        y < MAP_HEIGHT_TILES,
    ensures
        final(tiles)@.len() == old(tiles)@.len() + CHUNK_SIDE_TILES,
        forall|i: int| 0 <= i < old(tiles)@.len() ==> final(tiles)@[i] == old(tiles)@[i],
        forall|c: int|
            0 <= c < CHUNK_SIDE_TILES ==> #[trigger] final(tiles)@[old(tiles)@.len() + c]
                == tile_rule(n_cols as int, left + c, y as int, row_bits),
        forall|c: int|
            0 <= c < CHUNK_SIDE_TILES ==> #[trigger] final(tiles)@[old(tiles)@.len() + c]
                < TILESET_SIZE,
{
    let mut col: u32 = 0;
    while col < CHUNK_SIDE_TILES
        invariant
            col <= CHUNK_SIDE_TILES,
            1 <= n_cols <= MAX_COLS_OF_CHUNKS,
            left + CHUNK_SIDE_TILES <= n_cols * CHUNK_SIDE_TILES,
            y < MAP_HEIGHT_TILES,
            tiles@.len() == old(tiles)@.len() + col,
            forall|i: int| 0 <= i < old(tiles)@.len() ==> tiles@[i] == old(tiles)@[i],
            forall|c: int|
                0 <= c < col ==> #[trigger] tiles@[old(tiles)@.len() + c] == tile_rule(
                    n_cols as int,
                    left + c,
                    y as int,
                    row_bits,
                ),
            forall|c: int| 0 <= c < col ==> #[trigger] tiles@[old(tiles)@.len() + c] < TILESET_SIZE,
        decreases CHUNK_SIDE_TILES - col,
    {
        let t: u8 = tile_for(n_cols, left + col, y, row_bits);
        tiles.push(t);
        col = col + 1;
    }
}

/// The tiles of chunk `index`, drawing one number for each of its platform rows.
fn generate_chunk(n_cols: u32, index: u32, rng: &mut GameRng) -> (chunk: Chunk)
    requires
        1 <= n_cols <= MAX_COLS_OF_CHUNKS,
        index < n_cols * MAP_ROWS_OF_CHUNKS,
    ensures
        chunk@.wf(),
        chunk.bound == grid_bound(n_cols as int, index as int),
        chunk.tiles@.len() == 1024,
        *final(rng) == old(rng).after_worldgen(DRAWS_PER_CHUNK as nat),
        forall|col: int, row: int|
            0 <= col < CHUNK_SIDE_TILES && 0 <= row < CHUNK_SIDE_TILES ==> #[trigger] chunk@.tile(
                col,
                row,
            ) == tile_rule(
                n_cols as int,
                (index % n_cols) * CHUNK_SIDE_TILES + col,
                (index / n_cols) * CHUNK_SIDE_TILES + row,
                old(rng).worldgen_value((row / PLATFORM_SPACING as int) as nat),
            ),
{
    let bits: Vec<u32> = draw_row_bits(rng);
    let chunk_col: u32 = index % n_cols;
    let chunk_row: u32 = index / n_cols;
    assert(chunk_row < 2) by (nonlinear_arith)
        requires
            chunk_row == index / n_cols,
            index < n_cols * 2,
            n_cols >= 1,
    ;
    let left: u32 = chunk_col * CHUNK_SIDE_TILES;
    let top: u32 = chunk_row * CHUNK_SIDE_TILES;
    let mut tiles: Vec<u8> = Vec::new();
    let mut row: u32 = 0;
    while row < CHUNK_SIDE_TILES
        invariant
            row <= CHUNK_SIDE_TILES,
            1 <= n_cols <= MAX_COLS_OF_CHUNKS,
            chunk_col < n_cols,
            chunk_row < MAP_ROWS_OF_CHUNKS,
            left == chunk_col * CHUNK_SIDE_TILES,
            top == chunk_row * CHUNK_SIDE_TILES,
            bits@.len() == DRAWS_PER_CHUNK,
            tiles@.len() == row * CHUNK_SIDE_TILES,
            forall|c: int, r: int|
                0 <= c < CHUNK_SIDE_TILES && 0 <= r < row ==> #[trigger] tiles@[r * 32 + c]
                    < TILESET_SIZE,
            forall|c: int, r: int|
                0 <= c < CHUNK_SIDE_TILES && 0 <= r < row ==> #[trigger] tiles@[r * 32 + c]
                    == tile_rule(n_cols as int, left + c, top + r, bits@[r / 4]),
        decreases CHUNK_SIDE_TILES - row,
    {
        let row_bits: u32 = bits[(row / 4) as usize];
        let ghost before = tiles@;
        push_row(&mut tiles, n_cols, left, top + row, row_bits);
        proof {
            assert forall|c: int, r: int|
                0 <= c < CHUNK_SIDE_TILES && 0 <= r < row + 1 implies #[trigger] tiles@[r * 32 + c]
                < TILESET_SIZE && tiles@[r * 32 + c] == tile_rule(
                n_cols as int,
                left + c,
                top + r,
                bits@[r / 4],
            ) by {
                if r < row {
                    assert(tiles@[r * 32 + c] == before[r * 32 + c]);
                } else {
                    assert(tiles@[before.len() + c] < TILESET_SIZE);
                }
            }
        }
        row = row + 1;
    }
    let chunk = Chunk {
        bound: AbsoluteBoundingBox {
            x: left as i32,
            y: top as i32,
            width: CHUNK_SIDE_TILES,
            height: CHUNK_SIDE_TILES,
        },
        tiles,
    };
    proof {
        assert forall|i: int| 0 <= i < chunk.tiles@.len() implies #[trigger] chunk.tiles@[i]
            < TILESET_SIZE by {
            let r = i / 32;
            let c = i % 32;
            assert(chunk.tiles@[r * 32 + c] < TILESET_SIZE);
        }
        assert forall|c: int, r: int|
            0 <= c < CHUNK_SIDE_TILES && 0 <= r < CHUNK_SIDE_TILES implies #[trigger] chunk@.tile(
            c,
            r,
        ) == tile_rule(
            n_cols as int,
            (index % n_cols) * CHUNK_SIDE_TILES + c,
            (index / n_cols) * CHUNK_SIDE_TILES + r,
            old(rng).worldgen_value((r / PLATFORM_SPACING as int) as nat),
        ) by {
            assert(chunk.tiles@[r * 32 + c] == tile_rule(
                n_cols as int,
                left + c,
                top + r,
                bits@[r / 4],
            ));
        }
    }
    chunk
}

impl GameMap {
    /// Builds the level that is `n_cols` chunks wide from the next draws for
    /// world generation: `DRAWS_PER_CHUNK` for each chunk, in the order of the
    /// chunks.
    pub fn generate(n_cols: u32, rng: &mut GameRng) -> (map: GameMap)
        requires
            1 <= n_cols <= MAX_COLS_OF_CHUNKS,
        ensures
            map@.wf(),
            is_generated(map@, n_cols as int, *old(rng)),
            map@ == generated_map(n_cols as int, *old(rng)),
            *final(rng) == old(rng).after_worldgen(
                (n_cols * MAP_ROWS_OF_CHUNKS * DRAWS_PER_CHUNK) as nat,
            ),
    {
        let n_chunks: u32 = n_cols * MAP_ROWS_OF_CHUNKS;
        let mut chunks: Vec<Chunk> = Vec::new();
        let mut index: u32 = 0;
        while index < n_chunks
            invariant
                index <= n_chunks,
                n_chunks == n_cols * MAP_ROWS_OF_CHUNKS,
                1 <= n_cols <= MAX_COLS_OF_CHUNKS,
                chunks@.len() == index,
                *rng == old(rng).after_worldgen((index * DRAWS_PER_CHUNK) as nat),
                forall|i: int| 0 <= i < index ==> #[trigger] chunks@[i]@.wf(),
                forall|i: int|
                    0 <= i < index ==> (#[trigger] chunks@[i]).bound == grid_bound(n_cols as int, i),
                forall|i: int| 0 <= i < index ==> (#[trigger] chunks@[i]).tiles@.len() == 1024,
                forall|i: int, col: int, row: int|
                    0 <= i < index && 0 <= col < CHUNK_SIDE_TILES && 0 <= row < CHUNK_SIDE_TILES
                        ==> #[trigger] chunks@[i]@.tile(col, row) == generated_tile(
                        n_cols as int,
                        (i % n_cols as int) * CHUNK_SIDE_TILES + col,
                        (i / n_cols as int) * CHUNK_SIDE_TILES + row,
                        *old(rng),
                    ),
            decreases n_chunks - index,
        {
            let ghost before = *rng;
            let chunk = generate_chunk(n_cols, index, rng);
            proof {
                crate::rng::lemma_worldgen_adds(
                    *old(rng),
                    (index * DRAWS_PER_CHUNK) as nat,
                    DRAWS_PER_CHUNK as nat,
                );
                assert forall|col: int, row: int|
                    0 <= col < CHUNK_SIDE_TILES && 0 <= row < CHUNK_SIDE_TILES implies #[trigger] chunk@.tile(
                    col,
                    row,
                ) == generated_tile(
                    n_cols as int,
                    (index % n_cols) * CHUNK_SIDE_TILES + col,
                    (index / n_cols) * CHUNK_SIDE_TILES + row,
                    *old(rng),
                ) by {
                    let x = (index % n_cols) * CHUNK_SIDE_TILES + col;
                    let y = (index / n_cols) * CHUNK_SIDE_TILES + row;
                    lemma_draw_index(n_cols as int, index as int, col, row);
                    crate::rng::lemma_worldgen_adds(
                        *old(rng),
                        (index * DRAWS_PER_CHUNK) as nat,
                        (row / PLATFORM_SPACING as int) as nat,
                    );
                }
            }
            chunks.push(chunk);
            index = index + 1;
        }
        let map = GameMap { chunks };
        proof {
            assert forall|i: int| 0 <= i < map@.chunks.len() implies #[trigger] map@.chunks[i].wf() by {
                assert(map@.chunks[i] == map.chunks@[i]@);
            }
            assert forall|i: int, col: int, row: int|
                0 <= i < map@.chunks.len() && 0 <= col < CHUNK_SIDE_TILES && 0 <= row
                    < CHUNK_SIDE_TILES implies #[trigger] map@.chunks[i].tile(col, row)
                == generated_tile(
                n_cols as int,
                (i % n_cols as int) * CHUNK_SIDE_TILES + col,
                (i / n_cols as int) * CHUNK_SIDE_TILES + row,
                *old(rng),
            ) by {
                assert(map@.chunks[i] == map.chunks@[i]@);
                assert(map.chunks@[i]@.tile(col, row) == generated_tile(
                    n_cols as int,
                    (i % n_cols as int) * CHUNK_SIDE_TILES + col,
                    (i / n_cols as int) * CHUNK_SIDE_TILES + row,
                    *old(rng),
                ));
            }
            assert forall|i: int| 0 <= i < map@.chunks.len() implies (#[trigger] map@.chunks[i]).bound
                == grid_bound(n_cols as int, i) && map@.chunks[i].tiles.len() == 1024 by {
                assert(map@.chunks[i] == map.chunks@[i]@);
            }
            lemma_generated_is_unique(map@, n_cols as int, *old(rng));
        }
        map
    }
}

/// The draw that decides a tile, from the chunk and the place in the chunk.
proof fn lemma_draw_index(n_cols: int, index: int, col: int, row: int)
    requires
        1 <= n_cols,
        0 <= index,
        0 <= col < CHUNK_SIDE_TILES,
        0 <= row < CHUNK_SIDE_TILES,
    ensures
        chunk_index_of(
            n_cols,
            (index % n_cols) * CHUNK_SIDE_TILES + col,
            (index / n_cols) * CHUNK_SIDE_TILES + row,
        ) == index,
        draw_index_of(
            n_cols,
            (index % n_cols) * CHUNK_SIDE_TILES + col,
            (index / n_cols) * CHUNK_SIDE_TILES + row,
        ) == index * DRAWS_PER_CHUNK + row / PLATFORM_SPACING as int,
{
    let cc = index % n_cols;
    let cr = index / n_cols;
    assert((cc * 32 + col) / 32 == cc && (cr * 32 + row) / 32 == cr && (cr * 32 + row) % 32 == row)
        by (nonlinear_arith)
        requires
            0 <= col < 32,
            0 <= row < 32,
            0 <= cc,
            0 <= cr,
    ;
    assert(cr * n_cols + cc == index) by (nonlinear_arith)
        requires
            cc == index % n_cols,
            cr == index / n_cols,
            n_cols >= 1,
            index >= 0,
    ;
}

/// The level `n_cols` chunks wide that world generation builds from `rng`.
pub open spec fn generated_map(n_cols: int, rng: GameRng) -> GameMapView {
    GameMapView {
        chunks: Seq::new(
            (n_cols * MAP_ROWS_OF_CHUNKS) as nat,
            |i: int|
                ChunkView {
                    bound: grid_bound(n_cols, i),
                    tiles: Seq::new(
                        1024,
                        |k: int|
                            generated_tile(
                                n_cols,
                                (i % n_cols) * CHUNK_SIDE_TILES + k % 32,
                                (i / n_cols) * CHUNK_SIDE_TILES + k / 32,
                                rng,
                            ),
                    ),
                },
        ),
    }
}

/// There is one generated level for each width and each state of the generator.
pub proof fn lemma_generated_is_unique(map: GameMapView, n_cols: int, rng: GameRng)
    requires
        1 <= n_cols <= MAX_COLS_OF_CHUNKS,
    ensures
        is_generated(map, n_cols, rng) <==> map == generated_map(n_cols, rng),
{
    let expected = generated_map(n_cols, rng);
    if is_generated(map, n_cols, rng) {
        assert forall|i: int| 0 <= i < map.chunks.len() implies #[trigger] map.chunks[i]
            == expected.chunks[i] by {
            assert(map.chunks[i].bound == grid_bound(n_cols, i));
            assert forall|k: int| 0 <= k < 1024 implies #[trigger] map.chunks[i].tiles[k]
                == expected.chunks[i].tiles[k] by {
                let col = k % 32;
                let row = k / 32;
                assert(row * 32 + col == k);
                assert(map.chunks[i].bound.width == 32);
                assert(map.chunks[i].tile(col, row) == map.chunks[i].tiles[k]);
                assert(map.chunks[i].tile(col, row) == generated_tile(
                    n_cols,
                    (i % n_cols) * CHUNK_SIDE_TILES + col,
                    (i / n_cols) * CHUNK_SIDE_TILES + row,
                    rng,
                ));
            }
            assert(map.chunks[i].tiles =~= expected.chunks[i].tiles);
        }
        assert(map.chunks =~= expected.chunks);
    }
    if map == expected {
        assert forall|i: int, col: int, row: int|
            0 <= i < map.chunks.len() && 0 <= col < CHUNK_SIDE_TILES && 0 <= row
                < CHUNK_SIDE_TILES implies #[trigger] map.chunks[i].tile(col, row)
            == generated_tile(
            n_cols,
            (i % n_cols) * CHUNK_SIDE_TILES + col,
            (i / n_cols) * CHUNK_SIDE_TILES + row,
            rng,
        ) by {
            let k = row * 32 + col;
            assert(k % 32 == col && k / 32 == row);
            assert(map.chunks[i].tiles[k] == generated_tile(
                n_cols,
                (i % n_cols) * CHUNK_SIDE_TILES + k % 32,
                (i / n_cols) * CHUNK_SIDE_TILES + k / 32,
                rng,
            ));
        }
    }
}

proof fn lemma_first_containing(chunks: Seq<ChunkView>, tx: int, ty: int, from: int, k: int)
    requires
        0 <= from <= k < chunks.len(),
        chunks[k].contains(tx, ty),
        forall|j: int| from <= j < k ==> !(#[trigger] chunks[j]).contains(tx, ty),
    ensures
        first_containing(chunks, tx, ty, from) == k,
    decreases k - from,
{
    if from < k {
        assert(!chunks[from].contains(tx, ty));
        lemma_first_containing(chunks, tx, ty, from + 1, k);
    }
}

proof fn lemma_chunk_index_in_range(n_cols: int, x: int, y: int)
    requires
        1 <= n_cols <= MAX_COLS_OF_CHUNKS,
        in_level(n_cols, x, y),
    ensures
        0 <= chunk_index_of(n_cols, x, y) < n_cols * MAP_ROWS_OF_CHUNKS,
{
    let xc = x / 32;
    let yc = y / 32;
    assert(0 <= xc < n_cols && 0 <= yc < 2) by (nonlinear_arith)
        requires
            xc == x / 32,
            yc == y / 32,
            0 <= x < n_cols * 32,
            0 <= y < 64,
    ;
    assert(0 <= yc * n_cols + xc < n_cols * 2) by (nonlinear_arith)
        requires
            0 <= xc < n_cols,
            0 <= yc < 2,
    ;
}

proof fn lemma_grid_bound(n_cols: int, j: int, x: int, y: int)
    requires
        1 <= n_cols <= MAX_COLS_OF_CHUNKS,
        0 <= j < n_cols * MAP_ROWS_OF_CHUNKS,
        in_level(n_cols, x, y),
    ensures
        ({
            let b = grid_bound(n_cols, j);
            (b.x <= x < b.x + b.width && b.y <= y < b.y + b.height) <==> j == chunk_index_of(
                n_cols,
                x,
                y,
            )
        }),
{
    let cc = j % n_cols;
    let cr = j / n_cols;
    assert(0 <= cc < n_cols && 0 <= cr < 2 && cr * n_cols + cc == j) by (nonlinear_arith)
        requires
            cc == j % n_cols,
            cr == j / n_cols,
            1 <= n_cols,
            0 <= j < n_cols * 2,
    ;
    let xc = x / 32;
    let yc = y / 32;
    assert(0 <= xc < n_cols && 0 <= yc < 2 && xc * 32 <= x < xc * 32 + 32 && yc * 32 <= y < yc * 32
        + 32) by (nonlinear_arith)
        requires
            xc == x / 32,
            yc == y / 32,
            0 <= x < n_cols * 32,
            0 <= y < 64,
    ;
    assert(0 <= yc * n_cols + xc < n_cols * 2) by (nonlinear_arith)
        requires
            0 <= xc < n_cols,
            0 <= yc < 2,
    ;
    assert((cc * 32 <= x < cc * 32 + 32) <==> cc == xc);
    assert((cr * 32 <= y < cr * 32 + 32) <==> cr == yc);
    assert((cc == xc && cr == yc) <==> j == yc * n_cols + xc) by (nonlinear_arith)
        requires
            cr * n_cols + cc == j,
            0 <= cc < n_cols,
            0 <= xc < n_cols,
            0 <= cr,
            0 <= yc,
    ;
}

/// In a generated level, looking a tile up gives the generated tile.
pub proof fn lemma_generated_tile_at(map: GameMapView, n_cols: int, rng: GameRng, x: int, y: int)
    requires
        1 <= n_cols <= MAX_COLS_OF_CHUNKS,
        is_generated(map, n_cols, rng),
        in_level(n_cols, x, y),
    ensures
        map.tile_at(x, y) == generated_tile(n_cols, x, y, rng),
{
    let k = chunk_index_of(n_cols, x, y);
    lemma_chunk_index_in_range(n_cols, x, y);
    lemma_grid_bound(n_cols, k, x, y);
    assert forall|j: int| 0 <= j < k implies !(#[trigger] map.chunks[j]).contains(x, y) by {
        lemma_grid_bound(n_cols, j, x, y);
    }
    assert(map.chunks[k].contains(x, y));
    lemma_first_containing(map.chunks, x, y, 0, k);
    let col = x - map.chunks[k].bound.x;
    let row = y - map.chunks[k].bound.y;
    assert(map.chunks[k].tile(col, row) == generated_tile(
        n_cols,
        (k % n_cols) * CHUNK_SIDE_TILES + col,
        (k / n_cols) * CHUNK_SIDE_TILES + row,
        rng,
    ));
}

/// Whether a character can be at tile `(x, y)`: some chunk holds the place
/// and the tile there is empty.
pub open spec fn walkable(map: GameMapView, x: int, y: int) -> bool {
    first_containing(map.chunks, x, y, 0) < map.chunks.len() && map.tile_at(x, y) == TILE_EMPTY
}

/// Whether two tiles share an edge.
pub open spec fn adjacent(a: (int, int), b: (int, int)) -> bool {
    ||| a.0 == b.0 && (a.1 == b.1 + 1 || b.1 == a.1 + 1)
    ||| a.1 == b.1 && (a.0 == b.0 + 1 || b.0 == a.0 + 1)
}

/// Whether `path` is a walk over empty tiles in which each tile shares an
/// edge with the next.
pub open spec fn is_path(map: GameMapView, path: Seq<(int, int)>) -> bool {
    &&& path.len() >= 1
    &&& forall|i: int| 0 <= i < path.len() ==> walkable(map, (#[trigger] path[i]).0, path[i].1)
    &&& forall|i: int| 0 <= i < path.len() - 1 ==> adjacent(#[trigger] path[i], path[i + 1])
}

/// Whether a flood fill over empty tiles that starts at `from` covers `to`.
pub open spec fn reachable(map: GameMapView, from: (int, int), to: (int, int)) -> bool {
    exists|path: Seq<(int, int)>|
        is_path(map, path) && #[trigger] path[0] == from && path[path.len() - 1] == to
}

/// A walkable tile is reachable from itself.
pub proof fn lemma_reachable_self(map: GameMapView, a: (int, int))
    requires
        walkable(map, a.0, a.1),
    ensures
        reachable(map, a, a),
{
    let path = seq![a];
    assert(is_path(map, path) && path[0] == a && path[path.len() - 1] == a);
}

/// A walk can be made one tile longer.
pub proof fn lemma_reachable_step(map: GameMapView, a: (int, int), b: (int, int), c: (int, int))
    requires
        reachable(map, a, b),
        adjacent(b, c),
        walkable(map, c.0, c.1),
    ensures
        reachable(map, a, c),
{
    let path = choose|path: Seq<(int, int)>|
        is_path(map, path) && #[trigger] path[0] == a && path[path.len() - 1] == b;
    let longer = path.push(c);
    assert forall|i: int| 0 <= i < longer.len() implies walkable(
        map,
        (#[trigger] longer[i]).0,
        longer[i].1,
    ) by {
        if i < path.len() {
            assert(longer[i] == path[i]);
        }
    }
    assert forall|i: int| 0 <= i < longer.len() - 1 implies adjacent(
        #[trigger] longer[i],
        longer[i + 1],
    ) by {
        if i < path.len() - 1 {
            assert(longer[i] == path[i]);
            assert(longer[i + 1] == path[i + 1]);
        }
    }
    assert(is_path(map, longer) && longer[0] == a && longer[longer.len() - 1] == c);
}

/// A walk that ends in a row of walkable tiles can go on along the row.
pub proof fn lemma_walk_along_row(map: GameMapView, a: (int, int), y: int, x0: int, x1: int)
    requires
        reachable(map, a, (x0, y)),
        forall|x: int| (x0 <= x <= x1 || x1 <= x <= x0) ==> #[trigger] walkable(map, x, y),
    ensures
        reachable(map, a, (x1, y)),
    decreases
            if x1 >= x0 {
                x1 - x0
            } else {
                x0 - x1
            },
{
    if x1 > x0 {
        lemma_walk_along_row(map, a, y, x0, x1 - 1);
        assert(walkable(map, x1, y));
        lemma_reachable_step(map, a, (x1 - 1, y), (x1, y));
    } else if x1 < x0 {
        lemma_walk_along_row(map, a, y, x0, x1 + 1);
        assert(walkable(map, x1, y));
        lemma_reachable_step(map, a, (x1 + 1, y), (x1, y));
    }
}

/// A walk that ends in a column of walkable tiles can go on along the column.
pub proof fn lemma_walk_along_column(map: GameMapView, a: (int, int), x: int, y0: int, y1: int)
    requires
        reachable(map, a, (x, y0)),
        forall|y: int| (y0 <= y <= y1 || y1 <= y <= y0) ==> #[trigger] walkable(map, x, y),
    ensures
        reachable(map, a, (x, y1)),
    decreases
            if y1 >= y0 {
                y1 - y0
            } else {
                y0 - y1
            },
{
    if y1 > y0 {
        lemma_walk_along_column(map, a, x, y0, y1 - 1);
        assert(walkable(map, x, y1));
        lemma_reachable_step(map, a, (x, y1 - 1), (x, y1));
    } else if y1 < y0 {
        lemma_walk_along_column(map, a, x, y0, y1 + 1);
        assert(walkable(map, x, y1));
        lemma_reachable_step(map, a, (x, y1 + 1), (x, y1));
    }
}

/// The tile where the first player starts a level.
pub open spec fn spawn_tile() -> (int, int) {
    (2, MAP_HEIGHT_TILES - 3)
}

/// Whether `(x, y)` lies inside the walls of a level and outside its platform rows.
pub open spec fn is_open_row_tile(n_cols: int, x: int, y: int) -> bool {
    &&& 1 <= x <= n_cols * CHUNK_SIDE_TILES - 2
    &&& 1 <= y <= MAP_HEIGHT_TILES - 2
    &&& y % PLATFORM_SPACING as int != 0
}

/// In a generated level, the tiles between the walls that lie outside the
/// platform rows are empty, and so is the second column from the left.
pub proof fn lemma_generated_open_tiles(map: GameMapView, n_cols: int, rng: GameRng, x: int, y: int)
    requires
        1 <= n_cols <= MAX_COLS_OF_CHUNKS,
        is_generated(map, n_cols, rng),
        1 <= y <= MAP_HEIGHT_TILES - 2,
        is_open_row_tile(n_cols, x, y) || x == 1,
    ensures
        walkable(map, x, y),
{
    lemma_generated_tile_at(map, n_cols, rng, x, y);
    lemma_chunk_index_in_range(n_cols, x, y);
    lemma_grid_bound(n_cols, chunk_index_of(n_cols, x, y), x, y);
    let k = chunk_index_of(n_cols, x, y);
    assert forall|j: int| 0 <= j < k implies !(#[trigger] map.chunks[j]).contains(x, y) by {
        lemma_grid_bound(n_cols, j, x, y);
    }
    lemma_first_containing(map.chunks, x, y, 0, k);
}

/// In a generated level, a flood fill from the spawn tile covers every tile
/// between the walls that lies outside the platform rows.
pub proof fn lemma_generated_reachable(map: GameMapView, n_cols: int, rng: GameRng, x: int, y: int)
    requires
        1 <= n_cols <= MAX_COLS_OF_CHUNKS,
        is_generated(map, n_cols, rng),
        is_open_row_tile(n_cols, x, y),
    ensures
        reachable(map, spawn_tile(), (x, y)),
{
    let start = spawn_tile();
    lemma_generated_open_tiles(map, n_cols, rng, 2, start.1);
    lemma_reachable_self(map, start);
    lemma_generated_open_tiles(map, n_cols, rng, 1, start.1);
    lemma_reachable_step(map, start, start, (1, start.1));
    assert forall|row: int| (start.1 <= row <= y || y <= row <= start.1) implies #[trigger] walkable(
        map,
        1,
        row,
    ) by {
        lemma_generated_open_tiles(map, n_cols, rng, 1, row);
    }
    lemma_walk_along_column(map, start, 1, start.1, y);
    assert forall|col: int| (1 <= col <= x || x <= col <= 1) implies #[trigger] walkable(
        map,
        col,
        y,
    ) by {
        lemma_generated_open_tiles(map, n_cols, rng, col, y);
    }
    lemma_walk_along_row(map, start, y, 1, x);
}

/// A generated level is connected: a flood fill from the spawn tile covers
/// every empty tile of the level.
pub proof fn lemma_generated_is_connected(map: GameMapView, n_cols: int, rng: GameRng, x: int, y: int)
    requires
        1 <= n_cols <= MAX_COLS_OF_CHUNKS,
        is_generated(map, n_cols, rng),
        in_level(n_cols, x, y),
        walkable(map, x, y),
    ensures
        reachable(map, spawn_tile(), (x, y)),
{
    lemma_generated_tile_at(map, n_cols, rng, x, y);
    if is_open_row_tile(n_cols, x, y) {
        lemma_generated_reachable(map, n_cols, rng, x, y);
    } else {
        lemma_generated_reachable(map, n_cols, rng, x, y - 1);
        lemma_reachable_step(map, spawn_tile(), (x, y - 1), (x, y));
    }
}

} // verus!
