//! What is drawn: the map, the characters, the boxes and the title, each
//! as commands appended to the frame's list.

use vstd::prelude::*;
use crate::camera::Camera;
use crate::collision::AbsoluteBoundingBox;
use crate::entities::{Character, KittyStates, MovingEntity, OptionallyEnabledPlayer};
use crate::game_constants::{
    TILE_HEIGHT_PX, TILE_WIDTH_PX, TIMER_INTERACTIVE_START, TITLE_WIDTH,
};
use crate::game_map::{tileset_lookup, tileset_lookup_spec, Chunk, ChunkView, GameMapView};
use crate::game_state::GameState;
use crate::multiplatform_defs::{
    command_views, emit_blit, emit_line, emit_rect, emit_text, BlitSubFlags, DrawColor,
    DrawCommand, DrawCommandView, Spritesheet, Waves, MAX_SCREEN_DIM, TITLE_ROWS,
};
use crate::spritesheet::{background_tile, background_tile_spec, SpriteFrame};
use crate::subpixel::{px_of, to_px, UNITS_PER_PX};

verus! {


/// The blit that shows `frame` of the main spritesheet at `(x, y)`, not mirrored.
pub open spec fn spriteframe_blit(frame: SpriteFrame, x: i32, y: i32) -> DrawCommandView {
    DrawCommandView::BlitSub {
        sheet: Spritesheet::Main,
        x,
        y,
        width: frame.width as u32,
        height: frame.height as u32,
        src_x: frame.start_x as u32,
        src_y: frame.start_y as u32,
        flags: BlitSubFlags { flip_x: false, flip_y: false },
    }
}

/// Draws `frame` of the main spritesheet at `(x, y)`.
pub fn draw_spriteframe(frame: &SpriteFrame, x: i32, y: i32, out: &mut Vec<DrawCommand>)
    ensures
        command_views(final(out)@) == command_views(old(out)@).push(
            spriteframe_blit(*frame, x, y),
        ),
{
    emit_blit(
        out,
        Spritesheet::Main,
        x,
        y,
        frame.width as u32,
        frame.height as u32,
        frame.start_x as u32,
        frame.start_y as u32,
        BlitSubFlags { flip_x: false, flip_y: false },
    );
}

/// A line of text at `(x, y)`.
pub open spec fn text_command(t: Seq<char>, x: int, y: int, color: DrawColor) -> DrawCommandView {
    DrawCommandView::TextStr { text: t, x: x as i32, y: y as i32, color }
}

/// A text over its shadow: the text three times in the background color,
/// one pixel to the right, below, and both, and then once in the
/// foreground color.
pub open spec fn layertext_commands(t: Seq<char>, x: int, y: int) -> Seq<DrawCommandView> {
    seq![
        text_command(t, x + 1, y, DrawColor::Background),
        text_command(t, x, y + 1, DrawColor::Background),
        text_command(t, x + 1, y + 1, DrawColor::Background),
        text_command(t, x, y, DrawColor::Foreground),
    ]
}

/// Draws `t` at `(x, y)` over a shadow.
pub fn layertext(t: &str, x: i32, y: i32, out: &mut Vec<DrawCommand>)
    requires
        x < i32::MAX,
        y < i32::MAX,
    ensures
        command_views(final(out)@) == command_views(old(out)@) + layertext_commands(
            t@,
            x as int,
            y as int,
        ),
{
    emit_text(out, t, x + 1, y, DrawColor::Background);
    emit_text(out, t, x, y + 1, DrawColor::Background);
    emit_text(out, t, x + 1, y + 1, DrawColor::Background);
    emit_text(out, t, x, y, DrawColor::Foreground);
    assert(command_views(out@) =~= command_views(old(out)@) + layertext_commands(
        t@,
        x as int,
        y as int,
    ));
}

/// The blit that shows a character as the camera sees it: its current
/// frame, mirrored when it faces left and upside down on a ceiling.
pub open spec fn character_blit(camera: Camera, c: Character) -> DrawCommandView {
    let frame = c.sprite.frame_spec(c.current_sprite_i as int);
    DrawCommandView::BlitSub {
        sheet: Spritesheet::Main,
        x: px_of(c.x_pos - camera.current_viewing_x_offset) as i32,
        y: px_of(c.y_pos - camera.current_viewing_y_offset) as i32,
        width: frame.width as u32,
        height: frame.height as u32,
        src_x: frame.start_x as u32,
        src_y: frame.start_y as u32,
        flags: BlitSubFlags { flip_x: !c.is_facing_right, flip_y: c.state is OnCeiling },
    }
}

/// What drawing an entity adds to the frame: one blit, or nothing for a
/// player slot that is not in use.
pub open spec fn character_commands(camera: Camera, entity: MovingEntity) -> Seq<DrawCommandView> {
    match entity.character() {
        Some(c) => seq![character_blit(camera, c)],
        None => Seq::empty(),
    }
}

/// Draws an entity as the camera sees it.
pub fn drawcharacter(camera: &Camera, character: MovingEntity, out: &mut Vec<DrawCommand>)
    requires
        camera.wf(),
        character.wf(),
    ensures
        command_views(final(out)@) == command_views(old(out)@) + character_commands(
            *camera,
            character,
        ),
{
    let the_char: Character = match character {
        MovingEntity::OptionalPlayer(OptionallyEnabledPlayer::Enabled(p)) => p.character,
        MovingEntity::OptionalPlayer(OptionallyEnabledPlayer::Disabled) => {
            assert(command_views(out@) =~= command_views(old(out)@) + character_commands(
                *camera,
                character,
            ));
            return ;
        },
        MovingEntity::NPC(npc) => npc,
    };
    let frame: SpriteFrame = the_char.sprite.frame(the_char.current_sprite_i as usize);
    let upside_down: bool = match the_char.state {
        KittyStates::OnCeiling(_) => true,
        _ => false,
    };
    emit_blit(
        out,
        Spritesheet::Main,
        to_px(the_char.x_pos - camera.current_viewing_x_offset),
        to_px(the_char.y_pos - camera.current_viewing_y_offset),
        frame.width as u32,
        frame.height as u32,
        frame.start_x as u32,
        frame.start_y as u32,
        BlitSubFlags { flip_x: !the_char.is_facing_right, flip_y: upside_down },
    );
    assert(command_views(out@) =~= command_views(old(out)@) + character_commands(
        *camera,
        character,
    ));
}

/// Where the tile in column `col` and row `row` of a chunk appears on the screen.
pub open spec fn tile_screen_x(chunk: ChunkView, col: int, camera: Camera) -> int {
    TILE_WIDTH_PX * chunk.bound.x + col * TILE_WIDTH_PX - px_of(
        camera.current_viewing_x_offset as int,
    )
}

pub open spec fn tile_screen_y(chunk: ChunkView, row: int, camera: Camera) -> int {
    TILE_HEIGHT_PX * chunk.bound.y + row * TILE_HEIGHT_PX - px_of(
        camera.current_viewing_y_offset as int,
    )
}

/// Whether the tile in column `col` and row `row` of a chunk is drawn: it
/// is not empty, its tileset has a picture for it, and its corner is on the
/// screen.
pub open spec fn tile_is_drawn(
    chunk: ChunkView,
    col: int,
    row: int,
    camera: Camera,
    tileset_idx: usize,
    sw: u32,
    sh: u32,
) -> bool {
    let x = tile_screen_x(chunk, col, camera);
    let y = tile_screen_y(chunk, row, camera);
    &&& tileset_lookup_spec(tileset_idx, chunk.tile(col, row)) != 0
    &&& 0 <= x < sw
    &&& 0 <= y < sh
}

/// The blit of one tile.
pub open spec fn tile_blit(chunk: ChunkView, col: int, row: int, camera: Camera, tileset_idx: usize)
    -> DrawCommandView {
    spriteframe_blit(
        background_tile_spec(tileset_lookup_spec(tileset_idx, chunk.tile(col, row))),
        tile_screen_x(chunk, col, camera) as i32,
        tile_screen_y(chunk, row, camera) as i32,
    )
}

/// The blits of the first `cols` tiles of row `row` of a chunk, left to right.
pub open spec fn row_commands(
    chunk: ChunkView,
    row: int,
    cols: int,
    camera: Camera,
    tileset_idx: usize,
    sw: u32,
    sh: u32,
) -> Seq<DrawCommandView>
    decreases cols,
{
    if cols <= 0 {
        Seq::empty()
    } else {
        let earlier = row_commands(chunk, row, cols - 1, camera, tileset_idx, sw, sh);
        if tile_is_drawn(chunk, cols - 1, row, camera, tileset_idx, sw, sh) {
            earlier.push(tile_blit(chunk, cols - 1, row, camera, tileset_idx))
        } else {
            earlier
        }
    }
}

/// The blits of the first `rows` rows of a chunk, top to bottom.
pub open spec fn chunk_commands(
    chunk: ChunkView,
    rows: int,
    camera: Camera,
    tileset_idx: usize,
    sw: u32,
    sh: u32,
) -> Seq<DrawCommandView>
    decreases rows,
{
    if rows <= 0 {
        Seq::empty()
    } else {
        chunk_commands(chunk, rows - 1, camera, tileset_idx, sw, sh) + row_commands(
            chunk,
            rows - 1,
            chunk.bound.width as int,
            camera,
            tileset_idx,
            sw,
            sh,
        )
    }
}

/// The blits of the first `chunks` chunks of a map, in their order.
pub open spec fn map_commands(
    map: GameMapView,
    chunks: int,
    camera: Camera,
    tileset_idx: usize,
    sw: u32,
    sh: u32,
) -> Seq<DrawCommandView>
    decreases chunks,
{
    if chunks <= 0 {
        Seq::empty()
    } else {
        map_commands(map, chunks - 1, camera, tileset_idx, sw, sh) + chunk_commands(
            map.chunks[chunks - 1],
            map.chunks[chunks - 1].bound.height as int,
            camera,
            tileset_idx,
            sw,
            sh,
        )
    }
}

/// What drawing the map adds to the frame: a blit for each tile that is
/// drawn, chunk by chunk, row by row.
pub open spec fn drawmap_commands(
    map: GameMapView,
    camera: Camera,
    tileset_idx: usize,
    sw: u32,
    sh: u32,
) -> Seq<DrawCommandView> {
    map_commands(map, map.chunks.len() as int, camera, tileset_idx, sw, sh)
}

fn draw_row(
    chunk: &Chunk,
    row: usize,
    camera: &Camera,
    tileset_idx: usize,
    sw: u32,
    sh: u32,
    out: &mut Vec<DrawCommand>,
)
    requires
        chunk@.wf(),
        camera.wf(),
        row < chunk.bound.height,
        sw <= MAX_SCREEN_DIM,
        sh <= MAX_SCREEN_DIM,
    ensures
        command_views(final(out)@) == command_views(old(out)@) + row_commands(
            chunk@,
            row as int,
            chunk.bound.width as int,
            *camera,
            tileset_idx,
            sw,
            sh,
        ),
{
    let width: usize = chunk.bound.width as usize;
    let camera_x: i32 = to_px(camera.current_viewing_x_offset);
    let camera_y: i32 = to_px(camera.current_viewing_y_offset);
    assert(0 <= camera_x <= 1280 && 0 <= camera_y <= 320) by (nonlinear_arith)
        requires
            camera_x == px_of(camera.current_viewing_x_offset as int),
            camera_y == px_of(camera.current_viewing_y_offset as int),
            0 <= camera.current_viewing_x_offset <= 1280000,
            0 <= camera.current_viewing_y_offset <= 320000,
    ;
    let y_loc: i32 = TILE_HEIGHT_PX * chunk.bound.y + row as i32 * TILE_HEIGHT_PX - camera_y;
    let mut col: usize = 0;
    assert(command_views(out@) =~= command_views(old(out)@) + row_commands(
        chunk@,
        row as int,
        0,
        *camera,
        tileset_idx,
        sw,
        sh,
    ));
    while col < width
        invariant
            col <= width,
            width == chunk.bound.width,
            chunk@.wf(),
            row < chunk.bound.height,
            0 <= camera_x <= 1280,
            camera_x == px_of(camera.current_viewing_x_offset as int),
            y_loc == tile_screen_y(chunk@, row as int, *camera),
            sw <= MAX_SCREEN_DIM,
            sh <= MAX_SCREEN_DIM,
            command_views(out@) == command_views(old(out)@) + row_commands(
                chunk@,
                row as int,
                col as int,
                *camera,
                tileset_idx,
                sw,
                sh,
            ),
        decreases width - col,
    {
        let ghost before = command_views(out@);
        let map_tile: u8 = chunk.get_tile(col, row);
        let sheet_tile: u8 = tileset_lookup(tileset_idx, map_tile);
        if sheet_tile != 0 {
            let x_loc: i32 = TILE_WIDTH_PX * chunk.bound.x + col as i32 * TILE_WIDTH_PX - camera_x;
            if x_loc >= 0 && x_loc < sw as i32 && y_loc >= 0 && y_loc < sh as i32 {
                let frame: SpriteFrame = background_tile(sheet_tile);
                draw_spriteframe(&frame, x_loc, y_loc, out);
            }
        }
        assert(command_views(out@) =~= command_views(old(out)@) + row_commands(
            chunk@,
            row as int,
            col + 1,
            *camera,
            tileset_idx,
            sw,
            sh,
        ));
        col = col + 1;
    }
}

fn draw_chunk(
    chunk: &Chunk,
    camera: &Camera,
    tileset_idx: usize,
    sw: u32,
    sh: u32,
    out: &mut Vec<DrawCommand>,
)
    requires
        chunk@.wf(),
        camera.wf(),
        sw <= MAX_SCREEN_DIM,
        sh <= MAX_SCREEN_DIM,
    ensures
        command_views(final(out)@) == command_views(old(out)@) + chunk_commands(
            chunk@,
            chunk.bound.height as int,
            *camera,
            tileset_idx,
            sw,
            sh,
        ),
{
    let height: usize = chunk.bound.height as usize;
    let mut row: usize = 0;
    assert(command_views(out@) =~= command_views(old(out)@) + chunk_commands(
        chunk@,
        0,
        *camera,
        tileset_idx,
        sw,
        sh,
    ));
    while row < height
        invariant
            row <= height,
            height == chunk.bound.height,
            chunk@.wf(),
            camera.wf(),
            sw <= MAX_SCREEN_DIM,
            sh <= MAX_SCREEN_DIM,
            command_views(out@) == command_views(old(out)@) + chunk_commands(
                chunk@,
                row as int,
                *camera,
                tileset_idx,
                sw,
                sh,
            ),
        decreases height - row,
    {
        draw_row(chunk, row, camera, tileset_idx, sw, sh, out);
        assert(command_views(out@) =~= command_views(old(out)@) + chunk_commands(
            chunk@,
            row + 1,
            *camera,
            tileset_idx,
            sw,
            sh,
        ));
        row = row + 1;
    }
}

/// Draws the tiles of the map as the camera sees them.
pub fn drawmap(game_state: &GameState, out: &mut Vec<DrawCommand>, sw: u32, sh: u32)
    requires
        game_state@.wf(),
        sw <= MAX_SCREEN_DIM,
        sh <= MAX_SCREEN_DIM,
    ensures
        command_views(final(out)@) == command_views(old(out)@) + drawmap_commands(
            game_state@.map,
            game_state@.camera,
            game_state@.tileset_idx,
            sw,
            sh,
        ),
{
    let n: usize = game_state.map.chunks.len();
    let mut i: usize = 0;
    assert(command_views(out@) =~= command_views(old(out)@) + map_commands(
        game_state@.map,
        0,
        game_state.camera,
        game_state.tileset_idx,
        sw,
        sh,
    ));
    while i < n
        invariant
            i <= n,
            n == game_state.map.chunks@.len(),
            game_state@.wf(),
            sw <= MAX_SCREEN_DIM,
            sh <= MAX_SCREEN_DIM,
            command_views(out@) == command_views(old(out)@) + map_commands(
                game_state@.map,
                i as int,
                game_state.camera,
                game_state.tileset_idx,
                sw,
                sh,
            ),
        decreases n - i,
    {
        assert(game_state@.map.chunks[i as int] == game_state.map.chunks@[i as int]@);
        assert(game_state@.map.chunks[i as int].wf());
        draw_chunk(
            &game_state.map.chunks[i],
            &game_state.camera,
            game_state.tileset_idx,
            sw,
            sh,
            out,
        );
        assert(command_views(out@) =~= command_views(old(out)@) + map_commands(
            game_state@.map,
            i + 1,
            game_state.camera,
            game_state.tileset_idx,
            sw,
            sh,
        ));
        i = i + 1;
    }
}

/// The dot at pixel `(i, j)`.
pub open spec fn dot(i: int, j: int) -> DrawCommandView {
    DrawCommandView::Line {
        x1: i as i32,
        y1: j as i32,
        x2: i as i32,
        y2: j as i32,
        color: DrawColor::Background,
    }
}

/// The dots of the first `count` pixels of column `i` from row `top` down:
/// one at each pixel whose coordinates do not add up to a multiple of three.
pub open spec fn dither_column(i: int, top: int, count: int) -> Seq<DrawCommandView>
    decreases count,
{
    if count <= 0 {
        Seq::empty()
    } else {
        let earlier = dither_column(i, top, count - 1);
        let j = top + count - 1;
        if (i + j) % 3 != 0 {
            earlier.push(dot(i, j))
        } else {
            earlier
        }
    }
}

/// The dots of the first `count` columns from `left` on, each `rows` pixels high.
pub open spec fn dither_columns(left: int, top: int, rows: int, count: int) -> Seq<
    DrawCommandView,
>
    decreases count,
{
    if count <= 0 {
        Seq::empty()
    } else {
        dither_columns(left, top, rows, count - 1) + dither_column(left + count - 1, top, rows)
    }
}

/// Whether a box can be drawn: its sizes are not negative and the pixel
/// of its far corner can be named.
pub open spec fn box_is_drawable(pf: AbsoluteBoundingBox<i64, i64>) -> bool {
    &&& 0 <= pf.width
    &&& 0 <= pf.height
    &&& px_of(pf.x as int) + px_of(pf.width as int) <= i32::MAX
    &&& px_of(pf.y as int) + px_of(pf.height as int) <= i32::MAX
}

/// A box that begins at or after the pixel `i32::MIN` and ends, corner
/// plus size, at or before the pixel `i32::MAX` can be drawn.
pub proof fn lemma_box_in_pixel_range_is_drawable(pf: AbsoluteBoundingBox<i64, i64>)
    requires
        0 <= pf.width,
        0 <= pf.height,
        i32::MIN * UNITS_PER_PX <= pf.x,
        i32::MIN * UNITS_PER_PX <= pf.y,
        pf.x + pf.width <= i32::MAX * UNITS_PER_PX,
        pf.y + pf.height <= i32::MAX * UNITS_PER_PX,
    ensures
        box_is_drawable(pf),
{
    lemma_px_sum(pf.x, pf.width);
    lemma_px_sum(pf.y, pf.height);
}

proof fn lemma_px_sum(corner: i64, size: i64)
    requires
        0 <= size,
        -2147483648000 <= corner,
        corner + size <= 2147483647000,
    ensures
        px_of(corner as int) + px_of(size as int) <= i32::MAX,
{
    assert(px_of(corner as int) + px_of(size as int) <= 2147483647) by (nonlinear_arith)
        requires
            0 <= size,
            -2147483648000 <= corner,
            corner + size <= 2147483647000,
    ;
}

/// What drawing the background of a box adds to the frame. Style 1 is a
/// rectangle with a border of four lines in `color`; any other style is a
/// veil of dots over the box, its right and bottom edge included.
pub open spec fn modal_bg_commands(pf: AbsoluteBoundingBox<i64, i64>, style: u8, color: DrawColor)
    -> Seq<DrawCommandView> {
    let x = px_of(pf.x as int);
    let y = px_of(pf.y as int);
    let w = px_of(pf.width as int);
    let h = px_of(pf.height as int);
    if style == 1 {
        seq![
            DrawCommandView::Rect {
                x: x as i32,
                y: y as i32,
                width: w as u32,
                height: h as u32,
                color: DrawColor::Background,
            },
            DrawCommandView::Line {
                x1: x as i32,
                y1: y as i32,
                x2: (x + w) as i32,
                y2: y as i32,
                color,
            },
            DrawCommandView::Line {
                x1: x as i32,
                y1: y as i32,
                x2: x as i32,
                y2: (y + h) as i32,
                color,
            },
            DrawCommandView::Line {
                x1: x as i32,
                y1: (y + h) as i32,
                x2: (x + w) as i32,
                y2: (y + h) as i32,
                color,
            },
            DrawCommandView::Line {
                x1: (x + w) as i32,
                y1: y as i32,
                x2: (x + w) as i32,
                y2: (y + h) as i32,
                color,
            },
        ]
    } else {
        dither_columns(x, y, h + 1, w + 1)
    }
}

fn draw_dither_column(i: i32, top: i32, rows: u32, out: &mut Vec<DrawCommand>)
    requires
        top + rows - 1 <= i32::MAX,
    ensures
        command_views(final(out)@) == command_views(old(out)@) + dither_column(
            i as int,
            top as int,
            rows as int,
        ),
{
    let mut k: u32 = 0;
    assert(command_views(out@) =~= command_views(old(out)@) + dither_column(
        i as int,
        top as int,
        0,
    ));
    while k < rows
        invariant
            k <= rows,
            top + rows - 1 <= i32::MAX,
            command_views(out@) == command_views(old(out)@) + dither_column(
                i as int,
                top as int,
                k as int,
            ),
        decreases rows - k,
    {
        let j: i32 = (top as i64 + k as i64) as i32;
        let shifted: i64 = i as i64 + j as i64 + 0x1_8000_0000;
        assert(shifted % 3 == (i + j) % 3) by {
            assert(0x1_8000_0000int == 3 * 0x8000_0000);
        }
        if shifted % 3 != 0 {
            emit_line(out, i, j, i, j, DrawColor::Background);
        }
        assert(command_views(out@) =~= command_views(old(out)@) + dither_column(
            i as int,
            top as int,
            k + 1,
        ));
        k = k + 1;
    }
}

/// Draws the background of a box.
pub fn draw_modal_bg(
    pf: &AbsoluteBoundingBox<i64, i64>,
    style: u8,
    color: &DrawColor,
    out: &mut Vec<DrawCommand>,
)
    requires
        box_is_drawable(*pf),
    ensures
        command_views(final(out)@) == command_views(old(out)@) + modal_bg_commands(
            *pf,
            style,
            *color,
        ),
{
    let x: i32 = to_px(pf.x);
    let y: i32 = to_px(pf.y);
    let width: i32 = to_px(pf.width);
    let height: i32 = to_px(pf.height);
    proof {
        lemma_px_of_size(pf.width);
        lemma_px_of_size(pf.height);
    }
    if style == 1 {
        emit_rect(out, x, y, width as u32, height as u32, DrawColor::Background);
        emit_line(out, x, y, x + width, y, *color);
        emit_line(out, x, y, x, y + height, *color);
        emit_line(out, x, y + height, x + width, y + height, *color);
        emit_line(out, x + width, y, x + width, y + height, *color);
        assert(command_views(out@) =~= command_views(old(out)@) + modal_bg_commands(
            *pf,
            style,
            *color,
        ));
    } else {
        let columns: u32 = width as u32 + 1;
        let rows: u32 = height as u32 + 1;
        let mut k: u32 = 0;
        assert(command_views(out@) =~= command_views(old(out)@) + dither_columns(
            x as int,
            y as int,
            rows as int,
            0,
        ));
        while k < columns
            invariant
                k <= columns,
                columns == width + 1,
                rows == height + 1,
                0 <= width,
                0 <= height,
                x + width <= i32::MAX,
                y + height <= i32::MAX,
                command_views(out@) == command_views(old(out)@) + dither_columns(
                    x as int,
                    y as int,
                    rows as int,
                    k as int,
                ),
            decreases columns - k,
        {
            draw_dither_column(x + k as i32, y, rows, out);
            assert(command_views(out@) =~= command_views(old(out)@) + dither_columns(
                x as int,
                y as int,
                rows as int,
                k + 1,
            ));
            k = k + 1;
        }
    }
}

proof fn lemma_px_of_size(size: i64)
    requires
        0 <= size,
    ensures
        0 <= px_of(size as int),
{
    assert(0 <= px_of(size as int)) by (nonlinear_arith)
        requires
            0 <= size,
    ;
}

/// The blit of row `row` of the title: one pixel high, shifted sideways by
/// its ripple and lifted by `bob`.
pub open spec fn title_row(x: int, y: int, bob: int, ripple: Seq<i32>, row: int)
    -> DrawCommandView {
    DrawCommandView::BlitSub {
        sheet: Spritesheet::Title,
        x: (x + ripple[row]) as i32,
        y: (y + bob + row) as i32,
        width: TITLE_WIDTH,
        height: 1,
        src_x: 0,
        src_y: row as u32,
        flags: BlitSubFlags { flip_x: false, flip_y: false },
    }
}

/// How far the title is lifted: not at all until buttons count, and by
/// the host's bob after that.
pub open spec fn title_bob(song_timer: u32, waves: Waves) -> int {
    if song_timer <= TIMER_INTERACTIVE_START {
        0
    } else {
        waves.title_bob as int
    }
}

/// What drawing the title adds to the frame: its rows, top to bottom.
pub open spec fn title_commands(song_timer: u32, x: i32, y: i32, waves: Waves) -> Seq<
    DrawCommandView,
> {
    Seq::new(
        TITLE_ROWS as nat,
        |row: int|
            title_row(x as int, y as int, title_bob(song_timer, waves), waves.title_ripple@, row),
    )
}

/// Whether every row of the title lands on a pixel that can be named:
/// `x` with each ripple, and `y` with the bob for the first row and the last.
pub open spec fn title_fits(song_timer: u32, x: i32, y: i32, waves: Waves) -> bool {
    &&& forall|row: int|
        0 <= row < TITLE_ROWS ==> i32::MIN <= x + #[trigger] waves.title_ripple@[row] <= i32::MAX
    &&& i32::MIN <= y + title_bob(song_timer, waves)
    &&& y + title_bob(song_timer, waves) + (TITLE_ROWS - 1) <= i32::MAX
}

/// A title near the screen fits, whatever waves the host may hand in.
pub proof fn lemma_title_near_the_screen_fits(song_timer: u32, x: i32, y: i32, waves: Waves)
    requires
        waves.wf(),
        -0x4000_0000 <= x <= 0x4000_0000,
        -0x4000_0000 <= y <= 0x4000_0000,
    ensures
        title_fits(song_timer, x, y, waves),
{
}

/// Draws the title with its top left corner at `(x, y)`.
pub fn render_title(song_timer: u32, x: i32, y: i32, waves: &Waves, out: &mut Vec<DrawCommand>)
    requires
        title_fits(song_timer, x, y, *waves),
    ensures
        command_views(final(out)@) == command_views(old(out)@) + title_commands(
            song_timer,
            x,
            y,
            *waves,
        ),
{
    let bob: i32 = if song_timer <= TIMER_INTERACTIVE_START {
        0
    } else {
        waves.title_bob
    };
    let mut row: usize = 0;
    let ghost all = title_commands(song_timer, x, y, *waves);
    assert(command_views(out@) =~= command_views(old(out)@) + all.subrange(0, 0));
    while row < TITLE_ROWS
        invariant
            row <= TITLE_ROWS,
            title_fits(song_timer, x, y, *waves),
            bob == title_bob(song_timer, *waves),
            all == title_commands(song_timer, x, y, *waves),
            command_views(out@) == command_views(old(out)@) + all.subrange(0, row as int),
        decreases TITLE_ROWS - row,
    {
        emit_blit(
            out,
            Spritesheet::Title,
            x + waves.title_ripple[row],
            (y + bob) + row as i32,
            TITLE_WIDTH,
            1,
            0,
            row as u32,
            BlitSubFlags { flip_x: false, flip_y: false },
        );
        assert(command_views(out@) =~= command_views(old(out)@) + all.subrange(0, row + 1));
        row = row + 1;
    }
    assert(all.subrange(0, TITLE_ROWS as int) =~= all);
}

} // verus!
