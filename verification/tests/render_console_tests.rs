use kittygame::camera::Camera;
use kittygame::collision::AbsoluteBoundingBox;
use kittygame::console::{
    get_inputs_this_frame, map_draw_color, my_blit_sub, my_line, my_rect, my_text_str,
    push_console_calls, set_palette, update, ConsoleCall,
};
use kittygame::entities::{Character, KittyStates, MovingEntity, OptionallyEnabledPlayer, Species};
use kittygame::game_state::GameState;
use kittygame::kittygame_update;
use kittygame::multiplatform_defs::{
    emit, emit_blit, emit_line, emit_rect, emit_text, BlitSubFlags, DrawColor, DrawCommand,
    Pallette, PreviousFrameInput, Spritesheet, Waves,
};
use kittygame::render::{
    draw_modal_bg, draw_spriteframe, drawcharacter, drawmap, layertext, render_title,
};
use kittygame::spritesheet::{background_tile, PresetSprites, Sprite, SpriteFrame};

fn text(t: &str, x: i32, y: i32, color: DrawColor) -> DrawCommand {
    DrawCommand::TextStr { text: t.to_string(), x, y, color }
}

fn dot(x: i32, y: i32) -> DrawCommand {
    DrawCommand::Line { x1: x, y1: y, x2: x, y2: y, color: DrawColor::Background }
}

fn plain() -> BlitSubFlags {
    BlitSubFlags { flip_x: false, flip_y: false }
}

#[test]
fn layertext_draws_a_shadow_and_then_the_text() {
    let mut out = vec![dot(0, 0)];
    layertext("hi", 5, -3, &mut out);
    assert_eq!(
        out,
        vec![
            dot(0, 0),
            text("hi", 6, -3, DrawColor::Background),
            text("hi", 5, -2, DrawColor::Background),
            text("hi", 6, -2, DrawColor::Background),
            text("hi", 5, -3, DrawColor::Foreground),
        ]
    );
}

#[test]
fn emitting_appends_one_command() {
    let mut out = Vec::new();
    emit_line(&mut out, 1, 2, 3, 4, DrawColor::MainKitty);
    emit_rect(&mut out, 1, 2, 3, 4, DrawColor::PigsLizards);
    emit_text(&mut out, "a", 1, 2, DrawColor::Foreground);
    emit_blit(&mut out, Spritesheet::Title, 1, 2, 3, 4, 5, 6, plain());
    emit(&mut out, dot(9, 9));
    assert_eq!(
        out,
        vec![
            DrawCommand::Line { x1: 1, y1: 2, x2: 3, y2: 4, color: DrawColor::MainKitty },
            DrawCommand::Rect { x: 1, y: 2, width: 3, height: 4, color: DrawColor::PigsLizards },
            text("a", 1, 2, DrawColor::Foreground),
            DrawCommand::BlitSub {
                sheet: Spritesheet::Title,
                x: 1,
                y: 2,
                width: 3,
                height: 4,
                src_x: 5,
                src_y: 6,
                flags: plain()
            },
            dot(9, 9),
        ]
    );
}

#[test]
fn a_character_is_drawn_relative_to_the_camera() {
    let camera = Camera {
        current_viewing_x_offset: 20500,
        current_viewing_y_offset: 1000,
        current_viewing_x_target: 0,
        current_viewing_y_target: 0,
    };
    let mut c = Character::new(PresetSprites::Pig, Species::Pig, 10000, 30999);
    c.current_sprite_i = 2;
    c.is_facing_right = false;
    c.state = KittyStates::OnCeiling(3);
    let mut out = Vec::new();
    drawcharacter(&camera, MovingEntity::NPC(c), &mut out);
    assert_eq!(
        out,
        vec![DrawCommand::BlitSub {
            sheet: Spritesheet::Main,
            x: -10,
            y: 29,
            width: 8,
            height: 8,
            src_x: 16,
            src_y: 8,
            flags: BlitSubFlags { flip_x: true, flip_y: true },
        }]
    );
    drawcharacter(&camera, MovingEntity::OptionalPlayer(OptionallyEnabledPlayer::Disabled), &mut out);
    assert_eq!(out.len(), 1);
}

#[test]
fn sprites_are_strips_of_frames() {
    let cat = Sprite::from_preset(&PresetSprites::MainCat);
    assert_eq!(cat.n_frames, 4);
    assert_eq!(cat.frame(0), SpriteFrame { start_x: 0, start_y: 0, width: 8, height: 8 });
    assert_eq!(cat.frame(3), SpriteFrame { start_x: 24, start_y: 0, width: 8, height: 8 });
    let kitty = Sprite::from_preset(&PresetSprites::Kitty4);
    assert_eq!(kitty.frame(3).start_x, 152);
    let card = Sprite::from_preset(&PresetSprites::WarpCard);
    assert_eq!(card.frame(0), SpriteFrame { start_x: 24, start_y: 16, width: 12, height: 16 });
    assert_eq!(background_tile(16), SpriteFrame { start_x: 80, start_y: 40, width: 5, height: 5 });
    assert!(cat.is_valid());
}

#[test]
fn the_map_is_drawn_where_it_is_on_the_screen() {
    let mut state = GameState::new(2);
    state.camera.current_viewing_x_offset = 7000;
    state.camera.current_viewing_y_offset = 283000;
    state.tileset_idx = 1;
    let mut out = Vec::new();
    drawmap(&state, &mut out, 20, 40);
    let mut expected = Vec::new();
    for row in 0..64i32 {
        for col in 0..64i32 {
            let tile = state.map.get_tile_at(col, row);
            let (x, y) = (col * 5 - 7, row * 5 - 283);
            if tile != 0 && x >= 0 && x < 20 && y >= 0 && y < 40 {
                expected.push(DrawCommand::BlitSub {
                    sheet: Spritesheet::Main,
                    x,
                    y,
                    width: 5,
                    height: 5,
                    src_x: (4 + tile as u32) * 5,
                    src_y: 40,
                    flags: plain(),
                });
            }
        }
    }
    assert!(expected.len() >= 4);
    out.sort_by_key(|c| match c {
        DrawCommand::BlitSub { x, y, .. } => (*y, *x),
        _ => (0, 0),
    });
    assert_eq!(out, expected);
}

#[test]
fn a_tile_in_the_top_row_of_the_screen_is_drawn() {
    let mut state = GameState::new(2);
    state.map = kittygame::game_map::GameMap {
        chunks: vec![kittygame::game_map::Chunk {
            bound: AbsoluteBoundingBox { x: 0, y: 0, width: 1, height: 1 },
            tiles: vec![1],
        }],
    };
    state.camera = Camera {
        current_viewing_x_offset: 0,
        current_viewing_y_offset: 0,
        current_viewing_x_target: 0,
        current_viewing_y_target: 0,
    };
    state.tileset_idx = 0;
    let mut out = Vec::new();
    drawmap(&state, &mut out, 160, 160);
    assert_eq!(
        out,
        vec![DrawCommand::BlitSub {
            sheet: Spritesheet::Main,
            x: 0,
            y: 0,
            width: 5,
            height: 5,
            src_x: 5,
            src_y: 40,
            flags: plain(),
        }]
    );
    let mut out = Vec::new();
    drawmap(&state, &mut out, 0, 160);
    assert!(out.is_empty());
    let mut out = Vec::new();
    drawmap(&state, &mut out, 160, 0);
    assert!(out.is_empty());
}

#[test]
fn the_top_and_left_edges_of_the_screen_are_treated_alike() {
    let mut state = GameState::new(2);
    state.camera.current_viewing_x_offset = 0;
    state.camera.current_viewing_y_offset = 0;
    let mut out = Vec::new();
    drawmap(&state, &mut out, 11, 11);
    let mut corners: Vec<(i32, i32)> = out
        .iter()
        .map(|c| match c {
            DrawCommand::BlitSub { x, y, .. } => (*x, *y),
            _ => panic!("the map is drawn with blits"),
        })
        .collect();
    corners.sort();
    assert_eq!(corners, vec![(0, 0), (0, 5), (0, 10), (5, 0), (10, 0)]);
    state.camera.current_viewing_x_offset = 1000;
    state.camera.current_viewing_y_offset = 1000;
    let mut out = Vec::new();
    drawmap(&state, &mut out, 11, 11);
    assert!(out.is_empty());
}

#[test]
fn the_map_is_drawn_chunk_by_chunk() {
    let mut state = GameState::new(2);
    state.camera.current_viewing_x_offset = 150000;
    state.camera.current_viewing_y_offset = 150000;
    let mut out = Vec::new();
    drawmap(&state, &mut out, 160, 160);
    let mut last_chunk = 0;
    for c in out.iter() {
        if let DrawCommand::BlitSub { x, y, .. } = c {
            let chunk = ((y + 150) / 160) * 2 + (x + 150) / 160;
            assert!(chunk >= last_chunk);
            last_chunk = chunk;
        }
    }
    assert_eq!(last_chunk, 3);
}

#[test]
fn a_veil_has_a_dot_where_the_sum_is_no_multiple_of_three() {
    let mut out = Vec::new();
    let area = AbsoluteBoundingBox { x: -1999, y: 1000, width: 2500, height: 1999 };
    draw_modal_bg(&area, 0, &DrawColor::MainKitty, &mut out);
    assert_eq!(out, vec![dot(-1, 2), dot(0, 1), dot(0, 2), dot(1, 1)]);
    let mut out = Vec::new();
    draw_modal_bg(&area, 7, &DrawColor::MainKitty, &mut out);
    assert_eq!(out.len(), 4);
    let mut out = Vec::new();
    let none = AbsoluteBoundingBox { x: 0, y: 0, width: 0, height: 0 };
    draw_modal_bg(&none, 0, &DrawColor::MainKitty, &mut out);
    assert!(out.is_empty());
    let mut out = Vec::new();
    let full = AbsoluteBoundingBox { x: 0, y: 0, width: 159000, height: 159000 };
    draw_modal_bg(&full, 0, &DrawColor::Foreground, &mut out);
    assert_eq!(out.len(), 17066);
}

#[test]
fn a_bordered_box_has_a_rectangle_and_four_lines() {
    let mut out = Vec::new();
    let area = AbsoluteBoundingBox { x: 10999, y: -5000, width: 20000, height: 7000 };
    draw_modal_bg(&area, 1, &DrawColor::MainKitty, &mut out);
    let c = DrawColor::MainKitty;
    assert_eq!(
        out,
        vec![
            DrawCommand::Rect { x: 10, y: -5, width: 20, height: 7, color: DrawColor::Background },
            DrawCommand::Line { x1: 10, y1: -5, x2: 30, y2: -5, color: c },
            DrawCommand::Line { x1: 10, y1: -5, x2: 10, y2: 2, color: c },
            DrawCommand::Line { x1: 10, y1: 2, x2: 30, y2: 2, color: c },
            DrawCommand::Line { x1: 30, y1: -5, x2: 30, y2: 2, color: c },
        ]
    );
}

#[test]
fn the_title_does_not_bob_before_buttons_count() {
    let mut waves = Waves::still();
    waves.title_bob = 5;
    waves.title_ripple[0] = -2;
    let mut out = Vec::new();
    render_title(100, 4, 15, &waves, &mut out);
    assert_eq!(out.len(), 50);
    assert!(matches!(out[0], DrawCommand::BlitSub { x: 2, y: 15, src_y: 0, .. }));
    assert!(matches!(out[49], DrawCommand::BlitSub { x: 4, y: 64, src_y: 49, .. }));
    let mut out = Vec::new();
    render_title(101, 4, 15, &waves, &mut out);
    assert!(matches!(out[0], DrawCommand::BlitSub { x: 2, y: 20, height: 1, width: 152, .. }));
}

#[test]
fn a_sprite_frame_is_drawn_unmirrored() {
    let mut out = Vec::new();
    let frame = SpriteFrame { start_x: 36, start_y: 16, width: 8, height: 8 };
    draw_spriteframe(&frame, 48, 1, &mut out);
    assert_eq!(
        out,
        vec![DrawCommand::BlitSub {
            sheet: Spritesheet::Main,
            x: 48,
            y: 1,
            width: 8,
            height: 8,
            src_x: 36,
            src_y: 16,
            flags: plain()
        }]
    );
}

#[test]
fn draw_colors_of_the_console() {
    assert_eq!(map_draw_color(&DrawColor::MainKitty), 4);
    assert_eq!(map_draw_color(&DrawColor::PigsLizards), 3);
    assert_eq!(map_draw_color(&DrawColor::Foreground), 2);
    assert_eq!(map_draw_color(&DrawColor::Background), 1);
}

#[test]
fn console_calls_set_the_colors_first() {
    let mut out = Vec::new();
    my_line(1, 2, 3, 4, &DrawColor::Foreground, &mut out);
    my_rect(5, 6, 7, 8, &DrawColor::Background, &mut out);
    my_text_str("hey", 9, 10, &DrawColor::MainKitty, &mut out);
    assert_eq!(
        out,
        vec![
            ConsoleCall::DrawColors(2),
            ConsoleCall::Line { x1: 1, y1: 2, x2: 3, y2: 4 },
            ConsoleCall::DrawColors(1),
            ConsoleCall::Rect { x: 5, y: 6, width: 7, height: 8 },
            ConsoleCall::DrawColors(4),
            ConsoleCall::Text { text: "hey".to_string(), x: 9, y: 10 },
        ]
    );
}

#[test]
fn console_blits_carry_sheet_width_and_flags() {
    let mut out = Vec::new();
    my_blit_sub(Spritesheet::Main, 1, 2, 8, 8, 16, 0, plain(), &mut out);
    my_blit_sub(
        Spritesheet::Main,
        1,
        2,
        8,
        8,
        16,
        0,
        BlitSubFlags { flip_x: true, flip_y: false },
        &mut out,
    );
    my_blit_sub(
        Spritesheet::Title,
        0,
        0,
        152,
        1,
        0,
        7,
        BlitSubFlags { flip_x: true, flip_y: true },
        &mut out,
    );
    let blit = |sheet, x, y, width, height, src_x, src_y, stride, flags| ConsoleCall::BlitSub {
        sheet,
        x,
        y,
        width,
        height,
        src_x,
        src_y,
        stride,
        flags,
    };
    assert_eq!(
        out,
        vec![
            ConsoleCall::DrawColors(0x4320),
            blit(Spritesheet::Main, 1, 2, 8, 8, 16, 0, 192, 1),
            ConsoleCall::DrawColors(0x4320),
            blit(Spritesheet::Main, 1, 2, 8, 8, 16, 0, 192, 3),
            ConsoleCall::DrawColors(0x0034),
            blit(Spritesheet::Title, 0, 0, 152, 1, 0, 7, 152, 7),
        ]
    );
}

#[test]
fn the_console_palette_starts_with_the_background() {
    let mut out = Vec::new();
    let p = Pallette { main_kitty: 1, pigs_lizards: 2, foreground: 3, background: 4 };
    set_palette(&p, &mut out);
    assert_eq!(out, vec![ConsoleCall::Palette([4, 3, 2, 1])]);
    let mut out = Vec::new();
    push_console_calls(&DrawCommand::SwitchPallette(p), &mut out);
    push_console_calls(&dot(3, 4), &mut out);
    assert_eq!(
        out,
        vec![
            ConsoleCall::Palette([4, 3, 2, 1]),
            ConsoleCall::DrawColors(1),
            ConsoleCall::Line { x1: 3, y1: 4, x2: 3, y2: 4 }
        ]
    );
}

#[test]
fn pressed_buttons_are_those_that_went_down() {
    let mut previous = PreviousFrameInput([0b0000_0001u8, 0xff, 0, 0b1010_0000]);
    let inputs = get_inputs_this_frame([0b0001_0001, 0x0f, 0, 0b0101_0000], &mut previous);
    assert_eq!(inputs[0], [0b0001_0000, 0, 0, 0b0101_0000]);
    assert_eq!(inputs[1], [0b0001_0001, 0x0f, 0, 0b0101_0000]);
    assert_eq!(previous, PreviousFrameInput([0b0001_0001, 0x0f, 0, 0b0101_0000]));
    let inputs = get_inputs_this_frame([0b0001_0001, 0x0f, 0, 0b0101_0000], &mut previous);
    assert_eq!(inputs[0], [0, 0, 0, 0]);
}

#[test]
fn a_console_frame_is_the_game_frame_as_console_calls() {
    let mut on_console = GameState::new(6);
    let mut plain_game = GameState::new(6);
    let mut previous = PreviousFrameInput([0u8; 4]);
    let mut before = [0u8; 4];
    for i in 0..150u32 {
        let gamepads = [if i % 7 < 3 { 1 } else { 0 }, 0, 0, 0];
        let calls = update(&mut on_console, &mut previous, gamepads, &Waves::still());
        let pressed = [gamepads[0] & (gamepads[0] ^ before[0]), 0, 0, 0];
        before = gamepads;
        let commands =
            kittygame_update(&mut plain_game, 160, 160, &pressed, &gamepads, &Waves::still());
        let mut expected = Vec::new();
        for c in commands.iter() {
            push_console_calls(c, &mut expected);
        }
        assert_eq!(calls, expected);
        assert_eq!(on_console.game_mode, plain_game.game_mode);
        assert_eq!(on_console.npcs, plain_game.npcs);
    }
    assert!(!matches!(on_console.game_mode, kittygame::menus::GameMode::StartScreen));
}
