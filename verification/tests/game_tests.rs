use kittygame::ability_cards::AbilityCardTypes;
use kittygame::collision::AbsoluteBoundingBox;
use kittygame::entities::{OptionallyEnabledPlayer, Player, Species, WarpAbility, WarpState};
use kittygame::game_state::{GameState, RunType};
use kittygame::kittygame_update;
use kittygame::menus::{
    GameMode, MenuTypes, Modal, NormalPlayModes, SelectMenuFocuses, SelectSetup,
};
use kittygame::multiplatform_defs::{
    DrawColor, DrawCommand, Waves, BUTTON_1, BUTTON_2, BUTTON_DOWN, BUTTON_LEFT, BUTTON_RIGHT,
    BUTTON_UP,
};
use kittygame::popup_text::PopupIcon;
use kittygame::rng::{GameRng, Rng};
use kittygame::spritesheet::palette;

fn frame(state: &mut GameState, pressed: u8, held: u8) -> Vec<DrawCommand> {
    assert!(state.is_valid());
    let commands = kittygame_update(
        state,
        160,
        160,
        &[pressed, 0, 0, 0],
        &[held, 0, 0, 0],
        &Waves::still(),
    );
    assert!(state.is_valid());
    commands
}

fn playing(seed: u32) -> GameState {
    let mut state = GameState::new(seed);
    state.game_mode = GameMode::NormalPlay(NormalPlayModes::MainGameplay);
    state.tutorial_text_counter = 1;
    state
}

fn player(state: &GameState) -> Player {
    match state.players[0] {
        OptionallyEnabledPlayer::Enabled(p) => p,
        OptionallyEnabledPlayer::Disabled => panic!("the first slot is in use"),
    }
}

fn set_player(state: &mut GameState, p: Player) {
    state.players[0] = OptionallyEnabledPlayer::Enabled(p);
}

fn menu_type(state: &GameState) -> Option<MenuTypes> {
    match state.game_mode {
        GameMode::NormalPlay(NormalPlayModes::HoverModal(m)) => Some(m.menu_type),
        _ => None,
    }
}

fn texts(commands: &[DrawCommand]) -> Vec<String> {
    commands
        .iter()
        .filter_map(|c| match c {
            DrawCommand::TextStr { text, .. } => Some(text.clone()),
            _ => None,
        })
        .collect()
}

#[test]
fn a_game_starts_on_the_title_screen() {
    let state = GameState::new(1);
    assert_eq!(state.game_mode, GameMode::StartScreen);
    assert_eq!(state.difficulty_level, 1);
    assert_eq!(state.settings.run_type, RunType::Random);
    assert!(state.is_valid());
    let mut twin = GameRng::Random(Rng::new_from_seed(1));
    for _ in 0..(20 + 32 + 12) {
        twin.next_for_worldgen();
    }
    assert_eq!(state.rng, twin);
}

#[test]
fn the_title_screen_waits_before_it_takes_buttons() {
    let mut state = GameState::new(1);
    for _ in 0..98 {
        frame(&mut state, BUTTON_1, BUTTON_1);
        assert_eq!(state.game_mode, GameMode::StartScreen);
    }
    assert_eq!(state.song_timer, 98);
    frame(&mut state, 0, 0);
    assert_eq!(state.game_mode, GameMode::StartScreen);
    frame(&mut state, 0, 0);
    assert_eq!(state.song_timer, 100);
    assert_eq!(state.game_mode, GameMode::StartScreen);
    frame(&mut state, BUTTON_DOWN, 0);
    assert_eq!(
        state.game_mode,
        GameMode::SelectScreen(SelectSetup { current_selection: SelectMenuFocuses::RunType })
    );
    assert_eq!(state.song_idx, 1);
}

#[test]
fn the_title_screen_draws_a_number_each_frame() {
    let mut state = GameState::new(1);
    let mut twin = state.rng;
    assert_eq!(state.npcs.len(), 4);
    for _ in 0..5 {
        frame(&mut state, 0, 0);
        for _ in 0..(4 + 1) {
            twin.next_for_input();
        }
        assert_eq!(state.rng, twin);
    }
}

#[test]
fn the_title_is_drawn_row_by_row_with_its_waves() {
    let mut state = GameState::new(1);
    state.song_timer = 209;
    let mut waves = Waves::still();
    waves.title_bob = -3;
    waves.title_ripple[7] = 11;
    assert!(waves.is_valid());
    let commands = kittygame_update(&mut state, 160, 160, &[0; 4], &[0; 4], &waves);
    let rows: Vec<&DrawCommand> = commands
        .iter()
        .filter(|c| matches!(c, DrawCommand::BlitSub { sheet: kittygame::multiplatform_defs::Spritesheet::Title, .. }))
        .collect();
    assert_eq!(rows.len(), 50);
    for (row, command) in rows.iter().enumerate() {
        let shift = if row == 7 { 11 } else { 0 };
        assert_eq!(
            **command,
            DrawCommand::BlitSub {
                sheet: kittygame::multiplatform_defs::Spritesheet::Title,
                x: 4 + shift,
                y: 15 - 3 + row as i32,
                width: 152,
                height: 1,
                src_x: 0,
                src_y: row as u32,
                flags: kittygame::multiplatform_defs::BlitSubFlags { flip_x: false, flip_y: false },
            }
        );
    }
    assert_eq!(texts(&commands), vec!["by CanyonTurtle", " & BurntSugar  ", "ver. 1.2.0"]);
    state.song_timer = 224;
    let commands = kittygame_update(&mut state, 160, 160, &[0; 4], &[0; 4], &waves);
    assert_eq!(
        texts(&commands),
        vec!["Any key: play", "by CanyonTurtle", " & BurntSugar  ", "ver. 1.2.0"]
    );
}

#[test]
fn waves_out_of_range_are_not_valid() {
    let mut waves = Waves::still();
    assert!(waves.is_valid());
    waves.modal_sway = 5;
    assert!(!waves.is_valid());
    waves.modal_sway = -4;
    waves.title_bob = 6;
    assert!(!waves.is_valid());
    waves.title_bob = 5;
    waves.title_ripple[49] = 3000001;
    assert!(!waves.is_valid());
    waves.title_ripple[49] = -3000000;
    assert!(waves.is_valid());
}

#[test]
fn the_select_screen_chooses_the_run_type() {
    let mut state = GameState::new(1);
    state.game_mode =
        GameMode::SelectScreen(SelectSetup { current_selection: SelectMenuFocuses::RunType });
    frame(&mut state, BUTTON_RIGHT, 0);
    assert_eq!(state.settings.run_type, RunType::Speedrun(0));
    frame(&mut state, BUTTON_2, 0);
    assert_eq!(state.settings.run_type, RunType::Speedrun(1));
    frame(&mut state, BUTTON_2, 0);
    assert_eq!(state.settings.run_type, RunType::Speedrun(2));
    frame(&mut state, BUTTON_LEFT, 0);
    assert_eq!(state.settings.run_type, RunType::Random);
    frame(&mut state, BUTTON_2, 0);
    assert_eq!(state.settings.run_type, RunType::Random);
    frame(&mut state, BUTTON_LEFT | BUTTON_2, 0);
    assert_eq!(state.settings.run_type, RunType::Speedrun(1));
    frame(&mut state, BUTTON_UP, BUTTON_RIGHT);
    assert_eq!(state.settings.run_type, RunType::Speedrun(1));
    assert!(matches!(state.game_mode, GameMode::SelectScreen(_)));
    state.settings.run_type = RunType::Speedrun(u32::MAX);
    frame(&mut state, BUTTON_2, 0);
    assert_eq!(state.settings.run_type, RunType::Speedrun(0));
}

#[test]
fn the_select_screen_says_what_was_chosen() {
    let mut state = GameState::new(1);
    state.game_mode =
        GameMode::SelectScreen(SelectSetup { current_selection: SelectMenuFocuses::RunType });
    state.song_timer = 0;
    let commands = frame(&mut state, 0, 0);
    let shown = texts(&commands);
    assert_eq!(shown[0..4], ["Start!", "Start!", "Start!", "Start!"]);
    assert_eq!(shown[4], "Normal Mode");
    assert_eq!(shown[16], "in time!");
    assert_eq!(shown.len(), 20);
    state.settings.run_type = RunType::Speedrun(41);
    state.song_timer = 14;
    let commands = frame(&mut state, BUTTON_2, 0);
    let shown = texts(&commands);
    assert_eq!(shown[0..2], [">", "x"]);
    assert_eq!(shown[6], "Seed Mode");
    assert_eq!(shown[18], " for seed: 42");
    assert_eq!(shown[22], "z");
    assert_eq!(shown.len(), 23);
    assert_eq!(
        commands[commands.len() - 51],
        DrawCommand::TextStr { text: "z".to_string(), x: 25, y: 106, color: DrawColor::MainKitty }
    );
}

#[test]
fn a_seeded_game_is_the_same_every_time() {
    let mut runs: Vec<GameState> = Vec::new();
    for boot in [1u32, 2, 3] {
        let mut state = GameState::new(boot);
        for _ in 0..(100 + boot) {
            frame(&mut state, 0, 0);
        }
        frame(&mut state, BUTTON_UP, 0);
        frame(&mut state, BUTTON_RIGHT, 0);
        for _ in 0..5 {
            frame(&mut state, BUTTON_2, 0);
        }
        assert_eq!(state.settings.run_type, RunType::Speedrun(5));
        frame(&mut state, BUTTON_1, 0);
        assert_eq!(state.game_mode, GameMode::NormalPlay(NormalPlayModes::MainGameplay));
        for i in 0..300u32 {
            let held = if i % 50 < 25 { BUTTON_RIGHT | BUTTON_1 } else { BUTTON_LEFT };
            frame(&mut state, if i == 2 { BUTTON_1 } else { 0 }, held);
        }
        runs.push(state);
    }
    for other in runs[1..].iter() {
        assert_eq!(other.npcs, runs[0].npcs);
        assert_eq!(other.players, runs[0].players);
        assert_eq!(other.rng, runs[0].rng);
        assert_eq!(other.clouds, runs[0].clouds);
        assert_eq!(other.countdown_timer_msec, runs[0].countdown_timer_msec);
        for (a, b) in other.map.chunks.iter().zip(runs[0].map.chunks.iter()) {
            assert_eq!(a.tiles, b.tiles);
        }
    }
    let mut twin = GameRng::new_fixed_seed(5);
    for _ in 0..(32 + 12) {
        twin.next_for_worldgen();
    }
    match (runs[0].rng, twin) {
        (GameRng::FixedSeed(world, _), GameRng::FixedSeed(expected, _)) => {
            assert_eq!(world, expected)
        }
        _ => panic!("a seeded run has two streams"),
    }
}

#[test]
fn the_clock_runs_in_play_and_the_help_opens_once() {
    let mut state = GameState::new(1);
    state.game_mode = GameMode::NormalPlay(NormalPlayModes::MainGameplay);
    frame(&mut state, 0, 0);
    assert_eq!(state.countdown_timer_msec, 3599);
    assert_eq!(state.speedrun_timer_msec, 1);
    assert!(!state.countdown_paused);
    assert_eq!(state.game_mode, GameMode::NormalPlay(NormalPlayModes::MainGameplay));
    frame(&mut state, 0, 0);
    assert_eq!(state.countdown_timer_msec, 3598);
    assert_eq!(state.tutorial_text_counter, 1);
    assert_eq!(
        state.game_mode,
        GameMode::NormalPlay(NormalPlayModes::HoverModal(Modal::new(
            AbsoluteBoundingBox { x: 10, y: 10, width: 140, height: 140 },
            MenuTypes::StartGameMessage
        )))
    );
    frame(&mut state, 0, 0);
    assert!(state.countdown_paused);
    assert_eq!(state.countdown_timer_msec, 3598);
    assert_eq!(state.speedrun_timer_msec, 2);
}

#[test]
fn a_box_grows_and_then_takes_buttons() {
    let mut state = playing(1);
    let opened = Modal::new(
        AbsoluteBoundingBox { x: 10, y: 10, width: 140, height: 140 },
        MenuTypes::StartGameMessage,
    );
    assert_eq!(
        opened.actual_position,
        AbsoluteBoundingBox { x: 80000, y: 80000, width: 0, height: 0 }
    );
    state.game_mode = GameMode::NormalPlay(NormalPlayModes::HoverModal(opened));
    let commands = frame(&mut state, BUTTON_1, 0);
    let m = match state.game_mode {
        GameMode::NormalPlay(NormalPlayModes::HoverModal(m)) => m,
        _ => panic!("the box stays open"),
    };
    assert_eq!(
        m.actual_position,
        AbsoluteBoundingBox { x: 69500, y: 69500, width: 21000, height: 21000 }
    );
    assert_eq!(m.timer, 1);
    assert!(texts(&commands).is_empty());
    assert_eq!(
        commands[commands.len() - 5..],
        [
            DrawCommand::Rect { x: 69, y: 69, width: 21, height: 21, color: DrawColor::Background },
            DrawCommand::Line { x1: 69, y1: 69, x2: 90, y2: 69, color: DrawColor::Foreground },
            DrawCommand::Line { x1: 69, y1: 69, x2: 69, y2: 90, color: DrawColor::Foreground },
            DrawCommand::Line { x1: 69, y1: 90, x2: 90, y2: 90, color: DrawColor::Foreground },
            DrawCommand::Line { x1: 90, y1: 69, x2: 90, y2: 90, color: DrawColor::Foreground },
        ]
    );
    let mut first_text_frame = None;
    for i in 2..60 {
        let commands = frame(&mut state, BUTTON_1, 0);
        if !texts(&commands).is_empty() && first_text_frame.is_none() {
            first_text_frame = Some(i);
            assert_eq!(texts(&commands).len(), 8);
            assert_eq!(texts(&commands)[0], "-- GOAL --");
        }
        assert_eq!(menu_type(&state), Some(MenuTypes::StartGameMessage));
    }
    assert!(first_text_frame.unwrap() < 30);
    frame(&mut state, BUTTON_UP, BUTTON_1);
    assert_eq!(menu_type(&state), Some(MenuTypes::StartGameMessage));
    frame(&mut state, BUTTON_2, 0);
    assert_eq!(state.game_mode, GameMode::NormalPlay(NormalPlayModes::MainGameplay));
}

#[test]
fn a_box_rocks_with_the_sway() {
    let mut state = playing(1);
    let mut modal = Modal::new(
        AbsoluteBoundingBox { x: 10, y: 10, width: 140, height: 140 },
        MenuTypes::Done,
    );
    modal.actual_position = AbsoluteBoundingBox { x: 10000, y: 10000, width: 140000, height: 140000 };
    state.game_mode = GameMode::NormalPlay(NormalPlayModes::HoverModal(modal));
    let mut waves = Waves::still();
    waves.modal_sway = 4;
    kittygame_update(&mut state, 160, 160, &[0; 4], &[0; 4], &waves);
    match state.game_mode {
        GameMode::NormalPlay(NormalPlayModes::HoverModal(m)) => {
            assert_eq!(
                m.actual_position,
                AbsoluteBoundingBox { x: 10000, y: 10600, width: 140000, height: 140000 }
            );
        }
        _ => panic!("the box stays open"),
    }
}

#[test]
fn the_game_ends_when_the_clock_runs_out() {
    let mut state = playing(1);
    state.countdown_timer_msec = 1;
    state.countdown_paused = false;
    frame(&mut state, 0, 0);
    assert_eq!(state.countdown_timer_msec, 0);
    assert_eq!(
        state.game_mode,
        GameMode::NormalPlay(NormalPlayModes::HoverModal(Modal::new(
            AbsoluteBoundingBox { x: 15, y: 50, width: 130, height: 60 },
            MenuTypes::Done
        )))
    );
    assert_eq!(state.song_idx, 0);
    state.difficulty_level = 4;
    let mut shown: Vec<String> = Vec::new();
    for _ in 0..59 {
        shown = texts(&frame(&mut state, BUTTON_1, 0));
    }
    assert_eq!(shown, vec!["Time's Up!", "End: W2-L1", "Sc: 0p"]);
    for _ in 59..67 {
        shown = texts(&frame(&mut state, 0, 0));
    }
    assert_eq!(shown, vec!["End: W2-L1", "Sc: 0p"]);
    assert_eq!(texts(&frame(&mut state, 0, 0)), vec!["Time's Up!", "End: W2-L1", "Sc: 0p"]);
    frame(&mut state, BUTTON_1, 0);
    assert_eq!(state.game_mode, GameMode::StartScreen);
    assert_eq!(state.difficulty_level, 1);
}

#[test]
fn a_paused_clock_is_started_by_play() {
    let mut state = playing(1);
    state.countdown_paused = true;
    state.countdown_timer_msec = 1;
    frame(&mut state, 0, 0);
    assert_eq!(menu_type(&state), Some(MenuTypes::Done));
}

#[test]
fn a_won_level_leads_to_the_next() {
    let mut state = playing(1);
    for npc in state.npcs.iter_mut() {
        npc.following_i = Some(0);
    }
    state.score = 7;
    state.song_timer = 40;
    frame(&mut state, 0, 0);
    assert_eq!(
        state.game_mode,
        GameMode::NormalPlay(NormalPlayModes::HoverModal(Modal::new(
            AbsoluteBoundingBox { x: 40, y: 40, width: 80, height: 40 },
            MenuTypes::WonLevel
        )))
    );
    assert_eq!(state.song_timer, 0);
    assert_eq!(state.song_idx, 0);
    let countdown = state.countdown_timer_msec;
    let mut last = Vec::new();
    for _ in 0..59 {
        last = texts(&frame(&mut state, BUTTON_1, 0));
        assert_eq!(menu_type(&state), Some(MenuTypes::WonLevel));
    }
    assert_eq!(last, vec!["W1-L1", "Clear!"]);
    let commands = frame(&mut state, BUTTON_1, 0);
    assert!(texts(&commands).is_empty());
    assert_eq!(state.difficulty_level, 2);
    assert_eq!(state.npcs.len(), 5);
    assert!(state.npcs.iter().all(|npc| npc.following_i.is_none()));
    assert_eq!(state.countdown_timer_msec, countdown + 840);
    assert_eq!(state.score, 7 + 840);
    assert_eq!(
        state.game_mode,
        GameMode::NormalPlay(NormalPlayModes::HoverModal(Modal::new(
            AbsoluteBoundingBox { x: 45, y: 40, width: 70, height: 50 },
            MenuTypes::StartLevel
        )))
    );
    let mut frames = 0;
    let mut shown = Vec::new();
    while menu_type(&state) == Some(MenuTypes::StartLevel) {
        let now = texts(&frame(&mut state, 0, 0));
        if !now.is_empty() {
            shown = now;
        }
        frames += 1;
        assert!(frames < 200);
    }
    assert_eq!(frames, 101);
    assert_eq!(shown, vec!["W1-L2", "Start!", "+14"]);
    assert_eq!(state.game_mode, GameMode::NormalPlay(NormalPlayModes::MainGameplay));
}

#[test]
fn the_last_level_wins_the_game() {
    let mut state = playing(1);
    state.difficulty_level = 12;
    state.regenerate_map();
    state.speedrun_timer_msec = 600;
    for npc in state.npcs.iter_mut() {
        npc.following_i = Some(0);
    }
    frame(&mut state, 0, 0);
    assert_eq!(
        state.game_mode,
        GameMode::NormalPlay(NormalPlayModes::HoverModal(Modal::new(
            AbsoluteBoundingBox { x: 25, y: 35, width: 110, height: 65 },
            MenuTypes::WonGame
        )))
    );
    let mut shown = Vec::new();
    for _ in 0..68 {
        shown = texts(&frame(&mut state, 0, 0));
    }
    let score = format!("Sc: {}p", state.score);
    assert_eq!(shown, vec!["YOU WON!!!", "End: W4-L3", score.as_str(), "Time: 10s"]);
    state.settings.run_type = RunType::Speedrun(3);
    assert_eq!(
        texts(&frame(&mut state, 0, 0)),
        vec!["YOU WON!!!", "End: W4-L3", "Sd.3: 10s"]
    );
    frame(&mut state, BUTTON_2, 0);
    assert_eq!(state.game_mode, GameMode::StartScreen);
    assert_eq!(state.difficulty_level, 1);
}

#[test]
fn titles_of_boxes_blink() {
    let mut state = playing(1);
    let mut modal = Modal::new(
        AbsoluteBoundingBox { x: 15, y: 50, width: 130, height: 60 },
        MenuTypes::Done,
    );
    modal.actual_position = AbsoluteBoundingBox { x: 15000, y: 50000, width: 130000, height: 60000 };
    for (timer, lit) in [(10u32, true), (58, true), (59, false), (67, true), (84, false), (101, true)] {
        modal.timer = timer;
        state.game_mode = GameMode::NormalPlay(NormalPlayModes::HoverModal(modal));
        let shown = texts(&frame(&mut state, 0, 0));
        assert_eq!(shown.contains(&"Time's Up!".to_string()), lit, "timer {}", timer + 1);
    }
}

#[test]
fn an_animal_under_the_player_follows_it_from_then_on() {
    let mut state = playing(4);
    let p = player(&state);
    state.npcs[2].x_pos = p.character.x_pos;
    state.npcs[2].y_pos = p.character.y_pos;
    assert_eq!(state.npcs[2].following_i, None);
    frame(&mut state, 0, 0);
    assert_eq!(state.npcs[2].following_i, Some(0));
    assert_eq!(player(&state).kitties_found, 1);
    for i in 0..300u32 {
        let held = match (i / 40) % 3 {
            0 => BUTTON_RIGHT,
            1 => BUTTON_RIGHT | BUTTON_1,
            _ => BUTTON_LEFT,
        };
        frame(&mut state, 0, held);
        assert_eq!(state.npcs[2].following_i, Some(0));
        if menu_type(&state).is_some() {
            break;
        }
    }
}

#[test]
fn nothing_is_found_while_a_box_is_open() {
    let mut state = playing(4);
    let p = player(&state);
    state.npcs[2].x_pos = p.character.x_pos;
    state.npcs[2].y_pos = p.character.y_pos;
    state.game_mode = GameMode::NormalPlay(NormalPlayModes::HoverModal(Modal::new(
        AbsoluteBoundingBox { x: 10, y: 10, width: 140, height: 140 },
        MenuTypes::StartGameMessage,
    )));
    frame(&mut state, 0, 0);
    assert_eq!(state.npcs[2].following_i, None);
}

#[test]
fn an_animal_that_was_left_behind_is_set_down_at_its_player() {
    let mut state = playing(4);
    let mut p = player(&state);
    p.character.x_pos = 5000;
    p.character.y_pos = 100000;
    set_player(&mut state, p);
    state.npcs[0].following_i = Some(0);
    state.npcs[0].x_pos = 5000 + 161000;
    state.npcs[0].y_pos = 100000;
    state.npcs[0].x_vel = 1500;
    state.npcs[1].following_i = Some(0);
    state.npcs[1].x_pos = 5000 + 160000;
    state.npcs[1].y_pos = 100000;
    let before = state.rng;
    kittygame_update(&mut state, 160, 160, &[0; 4], &[0; 4], &Waves::still());
    let moved = player(&state).character;
    assert_eq!(moved.y_pos, 100300);
    assert_eq!(state.npcs[0].x_pos, 5000);
    assert_eq!(state.npcs[0].y_pos, 100000 + 300);
    assert_eq!(state.npcs[0].x_vel, 0);
    assert!(state.npcs[1].x_pos > 100000);
    let mut twin = before;
    for _ in 0..(state.npcs.len() + 1) {
        twin.next_for_input();
    }
    assert_eq!(state.rng, twin);
}

#[test]
fn an_animal_whose_player_is_gone_stands_still() {
    let mut state = playing(4);
    state.npcs[0].following_i = Some(3);
    state.npcs[0].x_pos = 50000;
    state.npcs[0].y_pos = 307000;
    for _ in 0..50 {
        frame(&mut state, 0, 0);
        assert_eq!(state.npcs[0].x_pos, 50000);
    }
}

#[test]
fn a_used_card_gives_time_and_shows_it() {
    let mut state = playing(4);
    let mut p = player(&state);
    p.card_stack.try_push_card(AbilityCardTypes::Time);
    p.card_stack.try_push_card(AbilityCardTypes::Fly);
    p.card_stack.try_push_card(AbilityCardTypes::Fly);
    p.card_stack.try_push_card(AbilityCardTypes::Warp);
    p.card_stack.try_push_card(AbilityCardTypes::Warp);
    set_player(&mut state, p);
    state.countdown_timer_msec = 1000;
    state.score = 50;
    frame(&mut state, BUTTON_2, 0);
    assert_eq!(state.countdown_timer_msec, 1000 + 300 - 1);
    assert_eq!(state.score, 350);
    let popup = state.popup_text_ringbuffer.texts[0].clone().unwrap();
    assert_eq!(popup.text, " +5");
    assert_eq!(popup.icon, PopupIcon::Clock);
    assert_eq!(state.clouds.len(), 6);
    assert_eq!((state.clouds[1].vx, state.clouds[1].vy), (2000, 3440));
    assert_eq!((state.clouds[4].vx, state.clouds[4].vy), (-2000, -3440));
    assert!(player(&state).card_stack.get(0).is_none());

    frame(&mut state, BUTTON_2, 0);
    assert!(player(&state).character.can_fly);
    assert_eq!(state.countdown_timer_msec, 1299 - 1);
    let popup = state.popup_text_ringbuffer.texts[1].clone().unwrap();
    assert_eq!((popup.text.as_str(), popup.icon), ("fly!", PopupIcon::NoIcon));

    frame(&mut state, BUTTON_2, 0);
    assert_eq!(state.countdown_timer_msec, 1298 + 600 - 1);
    let popup = state.popup_text_ringbuffer.texts[2].clone().unwrap();
    assert_eq!((popup.text.as_str(), popup.icon), (" +10", PopupIcon::Clock));

    frame(&mut state, BUTTON_2, 0);
    assert_eq!(
        player(&state).character.warp_ability,
        WarpAbility::CanWarp(WarpState::Charging(0))
    );
    let popup = state.popup_text_ringbuffer.texts[3].clone().unwrap();
    assert_eq!((popup.text.as_str(), popup.icon), ("hold   : warp", PopupIcon::DownArrow));

    state.countdown_timer_msec = 5900;
    frame(&mut state, BUTTON_2, 0);
    assert_eq!(state.countdown_timer_msec, 5999 - 1);
    let popup = state.popup_text_ringbuffer.texts[4].clone().unwrap();
    assert_eq!((popup.text.as_str(), popup.icon), (" +10", PopupIcon::Clock));

    let score = state.score;
    frame(&mut state, BUTTON_2, 0);
    assert_eq!(state.score, score);
    assert!(state.popup_text_ringbuffer.texts[5].is_none());
}

#[test]
fn cards_are_not_used_while_a_box_is_open() {
    let mut state = playing(4);
    let mut p = player(&state);
    p.card_stack.try_push_card(AbilityCardTypes::Time);
    set_player(&mut state, p);
    state.game_mode = GameMode::NormalPlay(NormalPlayModes::HoverModal(Modal::new(
        AbsoluteBoundingBox { x: 10, y: 10, width: 140, height: 140 },
        MenuTypes::StartGameMessage,
    )));
    frame(&mut state, BUTTON_2, 0);
    assert!(player(&state).card_stack.get(0).is_some());
}

#[test]
fn cards_line_up_near_the_top_right_corner() {
    let mut state = playing(4);
    let mut p = player(&state);
    p.card_stack.try_push_card(AbilityCardTypes::Time);
    p.card_stack.try_push_card(AbilityCardTypes::Warp);
    set_player(&mut state, p);
    let commands = frame(&mut state, 0, 0);
    let card = player(&state).card_stack.get(1).unwrap();
    assert_eq!((card.target_x, card.target_y), (95000, 1000));
    assert_eq!((card.x_pos, card.y_pos), (83000, -15800));
    let blits: Vec<&DrawCommand> = commands
        .iter()
        .filter(|c| matches!(c, DrawCommand::BlitSub { width: 12, height: 16, .. }))
        .collect();
    assert_eq!(blits.len(), 2);
    assert_eq!(
        *blits[1],
        DrawCommand::BlitSub {
            sheet: kittygame::multiplatform_defs::Spritesheet::Main,
            x: 83,
            y: -15,
            width: 12,
            height: 16,
            src_x: 24,
            src_y: 16,
            flags: kittygame::multiplatform_defs::BlitSubFlags { flip_x: false, flip_y: false },
        }
    );
    for _ in 0..100 {
        frame(&mut state, 0, 0);
        if menu_type(&state).is_some() {
            break;
        }
    }
    let card = player(&state).card_stack.get(0).unwrap();
    assert!((card.x_pos - 80000).abs() < 10 && (card.y_pos - 1000).abs() < 10);
}

#[test]
fn a_frame_of_play_is_drawn_in_layers() {
    let mut state = playing(4);
    state.settings.run_type = RunType::Speedrun(9);
    state.speedrun_timer_msec = 120;
    let commands = frame(&mut state, 0, 0);
    assert_eq!(commands[0], DrawCommand::SwitchPallette(palette(0)));
    assert!(matches!(commands[1], DrawCommand::BlitSub { width: 5, height: 5, src_y: 40, .. }));
    let first_cat = commands
        .iter()
        .position(|c| matches!(c, DrawCommand::BlitSub { width: 8, height: 8, .. }))
        .unwrap();
    let last_tile = commands
        .iter()
        .rposition(|c| matches!(c, DrawCommand::BlitSub { width: 5, height: 5, .. }))
        .unwrap();
    assert!(last_tile < first_cat);
    assert!(matches!(commands[first_cat], DrawCommand::BlitSub { src_y: 0, src_x: 0..=31, .. }));
    let n = commands.len();
    let tail: Vec<String> = texts(&commands[n - 14..]);
    assert_eq!(
        tail,
        vec![
            "W1-L1", "W1-L1", "W1-L1", "W1-L1", "Sd.9: 2s", "Sd.9: 2s", "Sd.9: 2s", "Sd.9: 2s",
            "0/4   60 ", "0/4   60 ", "0/4   60 ", "0/4   60 "
        ]
    );
    assert_eq!(
        commands[n - 14],
        DrawCommand::TextStr { text: "W1-L1".to_string(), x: 1, y: 152, color: DrawColor::Background }
    );
    assert_eq!(
        commands[n - 3],
        DrawCommand::TextStr { text: "0/4   60 ".to_string(), x: 9, y: 2, color: DrawColor::Foreground }
    );
    assert_eq!(
        commands[n - 2],
        DrawCommand::BlitSub {
            sheet: kittygame::multiplatform_defs::Spritesheet::Main,
            x: 48,
            y: 1,
            width: 8,
            height: 8,
            src_x: 36,
            src_y: 16,
            flags: kittygame::multiplatform_defs::BlitSubFlags { flip_x: false, flip_y: false },
        }
    );
    assert!(matches!(commands[n - 1], DrawCommand::BlitSub { x: 1, y: 3, src_x: 44, .. }));
}

#[test]
fn the_palette_follows_the_mood() {
    let mut state = playing(4);
    state.difficulty_level = 8;
    state.regenerate_map();
    assert_eq!(state.pallette_idx, 2);
    let commands = frame(&mut state, 0, 0);
    assert_eq!(commands[0], DrawCommand::SwitchPallette(palette(2)));
    assert_eq!(palette(2).background, 0x071821);
    assert_eq!(palette(0).main_kitty, 0xf8ffd2);
    assert_eq!(palette(9), palette(3));
}

#[test]
fn the_cat_wanders_by_itself_on_the_title_screen() {
    let mut state = GameState::new(1);
    let start = player(&state).character.x_pos;
    let mut moved = false;
    for _ in 0..200 {
        frame(&mut state, 0, BUTTON_UP);
        if player(&state).character.x_pos != start {
            moved = true;
        }
    }
    assert!(moved);
}

#[test]
fn the_camera_follows_the_player() {
    let mut state = playing(4);
    let mut p = player(&state);
    p.character.x_pos = 500000;
    p.character.y_pos = 307000;
    set_player(&mut state, p);
    frame(&mut state, 0, 0);
    assert_eq!(state.camera.current_viewing_x_target, 420000);
    assert_eq!(state.camera.current_viewing_y_target, 227000);
    assert_eq!(state.camera.current_viewing_x_offset, 84000);
    assert_eq!(state.camera.current_viewing_y_offset, 45400);
    for _ in 0..200 {
        frame(&mut state, 0, 0);
        if menu_type(&state).is_some() {
            break;
        }
    }
    assert!((state.camera.current_viewing_x_offset - 420000).abs() < 10);
}

#[test]
fn random_buttons_never_break_the_game() {
    for seed in [1u32, 2, 3] {
        let mut state = GameState::new(seed);
        let mut buttons = Rng::new_from_seed(seed + 1000);
        let mut seen_play = false;
        let mut seen_box = false;
        for i in 0..4000u32 {
            let pressed = [
                (buttons.next() >> 8) as u8 & (buttons.next() >> 8) as u8,
                buttons.next() as u8,
                0,
                (buttons.next() >> 3) as u8,
            ];
            let held = [(buttons.next() >> 8) as u8, buttons.next() as u8, 0, 0xff];
            let commands = kittygame_update(&mut state, 160, 160, &pressed, &held, &Waves::still());
            assert!(state.is_valid(), "seed {} frame {}", seed, i);
            assert!(!commands.is_empty());
            match state.game_mode {
                GameMode::NormalPlay(NormalPlayModes::MainGameplay) => seen_play = true,
                GameMode::NormalPlay(NormalPlayModes::HoverModal(_)) => seen_box = true,
                _ => {}
            }
            for npc in state.npcs.iter() {
                assert!(0 <= npc.x_pos && npc.x_pos <= 1280000);
                assert!(0 <= npc.y_pos && npc.y_pos <= 320000);
            }
        }
        assert!(seen_play && seen_box);
    }
}

#[test]
fn odd_screens_are_fine() {
    for (sw, sh) in [(0u32, 0u32), (1, 1), (79, 5), (400, 160), (0x4000_0000, 0x4000_0000)] {
        if sw > 400 {
            let mut state = GameState::new(2);
            kittygame_update(&mut state, sw, sh, &[0; 4], &[0; 4], &Waves::still());
            assert!(state.is_valid());
            continue;
        }
        let mut state = playing(2);
        let mut p = player(&state);
        p.card_stack.try_push_card(AbilityCardTypes::Time);
        set_player(&mut state, p);
        for _ in 0..5 {
            kittygame_update(&mut state, sw, sh, &[BUTTON_1; 4], &[BUTTON_1; 4], &Waves::still());
            assert!(state.is_valid());
        }
        state.game_mode = GameMode::SelectScreen(SelectSetup {
            current_selection: SelectMenuFocuses::RunType,
        });
        kittygame_update(&mut state, sw, sh, &[0; 4], &[0; 4], &Waves::still());
        assert!(state.is_valid());
    }
}

#[test]
fn a_state_that_was_tampered_with_is_not_valid() {
    let state = playing(2);
    assert!(state.is_valid());
    let mut s = state.clone();
    s.countdown_timer_msec = 0;
    assert!(!s.is_valid());
    let mut s = state.clone();
    s.difficulty_level = 13;
    assert!(!s.is_valid());
    let mut s = state.clone();
    s.npcs[0].x_pos = -1;
    assert!(!s.is_valid());
    let mut s = state.clone();
    s.npcs[0].following_i = Some(4);
    assert!(!s.is_valid());
    let mut s = state.clone();
    s.map.chunks[0].tiles.pop();
    assert!(!s.is_valid());
    let mut s = state.clone();
    s.map.chunks[1].tiles[5] = 4;
    assert!(!s.is_valid());
    let mut s = state.clone();
    s.popup_text_ringbuffer.next_i = 8;
    assert!(!s.is_valid());
    let mut s = state.clone();
    s.pallette_idx = 4;
    assert!(!s.is_valid());
    let mut s = state.clone();
    s.npcs[0].species = Species::Pig;
    s.npcs[0].current_sprite_i = 4;
    assert!(!s.is_valid());
}

#[test]
fn a_card_button_on_an_empty_stack_changes_nothing() {
    let mut state = playing(4);
    let before = state.clone();
    let p = player(&before);
    assert_eq!(p.card_stack, kittygame::ability_cards::CardStack::new());
    for frames in 1..=5 {
        frame(&mut state, BUTTON_2, 0);
        let q = player(&state);
        assert_eq!(q.card_stack, p.card_stack);
        assert_eq!(q.character.can_fly, p.character.can_fly);
        assert_eq!(q.character.warp_ability, p.character.warp_ability);
        assert_eq!(state.score, before.score);
        assert_eq!(state.popup_text_ringbuffer.texts, before.popup_text_ringbuffer.texts);
        assert_eq!(state.popup_text_ringbuffer.next_i, before.popup_text_ringbuffer.next_i);
        assert!(state.clouds.is_empty());
        assert_eq!(state.countdown_timer_msec, before.countdown_timer_msec - frames);
    }
}

#[test]
fn frames_of_right_and_jump_gain_ground() {
    for seed in 0..10u32 {
        let mut state = GameState::new(seed);
        state.difficulty_level = 1;
        state.regenerate_map();
        state.game_mode = GameMode::NormalPlay(NormalPlayModes::MainGameplay);
        let start = kittygame::collision::get_bound_of_character(&player(&state).character);
        assert_eq!(start.x, 10);
        let mut last_x = player(&state).character.x_pos;
        for i in 0..120 {
            frame(&mut state, 0, BUTTON_RIGHT | BUTTON_1);
            assert!(matches!(state.game_mode, GameMode::NormalPlay(_)));
            let x = player(&state).character.x_pos;
            assert!(x >= last_x);
            if i == 1 {
                assert_eq!(x, 11200);
            }
            last_x = x;
        }
        let end = kittygame::collision::get_bound_of_character(&player(&state).character);
        assert!(end.x > start.x);
        assert!(0 <= end.x && end.x <= 1280 && 0 <= end.y && end.y <= 320);
    }
}
