use kittygame::cloud::Cloud;
use kittygame::collision::{
    check_entity_collisions, get_bound_of_character, hits_solid, overlaps, update_character,
    update_pos, AbsoluteBoundingBox,
};
use kittygame::entities::{
    Character, KittyStates, MovingEntity, OptionallyEnabledPlayer, Species, WarpAbility,
    WarpState, X_MAX, X_MIN, Y_MAX, Y_MIN,
};
use kittygame::ability_cards::AbilityCardTypes;
use kittygame::game_state::GameState;
use kittygame::multiplatform_defs::{
    BUTTON_1, BUTTON_2, BUTTON_DOWN, BUTTON_LEFT, BUTTON_RIGHT, BUTTON_UP,
};
use kittygame::rng::Rng;
use kittygame::spritesheet::PresetSprites;

fn cat_at(x: i64, y: i64) -> Character {
    Character::new(PresetSprites::MainCat, Species::Cat, x, y)
}

fn player_of(state: &GameState) -> Character {
    match state.players[0] {
        OptionallyEnabledPlayer::Enabled(p) => p.character,
        OptionallyEnabledPlayer::Disabled => panic!("the first slot is in use"),
    }
}

#[test]
fn button_bits() {
    assert_eq!(
        (BUTTON_1, BUTTON_2, BUTTON_LEFT, BUTTON_RIGHT, BUTTON_UP, BUTTON_DOWN),
        (0x01, 0x02, 0x10, 0x20, 0x40, 0x80)
    );
}

#[test]
fn a_character_falls_to_the_ground_and_stays() {
    let state = GameState::new(1);
    let mut clouds: Vec<Cloud> = Vec::new();
    let mut c = cat_at(5000, 290000);
    assert!(!hits_solid(&state.map, 5000, 290000, 8, 8));
    let mut grounded_at = None;
    for frame in 0..60 {
        c = update_character(&state.map, &c, 0, false, &mut clouds);
        if c.state == KittyStates::Grounded && grounded_at.is_none() {
            grounded_at = Some(frame);
        }
    }
    assert!(grounded_at.is_some());
    assert_eq!(c.state, KittyStates::Grounded);
    assert_eq!(c.y_pos, 307000);
    assert_eq!(c.y_vel, 0);
    assert_eq!(c.x_pos, 5000);
    assert_eq!(c.current_sprite_i, 0);
    assert!(grounded_at.unwrap() < 15);
}

#[test]
fn gravity_adds_to_the_speed_up_to_a_limit() {
    let state = GameState::new(1);
    let mut clouds: Vec<Cloud> = Vec::new();
    let mut c = cat_at(5000, 100000);
    c = update_character(&state.map, &c, 0, false, &mut clouds);
    assert_eq!((c.y_vel, c.y_pos), (300, 100300));
    assert_eq!(c.state, KittyStates::Airborne);
    assert_eq!(c.current_sprite_i, 3);
    c = update_character(&state.map, &c, 0, false, &mut clouds);
    assert_eq!((c.y_vel, c.y_pos), (600, 100900));
    c.y_vel = 3900;
    c = update_character(&state.map, &c, 0, false, &mut clouds);
    assert_eq!(c.y_vel, 4000);
}

#[test]
fn walking_accelerates_and_friction_slows_down() {
    let state = GameState::new(1);
    let mut clouds: Vec<Cloud> = Vec::new();
    let mut c = cat_at(50000, 307000);
    c = update_character(&state.map, &c, BUTTON_RIGHT, false, &mut clouds);
    assert_eq!((c.x_vel, c.x_pos), (400, 50400));
    assert!(c.is_facing_right);
    for _ in 0..10 {
        c = update_character(&state.map, &c, BUTTON_RIGHT, false, &mut clouds);
    }
    assert_eq!(c.x_vel, 2000);
    c = update_character(&state.map, &c, 0, false, &mut clouds);
    assert_eq!(c.x_vel, 1600);
    c = update_character(&state.map, &c, BUTTON_LEFT, false, &mut clouds);
    assert_eq!(c.x_vel, 1200);
    assert!(!c.is_facing_right);
    c = update_character(&state.map, &c, BUTTON_LEFT | BUTTON_RIGHT, false, &mut clouds);
    assert_eq!(c.x_vel, 960);
    assert!(!c.is_facing_right);
}

#[test]
fn a_wall_stops_a_character_at_its_edge() {
    let state = GameState::new(1);
    let mut clouds: Vec<Cloud> = Vec::new();
    let mut c = cat_at(10000, 307000);
    for _ in 0..60 {
        c = update_character(&state.map, &c, BUTTON_LEFT, false, &mut clouds);
    }
    assert_eq!(c.x_pos, 5000);
    assert_eq!(c.x_vel, 0);
    let right_wall_px = (64 - 1) * 5;
    let mut c = cat_at(300000, 307000);
    for _ in 0..60 {
        c = update_character(&state.map, &c, BUTTON_RIGHT, false, &mut clouds);
    }
    assert_eq!(c.x_pos, (right_wall_px - 8) as i64 * 1000);
    assert_eq!(c.x_vel, 0);
}

#[test]
fn a_jump_starts_from_the_ground_only() {
    let state = GameState::new(1);
    let mut clouds: Vec<Cloud> = Vec::new();
    let mut c = cat_at(5000, 307000);
    c = update_character(&state.map, &c, 0, false, &mut clouds);
    assert_eq!(c.state, KittyStates::Grounded);
    assert_eq!(c.y_pos, 307000);
    c = update_character(&state.map, &c, BUTTON_1, false, &mut clouds);
    assert_eq!(c.y_vel, -4500);
    assert_eq!(c.y_pos, 302500);
    assert_eq!(c.state, KittyStates::Airborne);
    c = update_character(&state.map, &c, BUTTON_1, false, &mut clouds);
    assert_eq!(c.y_vel, -4200);
    let mut flyer = c;
    flyer.can_fly = true;
    flyer = update_character(&state.map, &flyer, BUTTON_1, false, &mut clouds);
    assert_eq!(flyer.y_vel, -4500);
}

#[test]
fn a_ceiling_holds_a_character_that_keeps_jumping() {
    let state = GameState::new(1);
    let mut clouds: Vec<Cloud> = Vec::new();
    let mut c = cat_at(5000, 6000);
    c.y_vel = -3000;
    c = update_character(&state.map, &c, 0, false, &mut clouds);
    assert_eq!(c.state, KittyStates::OnCeiling(0));
    assert_eq!(c.y_pos, 5000);
    assert_eq!(c.y_vel, 0);
    c = update_character(&state.map, &c, BUTTON_1, false, &mut clouds);
    assert_eq!(c.state, KittyStates::OnCeiling(1));
    c = update_character(&state.map, &c, BUTTON_1 | BUTTON_RIGHT, false, &mut clouds);
    assert_eq!(c.state, KittyStates::OnCeiling(2));
    assert_eq!(c.y_pos, 5000);
    assert!(c.x_pos > 5000);
    c = update_character(&state.map, &c, 0, false, &mut clouds);
    assert_eq!(c.state, KittyStates::Airborne);
}

#[test]
fn god_mode_moves_without_gravity() {
    let state = GameState::new(1);
    let mut clouds: Vec<Cloud> = Vec::new();
    let mut c = cat_at(5000, 100000);
    c = update_character(&state.map, &c, 0, true, &mut clouds);
    assert_eq!((c.y_vel, c.y_pos), (0, 100000));
    c = update_character(&state.map, &c, BUTTON_UP, true, &mut clouds);
    assert_eq!((c.y_vel, c.y_pos), (-3000, 97000));
    c = update_character(&state.map, &c, BUTTON_DOWN, true, &mut clouds);
    assert_eq!((c.y_vel, c.y_pos), (3000, 100000));
}

#[test]
fn a_warp_charges_holds_and_carries() {
    let state = GameState::new(1);
    let mut clouds: Vec<Cloud> = Vec::new();
    let mut c = cat_at(100000, 307000);
    c.warp_ability = WarpAbility::CanWarp(WarpState::Charging(0));
    for t in 1..30u32 {
        c = update_character(&state.map, &c, BUTTON_DOWN, false, &mut clouds);
        assert_eq!(c.warp_ability, WarpAbility::CanWarp(WarpState::Charging(t)));
    }
    assert!(clouds.is_empty());
    c = update_character(&state.map, &c, BUTTON_DOWN, false, &mut clouds);
    assert_eq!(c.warp_ability, WarpAbility::CanWarp(WarpState::Warping(6)));
    assert_eq!(c.state, KittyStates::Warping(6));
    assert_eq!(clouds.len(), 1);
    assert_eq!((clouds[0].x, clouds[0].y, clouds[0].vx, clouds[0].vy), (100000, 307000, 0, -500));
    let x_before = c.x_pos;
    for k in (1..6u32).rev() {
        c = update_character(&state.map, &c, 0, false, &mut clouds);
        assert_eq!(c.state, KittyStates::Warping(k));
        assert_eq!(c.x_pos, x_before);
    }
    c = update_character(&state.map, &c, 0, false, &mut clouds);
    assert_eq!(c.x_pos, x_before + 40000);
    assert_eq!(c.warp_ability, WarpAbility::CanWarp(WarpState::Charging(0)));
    assert_eq!(c.state, KittyStates::Airborne);
    assert_eq!(clouds.len(), 2);
}

#[test]
fn letting_go_of_down_starts_the_charge_over() {
    let state = GameState::new(1);
    let mut clouds: Vec<Cloud> = Vec::new();
    let mut c = cat_at(100000, 307000);
    c.warp_ability = WarpAbility::CanWarp(WarpState::Charging(12));
    c = update_character(&state.map, &c, BUTTON_LEFT, false, &mut clouds);
    assert_eq!(c.warp_ability, WarpAbility::CanWarp(WarpState::Charging(0)));
    let mut plain = cat_at(100000, 307000);
    plain = update_character(&state.map, &plain, BUTTON_DOWN, false, &mut clouds);
    assert_eq!(plain.warp_ability, WarpAbility::CannotWarp);
}

#[test]
fn a_warp_ends_inside_the_world() {
    let state = GameState::new(1);
    let mut clouds: Vec<Cloud> = Vec::new();
    let mut c = cat_at(X_MAX - 1000, 100000);
    c.warp_ability = WarpAbility::CanWarp(WarpState::Warping(1));
    c = update_character(&state.map, &c, 0, false, &mut clouds);
    assert_eq!(c.x_pos, X_MAX);
    let mut c = cat_at(3000, 100000);
    c.is_facing_right = false;
    c.warp_ability = WarpAbility::CanWarp(WarpState::Warping(1));
    c = update_character(&state.map, &c, 0, false, &mut clouds);
    assert_eq!(c.x_pos, X_MIN);
}

#[test]
fn no_input_moves_a_character_out_of_the_world() {
    let state = GameState::new(5);
    let mut clouds: Vec<Cloud> = Vec::new();
    let mut rng = Rng::new_from_seed(2024);
    for start in [(X_MIN, Y_MIN), (X_MAX, Y_MAX), (X_MIN, Y_MAX), (X_MAX, Y_MIN), (640000, 160000)] {
        let mut c = cat_at(start.0, start.1);
        c.can_fly = true;
        c.warp_ability = WarpAbility::CanWarp(WarpState::Charging(0));
        for _ in 0..2000 {
            let input = (rng.next() % 256) as u8;
            let godmode = rng.next() % 7 == 0;
            c = update_character(&state.map, &c, input, godmode, &mut clouds);
            assert!(X_MIN <= c.x_pos && c.x_pos <= X_MAX);
            assert!(Y_MIN <= c.y_pos && c.y_pos <= Y_MAX);
            assert!(c.is_valid());
            Cloud::update_clouds(&mut clouds);
        }
    }
}

#[test]
fn moving_right_and_jumping_gains_ground() {
    let mut state = GameState::new(1);
    state.difficulty_level = 1;
    state.regenerate_map();
    let start = player_of(&state);
    let box_before = get_bound_of_character(&start);
    let mut entity = MovingEntity::OptionalPlayer(state.players[0]);
    for _ in 0..120 {
        entity = update_pos(
            &state.map,
            entity,
            BUTTON_RIGHT | BUTTON_1,
            false,
            &mut state.clouds,
        );
    }
    let after = match entity {
        MovingEntity::OptionalPlayer(OptionallyEnabledPlayer::Enabled(p)) => p.character,
        _ => panic!("the player stays a player"),
    };
    let box_after = get_bound_of_character(&after);
    assert!(box_after.x > box_before.x);
    assert!(0 <= box_after.x && box_after.x <= 1280);
    assert!(0 <= box_after.y && box_after.y <= 320);
}

#[test]
fn an_unused_slot_does_not_move() {
    let state = GameState::new(1);
    let mut clouds: Vec<Cloud> = Vec::new();
    let slot = MovingEntity::OptionalPlayer(OptionallyEnabledPlayer::Disabled);
    assert_eq!(update_pos(&state.map, slot, BUTTON_RIGHT, false, &mut clouds), slot);
    let npc = MovingEntity::NPC(cat_at(5000, 100000));
    let moved = update_pos(&state.map, npc, 0, false, &mut clouds);
    let alone = update_character(&state.map, &cat_at(5000, 100000), 0, false, &mut clouds);
    assert_eq!(moved, MovingEntity::NPC(alone));
}

#[test]
fn boxes_and_overlap() {
    let c = cat_at(12999, 7001);
    assert_eq!(
        get_bound_of_character(&c),
        AbsoluteBoundingBox { x: 12, y: 7, width: 8u32, height: 8u32 }
    );
    let a = AbsoluteBoundingBox { x: 0, y: 0, width: 8u32, height: 8u32 };
    let touching = AbsoluteBoundingBox { x: 8, y: 0, width: 8u32, height: 8u32 };
    let inside = AbsoluteBoundingBox { x: 7, y: 7, width: 8u32, height: 8u32 };
    assert!(!overlaps(&a, &touching));
    assert!(overlaps(&a, &inside));
    assert!(overlaps(&inside, &a));
    assert!(overlaps(&a, &a));
}

#[test]
fn solid_tiles_under_a_box() {
    let state = GameState::new(1);
    assert!(hits_solid(&state.map, 0, 100000, 8, 8));
    assert!(hits_solid(&state.map, 4999, 100000, 1, 1));
    assert!(!hits_solid(&state.map, 5000, 100000, 5, 3));
    assert!(hits_solid(&state.map, 5000, 307001, 8, 8));
    assert!(!hits_solid(&state.map, 5000, 307000, 8, 8));
    assert!(hits_solid(&state.map, 5000, 0, 1, 1));
    assert!(!hits_solid(&state.map, 1000000, 100000, 8, 8));
}

#[test]
fn a_touched_animal_follows_the_player_for_good() {
    let mut state = GameState::new(3);
    let player = player_of(&state);
    state.npcs[1].x_pos = player.x_pos + 3000;
    state.npcs[1].y_pos = player.y_pos - 2000;
    assert_eq!(state.npcs[1].following_i, None);
    check_entity_collisions(&mut state);
    assert_eq!(state.npcs[1].following_i, Some(0));
    for (i, npc) in state.npcs.iter().enumerate() {
        if i != 1 {
            assert_eq!(npc.following_i, None);
        }
    }
    state.npcs[1].x_pos = 200000;
    check_entity_collisions(&mut state);
    assert_eq!(state.npcs[1].following_i, Some(0));
}

#[test]
fn finding_an_animal_gives_its_card() {
    let mut state = GameState::new(3);
    let player = player_of(&state);
    for (i, species) in [Species::Pig, Species::Lizard, Species::Cat].iter().enumerate() {
        state.npcs[i].species = *species;
        state.npcs[i].x_pos = player.x_pos;
        state.npcs[i].y_pos = player.y_pos;
    }
    check_entity_collisions(&mut state);
    match state.players[0] {
        OptionallyEnabledPlayer::Enabled(p) => {
            assert_eq!(p.kitties_found, 3);
            assert_eq!(p.card_stack.get(0).unwrap().kind, AbilityCardTypes::Fly);
            assert_eq!(p.card_stack.get(1).unwrap().kind, AbilityCardTypes::Warp);
            assert_eq!(p.card_stack.get(2).unwrap().kind, AbilityCardTypes::Time);
            assert_eq!(p.card_stack.get(3), None);
        }
        OptionallyEnabledPlayer::Disabled => panic!("the first slot is in use"),
    }
}

#[test]
fn the_first_player_that_touches_takes_the_animal() {
    let mut state = GameState::new(3);
    let player = player_of(&state);
    state.players[2] = state.players[0];
    state.players[1] = state.players[0];
    state.npcs[0].x_pos = player.x_pos;
    state.npcs[0].y_pos = player.y_pos;
    state.npcs[0].following_i = Some(2);
    state.npcs[1].x_pos = player.x_pos;
    state.npcs[1].y_pos = player.y_pos;
    state.players[0] = OptionallyEnabledPlayer::Disabled;
    check_entity_collisions(&mut state);
    assert_eq!(state.npcs[0].following_i, Some(2));
    assert_eq!(state.npcs[1].following_i, Some(1));
}
