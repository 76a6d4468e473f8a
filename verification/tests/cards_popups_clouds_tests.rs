use kittygame::ability_cards::{
    AbilityCard, AbilityCardTypes, AbilityCardUsageResult, CardStack,
};
use kittygame::cloud::{Cloud, CLOUD_LIFETIME, MAX_CLOUDS};
use kittygame::popup_text::{PopTextRingbuffer, PopupIcon, POPUP_CAPACITY, POPUP_DURATION};

#[test]
fn an_empty_stack_gives_nothing_again_and_again() {
    let mut stack = CardStack::new();
    let before = stack;
    for _ in 0..10 {
        assert_eq!(stack.try_use_cards(), AbilityCardUsageResult::NothingHappened);
        assert_eq!(stack, before);
    }
}

#[test]
fn cards_are_used_from_the_front() {
    let mut stack = CardStack::new();
    assert!(stack.try_push_card(AbilityCardTypes::Fly));
    assert!(stack.try_push_card(AbilityCardTypes::Time));
    assert!(stack.try_push_card(AbilityCardTypes::Warp));
    assert_eq!(stack.try_use_cards(), AbilityCardUsageResult::EnabledFlyAndTime(10));
    assert!(stack.slot_0.is_none());
    assert_eq!(stack.try_use_cards(), AbilityCardUsageResult::GainedTime(5));
    assert_eq!(stack.try_use_cards(), AbilityCardUsageResult::EnabledWarpAndTime(10));
    assert_eq!(stack.try_use_cards(), AbilityCardUsageResult::NothingHappened);
    assert_eq!(stack, CardStack::new());
}

#[test]
fn a_new_card_takes_the_lowest_free_slot() {
    let mut stack = CardStack::new();
    for _ in 0..3 {
        assert!(stack.try_push_card(AbilityCardTypes::Time));
    }
    assert_eq!(stack.try_use_cards(), AbilityCardUsageResult::GainedTime(5));
    assert!(stack.slot_0.is_none());
    assert!(stack.try_push_card(AbilityCardTypes::Warp));
    assert_eq!(stack.slot_0, Some(AbilityCard::new(AbilityCardTypes::Warp)));
    assert_eq!(stack.get(0), stack.slot_0);
    assert_eq!(stack.get(7), None);
}

#[test]
fn a_full_stack_turns_cards_away() {
    let mut stack = CardStack::new();
    for _ in 0..5 {
        assert!(stack.try_push_card(AbilityCardTypes::Time));
    }
    let full = stack;
    assert!(!stack.try_push_card(AbilityCardTypes::Fly));
    assert_eq!(stack, full);
}

#[test]
fn cards_ease_toward_their_targets() {
    let mut stack = CardStack::new();
    stack.try_push_card(AbilityCardTypes::Time);
    let mut card = stack.get(0).unwrap();
    card.x_pos = 0;
    card.y_pos = 1000;
    card.target_x = 1000;
    card.target_y = 0;
    stack.set(0, Some(card));
    stack.move_cards();
    let moved = stack.get(0).unwrap();
    assert_eq!(moved.x_pos, 200);
    assert_eq!(moved.y_pos, 800);
    assert_eq!(moved.target_x, 1000);
    assert_eq!(stack.get(1), None);
}

#[test]
fn the_ring_overwrites_its_oldest_text() {
    let mut ring = PopTextRingbuffer::new();
    assert_eq!(ring.texts.len(), POPUP_CAPACITY);
    for i in 0..(POPUP_CAPACITY + 1) {
        ring.add_new_popup(0, 0, format!("text {}", i), PopupIcon::NoIcon);
        assert_eq!(ring.texts.len(), POPUP_CAPACITY);
    }
    let texts: Vec<String> = ring.texts.iter().map(|p| p.clone().unwrap().text).collect();
    assert!(!texts.contains(&"text 0".to_string()));
    for i in 1..(POPUP_CAPACITY + 1) {
        assert!(texts.contains(&format!("text {}", i)));
    }
    assert_eq!(ring.texts[0].clone().unwrap().text, "text 8");
    assert_eq!(ring.texts[1].clone().unwrap().text, "text 1");
    assert_eq!(ring.next_i, 1);
}

#[test]
fn a_new_text_rises_to_its_target() {
    let mut ring = PopTextRingbuffer::new();
    ring.add_new_popup(5000, 50000, "hi".to_string(), PopupIcon::Clock);
    let p = ring.texts[0].clone().unwrap();
    assert_eq!((p.x_pos, p.y_pos, p.target_x, p.target_y), (5000, 50000, 5000, 38000));
    assert_eq!(p.duration_timer, POPUP_DURATION);
    assert_eq!(p.icon, PopupIcon::Clock);
    ring.update_popup_positions();
    let p = ring.texts[0].clone().unwrap();
    assert_eq!((p.x_pos, p.y_pos), (5000, 48800));
    assert_eq!(p.duration_timer, POPUP_DURATION - 1);
}

#[test]
fn an_expired_text_keeps_its_slot() {
    let mut ring = PopTextRingbuffer::new();
    ring.add_new_popup(0, 0, "old".to_string(), PopupIcon::NoIcon);
    for _ in 0..(POPUP_DURATION - 1) {
        ring.update_popup_positions();
    }
    let mut last = ring.texts[0].clone().unwrap();
    assert_eq!(last.duration_timer, 1);
    last.duration_timer = 0;
    for _ in 0..50 {
        ring.update_popup_positions();
    }
    let p = ring.texts[0].clone().unwrap();
    assert_eq!(p, last);
    assert_eq!(p.text, "old");
    assert!(ring.texts[1].is_none());
}

#[test]
fn the_pool_of_clouds_is_bounded() {
    let mut clouds: Vec<Cloud> = Vec::new();
    for i in 0..(MAX_CLOUDS + 5) {
        Cloud::try_push_cloud(&mut clouds, i as i64, 0, 1, -1);
    }
    assert_eq!(clouds.len(), MAX_CLOUDS);
    assert_eq!(clouds[0], Cloud { x: 0, y: 0, vx: 1, vy: -1, lifetime: CLOUD_LIFETIME });
    assert_eq!(clouds[MAX_CLOUDS - 1].x, (MAX_CLOUDS - 1) as i64);
}

#[test]
fn clouds_drift_and_expire() {
    let mut clouds: Vec<Cloud> = Vec::new();
    Cloud::try_push_cloud(&mut clouds, 100, 200, 10, -20);
    Cloud::update_clouds(&mut clouds);
    assert_eq!(clouds, vec![Cloud { x: 110, y: 180, vx: 10, vy: -20, lifetime: CLOUD_LIFETIME - 1 }]);
    clouds.push(Cloud { x: 0, y: 0, vx: 0, vy: 0, lifetime: 1 });
    Cloud::try_push_cloud(&mut clouds, 7, 7, 0, 0);
    Cloud::update_clouds(&mut clouds);
    assert_eq!(clouds.len(), 2);
    assert_eq!(clouds[0].x, 120);
    assert_eq!(clouds[1].x, 7);
    for _ in 0..CLOUD_LIFETIME {
        Cloud::update_clouds(&mut clouds);
    }
    assert!(clouds.is_empty());
}

#[test]
fn clouds_are_held_to_their_limits() {
    let mut clouds: Vec<Cloud> = Vec::new();
    Cloud::try_push_cloud(&mut clouds, i64::MAX, i64::MIN, i64::MAX, i64::MIN);
    let c = clouds[0];
    assert_eq!((c.x, c.y), (0x100_0000_0000, -0x100_0000_0000));
    assert_eq!((c.vx, c.vy), (0x10_0000, -0x10_0000));
    Cloud::update_clouds(&mut clouds);
    assert_eq!(clouds[0].x, 0x100_0000_0000);
}
