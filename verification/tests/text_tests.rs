use kittygame::game_state::RunType;
use kittygame::hud::{
    bonus_text, found_kitties_text, gain_text, score_text, seed_text, time_text, version_text,
    world_level_text,
};
use kittygame::text::{push_char, push_decimal, push_decimal_nat, push_padding, push_text};

#[test]
fn world_and_level_count_from_one() {
    assert_eq!(world_level_text(1), "W1-L1");
    assert_eq!(world_level_text(3), "W1-L3");
    assert_eq!(world_level_text(4), "W2-L1");
    assert_eq!(world_level_text(5), "W2-L2");
    assert_eq!(world_level_text(12), "W4-L3");
}

#[test]
fn score_text_of_a_random_run() {
    assert_eq!(score_text(&RunType::Random, 120, 999), "Sc: 120p");
    assert_eq!(score_text(&RunType::Random, 0, 0), "Sc: 0p");
    assert_eq!(score_text(&RunType::Random, -5, 0), "Sc: -5p");
}

#[test]
fn score_text_of_a_seeded_run_shows_seed_and_seconds() {
    assert_eq!(score_text(&RunType::Speedrun(7), 120, 150), "Sd.7: 2s");
    assert_eq!(score_text(&RunType::Speedrun(0), 0, 59), "Sd.0: 0s");
}

#[test]
fn found_kitties_text_is_padded() {
    assert_eq!(found_kitties_text(3, 12, 3599), "3/12  59 ");
    assert_eq!(found_kitties_text(3, 12, 3599), format!("{:<5} {:<3}", "3/12", 59));
    assert_eq!(found_kitties_text(10, 12, 5999), "10/12 99 ");
    assert_eq!(found_kitties_text(0, 4, 0), "0/4   0  ");
    assert_eq!(found_kitties_text(0, 4, 0), format!("{:<5} {:<3}", "0/4", 0));
}

#[test]
fn small_texts() {
    assert_eq!(gain_text(5), " +5");
    assert_eq!(gain_text(10), " +10");
    assert_eq!(bonus_text(720), "+12");
    assert_eq!(bonus_text(59), "+0");
    assert_eq!(time_text(125), "Time: 2s");
    assert_eq!(version_text(), "ver. 1.2.0");
    assert_eq!(seed_text(42), " for seed: 42");
}

#[test]
fn decimal_text_of_the_extremes() {
    let mut s = String::new();
    let n = push_decimal(&mut s, i64::MIN);
    assert_eq!(s, "-9223372036854775808");
    assert_eq!(n, 20);
    let mut s = String::new();
    let n = push_decimal(&mut s, 0);
    assert_eq!(s, "0");
    assert_eq!(n, 1);
    let mut s = String::from("x");
    let n = push_decimal_nat(&mut s, u64::MAX);
    assert_eq!(s, "x18446744073709551615");
    assert_eq!(n, 20);
    let mut s = String::new();
    let n = push_decimal(&mut s, 1000);
    assert_eq!(s, format!("{}", 1000));
    assert_eq!(n, 4);
}

#[test]
fn pushing_appends_at_the_end() {
    let mut s = String::from("ab");
    push_char(&mut s, 'c');
    assert_eq!(s, "abc");
    push_text(&mut s, "de");
    assert_eq!(s, "abcde");
    push_text(&mut s, "");
    assert_eq!(s, "abcde");
}

#[test]
fn padding_fills_up_to_the_width_only() {
    let mut s = String::from("ab");
    push_padding(&mut s, 2, 5);
    assert_eq!(s, "ab   ");
    push_padding(&mut s, 5, 5);
    assert_eq!(s, "ab   ");
    push_padding(&mut s, 7, 5);
    assert_eq!(s, "ab   ");
}
