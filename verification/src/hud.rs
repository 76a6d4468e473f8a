//! The texts of the status bars and of the boxes.

use vstd::prelude::*;
use crate::game_constants::{INCR_VERSION, LEVELS_PER_MOOD, MAJOR_VERSION, MINOR_VERSION};
use crate::game_state::RunType;
use crate::text::{
    decimal, lemma_pad_right, pad_right, push_decimal, push_padding, push_text,
};

verus! {

/// World and level, both counted from 1: level 5 is "W2-L2".
pub open spec fn world_level_text_spec(level: u32) -> Seq<char> {
    "W"@ + decimal((level - 1) / LEVELS_PER_MOOD as int + 1) + "-L"@ + decimal(
        (level - 1) % LEVELS_PER_MOOD as int + 1,
    )
}

/// The score of a random run, or the seed and the seconds played of a seeded one.
pub open spec fn score_text_spec(run_type: RunType, score: i32, speedrun_timer: u32) -> Seq<char> {
    match run_type {
        RunType::Random => "Sc: "@ + decimal(score as int) + "p"@,
        RunType::Speedrun(n) => "Sd."@ + decimal(n as int) + ": "@ + decimal(speedrun_timer as int / 60)
            + "s"@,
    }
}

/// Animals found of those to find, padded to five characters, a space, and
/// the seconds left on the clock, padded to three.
pub open spec fn found_kitties_text_spec(found: u32, total: u32, countdown: i32) -> Seq<char> {
    pad_right(decimal(found as int) + "/"@ + decimal(total as int), 5) + " "@ + pad_right(
        decimal(countdown as int / 60),
        3,
    )
}

/// The seconds that a card gave.
pub open spec fn gain_text_spec(seconds: i32) -> Seq<char> {
    " +"@ + decimal(seconds as int)
}

/// The seconds that a new level gave.
pub open spec fn bonus_text_spec(bonus: i32) -> Seq<char> {
    "+"@ + decimal(bonus as int / 60)
}

/// The seconds that a game took.
pub open spec fn time_text_spec(speedrun_timer: u32) -> Seq<char> {
    "Time: "@ + decimal(speedrun_timer as int / 60) + "s"@
}

/// The version of the game.
pub open spec fn version_text_spec() -> Seq<char> {
    "ver. "@ + decimal(MAJOR_VERSION as int) + "."@ + decimal(MINOR_VERSION as int) + "."@
        + decimal(INCR_VERSION as int)
}

/// The seed of a seeded run.
pub open spec fn seed_text_spec(seed: u32) -> Seq<char> {
    " for seed: "@ + decimal(seed as int)
}

/// World and level, both counted from 1.
pub fn world_level_text(level: u32) -> (s: String)
    requires
        level >= 1,
    ensures
        s@ == world_level_text_spec(level),
{
    let mut s = String::new();
    push_text(&mut s, "W");
    let _ = push_decimal(&mut s, ((level - 1) / LEVELS_PER_MOOD + 1) as i64);
    push_text(&mut s, "-L");
    let _ = push_decimal(&mut s, ((level - 1) % LEVELS_PER_MOOD + 1) as i64);
    assert(s@ =~= world_level_text_spec(level));
    s
}

/// The score of a random run, or the seed and the seconds played of a seeded one.
pub fn score_text(run_type: &RunType, score: i32, speedrun_timer: u32) -> (s: String)
    ensures
        s@ == score_text_spec(*run_type, score, speedrun_timer),
{
    let mut s = String::new();
    match run_type {
        RunType::Random => {
            push_text(&mut s, "Sc: ");
            let _ = push_decimal(&mut s, score as i64);
            push_text(&mut s, "p");
        },
        RunType::Speedrun(n) => {
            push_text(&mut s, "Sd.");
            let _ = push_decimal(&mut s, *n as i64);
            push_text(&mut s, ": ");
            let _ = push_decimal(&mut s, (speedrun_timer / 60) as i64);
            push_text(&mut s, "s");
        },
    }
    assert(s@ =~= score_text_spec(*run_type, score, speedrun_timer));
    s
}

/// Animals found of those to find, and the seconds left on the clock.
pub fn found_kitties_text(found: u32, total: u32, countdown: i32) -> (s: String)
    requires
        countdown >= 0,
    ensures
        s@ == found_kitties_text_spec(found, total, countdown),
{
    let mut s = String::new();
    let a: usize = push_decimal(&mut s, found as i64);
    push_text(&mut s, "/");
    let b: usize = push_decimal(&mut s, total as i64);
    proof {
        reveal_strlit("/");
        reveal_strlit(" ");
    }
    let ghost ratio = decimal(found as int) + "/"@ + decimal(total as int);
    assert(s@ =~= ratio);
    push_padding(&mut s, a + 1 + b, 5);
    proof {
        lemma_pad_right(ratio, 5);
    }
    push_text(&mut s, " ");
    let ghost front = s@;
    let c: usize = push_decimal(&mut s, (countdown / 60) as i64);
    push_padding(&mut s, c, 3);
    proof {
        lemma_pad_right(decimal(countdown as int / 60), 3);
        assert(s@ =~= found_kitties_text_spec(found, total, countdown));
    }
    s
}

/// The seconds that a card gave.
pub fn gain_text(seconds: i32) -> (s: String)
    ensures
        s@ == gain_text_spec(seconds),
{
    let mut s = String::new();
    push_text(&mut s, " +");
    let _ = push_decimal(&mut s, seconds as i64);
    assert(s@ =~= gain_text_spec(seconds));
    s
}

/// The seconds that a new level gave.
pub fn bonus_text(bonus: i32) -> (s: String)
    requires
        bonus >= 0,
    ensures
        s@ == bonus_text_spec(bonus),
{
    let mut s = String::new();
    push_text(&mut s, "+");
    let _ = push_decimal(&mut s, (bonus / 60) as i64);
    assert(s@ =~= bonus_text_spec(bonus));
    s
}

/// The seconds that a game took.
pub fn time_text(speedrun_timer: u32) -> (s: String)
    ensures
        s@ == time_text_spec(speedrun_timer),
{
    let mut s = String::new();
    push_text(&mut s, "Time: ");
    let _ = push_decimal(&mut s, (speedrun_timer / 60) as i64);
    push_text(&mut s, "s");
    assert(s@ =~= time_text_spec(speedrun_timer));
    s
}

/// The version of the game.
pub fn version_text() -> (s: String)
    ensures
        s@ == version_text_spec(),
{
    let mut s = String::new();
    push_text(&mut s, "ver. ");
    let _ = push_decimal(&mut s, MAJOR_VERSION as i64);
    push_text(&mut s, ".");
    let _ = push_decimal(&mut s, MINOR_VERSION as i64);
    push_text(&mut s, ".");
    let _ = push_decimal(&mut s, INCR_VERSION as i64);
    assert(s@ =~= version_text_spec());
    s
}

/// The seed of a seeded run.
pub fn seed_text(seed: u32) -> (s: String)
    ensures
        s@ == seed_text_spec(seed),
{
    let mut s = String::new();
    push_text(&mut s, " for seed: ");
    let _ = push_decimal(&mut s, seed as i64);
    assert(s@ =~= seed_text_spec(seed));
    s
}

} // verus!
