//! What holds of every frame: which mode can follow which, and where the
//! characters are.

use vstd::prelude::*;
use crate::ability_cards::{CardStack, N_CARD_SLOTS};
use crate::collision::{
    held, is_found_now, lemma_tagger_range, moved_character, players_after_meeting, tagger_from,
};
use crate::entities::{Character, OptionallyEnabledPlayer};
use crate::frame::{cards_done, frame_state, players_done, simulated, FrameInput};
use crate::game_map::GameMapView;
use crate::game_state::GameModel;
use crate::menus::{GameMode, MenuTypes, NormalPlayModes};
use crate::modes::{found_now, played};
use crate::multiplatform_defs::BUTTON_2;
use crate::play::{card_used_by, cards_settled, cards_used, retargeted};
use crate::simulation::{
    begun, met, npc_inputs, npcs_moved, npcs_thought, player_input, players_moved,
};

verus! {

/// Whether the mode `after` can follow the mode `before` in one frame.
/// The title screen leads to the select screen, and that to play. Play
/// goes on until a box opens: the help, a won level, the won game, or the
/// end of the game. A box stays open, as the same kind of box, until it
/// closes: a won level opens the box that announces the next level, that
/// box and the help lead back to play, and the end and the won game lead
/// to the title screen.
pub open spec fn may_follow(before: GameMode, after: GameMode) -> bool {
    match before {
        GameMode::StartScreen => after is StartScreen || after is SelectScreen,
        GameMode::SelectScreen(_) => after is SelectScreen || after.is_main_gameplay(),
        GameMode::NormalPlay(NormalPlayModes::MainGameplay) => after.is_main_gameplay() || (
        after.modal() matches Some(m) && !(m.menu_type is StartLevel)),
        GameMode::NormalPlay(NormalPlayModes::HoverModal(open)) => (after.modal() matches Some(m)
            && m.menu_type == open.menu_type) || (match open.menu_type {
            MenuTypes::WonLevel => after.modal() matches Some(m) && m.menu_type is StartLevel,
            MenuTypes::StartLevel => after.is_main_gameplay(),
            MenuTypes::StartGameMessage => after.is_main_gameplay(),
            MenuTypes::Done => after is StartScreen,
            MenuTypes::WonGame => after is StartScreen,
        }),
    }
}

proof fn lemma_players_moved_keeps_mode(m: GameModel, held: Seq<u8>, upto: int)
    ensures
        players_moved(m, held, upto).game_mode == m.game_mode,
    decreases upto,
{
    if upto > 0 {
        lemma_players_moved_keeps_mode(m, held, upto - 1);
    }
}

proof fn lemma_npcs_thought_keeps_mode(m: GameModel, upto: int)
    ensures
        npcs_thought(m, upto).game_mode == m.game_mode,
    decreases upto,
{
    if upto > 0 {
        lemma_npcs_thought_keeps_mode(m, upto - 1);
    }
}

proof fn lemma_npcs_moved_keeps_mode(m: GameModel, inputs: Seq<u8>, upto: int)
    ensures
        npcs_moved(m, inputs, upto).game_mode == m.game_mode,
    decreases upto,
{
    if upto > 0 {
        lemma_npcs_moved_keeps_mode(m, inputs, upto - 1);
    }
}

proof fn lemma_cards_used_keeps_mode(m: GameModel, pressed: Seq<u8>, upto: int)
    ensures
        cards_used(m, pressed, upto).game_mode == m.game_mode,
    decreases upto,
{
    if upto > 0 {
        lemma_cards_used_keeps_mode(m, pressed, upto - 1);
    }
}

/// The part of a frame that is the same in every mode leaves the mode as it is.
pub proof fn lemma_simulation_keeps_mode(m: GameModel, input: FrameInput)
    ensures
        simulated(m, input).game_mode == m.game_mode,
{
    let start = met(begun(m, input.sw, input.sh));
    assert(start.game_mode == m.game_mode);
    lemma_players_moved_keeps_mode(start, input.held, 4);
    let before = players_done(m, input);
    let n = before.npcs.len() as int;
    lemma_npcs_thought_keeps_mode(before, n);
    lemma_npcs_moved_keeps_mode(npcs_thought(before, n), npc_inputs(before, n), n);
}

/// In every frame, on every state and for every input, there is exactly
/// one next mode, and it is one that may follow the mode before.
pub proof fn lemma_mode_transitions(m: GameModel, input: FrameInput)
    ensures
        may_follow(m.game_mode, frame_state(m, input).game_mode),
{
    lemma_simulation_keeps_mode(m, input);
    let s = simulated(m, input);
    match s.game_mode {
        GameMode::NormalPlay(play) => {
            let aged = GameModel { popups: s.popups.aged(), ..s };
            lemma_cards_used_keeps_mode(aged, input.pressed, 4);
            let c = cards_done(s, input);
            assert(c.game_mode == s.game_mode);
        },
        _ => {},
    }
}

/// A box that does not yet take button presses stays open whatever is
/// pressed: it only grows and ages.
pub proof fn lemma_box_waits_for_its_gate(m: GameModel, input: FrameInput)
    requires
        m.game_mode.modal().is_some(),
        !m.game_mode.modal().unwrap().advanced(input.waves.modal_sway).options_ready(),
    ensures
        frame_state(m, input).game_mode == GameMode::NormalPlay(
            NormalPlayModes::HoverModal(
                m.game_mode.modal().unwrap().advanced(input.waves.modal_sway),
            ),
        ),
{
    lemma_simulation_keeps_mode(m, input);
    let s = simulated(m, input);
    let c = cards_done(s, input);
    assert(c.game_mode == s.game_mode);
}

/// In a well-formed state, and so after every frame, every player and
/// every animal is inside the world.
pub proof fn lemma_characters_are_in_the_world(m: GameModel)
    requires
        m.wf(),
    ensures
        forall|i: int| 0 <= i < m.npcs.len() ==> (#[trigger] m.npcs[i]).in_bounds(),
        forall|i: int|
            0 <= i < 4 ==> ((#[trigger] m.players[i]) matches OptionallyEnabledPlayer::Enabled(p)
                ==> p.character.in_bounds()),
{
    assert forall|i: int| 0 <= i < m.npcs.len() implies (#[trigger] m.npcs[i]).in_bounds() by {
        assert(m.npcs[i].wf());
    }
    assert forall|i: int| 0 <= i < 4 implies ((#[trigger] m.players[i]) matches OptionallyEnabledPlayer::Enabled(
        p,
    ) ==> p.character.in_bounds()) by {
        assert(m.players[i].wf());
    }
}

/// Whether the player in slot `i` finds no animal in the next frame: no
/// animal that follows nobody is touched by that player first.
pub open spec fn finds_nothing(m: GameModel, i: int) -> bool {
    forall|j: int|
        0 <= j < m.npcs.len() ==> !(is_found_now(m.players, #[trigger] m.npcs[j]) && tagger_from(
            m.players,
            m.npcs[j],
            0,
        ) == i)
}

/// Whether two slots hold the same player but for where it is and how it
/// moves: the same cards, the same count of animals found, and the same
/// abilities to fly and to warp or not.
pub open spec fn same_player_elsewhere(a: OptionallyEnabledPlayer, b: OptionallyEnabledPlayer)
    -> bool {
    match a {
        OptionallyEnabledPlayer::Disabled => b is Disabled,
        OptionallyEnabledPlayer::Enabled(p) => b matches OptionallyEnabledPlayer::Enabled(q)
            && q.card_stack == p.card_stack && q.kitties_found == p.kitties_found
            && q.character.can_fly == p.character.can_fly && (q.character.warp_ability
            is CannotWarp <==> p.character.warp_ability is CannotWarp),
    }
}

/// Whether a step left the map, the score, the clock, the texts and the
/// mode of a state as they were.
pub open spec fn same_counters(a: GameModel, b: GameModel) -> bool {
    &&& b.players.len() == a.players.len()
    &&& b.map == a.map
    &&& b.godmode == a.godmode
    &&& b.score == a.score
    &&& b.countdown_timer_msec == a.countdown_timer_msec
    &&& b.countdown_paused == a.countdown_paused
    &&& b.popups == a.popups
    &&& b.game_mode == a.game_mode
    &&& b.settings == a.settings
}

proof fn lemma_meeting_keeps_player(
    players: Seq<OptionallyEnabledPlayer>,
    npcs: Seq<Character>,
    n: int,
    i: int,
)
    requires
        0 <= i < players.len(),
        0 <= n <= npcs.len(),
        forall|j: int|
            0 <= j < n ==> !(is_found_now(players, #[trigger] npcs[j]) && tagger_from(
                players,
                npcs[j],
                0,
            ) == i),
    ensures
        players_after_meeting(players, npcs, n).len() == players.len(),
        players_after_meeting(players, npcs, n)[i] == players[i],
    decreases n,
{
    if n > 0 {
        lemma_meeting_keeps_player(players, npcs, n - 1, i);
        lemma_tagger_range(players, npcs[n - 1], 0);
        assert(!(is_found_now(players, npcs[n - 1]) && tagger_from(players, npcs[n - 1], 0) == i));
    }
}

proof fn lemma_moving_keeps_abilities(map: GameMapView, c: Character, input: u8, godmode: bool)
    ensures
        moved_character(map, c, input, godmode).can_fly == c.can_fly,
        moved_character(map, c, input, godmode).warp_ability is CannotWarp
            <==> c.warp_ability is CannotWarp,
{
}

/// Moving the players leaves the map, the score, the clock, the texts and
/// the mode as they were, and a player keeps its cards and abilities.
pub proof fn lemma_players_moved_keeps_player(m: GameModel, held: Seq<u8>, upto: int, i: int)
    requires
        0 <= i < m.players.len(),
        0 <= upto <= m.players.len(),
    ensures
        same_counters(m, players_moved(m, held, upto)),
        same_player_elsewhere(m.players[i], players_moved(m, held, upto).players[i]),
    decreases upto,
{
    if upto > 0 {
        lemma_players_moved_keeps_player(m, held, upto - 1, i);
        let prev = players_moved(m, held, upto - 1);
        if upto - 1 == i {
            match prev.players[i] {
                OptionallyEnabledPlayer::Enabled(p) => {
                    lemma_moving_keeps_abilities(
                        prev.map,
                        p.character,
                        player_input(m, held, i),
                        prev.godmode,
                    );
                },
                OptionallyEnabledPlayer::Disabled => {},
            }
        }
    }
}

/// What the animals decide changes no player.
pub proof fn lemma_npcs_thought_keeps_players(m: GameModel, upto: int)
    ensures
        same_counters(m, npcs_thought(m, upto)),
        npcs_thought(m, upto).players == m.players,
    decreases upto,
{
    if upto > 0 {
        lemma_npcs_thought_keeps_players(m, upto - 1);
    }
}

/// Moving the animals changes no player.
pub proof fn lemma_npcs_moved_keeps_players(m: GameModel, inputs: Seq<u8>, upto: int)
    ensures
        same_counters(m, npcs_moved(m, inputs, upto)),
        npcs_moved(m, inputs, upto).players == m.players,
    decreases upto,
{
    if upto > 0 {
        lemma_npcs_moved_keeps_players(m, inputs, upto - 1);
    }
}

/// The part of a frame that is the same in every mode leaves the score,
/// the clock and the texts as they were, and a player that finds no animal
/// keeps its cards and its abilities.
pub proof fn lemma_simulation_keeps_player(m: GameModel, input: FrameInput, i: int)
    requires
        m.players.len() == 4,
        0 <= i < 4,
        finds_nothing(m, i),
    ensures
        simulated(m, input).players.len() == 4,
        simulated(m, input).score == m.score,
        simulated(m, input).countdown_timer_msec == m.countdown_timer_msec,
        simulated(m, input).popups == m.popups,
        simulated(m, input).game_mode == m.game_mode,
        simulated(m, input).countdown_paused == begun(m, input.sw, input.sh).countdown_paused,
        same_player_elsewhere(m.players[i], simulated(m, input).players[i]),
{
    let started = begun(m, input.sw, input.sh);
    let start = met(started);
    if !started.game_mode.modal().is_some() {
        lemma_meeting_keeps_player(started.players, started.npcs, started.npcs.len() as int, i);
    }
    assert(start.players.len() == 4);
    assert(start.players[i] == m.players[i]);
    lemma_players_moved_keeps_player(start, input.held, 4, i);
    let before = players_done(m, input);
    let n = before.npcs.len() as int;
    lemma_npcs_thought_keeps_players(before, n);
    lemma_npcs_moved_keeps_players(npcs_thought(before, n), npc_inputs(before, n), n);
}

/// A stack whose front is past its last slot has no cards.
pub proof fn lemma_no_front_no_cards(stack: CardStack)
    requires
        stack.front() == N_CARD_SLOTS,
    ensures
        stack == CardStack::empty(),
        stack.used().0 == stack,
        forall|sw: u32| #[trigger] retargeted(stack, sw).moved() == stack,
{
    reveal_with_fuel(CardStack::first_card_from, 6);
    assert(stack.slot(0).is_none());
    assert(stack.slot(1).is_none());
    assert(stack.slot(2).is_none());
    assert(stack.slot(3).is_none());
    assert(stack.slot(4).is_none());
}

proof fn lemma_cards_used_by_one(m: GameModel, pressed: Seq<u8>, upto: int, i: int)
    requires
        m.players.len() == 4,
        0 <= i < 4,
        0 <= upto <= 4,
        m.players[i] matches OptionallyEnabledPlayer::Enabled(p) && p.card_stack.front()
            == N_CARD_SLOTS,
        0 <= m.countdown_timer_msec <= crate::game_constants::COUNTDOWN_TIMER_MAX,
        forall|k: int| 0 <= k < 4 && k != i ==> !held(#[trigger] pressed[k], BUTTON_2),
    ensures
        cards_used(m, pressed, upto) == m,
    decreases upto,
{
    if upto > 0 {
        lemma_cards_used_by_one(m, pressed, upto - 1, i);
        if upto - 1 == i {
            let p = m.players[i]->0;
            lemma_no_front_no_cards(p.card_stack);
            let after = card_used_by(m, i);
            assert(after.players =~= m.players);
            assert(after == m);
        } else {
            assert(!held(pressed[upto - 1], BUTTON_2));
        }
    }
}

/// Using cards on a stack without cards changes nothing, in a whole frame
/// of play too. Where a player without cards presses the card button, finds
/// no animal in that frame, and nobody else presses the card button, the
/// player still has no cards after the frame and can fly and warp as
/// before, the score is as it was, no text was added and no cloud burst out,
/// and the clock has lost just the frame's tick.
pub proof fn lemma_empty_stack_frame(m: GameModel, input: FrameInput, i: int)
    requires
        m.wf(),
        m.game_mode.is_main_gameplay(),
        0 <= i < 4,
        m.players[i] matches OptionallyEnabledPlayer::Enabled(p) && p.card_stack.front()
            == N_CARD_SLOTS,
        held(input.pressed[i], BUTTON_2),
        forall|k: int| 0 <= k < 4 && k != i ==> !held(#[trigger] input.pressed[k], BUTTON_2),
        finds_nothing(m, i),
    ensures
        same_player_elsewhere(m.players[i], frame_state(m, input).players[i]),
        (frame_state(m, input).players[i]->0).card_stack == CardStack::empty(),
        frame_state(m, input).score == m.score,
        frame_state(m, input).popups == m.popups.aged(),
        frame_state(m, input).clouds == simulated(m, input).clouds,
        frame_state(m, input).countdown_timer_msec == m.countdown_timer_msec - 1,
{
    lemma_simulation_keeps_player(m, input, i);
    let s = simulated(m, input);
    let aged = GameModel { popups: s.popups.aged(), ..s };
    let p = m.players[i]->0;
    lemma_no_front_no_cards(p.card_stack);
    lemma_cards_used_by_one(aged, input.pressed, 4, i);
    let settled = cards_settled(aged, input.sw);
    assert(cards_done(s, input) == settled);
    let q = aged.players[i]->0;
    assert(q.card_stack == CardStack::empty());
    if i == 0 {
        assert(settled.players[0] == aged.players[0]);
    } else {
        assert(settled.players[i] == aged.players[i]);
    }
    assert(frame_state(m, input) == played(settled, found_now(s), input.sw, input.sh));
}

} // verus!
