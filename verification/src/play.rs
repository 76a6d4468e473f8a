//! What a frame of play does on top of the simulation: the status bars,
//! the floating texts, and the ability cards.

use vstd::prelude::*;
use crate::ability_cards::{
    AbilityCard, AbilityCardUsageResult, CardStack, N_CARD_SLOTS,
};
use crate::camera::Camera;
use crate::cloud::{clouds_wf, pushed_clouds, Cloud};
use crate::collision::{held, is_held, AbsoluteBoundingBox};
use crate::entities::{Character, OptionallyEnabledPlayer, Player, WarpAbility, WarpState};
use crate::game_constants::COUNTDOWN_TIMER_MAX;
use crate::game_state::{GameModel, GameState};
use crate::hud::{gain_text, gain_text_spec};
use crate::multiplatform_defs::{
    command_views, emit_text, DrawColor, DrawCommand, DrawCommandView, BUTTON_2, MAX_SCREEN_DIM,
};
use crate::popup_text::{PopupIcon, PopupText, PopupTextView};
use crate::render::{
    draw_modal_bg, draw_spriteframe, layertext, layertext_commands,
    lemma_box_in_pixel_range_is_drawable, modal_bg_commands, spriteframe_blit, text_command,
};
use crate::spritesheet::{preset_sprite, PresetSprites, Sprite, SpriteFrame};
use crate::subpixel::{px_of, to_px, UNITS_PER_PX};

verus! {

/// Height of a status bar, in position units.
pub const BAR_HEIGHT: i64 = 10000;

/// How far left of a player the text of a used card appears, in position units.
pub const POPUP_OFFSET_X: i64 = 14000;

/// Speed of the clouds that burst from a used card, and its parts along
/// the two axes for the slanted ones.
pub const CARD_CLOUD_SPEED: i64 = 4000;

pub const CARD_CLOUD_HALF: i64 = 2000;

pub const CARD_CLOUD_SLANT: i64 = 3440;

/// Where the first card is drawn, measured from the right edge of the
/// screen, and the distance from one card to the next, in pixels.
pub const CARDS_FROM_RIGHT: i64 = 80;

pub const CARD_SPACING: i64 = 15;

/// The bar behind the texts at the top of the screen.
pub open spec fn top_bar(sw: u32) -> AbsoluteBoundingBox<i64, i64> {
    AbsoluteBoundingBox {
        x: (-UNITS_PER_PX) as i64,
        y: 0,
        width: ((sw + 2) * UNITS_PER_PX) as i64,
        height: BAR_HEIGHT,
    }
}

/// The bar behind the texts at the bottom of the screen.
pub open spec fn bottom_bar(sw: u32, sh: u32) -> AbsoluteBoundingBox<i64, i64> {
    AbsoluteBoundingBox {
        x: (-UNITS_PER_PX) as i64,
        y: ((sh - 10) * UNITS_PER_PX) as i64,
        width: ((sw + 2) * UNITS_PER_PX) as i64,
        height: BAR_HEIGHT,
    }
}

/// What drawing the two status bars adds to the frame: a veil of dots each.
pub open spec fn bars_commands(sw: u32, sh: u32) -> Seq<DrawCommandView> {
    modal_bg_commands(top_bar(sw), 0, DrawColor::Background) + modal_bg_commands(
        bottom_bar(sw, sh),
        0,
        DrawColor::Background,
    )
}

/// Draws the two status bars.
pub fn draw_bars(sw: u32, sh: u32, out: &mut Vec<DrawCommand>)
    requires
        sw <= MAX_SCREEN_DIM,
        sh <= MAX_SCREEN_DIM,
    ensures
        command_views(final(out)@) == command_views(old(out)@) + bars_commands(sw, sh),
{
    let width: i64 = (sw as i64 + 2) * UNITS_PER_PX;
    proof {
        lemma_box_in_pixel_range_is_drawable(top_bar(sw));
        lemma_box_in_pixel_range_is_drawable(bottom_bar(sw, sh));
    }
    draw_modal_bg(
        &AbsoluteBoundingBox { x: -UNITS_PER_PX, y: 0, width, height: BAR_HEIGHT },
        0,
        &DrawColor::Background,
        out,
    );
    draw_modal_bg(
        &AbsoluteBoundingBox {
            x: -UNITS_PER_PX,
            y: (sh as i64 - 10) * UNITS_PER_PX,
            width,
            height: BAR_HEIGHT,
        },
        0,
        &DrawColor::Background,
        out,
    );
    assert(command_views(out@) =~= command_views(old(out)@) + bars_commands(sw, sh));
}

/// How many of the first `upto` animals follow a player.
pub open spec fn found_count(npcs: Seq<Character>, upto: int) -> int
    decreases upto,
{
    if upto <= 0 {
        0
    } else {
        found_count(npcs, upto - 1) + (if npcs[upto - 1].following_i.is_some() {
            1int
        } else {
            0int
        })
    }
}

/// How many animals follow a player.
pub fn count_found(npcs: &Vec<Character>) -> (found: u32)
    requires
        npcs@.len() <= u32::MAX,
    ensures
        found == found_count(npcs@, npcs@.len() as int),
        found <= npcs@.len(),
{
    let n: usize = npcs.len();
    let mut found: u32 = 0;
    let mut i: usize = 0;
    while i < n
        invariant
            i <= n,
            n == npcs@.len(),
            n <= u32::MAX,
            found == found_count(npcs@, i as int),
            found <= i,
        decreases n - i,
    {
        if npcs[i].following_i.is_some() {
            found = found + 1;
        }
        i = i + 1;
    }
    found
}

/// The picture in front of a text at `(dx, dy)`, if it has one. The down
/// arrow is spelled out, to the right of the text's start.
pub open spec fn icon_commands(icon: PopupIcon, dx: int, dy: int) -> Seq<DrawCommandView> {
    match icon {
        PopupIcon::NoIcon => Seq::empty(),
        PopupIcon::Clock => seq![
            spriteframe_blit(
                preset_sprite(PresetSprites::Clock).frame_spec(0),
                dx as i32,
                (dy - 1) as i32,
            ),
        ],
        PopupIcon::CatHead => seq![
            spriteframe_blit(
                preset_sprite(PresetSprites::CatHead).frame_spec(0),
                (dx + 1) as i32,
                (dy + 1) as i32,
            ),
        ],
        PopupIcon::DownArrow => seq![text_command("down"@, dx + 32, dy, DrawColor::MainKitty)],
    }
}

/// What drawing one floating text adds to the frame: nothing when it has
/// expired or is in the dark half of a blink, and else its text over a
/// shadow and its picture.
pub open spec fn popup_commands(camera: Camera, popup: PopupTextView) -> Seq<DrawCommandView> {
    if popup.is_visible() {
        let dx = px_of(popup.x_pos - camera.current_viewing_x_offset);
        let dy = px_of(popup.y_pos - camera.current_viewing_y_offset);
        layertext_commands(popup.text, dx, dy) + icon_commands(popup.icon, dx, dy)
    } else {
        Seq::empty()
    }
}

/// What drawing the first `upto` slots of the ring adds to the frame.
pub open spec fn popups_drawn(camera: Camera, texts: Seq<Option<PopupTextView>>, upto: int)
    -> Seq<DrawCommandView>
    decreases upto,
{
    if upto <= 0 {
        Seq::empty()
    } else {
        popups_drawn(camera, texts, upto - 1) + (match texts[upto - 1] {
            Some(p) => popup_commands(camera, p),
            None => Seq::empty(),
        })
    }
}

fn draw_icon(icon: PopupIcon, dx: i32, dy: i32, out: &mut Vec<DrawCommand>)
    requires
        -0x7000_0000 <= dx <= 0x7000_0000,
        -0x7000_0000 <= dy <= 0x7000_0000,
    ensures
        command_views(final(out)@) == command_views(old(out)@) + icon_commands(
            icon,
            dx as int,
            dy as int,
        ),
{
    match icon {
        PopupIcon::NoIcon => {},
        PopupIcon::Clock => {
            let frame: SpriteFrame = Sprite::from_preset(&PresetSprites::Clock).frame(0);
            draw_spriteframe(&frame, dx, dy - 1, out);
        },
        PopupIcon::CatHead => {
            let frame: SpriteFrame = Sprite::from_preset(&PresetSprites::CatHead).frame(0);
            draw_spriteframe(&frame, dx + 1, dy + 1, out);
        },
        PopupIcon::DownArrow => {
            emit_text(out, "down", dx + 32, dy, DrawColor::MainKitty);
        },
    }
    assert(command_views(out@) =~= command_views(old(out)@) + icon_commands(
        icon,
        dx as int,
        dy as int,
    ));
}

fn draw_popup(camera: &Camera, popup: &PopupText, out: &mut Vec<DrawCommand>)
    requires
        camera.wf(),
        popup@.wf(),
    ensures
        command_views(final(out)@) == command_views(old(out)@) + popup_commands(*camera, popup@),
{
    let timer: u32 = popup.duration_timer;
    if timer > 0 && (timer < crate::popup_text::T_BEFORE_BLINK || timer % 6 < 3) {
        let dx: i32 = to_px(popup.x_pos - camera.current_viewing_x_offset);
        let dy: i32 = to_px(popup.y_pos - camera.current_viewing_y_offset);
        assert(-0x7000_0000 <= dx <= 0x7000_0000 && -0x7000_0000 <= dy <= 0x7000_0000)
            by (nonlinear_arith)
            requires
                dx == px_of(popup.x_pos - camera.current_viewing_x_offset),
                dy == px_of(popup.y_pos - camera.current_viewing_y_offset),
                -1000000000000 <= popup.x_pos <= 1000000000000,
                -1000000000000 <= popup.y_pos <= 1000000000000,
                0 <= camera.current_viewing_x_offset <= 1280000,
                0 <= camera.current_viewing_y_offset <= 320000,
        ;
        layertext(popup.text.as_str(), dx, dy, out);
        draw_icon(popup.icon, dx, dy, out);
    }
    assert(command_views(out@) =~= command_views(old(out)@) + popup_commands(*camera, popup@));
}

/// Lets the floating texts rise and age, and draws those that are to be seen.
pub fn update_and_draw_popups(game_state: &mut GameState, out: &mut Vec<DrawCommand>)
    requires
        old(game_state)@.wf(),
    ensures
        final(game_state)@ == (GameModel {
            popups: old(game_state)@.popups.aged(),
            ..old(game_state)@
        }),
        final(game_state)@.wf(),
        command_views(final(out)@) == command_views(old(out)@) + popups_drawn(
            old(game_state)@.camera,
            old(game_state)@.popups.aged().texts,
            crate::popup_text::POPUP_CAPACITY as int,
        ),
{
    game_state.popup_text_ringbuffer.update_popup_positions();
    let camera: Camera = game_state.camera;
    let n: usize = game_state.popup_text_ringbuffer.texts.len();
    assert(game_state@.popups.texts.len() == n);
    let mut i: usize = 0;
    assert(command_views(out@) =~= command_views(old(out)@) + popups_drawn(
        camera,
        game_state@.popups.texts,
        0,
    ));
    while i < n
        invariant
            i <= n,
            n == game_state.popup_text_ringbuffer.texts@.len(),
            n == crate::popup_text::POPUP_CAPACITY,
            camera.wf(),
            game_state@.popups.wf(),
            command_views(out@) == command_views(old(out)@) + popups_drawn(
                camera,
                game_state@.popups.texts,
                i as int,
            ),
        decreases n - i,
    {
        assert(game_state@.popups.texts[i as int] == crate::popup_text::slot_view(
            game_state.popup_text_ringbuffer.texts@[i as int],
        ));
        match &game_state.popup_text_ringbuffer.texts[i] {
            Some(p) => {
                assert(game_state@.popups.texts[i as int] == Some(p@));
                draw_popup(&camera, p, out);
            },
            None => {},
        }
        assert(command_views(out@) =~= command_views(old(out)@) + popups_drawn(
            camera,
            game_state@.popups.texts,
            i + 1,
        ));
        i = i + 1;
    }
}

/// What using a card does for its player: the seconds gained, the text
/// that says so with its picture, and the player's character afterwards.
pub struct CardEffect {
    pub added: int,
    pub popup: Option<(Seq<char>, PopupIcon)>,
    pub character: Character,
}

/// What a used card does. Time is gained as the card says. A card that
/// enables flying or warping does so once, for ten seconds less; for a
/// character that has the ability already it only gives time.
pub open spec fn effect_of(result: AbilityCardUsageResult, c: Character) -> CardEffect {
    match result {
        AbilityCardUsageResult::NothingHappened => CardEffect {
            added: 0,
            popup: None,
            character: c,
        },
        AbilityCardUsageResult::GainedTime(t) => CardEffect {
            added: t as int,
            popup: Some((gain_text_spec(t), PopupIcon::Clock)),
            character: c,
        },
        AbilityCardUsageResult::EnabledFlyAndTime(t) => if c.can_fly {
            CardEffect {
                added: t as int,
                popup: Some((gain_text_spec(t), PopupIcon::Clock)),
                character: c,
            }
        } else {
            CardEffect {
                added: t - 10,
                popup: Some(("fly!"@, PopupIcon::NoIcon)),
                character: Character { can_fly: true, ..c },
            }
        },
        AbilityCardUsageResult::EnabledWarpAndTime(t) => if c.warp_ability is CannotWarp {
            CardEffect {
                added: t - 10,
                popup: Some(("hold   : warp"@, PopupIcon::DownArrow)),
                character: Character {
                    warp_ability: WarpAbility::CanWarp(WarpState::Charging(0)),
                    ..c
                },
            }
        } else {
            CardEffect {
                added: 10,
                popup: Some((gain_text_spec(t), PopupIcon::Clock)),
                character: c,
            }
        },
    }
}

/// The speed of cloud `k` of the six that burst from a used card: they
/// fly apart like the corners of a hexagon.
pub open spec fn burst_velocity(k: int) -> (i64, i64) {
    if k == 0 {
        (CARD_CLOUD_SPEED, 0)
    } else if k == 1 {
        (CARD_CLOUD_HALF, CARD_CLOUD_SLANT)
    } else if k == 2 {
        ((-CARD_CLOUD_HALF) as i64, CARD_CLOUD_SLANT)
    } else if k == 3 {
        ((-CARD_CLOUD_SPEED) as i64, 0)
    } else if k == 4 {
        ((-CARD_CLOUD_HALF) as i64, (-CARD_CLOUD_SLANT) as i64)
    } else {
        (CARD_CLOUD_HALF, (-CARD_CLOUD_SLANT) as i64)
    }
}

/// The pool of clouds after the first `upto` clouds of a burst at a
/// character at `(x, y)` were spawned, as far as the pool had room.
pub open spec fn burst(clouds: Seq<Cloud>, x: i64, y: i64, upto: int) -> Seq<Cloud>
    decreases upto,
{
    if upto <= 0 {
        clouds
    } else {
        pushed_clouds(
            burst(clouds, x, y, upto - 1),
            (x + 2000) as i64,
            (y + 3000) as i64,
            burst_velocity(upto - 1).0,
            burst_velocity(upto - 1).1,
        )
    }
}

/// The state after the player in slot `i` used the front card: the card
/// is gone and has had its effect, clouds burst and a text rises where
/// something happened, and the seconds gained are on the clock, up to its
/// largest value, and in the score.
pub open spec fn card_used_by(m: GameModel, i: int) -> GameModel {
    match m.players[i] {
        OptionallyEnabledPlayer::Disabled => m,
        OptionallyEnabledPlayer::Enabled(p) => {
            let used = p.card_stack.used();
            let effect = effect_of(used.1, p.character);
            let gain = effect.added * 60;
            let x = p.character.x_pos;
            let y = p.character.y_pos;
            GameModel {
                players: m.players.update(
                    i,
                    OptionallyEnabledPlayer::Enabled(
                        Player { character: effect.character, card_stack: used.0, ..p },
                    ),
                ),
                clouds: if effect.popup.is_some() {
                    burst(m.clouds, x, y, 6)
                } else {
                    m.clouds
                },
                popups: match effect.popup {
                    Some(shown) => m.popups.added((x - POPUP_OFFSET_X) as i64, y, shown.0, shown.1),
                    None => m.popups,
                },
                countdown_timer_msec: if m.countdown_timer_msec + gain > COUNTDOWN_TIMER_MAX {
                    COUNTDOWN_TIMER_MAX
                } else {
                    (m.countdown_timer_msec + gain) as i32
                },
                score: m.score.wrapping_add(gain as i32),
                ..m
            }
        },
    }
}

/// The state after the first `upto` player slots had their turn to use a
/// card: each player in use whose second button was pressed in this frame
/// uses one.
pub open spec fn cards_used(m: GameModel, pressed: Seq<u8>, upto: int) -> GameModel
    decreases upto,
{
    if upto <= 0 {
        m
    } else {
        let prev = cards_used(m, pressed, upto - 1);
        if held(pressed[upto - 1], BUTTON_2) {
            card_used_by(prev, upto - 1)
        } else {
            prev
        }
    }
}

fn burst_clouds(clouds: &mut Vec<Cloud>, x: i64, y: i64)
    requires
        clouds_wf(old(clouds)@),
        -0x1000_0000 <= x <= 0x1000_0000,
        -0x1000_0000 <= y <= 0x1000_0000,
    ensures
        final(clouds)@ == burst(old(clouds)@, x, y, 6),
        clouds_wf(final(clouds)@),
{
    reveal_with_fuel(burst, 7);
    Cloud::try_push_cloud(clouds, x + 2000, y + 3000, CARD_CLOUD_SPEED, 0);
    Cloud::try_push_cloud(clouds, x + 2000, y + 3000, CARD_CLOUD_HALF, CARD_CLOUD_SLANT);
    Cloud::try_push_cloud(clouds, x + 2000, y + 3000, -CARD_CLOUD_HALF, CARD_CLOUD_SLANT);
    Cloud::try_push_cloud(clouds, x + 2000, y + 3000, -CARD_CLOUD_SPEED, 0);
    Cloud::try_push_cloud(clouds, x + 2000, y + 3000, -CARD_CLOUD_HALF, -CARD_CLOUD_SLANT);
    Cloud::try_push_cloud(clouds, x + 2000, y + 3000, CARD_CLOUD_HALF, -CARD_CLOUD_SLANT);
}

/// Lets the player in slot `i` use the front card.
fn use_card(game_state: &mut GameState, i: usize)
    requires
        old(game_state)@.wf(),
        i < 4,
    ensures
        final(game_state)@ == card_used_by(old(game_state)@, i as int),
        final(game_state)@.wf(),
        final(game_state)@.npcs == old(game_state)@.npcs,
        final(game_state)@.game_mode == old(game_state)@.game_mode,
{
    let ghost start = game_state@;
    let slot: OptionallyEnabledPlayer = game_state.players[i];
    assert(start.players[i as int].wf());
    match slot {
        OptionallyEnabledPlayer::Disabled => {},
        OptionallyEnabledPlayer::Enabled(p) => {
            let mut stack: CardStack = p.card_stack;
            let result: AbilityCardUsageResult = stack.try_use_cards();
            let mut character: Character = p.character;
            let added: i32;
            let popup: Option<String>;
            let icon: PopupIcon;
            match result {
                AbilityCardUsageResult::NothingHappened => {
                    added = 0;
                    popup = None;
                    icon = PopupIcon::NoIcon;
                },
                AbilityCardUsageResult::GainedTime(t) => {
                    added = t;
                    popup = Some(gain_text(t));
                    icon = PopupIcon::Clock;
                },
                AbilityCardUsageResult::EnabledFlyAndTime(t) => {
                    if character.can_fly {
                        added = t;
                        popup = Some(gain_text(t));
                        icon = PopupIcon::Clock;
                    } else {
                        character.can_fly = true;
                        added = t - 10;
                        popup = Some("fly!".to_owned());
                        icon = PopupIcon::NoIcon;
                    }
                },
                AbilityCardUsageResult::EnabledWarpAndTime(t) => {
                    let cannot: bool = match character.warp_ability {
                        WarpAbility::CannotWarp => true,
                        _ => false,
                    };
                    if cannot {
                        character.warp_ability = WarpAbility::CanWarp(WarpState::Charging(0));
                        added = t - 10;
                        popup = Some("hold   : warp".to_owned());
                        icon = PopupIcon::DownArrow;
                    } else {
                        added = 10;
                        popup = Some(gain_text(t));
                        icon = PopupIcon::Clock;
                    }
                },
            }
            let ghost effect = effect_of(result, p.character);
            assert(effect.added == added && effect.character == character);
            assert(0 <= added <= 10);
            game_state.players[i] = OptionallyEnabledPlayer::Enabled(
                Player { character, card_stack: stack, ..p },
            );
            match popup {
                Some(text) => {
                    assert(effect.popup == Some((text@, icon)));
                    burst_clouds(&mut game_state.clouds, p.character.x_pos, p.character.y_pos);
                    game_state.popup_text_ringbuffer.add_new_popup(
                        p.character.x_pos - POPUP_OFFSET_X,
                        p.character.y_pos,
                        text,
                        icon,
                    );
                },
                None => {
                    assert(effect.popup.is_none());
                },
            }
            let gain: i32 = added * 60;
            game_state.countdown_timer_msec = if game_state.countdown_timer_msec + gain
                > COUNTDOWN_TIMER_MAX {
                COUNTDOWN_TIMER_MAX
            } else {
                game_state.countdown_timer_msec + gain
            };
            game_state.score = game_state.score.wrapping_add(gain);
            proof {
                let expected = card_used_by(start, i as int);
                assert(game_state@.players =~= expected.players);
                assert forall|k: int| 0 <= k < 4 implies (#[trigger] game_state@.players[k]).wf() by {
                    if k != i {
                        assert(game_state@.players[k] == start.players[k]);
                    }
                }
            }
        },
    }
}

/// Gives every player slot its turn to use a card.
pub fn use_cards(game_state: &mut GameState, btns_pressed_this_frame: &[u8; 4])
    requires
        old(game_state)@.wf(),
    ensures
        final(game_state)@ == cards_used(old(game_state)@, btns_pressed_this_frame@, 4),
        final(game_state)@.wf(),
        final(game_state)@.npcs == old(game_state)@.npcs,
        final(game_state)@.game_mode == old(game_state)@.game_mode,
{
    let ghost start = game_state@;
    let mut i: usize = 0;
    while i < 4
        invariant
            i <= 4,
            game_state@ == cards_used(start, btns_pressed_this_frame@, i as int),
            game_state@.wf(),
            game_state@.npcs == start.npcs,
            game_state@.game_mode == start.game_mode,
        decreases 4 - i,
    {
        if is_held(btns_pressed_this_frame[i], BUTTON_2) {
            use_card(game_state, i);
        }
        i = i + 1;
    }
}

/// Where the card in slot `i` heads for on a screen `sw` pixels wide, in
/// position units.
pub open spec fn card_target_x(sw: u32, i: int) -> i64 {
    ((sw - CARDS_FROM_RIGHT + CARD_SPACING * i) * UNITS_PER_PX) as i64
}

/// The card of slot `i` with its target set for this frame.
pub open spec fn retargeted_slot(card: Option<AbilityCard>, sw: u32, i: int) -> Option<
    AbilityCard,
> {
    match card {
        Some(c) => Some(AbilityCard { target_x: card_target_x(sw, i), target_y: UNITS_PER_PX, ..c }),
        None => None,
    }
}

/// The stack with the targets of all its cards set for this frame: a row
/// near the top right corner of the screen.
pub open spec fn retargeted(stack: CardStack, sw: u32) -> CardStack {
    CardStack {
        slot_0: retargeted_slot(stack.slot_0, sw, 0),
        slot_1: retargeted_slot(stack.slot_1, sw, 1),
        slot_2: retargeted_slot(stack.slot_2, sw, 2),
        slot_3: retargeted_slot(stack.slot_3, sw, 3),
        slot_4: retargeted_slot(stack.slot_4, sw, 4),
    }
}

/// The state after the first player's cards were given their targets and
/// moved toward them.
pub open spec fn cards_settled(m: GameModel, sw: u32) -> GameModel {
    match m.players[0] {
        OptionallyEnabledPlayer::Enabled(p) => GameModel {
            players: m.players.update(
                0,
                OptionallyEnabledPlayer::Enabled(
                    Player { card_stack: retargeted(p.card_stack, sw).moved(), ..p },
                ),
            ),
            ..m
        },
        OptionallyEnabledPlayer::Disabled => m,
    }
}

/// The blit of a card where it is now.
pub open spec fn card_blit(card: AbilityCard) -> DrawCommandView {
    spriteframe_blit(
        card.sprite.frame_spec(0),
        px_of(card.x_pos as int) as i32,
        px_of(card.y_pos as int) as i32,
    )
}

/// What drawing the first `upto` slots of a stack adds to the frame.
pub open spec fn cards_drawn(stack: CardStack, upto: int) -> Seq<DrawCommandView>
    decreases upto,
{
    if upto <= 0 {
        Seq::empty()
    } else {
        cards_drawn(stack, upto - 1) + (match stack.slot(upto - 1) {
            Some(c) => seq![card_blit(c)],
            None => Seq::empty(),
        })
    }
}

/// What drawing the first player's cards adds to the frame.
pub open spec fn first_player_cards_drawn(m: GameModel) -> Seq<DrawCommandView> {
    match m.players[0] {
        OptionallyEnabledPlayer::Enabled(p) => cards_drawn(p.card_stack, N_CARD_SLOTS as int),
        OptionallyEnabledPlayer::Disabled => Seq::empty(),
    }
}

fn retarget(stack: &mut CardStack, sw: u32)
    requires
        old(stack).wf(),
        sw <= MAX_SCREEN_DIM,
    ensures
        *final(stack) == retargeted(*old(stack), sw),
        final(stack).wf(),
{
    let mut i: usize = 0;
    while i < N_CARD_SLOTS
        invariant
            i <= N_CARD_SLOTS,
            old(stack).wf(),
            sw <= MAX_SCREEN_DIM,
            forall|k: int|
                0 <= k < i ==> #[trigger] stack.slot(k) == retargeted_slot(
                    old(stack).slot(k),
                    sw,
                    k,
                ),
            forall|k: int| i <= k < N_CARD_SLOTS ==> #[trigger] stack.slot(k) == old(stack).slot(k),
        decreases N_CARD_SLOTS - i,
    {
        let ghost before = *stack;
        match stack.get(i) {
            Some(c) => {
                let target_x: i64 = (sw as i64 - CARDS_FROM_RIGHT + CARD_SPACING * i as i64)
                    * UNITS_PER_PX;
                stack.set(i, Some(AbilityCard { target_x, target_y: UNITS_PER_PX, ..c }));
            },
            None => {},
        }
        assert forall|k: int| 0 <= k < N_CARD_SLOTS && k != i implies #[trigger] stack.slot(k)
            == before.slot(k) by {}
        i = i + 1;
    }
    assert(stack.slot(0) == retargeted_slot(old(stack).slot(0), sw, 0));
    assert(stack.slot(1) == retargeted_slot(old(stack).slot(1), sw, 1));
    assert(stack.slot(2) == retargeted_slot(old(stack).slot(2), sw, 2));
    assert(stack.slot(3) == retargeted_slot(old(stack).slot(3), sw, 3));
    assert(stack.slot(4) == retargeted_slot(old(stack).slot(4), sw, 4));
    assert forall|k: int| 0 <= k < N_CARD_SLOTS implies ((#[trigger] stack.slot(k)) matches Some(
        c,
    ) ==> c.wf()) by {
        assert(stack.slot(k) == retargeted_slot(old(stack).slot(k), sw, k));
        assert(old(stack).slot(k) matches Some(c) ==> c.wf());
    }
}

/// Gives the first player's cards their targets and moves them.
pub fn settle_cards(game_state: &mut GameState, sw: u32)
    requires
        old(game_state)@.wf(),
        sw <= MAX_SCREEN_DIM,
    ensures
        final(game_state)@ == cards_settled(old(game_state)@, sw),
        final(game_state)@.wf(),
        final(game_state)@.npcs == old(game_state)@.npcs,
        final(game_state)@.game_mode == old(game_state)@.game_mode,
{
    let ghost start = game_state@;
    let slot: OptionallyEnabledPlayer = game_state.players[0];
    assert(start.players[0].wf());
    match slot {
        OptionallyEnabledPlayer::Enabled(p) => {
            let mut stack: CardStack = p.card_stack;
            retarget(&mut stack, sw);
            stack.move_cards();
            game_state.players[0] = OptionallyEnabledPlayer::Enabled(
                Player { card_stack: stack, ..p },
            );
            proof {
                assert(game_state@.players =~= cards_settled(start, sw).players);
                assert forall|k: int| 0 <= k < 4 implies (#[trigger] game_state@.players[k]).wf() by {
                    if k != 0 {
                        assert(game_state@.players[k] == start.players[k]);
                    }
                }
            }
        },
        OptionallyEnabledPlayer::Disabled => {},
    }
}

/// Draws the first player's cards.
pub fn draw_cards(game_state: &GameState, out: &mut Vec<DrawCommand>)
    requires
        game_state@.wf(),
    ensures
        command_views(final(out)@) == command_views(old(out)@) + first_player_cards_drawn(
            game_state@,
        ),
{
    assert(game_state@.players[0].wf());
    match game_state.players[0] {
        OptionallyEnabledPlayer::Enabled(p) => {
            let mut i: usize = 0;
            assert(command_views(out@) =~= command_views(old(out)@) + cards_drawn(
                p.card_stack,
                0,
            ));
            while i < N_CARD_SLOTS
                invariant
                    i <= N_CARD_SLOTS,
                    p.card_stack.wf(),
                    command_views(out@) == command_views(old(out)@) + cards_drawn(
                        p.card_stack,
                        i as int,
                    ),
                decreases N_CARD_SLOTS - i,
            {
                match p.card_stack.get(i) {
                    Some(c) => {
                        assert(p.card_stack.slot(i as int) == Some(c));
                        assert(c.wf());
                        let frame: SpriteFrame = c.sprite.frame(0);
                        draw_spriteframe(&frame, to_px(c.x_pos), to_px(c.y_pos), out);
                    },
                    None => {},
                }
                assert(command_views(out@) =~= command_views(old(out)@) + cards_drawn(
                    p.card_stack,
                    i + 1,
                ));
                i = i + 1;
            }
        },
        OptionallyEnabledPlayer::Disabled => {
            assert(command_views(out@) =~= command_views(old(out)@) + first_player_cards_drawn(
                game_state@,
            ));
        },
    }
}

} // verus!
