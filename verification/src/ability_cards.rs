//! Ability cards: what a player holds, and what using one does.

use vstd::prelude::*;
use crate::spritesheet::{preset_sprite, PresetSprites, Sprite};
use crate::subpixel::{ease, ease_spec, UNIT_LIMIT};

verus! {

/// Slots in a player's stack of cards.
pub const N_CARD_SLOTS: usize = 5;

/// Seconds that a time card gives.
pub const TIME_CARD_SECONDS: i32 = 5;

/// Seconds that come with a card that enables flying or warping. Ten of them
/// are given up where the card does enable something.
pub const ABILITY_CARD_SECONDS: i32 = 10;

/// Hundredths of the remaining way that a card moves toward its target each frame.
pub const CARD_EASE_PERCENT: i64 = 20;

/// Where a new card first appears, in position units.
pub const CARD_START_X: i64 = 80000;

pub const CARD_START_Y: i64 = -20000;

#[derive(Clone, Copy, Debug, PartialEq, Eq, Structural)]
pub enum AbilityCardTypes {
    Time,
    Fly,
    Warp,
}

/// What came of an attempt to use a card.
#[derive(Clone, Copy, Debug, PartialEq, Eq, Structural)]
pub enum AbilityCardUsageResult {
    NothingHappened,
    GainedTime(i32),
    EnabledFlyAndTime(i32),
    EnabledWarpAndTime(i32),
}

/// A card in a player's stack: where it is drawn, and where it is heading.
#[derive(Clone, Copy, Debug, PartialEq, Eq, Structural)]
pub struct AbilityCard {
    pub kind: AbilityCardTypes,
    pub x_pos: i64,
    pub y_pos: i64,
    pub target_x: i64,
    pub target_y: i64,
    pub sprite: Sprite,
}

/// The cards of one player. The front card is the one in the lowest slot.
#[derive(Clone, Copy, Debug, PartialEq, Eq, Structural)]
pub struct CardStack {
    pub slot_0: Option<AbilityCard>,
    pub slot_1: Option<AbilityCard>,
    pub slot_2: Option<AbilityCard>,
    pub slot_3: Option<AbilityCard>,
    pub slot_4: Option<AbilityCard>,
}

/// The picture of a card of kind `kind`.
pub open spec fn card_preset(kind: AbilityCardTypes) -> PresetSprites {
    match kind {
        AbilityCardTypes::Time => PresetSprites::TimeCard,
        AbilityCardTypes::Fly => PresetSprites::FlyCard,
        AbilityCardTypes::Warp => PresetSprites::WarpCard,
    }
}

/// What using a card of kind `kind` gives.
pub open spec fn usage_of(kind: AbilityCardTypes) -> AbilityCardUsageResult {
    match kind {
        AbilityCardTypes::Time => AbilityCardUsageResult::GainedTime(TIME_CARD_SECONDS),
        AbilityCardTypes::Fly => AbilityCardUsageResult::EnabledFlyAndTime(ABILITY_CARD_SECONDS),
        AbilityCardTypes::Warp => AbilityCardUsageResult::EnabledWarpAndTime(ABILITY_CARD_SECONDS),
    }
}

impl AbilityCard {
    /// Positions are within the limit for easing, and the picture is a card's.
    pub open spec fn wf(self) -> bool {
        &&& -UNIT_LIMIT <= self.x_pos <= UNIT_LIMIT
        &&& -UNIT_LIMIT <= self.y_pos <= UNIT_LIMIT
        &&& -UNIT_LIMIT <= self.target_x <= UNIT_LIMIT
        &&& -UNIT_LIMIT <= self.target_y <= UNIT_LIMIT
        &&& self.sprite == preset_sprite(card_preset(self.kind))
    }

    /// A fresh card of kind `kind`, at the place where cards appear.
    pub open spec fn fresh(kind: AbilityCardTypes) -> AbilityCard {
        AbilityCard {
            kind,
            x_pos: CARD_START_X,
            y_pos: CARD_START_Y,
            target_x: CARD_START_X,
            target_y: CARD_START_Y,
            sprite: preset_sprite(card_preset(kind)),
        }
    }

    /// The card after one frame of easing toward its target.
    pub open spec fn eased(self) -> AbilityCard {
        AbilityCard {
            x_pos: ease_spec(
                self.x_pos as int,
                self.target_x as int,
                CARD_EASE_PERCENT as int,
            ) as i64,
            y_pos: ease_spec(
                self.y_pos as int,
                self.target_y as int,
                CARD_EASE_PERCENT as int,
            ) as i64,
            ..self
        }
    }

    /// A fresh card of kind `kind`.
    pub fn new(kind: AbilityCardTypes) -> (card: AbilityCard)
        ensures
            card == AbilityCard::fresh(kind),
            card.wf(),
    {
        let preset = match kind {
            AbilityCardTypes::Time => PresetSprites::TimeCard,
            AbilityCardTypes::Fly => PresetSprites::FlyCard,
            AbilityCardTypes::Warp => PresetSprites::WarpCard,
        };
        AbilityCard {
            kind,
            x_pos: CARD_START_X,
            y_pos: CARD_START_Y,
            target_x: CARD_START_X,
            target_y: CARD_START_Y,
            sprite: Sprite::from_preset(&preset),
        }
    }
}

/// `card` after one frame of easing, where there is a card.
pub open spec fn eased_slot(card: Option<AbilityCard>) -> Option<AbilityCard> {
    match card {
        Some(c) => Some(c.eased()),
        None => None,
    }
}

impl CardStack {
    /// The card in slot `i`, if the slot holds one.
    pub open spec fn slot(self, i: int) -> Option<AbilityCard> {
        if i == 0 {
            self.slot_0
        } else if i == 1 {
            self.slot_1
        } else if i == 2 {
            self.slot_2
        } else if i == 3 {
            self.slot_3
        } else if i == 4 {
            self.slot_4
        } else {
            None
        }
    }

    /// The stack with slot `i` set to `card`.
    pub open spec fn with_slot(self, i: int, card: Option<AbilityCard>) -> CardStack {
        if i == 0 {
            CardStack { slot_0: card, ..self }
        } else if i == 1 {
            CardStack { slot_1: card, ..self }
        } else if i == 2 {
            CardStack { slot_2: card, ..self }
        } else if i == 3 {
            CardStack { slot_3: card, ..self }
        } else if i == 4 {
            CardStack { slot_4: card, ..self }
        } else {
            self
        }
    }

    /// A stack without cards.
    pub open spec fn empty() -> CardStack {
        CardStack { slot_0: None, slot_1: None, slot_2: None, slot_3: None, slot_4: None }
    }

    /// Every card of the stack is well formed.
    pub open spec fn wf(self) -> bool {
        forall|i: int|
            0 <= i < N_CARD_SLOTS ==> ((#[trigger] self.slot(i)) matches Some(c) ==> c.wf())
    }

    /// The lowest slot from `from` on that holds a card, or `N_CARD_SLOTS`.
    pub open spec fn first_card_from(self, from: int) -> int
        decreases N_CARD_SLOTS - from,
    {
        if from < 0 || from >= N_CARD_SLOTS {
            N_CARD_SLOTS as int
        } else if self.slot(from).is_some() {
            from
        } else {
            self.first_card_from(from + 1)
        }
    }

    /// The slot of the front card, or `N_CARD_SLOTS` where the stack is empty.
    pub open spec fn front(self) -> int {
        self.first_card_from(0)
    }

    /// The lowest slot from `from` on that holds no card, or `N_CARD_SLOTS`.
    pub open spec fn first_free_from(self, from: int) -> int
        decreases N_CARD_SLOTS - from,
    {
        if from < 0 || from >= N_CARD_SLOTS {
            N_CARD_SLOTS as int
        } else if self.slot(from).is_none() {
            from
        } else {
            self.first_free_from(from + 1)
        }
    }

    /// The stack after its front card was used, and what that gave.
    pub open spec fn used(self) -> (CardStack, AbilityCardUsageResult) {
        let i = self.front();
        if i < N_CARD_SLOTS {
            (self.with_slot(i, None), usage_of(self.slot(i).unwrap().kind))
        } else {
            (self, AbilityCardUsageResult::NothingHappened)
        }
    }

    /// The stack after a card of kind `kind` was offered to it: the card
    /// takes the lowest free slot, and a full stack stays as it is.
    pub open spec fn pushed(self, kind: AbilityCardTypes) -> CardStack {
        self.with_slot(self.first_free_from(0), Some(AbilityCard::fresh(kind)))
    }

    /// The stack after every card eased toward its target for one frame.
    pub open spec fn moved(self) -> CardStack {
        CardStack {
            slot_0: eased_slot(self.slot_0),
            slot_1: eased_slot(self.slot_1),
            slot_2: eased_slot(self.slot_2),
            slot_3: eased_slot(self.slot_3),
            slot_4: eased_slot(self.slot_4),
        }
    }

    /// A stack without cards.
    pub fn new() -> (stack: CardStack)
        ensures
            stack == CardStack::empty(),
            stack.wf(),
    {
        CardStack { slot_0: None, slot_1: None, slot_2: None, slot_3: None, slot_4: None }
    }

    /// The card in slot `i`.
    pub fn get(&self, i: usize) -> (card: Option<AbilityCard>)
        ensures
            card == self.slot(i as int),
    {
        if i == 0 {
            self.slot_0
        } else if i == 1 {
            self.slot_1
        } else if i == 2 {
            self.slot_2
        } else if i == 3 {
            self.slot_3
        } else if i == 4 {
            self.slot_4
        } else {
            None
        }
    }

    /// Puts `card` into slot `i`; a slot that the stack does not have is ignored.
    pub fn set(&mut self, i: usize, card: Option<AbilityCard>)
        ensures
            *final(self) == old(self).with_slot(i as int, card),
    {
        if i == 0 {
            self.slot_0 = card;
        } else if i == 1 {
            self.slot_1 = card;
        } else if i == 2 {
            self.slot_2 = card;
        } else if i == 3 {
            self.slot_3 = card;
        } else if i == 4 {
            self.slot_4 = card;
        }
    }

    /// Uses the front card, if there is one, and takes it off the stack. An
    /// empty stack is left as it is and gives `NothingHappened`.
    pub fn try_use_cards(&mut self) -> (result: AbilityCardUsageResult)
        requires
            old(self).wf(),
        ensures
            (*final(self), result) == old(self).used(),
            final(self).wf(),
            old(self).front() == N_CARD_SLOTS ==> result == AbilityCardUsageResult::NothingHappened
                && *final(self) == *old(self),
            result matches AbilityCardUsageResult::EnabledFlyAndTime(t) ==> t
                == ABILITY_CARD_SECONDS,
            result matches AbilityCardUsageResult::EnabledWarpAndTime(t) ==> t
                == ABILITY_CARD_SECONDS,
            result matches AbilityCardUsageResult::GainedTime(t) ==> t == TIME_CARD_SECONDS,
    {
        let mut i: usize = 0;
        while i < N_CARD_SLOTS
            invariant
                i <= N_CARD_SLOTS,
                *self == *old(self),
                old(self).wf(),
                self.front() == self.first_card_from(i as int),
            decreases N_CARD_SLOTS - i,
        {
            match self.get(i) {
                Some(card) => {
                    self.set(i, None);
                    assert forall|k: int| 0 <= k < N_CARD_SLOTS implies ((#[trigger] self.slot(
                        k,
                    )) matches Some(c) ==> c.wf()) by {
                        assert(self.slot(k) == old(self).slot(k) || self.slot(k).is_none());
                    }
                    return match card.kind {
                        AbilityCardTypes::Time => AbilityCardUsageResult::GainedTime(
                            TIME_CARD_SECONDS,
                        ),
                        AbilityCardTypes::Fly => AbilityCardUsageResult::EnabledFlyAndTime(
                            ABILITY_CARD_SECONDS,
                        ),
                        AbilityCardTypes::Warp => AbilityCardUsageResult::EnabledWarpAndTime(
                            ABILITY_CARD_SECONDS,
                        ),
                    };
                },
                None => {},
            }
            i = i + 1;
        }
        AbilityCardUsageResult::NothingHappened
    }

    /// Offers a card of kind `kind` to the stack. Returns whether there was a
    /// free slot for it.
    pub fn try_push_card(&mut self, kind: AbilityCardTypes) -> (taken: bool)
        requires
            old(self).wf(),
        ensures
            *final(self) == old(self).pushed(kind),
            taken == (old(self).first_free_from(0) < N_CARD_SLOTS),
            final(self).wf(),
    {
        let mut i: usize = 0;
        while i < N_CARD_SLOTS
            invariant
                i <= N_CARD_SLOTS,
                *self == *old(self),
                old(self).wf(),
                self.first_free_from(0) == self.first_free_from(i as int),
            decreases N_CARD_SLOTS - i,
        {
            if self.get(i).is_none() {
                let card = AbilityCard::new(kind);
                self.set(i, Some(card));
                assert forall|k: int| 0 <= k < N_CARD_SLOTS implies ((#[trigger] self.slot(
                    k,
                )) matches Some(c) ==> c.wf()) by {
                    assert(self.slot(k) == old(self).slot(k) || self.slot(k) == Some(card));
                }
                return true;
            }
            i = i + 1;
        }
        false
    }

    /// Moves every card one easing step toward its target.
    pub fn move_cards(&mut self)
        requires
            old(self).wf(),
        ensures
            *final(self) == old(self).moved(),
            final(self).wf(),
    {
        let mut i: usize = 0;
        while i < N_CARD_SLOTS
            invariant
                i <= N_CARD_SLOTS,
                old(self).wf(),
                forall|k: int| 0 <= k < i ==> #[trigger] self.slot(k) == eased_slot(old(self).slot(k)),
                forall|k: int| i <= k < N_CARD_SLOTS ==> #[trigger] self.slot(k) == old(self).slot(k),
            decreases N_CARD_SLOTS - i,
        {
            let ghost before = *self;
            match self.get(i) {
                Some(card) => {
                    assert(old(self).slot(i as int) == Some(card));
                    assert(card.wf());
                    let moved = AbilityCard {
                        x_pos: ease(card.x_pos, card.target_x, CARD_EASE_PERCENT),
                        y_pos: ease(card.y_pos, card.target_y, CARD_EASE_PERCENT),
                        ..card
                    };
                    self.set(i, Some(moved));
                },
                None => {},
            }
            assert forall|k: int| 0 <= k < N_CARD_SLOTS && k != i implies #[trigger] self.slot(k)
                == before.slot(k) by {}
            i = i + 1;
        }
        assert(self.slot(0) == eased_slot(old(self).slot(0)));
        assert(self.slot(1) == eased_slot(old(self).slot(1)));
        assert(self.slot(2) == eased_slot(old(self).slot(2)));
        assert(self.slot(3) == eased_slot(old(self).slot(3)));
        assert(self.slot(4) == eased_slot(old(self).slot(4)));
        assert forall|k: int| 0 <= k < N_CARD_SLOTS implies ((#[trigger] self.slot(
            k,
        )) matches Some(c) ==> c.wf()) by {
            assert(self.slot(k) == eased_slot(old(self).slot(k)));
            assert(old(self).slot(k) matches Some(c) ==> c.wf());
        }
    }
}

/// Using cards on a stack without cards, any number of times, gives
/// `NothingHappened` each time and leaves the stack as it was.
pub proof fn lemma_empty_stack_stays_empty(stack: CardStack, times: nat)
    requires
        stack.front() == N_CARD_SLOTS,
    ensures
        used_times(stack, times) == stack,
        forall|k: nat| k < times ==> (#[trigger] used_times(stack, k)).used().1
            == AbilityCardUsageResult::NothingHappened,
    decreases times,
{
    if times > 0 {
        lemma_empty_stack_stays_empty(stack, (times - 1) as nat);
    }
}

/// The stack after `times` uses of its front card.
pub open spec fn used_times(stack: CardStack, times: nat) -> CardStack
    decreases times,
{
    if times == 0 {
        stack
    } else {
        used_times(stack, (times - 1) as nat).used().0
    }
}

} // verus!
