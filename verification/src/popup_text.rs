//! Short texts that float up from where something happened: a ring of slots
//! in which each new text takes the place of the oldest.

use vstd::prelude::*;
use crate::subpixel::{clamp, clamp_spec, ease, ease_spec};

verus! {

/// Slots in the ring.
pub const POPUP_CAPACITY: usize = 8;

/// Frames that a text is shown.
pub const POPUP_DURATION: u32 = 150;

/// A text blinks while it has this many frames left or more, and is shown
/// steadily after that.
pub const T_BEFORE_BLINK: u32 = 60;

/// How far above its start a text comes to rest, in position units.
pub const POPUP_RISE: i64 = 12000;

/// Texts stay within this distance of the origin, along each axis, in
/// position units.
pub const POPUP_POSITION_LIMIT: i64 = 1000000000000;

/// Hundredths of the remaining way that a text rises each frame.
pub const POPUP_EASE_PERCENT: i64 = 10;

/// The small picture in front of a text.
#[derive(Clone, Copy, Debug, PartialEq, Eq, Structural)]
pub enum PopupIcon {
    NoIcon,
    Clock,
    CatHead,
    DownArrow,
}

/// A floating text. `duration_timer` counts down the frames that it is
/// still shown; at zero the text has expired.
#[derive(Clone, Debug, PartialEq, Eq)]
pub struct PopupText {
    pub text: String,
    pub x_pos: i64,
    pub y_pos: i64,
    pub target_x: i64,
    pub target_y: i64,
    pub icon: PopupIcon,
    pub duration_timer: u32,
}

/// A floating text with its characters as a sequence.
pub struct PopupTextView {
    pub text: Seq<char>,
    pub x_pos: i64,
    pub y_pos: i64,
    pub target_x: i64,
    pub target_y: i64,
    pub icon: PopupIcon,
    pub duration_timer: u32,
}

/// The ring: `POPUP_CAPACITY` slots, and the slot that the next text goes to.
#[derive(Clone, Debug)]
pub struct PopTextRingbuffer {
    pub texts: Vec<Option<PopupText>>,
    pub next_i: usize,
}

/// The ring with its texts as sequences of characters.
pub struct PopTextRingbufferView {
    pub texts: Seq<Option<PopupTextView>>,
    pub next_i: int,
}

impl View for PopupText {
    type V = PopupTextView;

    open spec fn view(&self) -> PopupTextView {
        PopupTextView {
            text: self.text@,
            x_pos: self.x_pos,
            y_pos: self.y_pos,
            target_x: self.target_x,
            target_y: self.target_y,
            icon: self.icon,
            duration_timer: self.duration_timer,
        }
    }
}

/// The view of a slot.
pub open spec fn slot_view(slot: Option<PopupText>) -> Option<PopupTextView> {
    match slot {
        Some(p) => Some(p@),
        None => None,
    }
}

impl View for PopTextRingbuffer {
    type V = PopTextRingbufferView;

    open spec fn view(&self) -> PopTextRingbufferView {
        PopTextRingbufferView {
            texts: Seq::new(self.texts@.len(), |i: int| slot_view(self.texts@[i])),
            next_i: self.next_i as int,
        }
    }
}

impl PopupTextView {
    /// Positions are within the limit for easing, and the timer has not
    /// passed its end.
    pub open spec fn wf(self) -> bool {
        &&& -POPUP_POSITION_LIMIT <= self.x_pos <= POPUP_POSITION_LIMIT
        &&& -POPUP_POSITION_LIMIT <= self.y_pos <= POPUP_POSITION_LIMIT
        &&& -POPUP_POSITION_LIMIT <= self.target_x <= POPUP_POSITION_LIMIT
        &&& -POPUP_POSITION_LIMIT <= self.target_y <= POPUP_POSITION_LIMIT
        &&& self.duration_timer <= POPUP_DURATION
    }

    /// Whether the text is still to be shown.
    pub open spec fn is_live(self) -> bool {
        self.duration_timer > 0
    }

    /// Whether a live text is drawn in this frame: three frames out of six
    /// while it blinks, and always in its last `T_BEFORE_BLINK` frames.
    pub open spec fn is_visible(self) -> bool {
        self.is_live() && (self.duration_timer < T_BEFORE_BLINK || self.duration_timer % 6 < 3)
    }

    /// The text that a new popup at `(x, y)` starts as. It will rise by
    /// `POPUP_RISE`.
    pub open spec fn fresh(x: i64, y: i64, text: Seq<char>, icon: PopupIcon) -> PopupTextView {
        let start_x = clamp_spec(x as int, -POPUP_POSITION_LIMIT as int, POPUP_POSITION_LIMIT as int) as i64;
        let start_y = clamp_spec(y as int, (-POPUP_POSITION_LIMIT + POPUP_RISE) as int, POPUP_POSITION_LIMIT as int) as i64;
        PopupTextView {
            text,
            x_pos: start_x,
            y_pos: start_y,
            target_x: start_x,
            target_y: (start_y - POPUP_RISE) as i64,
            icon,
            duration_timer: POPUP_DURATION,
        }
    }

    /// The text one frame later: a live one is nearer to its target and
    /// has one frame less, and an expired one stays as it is.
    pub open spec fn aged(self) -> PopupTextView {
        if self.is_live() {
            PopupTextView {
                x_pos: ease_spec(
                    self.x_pos as int,
                    self.target_x as int,
                    POPUP_EASE_PERCENT as int,
                ) as i64,
                y_pos: ease_spec(
                    self.y_pos as int,
                    self.target_y as int,
                    POPUP_EASE_PERCENT as int,
                ) as i64,
                duration_timer: (self.duration_timer - 1) as u32,
                ..self
            }
        } else {
            self
        }
    }
}

/// A slot one frame later.
pub open spec fn aged_slot(slot: Option<PopupTextView>) -> Option<PopupTextView> {
    match slot {
        Some(p) => Some(p.aged()),
        None => None,
    }
}

impl PopTextRingbufferView {
    /// The ring has its `POPUP_CAPACITY` slots, the next slot is one of
    /// them, and the texts are well formed.
    pub open spec fn wf(self) -> bool {
        &&& self.texts.len() == POPUP_CAPACITY
        &&& 0 <= self.next_i < POPUP_CAPACITY
        &&& forall|i: int|
            0 <= i < self.texts.len() ==> ((#[trigger] self.texts[i]) matches Some(p) ==> p.wf())
    }

    /// A ring without texts.
    pub open spec fn empty() -> PopTextRingbufferView {
        PopTextRingbufferView {
            texts: Seq::new(POPUP_CAPACITY as nat, |i: int| None::<PopupTextView>),
            next_i: 0,
        }
    }

    /// The ring after `popup` went into the next slot, in place of what was there.
    pub open spec fn with_popup(self, popup: PopupTextView) -> PopTextRingbufferView {
        PopTextRingbufferView {
            texts: self.texts.update(self.next_i, Some(popup)),
            next_i: (self.next_i + 1) % POPUP_CAPACITY as int,
        }
    }

    /// The ring after a new text appeared at `(x, y)`.
    pub open spec fn added(self, x: i64, y: i64, text: Seq<char>, icon: PopupIcon)
        -> PopTextRingbufferView {
        self.with_popup(PopupTextView::fresh(x, y, text, icon))
    }

    /// The ring one frame later. No slot is emptied.
    pub open spec fn aged(self) -> PopTextRingbufferView {
        PopTextRingbufferView {
            texts: Seq::new(self.texts.len(), |i: int| aged_slot(self.texts[i])),
            next_i: self.next_i,
        }
    }

    /// The ring after the texts of `popups` went in, in their order.
    pub open spec fn with_popups(self, popups: Seq<PopupTextView>) -> PopTextRingbufferView
        decreases popups.len(),
    {
        if popups.len() == 0 {
            self
        } else {
            self.with_popups(popups.drop_last()).with_popup(popups.last())
        }
    }

    /// How many of the first `n` slots hold a text that has not expired.
    pub open spec fn live_count(self, n: int) -> int
        decreases n,
    {
        if n <= 0 {
            0
        } else {
            self.live_count(n - 1) + (if self.texts[n - 1] matches Some(p) && p.is_live() {
                1int
            } else {
                0int
            })
        }
    }
}

impl PopTextRingbuffer {
    /// A ring without texts.
    pub fn new() -> (ring: PopTextRingbuffer)
        ensures
            ring@ == PopTextRingbufferView::empty(),
            ring@.wf(),
    {
        let mut texts: Vec<Option<PopupText>> = Vec::new();
        let mut i: usize = 0;
        while i < POPUP_CAPACITY
            invariant
                i <= POPUP_CAPACITY,
                texts@.len() == i,
                forall|k: int| 0 <= k < i ==> (#[trigger] texts@[k]).is_none(),
            decreases POPUP_CAPACITY - i,
        {
            texts.push(None);
            i = i + 1;
        }
        let ring = PopTextRingbuffer { texts, next_i: 0 };
        assert(ring@.texts =~= PopTextRingbufferView::empty().texts);
        ring
    }

    /// Shows a new text at `(x, y)`. It takes the next slot of the ring,
    /// which holds the oldest text once the ring has gone round.
    pub fn add_new_popup(&mut self, x: i64, y: i64, text: String, icon: PopupIcon)
        requires
            old(self)@.wf(),
        ensures
            final(self)@ == old(self)@.added(x, y, text@, icon),
            final(self)@.wf(),
    {
        let start_x: i64 = clamp(x, -POPUP_POSITION_LIMIT, POPUP_POSITION_LIMIT);
        let start_y: i64 = clamp(y, -POPUP_POSITION_LIMIT + POPUP_RISE, POPUP_POSITION_LIMIT);
        let popup = PopupText {
            text,
            x_pos: start_x,
            y_pos: start_y,
            target_x: start_x,
            target_y: start_y - POPUP_RISE,
            icon,
            duration_timer: POPUP_DURATION,
        };
        let i: usize = self.next_i;
        assert(self@.texts.len() == POPUP_CAPACITY);
        self.texts[i] = Some(popup);
        self.next_i = (i + 1) % POPUP_CAPACITY;
        assert(self@.texts =~= old(self)@.added(x, y, text@, icon).texts);
        assert forall|k: int| 0 <= k < self@.texts.len() implies ((#[trigger] self@.texts[k]) matches Some(
            p,
        ) ==> p.wf()) by {
            if k != i {
                assert(self@.texts[k] == old(self)@.texts[k]);
            }
        }
    }

    /// Lets every live text rise toward its target and takes a frame off
    /// its time. Expired texts keep their slots.
    pub fn update_popup_positions(&mut self)
        requires
            old(self)@.wf(),
        ensures
            final(self)@ == old(self)@.aged(),
            final(self)@.wf(),
    {
        let n: usize = self.texts.len();
        assert(self@.texts.len() == n);
        let mut i: usize = 0;
        while i < n
            invariant
                i <= n,
                n == POPUP_CAPACITY,
                self.texts@.len() == n,
                self.next_i == old(self).next_i,
                old(self)@.wf(),
                forall|k: int| 0 <= k < i ==> #[trigger] self@.texts[k] == aged_slot(old(self)@.texts[k]),
                forall|k: int| i <= k < n ==> #[trigger] self@.texts[k] == old(self)@.texts[k],
            decreases n - i,
        {
            let ghost before = self@;
            assert(before.texts[i as int] == old(self)@.texts[i as int]);
            match &mut self.texts[i] {
                Some(p) => {
                    assert(p@.wf());
                    if p.duration_timer > 0 {
                        p.x_pos = ease(p.x_pos, p.target_x, POPUP_EASE_PERCENT);
                        p.y_pos = ease(p.y_pos, p.target_y, POPUP_EASE_PERCENT);
                        p.duration_timer = p.duration_timer - 1;
                    }
                },
                None => {},
            }
            assert forall|k: int| 0 <= k < n && k != i implies #[trigger] self@.texts[k]
                == before.texts[k] by {}
            assert(self@.texts[i as int] == aged_slot(before.texts[i as int]));
            i = i + 1;
        }
        assert(self@.texts =~= old(self)@.aged().texts);
        assert forall|k: int| 0 <= k < self@.texts.len() implies ((#[trigger] self@.texts[k]) matches Some(
            p,
        ) ==> p.wf()) by {
            assert(self@.texts[k] == aged_slot(old(self)@.texts[k]));
            assert(old(self)@.texts[k] matches Some(q) ==> q.wf());
        }
    }
}

/// The ring never holds more live texts than it has slots.
pub proof fn lemma_live_count_bounded(ring: PopTextRingbufferView, n: int)
    requires
        ring.wf(),
        0 <= n <= POPUP_CAPACITY,
    ensures
        0 <= ring.live_count(n) <= n,
        ring.live_count(POPUP_CAPACITY as int) <= POPUP_CAPACITY,
    decreases n,
{
    if n > 0 {
        lemma_live_count_bounded(ring, n - 1);
    }
    if n < POPUP_CAPACITY {
        lemma_live_count_bounded_all(ring, POPUP_CAPACITY as int);
    }
}

proof fn lemma_live_count_bounded_all(ring: PopTextRingbufferView, n: int)
    requires
        0 <= n,
    ensures
        0 <= ring.live_count(n) <= n,
    decreases n,
{
    if n > 0 {
        lemma_live_count_bounded_all(ring, n - 1);
    }
}

proof fn lemma_turns(a: int, j: int, n: int)
    requires
        0 <= a < 8,
        0 <= j < n,
    ensures
        ((a + (n - 1)) % 8 + 1) % 8 == (a + n) % 8,
        0 <= (a + j) % 8 < 8,
        (j < n - 1 && n - 8 <= j) ==> (a + j) % 8 != (a + n - 1) % 8,
{
}

/// After texts went into the ring one by one, the ring holds the last
/// `POPUP_CAPACITY` of them, each in the slot that its turn gave it, and the
/// next slot has moved on by their number.
pub proof fn lemma_ring_holds_latest(ring: PopTextRingbufferView, popups: Seq<PopupTextView>)
    requires
        ring.wf(),
    ensures
        ring.with_popups(popups).texts.len() == POPUP_CAPACITY,
        ring.with_popups(popups).next_i == (ring.next_i + popups.len()) % POPUP_CAPACITY as int,
        forall|j: int|
            0 <= j < popups.len() && popups.len() - POPUP_CAPACITY <= j ==> ring.with_popups(
                popups,
            ).texts[(ring.next_i + j) % POPUP_CAPACITY as int] == Some(#[trigger] popups[j]),
    decreases popups.len(),
{
    if popups.len() > 0 {
        let earlier = popups.drop_last();
        lemma_ring_holds_latest(ring, earlier);
        let before = ring.with_popups(earlier);
        let after = ring.with_popups(popups);
        let n = popups.len() as int;
        let a = ring.next_i;
        assert(after == before.with_popup(popups.last()));
        lemma_turns(a, n - 1, n);
        assert(before.next_i == (a + (n - 1)) % 8);
        assert(after.next_i == (a + n) % 8);
        assert(after.texts == before.texts.update(before.next_i, Some(popups.last())));
        assert forall|j: int| 0 <= j < n && n - POPUP_CAPACITY <= j implies after.texts[(a + j)
            % POPUP_CAPACITY as int] == Some(#[trigger] popups[j]) by {
            lemma_turns(a, j, n);
            if j < n - 1 {
                assert(earlier[j] == popups[j]);
                assert(before.texts[(a + j) % 8] == Some(earlier[j]));
            }
        }
    } else {
        assert(ring.with_popups(popups) == ring);
    }
}

/// First in, first out: once `POPUP_CAPACITY + 1` texts went into the ring,
/// the first of them is gone, unless a later one equals it.
pub proof fn lemma_oldest_is_evicted(ring: PopTextRingbufferView, popups: Seq<PopupTextView>)
    requires
        ring.wf(),
        popups.len() == POPUP_CAPACITY + 1,
        forall|j: int| 1 <= j < popups.len() ==> #[trigger] popups[j] != popups[0],
    ensures
        forall|k: int|
            0 <= k < POPUP_CAPACITY ==> #[trigger] ring.with_popups(popups).texts[k] != Some(
                popups[0],
            ),
{
    lemma_ring_holds_latest(ring, popups);
    let after = ring.with_popups(popups);
    assert forall|k: int| 0 <= k < POPUP_CAPACITY implies #[trigger] after.texts[k] != Some(
        popups[0],
    ) by {
        let j = (k - ring.next_i - 1 + 16) % 8 + 1;
        assert((ring.next_i + j) % 8 == k);
        assert(after.texts[(ring.next_i + j) % 8] == Some(popups[j]));
    }
}

} // verus!
