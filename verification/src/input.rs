use std::collections::VecDeque;
use vstd::prelude::*;

verus! {

/// Most events an input buffer holds; the oldest leave first.
pub const MAX_BUFFER_SIZE: usize = 10;

/// Age in frames past which a buffered input no longer counts (one second).
pub const INPUT_EXPIRY_FRAMES: u32 = 60;

#[derive(Debug, Clone, Copy, PartialEq, Eq, Hash, Structural)]
pub enum InputAction {
    MoveForward,
    MoveBack,
    MoveLeft,
    MoveRight,
    LightAttack,
    HeavyAttack,
    Special,
    Block,
    Dash,
    MidKick,
    LowKick,
    Aerial,
}

impl InputAction {
    /// The three attack buttons, the only actions that are buffered.
    pub open spec fn is_buffered(self) -> bool {
        self == InputAction::LightAttack || self == InputAction::HeavyAttack || self
            == InputAction::Special
    }
}

/// One buffered input and the game frame it was made in.
#[derive(Debug, Clone, Copy)]
pub struct InputEvent {
    pub action: InputAction,
    pub frame: u32,
}

/// A combo recognised in the input buffer.
#[derive(Debug, Clone, Copy, PartialEq, Eq, Structural)]
pub enum ComboType {
    /// Light, light, light.
    ThreeHit,
    /// Light, heavy, special.
    Super,
}

/// Which directions and buttons a player holds this frame.
#[derive(Debug, Clone)]
pub struct InputState {
    pub move_forward: bool,
    pub move_back: bool,
    pub move_left: bool,
    pub move_right: bool,
    pub light_attack: bool,
    pub heavy_attack: bool,
    pub special: bool,
    pub block: bool,
    pub dash: bool,
    pub mid_kick: bool,
    pub low_kick: bool,
    pub aerial: bool,
}

impl InputState {
    /// The state with nothing held.
    pub open spec fn released() -> InputState {
        InputState {
            move_forward: false,
            move_back: false,
            move_left: false,
            move_right: false,
            light_attack: false,
            heavy_attack: false,
            special: false,
            block: false,
            dash: false,
            mid_kick: false,
            low_kick: false,
            aerial: false,
        }
    }

    /// The state that the twelve lowest bits of `bits` stand for, lowest
    /// first: forward, back, left, right, light, heavy, special, block, dash,
    /// mid kick, low kick, aerial. A set bit is a held button.
    pub open spec fn spec_from_packed(bits: u32) -> InputState {
        InputState {
            move_forward: bits & 0x001 != 0,
            move_back: bits & 0x002 != 0,
            move_left: bits & 0x004 != 0,
            move_right: bits & 0x008 != 0,
            light_attack: bits & 0x010 != 0,
            heavy_attack: bits & 0x020 != 0,
            special: bits & 0x040 != 0,
            block: bits & 0x080 != 0,
            dash: bits & 0x100 != 0,
            mid_kick: bits & 0x200 != 0,
            low_kick: bits & 0x400 != 0,
            aerial: bits & 0x800 != 0,
        }
    }

    /// Unpacks one player's input from the twelve lowest bits of `bits`; the
    /// higher bits are ignored.
    pub fn from_packed(bits: u32) -> (state: InputState)
        ensures
            state == InputState::spec_from_packed(bits),
    {
        InputState {
            move_forward: bits & 0x001 != 0,
            move_back: bits & 0x002 != 0,
            move_left: bits & 0x004 != 0,
            move_right: bits & 0x008 != 0,
            light_attack: bits & 0x010 != 0,
            heavy_attack: bits & 0x020 != 0,
            special: bits & 0x040 != 0,
            block: bits & 0x080 != 0,
            dash: bits & 0x100 != 0,
            mid_kick: bits & 0x200 != 0,
            low_kick: bits & 0x400 != 0,
            aerial: bits & 0x800 != 0,
        }
    }

    /// Unpacks the inputs of both players from one word: bits 0 to 11 are
    /// player one's, bits 12 to 23 are player two's.
    pub fn pair_from_packed(bits: u32) -> (pair: (InputState, InputState))
        ensures
            pair.0 == InputState::spec_from_packed(bits),
            pair.1 == InputState::spec_from_packed(bits >> 12),
    {
        (InputState::from_packed(bits), InputState::from_packed(bits >> 12))
    }

    pub open spec fn spec_has_movement(&self) -> bool {
        self.move_forward || self.move_back || self.move_left || self.move_right
    }

    /// Whether any of the four directions is held.
    pub fn has_movement(&self) -> (b: bool)
        ensures
            b == self.spec_has_movement(),
    {
        self.move_forward || self.move_back || self.move_left || self.move_right
    }
}

impl Default for InputState {
    fn default() -> (s: InputState)
        ensures
            s == InputState::released(),
    {
        InputState {
            move_forward: false,
            move_back: false,
            move_left: false,
            move_right: false,
            light_attack: false,
            heavy_attack: false,
            special: false,
            block: false,
            dash: false,
            mid_kick: false,
            low_kick: false,
            aerial: false,
        }
    }
}

/// Whether an event still counts at frame `now`: it is at most
/// `INPUT_EXPIRY_FRAMES` old. An event stamped later than `now` has age 0.
pub open spec fn is_live(e: InputEvent, now: u32) -> bool {
    now - e.frame <= INPUT_EXPIRY_FRAMES
}

/// `is_live` at a fixed frame, as a predicate on events.
pub open spec fn live_at(now: u32) -> spec_fn(InputEvent) -> bool {
    |e: InputEvent| is_live(e, now)
}

/// The events that still count at frame `now`, in their order.
pub open spec fn live_events(events: Seq<InputEvent>, now: u32) -> Seq<InputEvent> {
    events.filter(live_at(now))
}

/// The combo that three actions in a row make.
pub open spec fn combo_pattern(a: InputAction, b: InputAction, c: InputAction) -> Option<
    ComboType,
> {
    if a == InputAction::LightAttack && b == InputAction::HeavyAttack && c
        == InputAction::Special {
        Some(ComboType::Super)
    } else if a == InputAction::LightAttack && b == InputAction::LightAttack && c
        == InputAction::LightAttack {
        Some(ComboType::ThreeHit)
    } else {
        None
    }
}

/// The combo that the last three of `events` make; none with fewer than three.
pub open spec fn combo_of_last_three(events: Seq<InputEvent>) -> Option<ComboType> {
    if events.len() < 3 {
        None
    } else {
        combo_pattern(
            events[events.len() - 3].action,
            events[events.len() - 2].action,
            events[events.len() - 1].action,
        )
    }
}

/// The combo that a buffer holding `events` reports at frame `now`: the one
/// that the last three live events make.
pub open spec fn detected_combo(events: Seq<InputEvent>, now: u32) -> Option<ComboType> {
    combo_of_last_three(live_events(events, now))
}

/// The events after `e` has been appended: the oldest leaves when the length
/// would pass `MAX_BUFFER_SIZE`.
pub open spec fn pushed(events: Seq<InputEvent>, e: InputEvent) -> Seq<InputEvent> {
    if events.len() >= MAX_BUFFER_SIZE {
        events.skip(1).push(e)
    } else {
        events.push(e)
    }
}

/// How many events at the front of `events` have expired at frame `now`.
pub open spec fn leading_expired(events: Seq<InputEvent>, now: u32) -> nat
    decreases events.len(),
{
    if events.len() > 0 && !is_live(events[0], now) {
        1 + leading_expired(events.skip(1), now)
    } else {
        0
    }
}

/// The events without the expired ones at the front: what is left starts
/// with the oldest event that is still live.
pub open spec fn without_expired_front(events: Seq<InputEvent>, now: u32) -> Seq<InputEvent> {
    events.skip(leading_expired(events, now) as int)
}

/// Recent attack inputs of one fighter, oldest first, each stamped with the
/// frame it was made in.
#[derive(Debug, Clone)]
pub struct InputBuffer {
    events: VecDeque<InputEvent>,
    current_frame: u32,
}

impl View for InputBuffer {
    type V = Seq<InputEvent>;

    /// The buffered events, oldest first.
    closed spec fn view(&self) -> Seq<InputEvent> {
        self.events@
    }
}

impl InputBuffer {
    /// The buffer holds at most `MAX_BUFFER_SIZE` events. Every buffer made
    /// by `new` and changed by the methods below is well-formed.
    pub open spec fn wf(&self) -> bool {
        self@.len() <= MAX_BUFFER_SIZE
    }

    /// The frame that new events are stamped with.
    pub closed spec fn now(&self) -> u32 {
        self.current_frame
    }

    /// An empty buffer at frame 0.
    pub fn new() -> (buf: InputBuffer)
        ensures
            buf@ == Seq::<InputEvent>::empty(),
            buf.now() == 0,
            buf.wf(),
    {
        InputBuffer { events: VecDeque::new(), current_frame: 0 }
    }

    /// Number of buffered events.
    pub fn len(&self) -> (n: usize)
        ensures
            n == self@.len(),
    {
        self.events.len()
    }

    /// Moves the buffer's clock to `frame`; the events stay.
    pub fn set_frame(&mut self, frame: u32)
        ensures
            final(self)@ == old(self)@,
            final(self).now() == frame,
    {
        self.current_frame = frame;
    }

    /// Records an attack input at the current frame; every other action is
    /// ignored. Past `MAX_BUFFER_SIZE` events the oldest is dropped.
    pub fn push(&mut self, action: InputAction)
        ensures
            final(self).now() == old(self).now(),
            action.is_buffered() ==> final(self)@ == pushed(
                old(self)@,
                InputEvent { action, frame: old(self).now() },
            ),
            !action.is_buffered() ==> final(self)@ == old(self)@,
            old(self).wf() ==> final(self).wf(),
    {
        match action {
            InputAction::LightAttack | InputAction::HeavyAttack | InputAction::Special => {
                if self.events.len() >= MAX_BUFFER_SIZE {
                    self.events.pop_front();
                }
                self.events.push_back(InputEvent { action, frame: self.current_frame });
            },
            _ => {},
        }
    }

    /// Whether the oldest event is there and has expired.
    fn front_expired(&self) -> (b: bool)
        ensures
            b == (self@.len() > 0 && !is_live(self@[0], self.now())),
    {
        if self.events.len() == 0 {
            false
        } else {
            let front = self.events[0];
            self.current_frame.saturating_sub(front.frame) > INPUT_EXPIRY_FRAMES
        }
    }

    /// Drops expired events from the front, up to the first live one. An
    /// expired event behind a live one stays until `detect_combo` passes over
    /// it.
    pub fn expire_old(&mut self)
        ensures
            final(self).now() == old(self).now(),
            final(self)@ == without_expired_front(old(self)@, old(self).now()),
            final(self)@.len() <= old(self)@.len(),
            forall|i: int|
                0 <= i < old(self)@.len() - final(self)@.len() ==> !is_live(
                    #[trigger] old(self)@[i],
                    old(self).now(),
                ),
            final(self)@.len() > 0 ==> is_live(final(self)@[0], old(self).now()),
    {
        let ghost before = self@;
        let ghost now = self.now();
        while self.front_expired()
            invariant
                self.now() == now,
                self@.len() <= before.len(),
                self@ == before.skip(before.len() - self@.len()),
                without_expired_front(self@, now) == without_expired_front(before, now),
                forall|i: int|
                    0 <= i < before.len() - self@.len() ==> !is_live(#[trigger] before[i], now),
            decreases self@.len(),
        {
            proof {
                let l = leading_expired(self@.skip(1), now) as int;
                lemma_leading_expired_bound(self@.skip(1), now);
                assert(self@.skip(1).skip(l) =~= self@.skip(1 + l));
            }
            self.events.pop_front();
        }
        assert(self@.skip(0) == self@);
    }

    /// The highest-priority combo that the last three live events make.
    pub fn detect_combo(&self) -> (combo: Option<ComboType>)
        ensures
            combo == detected_combo(self@, self.now()),
    {
        let n = self.events.len();
        let mut live: Vec<InputAction> = Vec::new();
        let mut i: usize = 0;
        while i < n
            invariant
                i <= n,
                n == self.events@.len(),
                live@ == Seq::new(
                    live_events(self.events@.take(i as int), self.current_frame).len(),
                    |k: int| live_events(self.events@.take(i as int), self.current_frame)[k].action,
                ),
            decreases n - i,
        {
            let e = self.events[i];
            proof {
                lemma_live_events_step(self.events@, i as int, self.current_frame);
            }
            if self.current_frame.saturating_sub(e.frame) <= INPUT_EXPIRY_FRAMES {
                live.push(e.action);
            }
            i += 1;
        }
        assert(self.events@.take(n as int) == self.events@);
        let m = live.len();
        if m < 3 {
            return None;
        }
        let a = live[m - 3];
        let b = live[m - 2];
        let c = live[m - 1];
        if a == InputAction::LightAttack && b == InputAction::HeavyAttack && c
            == InputAction::Special {
            Some(ComboType::Super)
        } else if a == InputAction::LightAttack && b == InputAction::LightAttack && c
            == InputAction::LightAttack {
            Some(ComboType::ThreeHit)
        } else {
            None
        }
    }

    /// Empties the buffer, as after a combo has been used.
    pub fn clear(&mut self)
        ensures
            final(self)@ == Seq::<InputEvent>::empty(),
            final(self).now() == old(self).now(),
    {
        self.events.clear();
    }
}

/// No more events have expired at the front than there are.
proof fn lemma_leading_expired_bound(events: Seq<InputEvent>, now: u32)
    ensures
        leading_expired(events, now) <= events.len(),
    decreases events.len(),
{
    if events.len() > 0 && !is_live(events[0], now) {
        lemma_leading_expired_bound(events.skip(1), now);
    }
}

/// The live events among the first `i + 1` are those among the first `i`,
/// followed by event `i` if it is live.
proof fn lemma_live_events_step(events: Seq<InputEvent>, i: int, now: u32)
    requires
        0 <= i < events.len(),
    ensures
        live_events(events.take(i + 1), now) == if is_live(events[i], now) {
            live_events(events.take(i), now).push(events[i])
        } else {
            live_events(events.take(i), now)
        },
{
    reveal(Seq::filter);
    assert(events.take(i + 1).drop_last() == events.take(i));
}

/// Whatever else a buffer holds, when its three newest events are live they
/// alone decide the combo: light, heavy, special is a super; three lights are
/// a three-hit; anything else is nothing.
pub proof fn lemma_recent_triple_decides(events: Seq<InputEvent>, now: u32)
    requires
        events.len() >= 3,
        is_live(events[events.len() - 3], now),
        is_live(events[events.len() - 2], now),
        is_live(events[events.len() - 1], now),
    ensures
        detected_combo(events, now) == combo_pattern(
            events[events.len() - 3].action,
            events[events.len() - 2].action,
            events[events.len() - 1].action,
        ),
{
    let n = events.len() as int;
    lemma_live_events_step(events, n - 1, now);
    lemma_live_events_step(events, n - 2, now);
    lemma_live_events_step(events, n - 3, now);
    assert(events.take(n) == events);
}

/// Only the twelve lowest bits of a packed word count: whatever the higher
/// bits are, the input is the same.
pub proof fn lemma_packed_ignores_high_bits(bits: u32)
    ensures
        InputState::spec_from_packed(bits & 0xfff) == InputState::spec_from_packed(bits),
{
    assert((bits & 0xfff) & 0x001 == bits & 0x001 && (bits & 0xfff) & 0x002 == bits & 0x002 && (
    bits & 0xfff) & 0x004 == bits & 0x004 && (bits & 0xfff) & 0x008 == bits & 0x008 && (bits
        & 0xfff) & 0x010 == bits & 0x010 && (bits & 0xfff) & 0x020 == bits & 0x020 && (bits
        & 0xfff) & 0x040 == bits & 0x040 && (bits & 0xfff) & 0x080 == bits & 0x080 && (bits
        & 0xfff) & 0x100 == bits & 0x100 && (bits & 0xfff) & 0x200 == bits & 0x200 && (bits
        & 0xfff) & 0x400 == bits & 0x400 && (bits & 0xfff) & 0x800 == bits & 0x800)
        by (bit_vector);
}

/// Three presses in a row that are all still live make the combo of their
/// pattern, whatever the buffer held before and whether or not it was full:
/// light, heavy, special a super, three lights a three-hit, anything else
/// nothing.
pub proof fn lemma_three_presses_decide(
    events: Seq<InputEvent>,
    a: InputEvent,
    b: InputEvent,
    c: InputEvent,
    now: u32,
)
    requires
        is_live(a, now),
        is_live(b, now),
        is_live(c, now),
    ensures
        detected_combo(pushed(pushed(pushed(events, a), b), c), now) == combo_pattern(
            a.action,
            b.action,
            c.action,
        ),
{
    lemma_recent_triple_decides(pushed(pushed(pushed(events, a), b), c), now);
}

/// When every buffered input has expired, no combo is reported.
pub proof fn lemma_all_expired_no_combo(events: Seq<InputEvent>, now: u32)
    requires
        forall|i: int| 0 <= i < events.len() ==> !is_live(#[trigger] events[i], now),
    ensures
        live_events(events, now).len() == 0,
        detected_combo(events, now).is_none(),
    decreases events.len(),
{
    reveal(Seq::filter);
    if events.len() > 0 {
        lemma_all_expired_no_combo(events.drop_last(), now);
    }
}

/// Expired inputs never make a combo: with fewer than three live events no
/// combo is reported, whatever the expired ones were.
pub proof fn lemma_expired_inputs_make_no_combo(events: Seq<InputEvent>, now: u32)
    requires
        live_events(events, now).len() < 3,
    ensures
        detected_combo(events, now).is_none(),
{
}

/// A combo is reported only if at least three buffered events are at most
/// `INPUT_EXPIRY_FRAMES` old.
pub proof fn lemma_combo_needs_three_live(events: Seq<InputEvent>, now: u32)
    requires
        detected_combo(events, now).is_some(),
    ensures
        live_events(events, now).len() >= 3,
        forall|k: int|
            0 <= k < live_events(events, now).len() ==> is_live(
                #[trigger] live_events(events, now)[k],
                now,
            ),
{
    assert forall|k: int| 0 <= k < live_events(events, now).len() implies is_live(
        #[trigger] live_events(events, now)[k],
        now,
    ) by {
        events.lemma_filter_pred(live_at(now), k);
    }
}

} // verus!
