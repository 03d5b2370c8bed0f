//! One-button pattern decoder: recognises S, L, SS and LSS click patterns.
//!
//! `ButtonFsm::step(now_ms, raw_pressed)` takes the current time in
//! milliseconds and the raw pin level and returns `Some(action)` when a
//! pattern is complete. No timers and no hardware here.
//!
//! After each release the decoder waits `INTERCLICK_GAP_MS`; if no new press
//! comes in that time, the series closes and is decoded, otherwise clicks
//! keep accumulating.
//!
//! - a press shorter than `LONG_PRESS_MS` is a short click `S`
//! - a press of `LONG_PRESS_MS` or more is a long click `L`
//! - debounce: a raw level change is ignored until it has held for
//!   `DEBOUNCE_MS`
//!
//! | sequence | action         |
//! |----------|----------------|
//! | `S`      | Short          |
//! | `L`      | Long           |
//! | `SS`     | DoubleShort    |
//! | `LSS`    | LongShortShort |
//!
//! Any other sequence (`SSS`, `LL`, `LS`, ...) is dropped silently after the
//! gap, which lets the user back out of a pattern.

use vstd::prelude::*;

verus! {

pub const DEBOUNCE_MS: u32 = 15;
pub const LONG_PRESS_MS: u32 = 500;
pub const INTERCLICK_GAP_MS: u32 = 350;
pub const MAX_PATTERN: usize = 4;

#[derive(Debug, Clone, Copy, PartialEq, Eq, Structural)]
pub enum ClickKind {
    Short,
    Long,
}

#[derive(Debug, Clone, Copy, PartialEq, Eq, Structural)]
pub enum ButtonAction {
    Short,
    Long,
    DoubleShort,
    LongShortShort,
}

#[derive(Debug, Clone, Copy, PartialEq, Eq, Structural)]
pub enum State {
    /// Released and no series running: waiting for the first press.
    Idle,
    /// Pressed (after debounce) since `since_ms`.
    Pressed { since_ms: u32 },
    /// Released inside a series. A press before `last_release_ms +
    /// INTERCLICK_GAP_MS` continues it; otherwise the pattern is decoded.
    Released { last_release_ms: u32 },
}

#[verifier::external_type_specification]
#[verifier::external_body]
#[verifier::reject_recursive_types(T)]
pub struct ExHeaplessVec<T, const N: usize>(heapless::Vec<T, N>);

/// The clicks held, in push order, by a bounded `heapless::Vec`.
pub uninterp spec fn held_clicks(v: heapless::Vec<ClickKind, MAX_PATTERN>) -> Seq<ClickKind>;

/// `heapless::Vec::new`: an empty vector.
#[verifier::external_body]
fn clicks_new() -> (v: heapless::Vec<ClickKind, MAX_PATTERN>)
    ensures
        held_clicks(v) == Seq::<ClickKind>::empty(),
{
    heapless::Vec::new()
}

/// `heapless::Vec::push`: appends when fewer than `MAX_PATTERN` items are
/// held and returns `Ok`; otherwise leaves the vector as it was and hands
/// the item back in `Err`.
#[verifier::external_body]
fn clicks_push(v: &mut heapless::Vec<ClickKind, MAX_PATTERN>, kind: ClickKind) -> (r: Result<(), ClickKind>)
    ensures
        held_clicks(*old(v)).len() < MAX_PATTERN ==> r is Ok,
        held_clicks(*old(v)).len() < MAX_PATTERN ==> held_clicks(*final(v)) == held_clicks(*old(v)).push(kind),
        held_clicks(*old(v)).len() >= MAX_PATTERN ==> (r matches Err(k) && k == kind),
        held_clicks(*old(v)).len() >= MAX_PATTERN ==> held_clicks(*final(v)) == held_clicks(*old(v)),
{
    v.push(kind)
}

/// `heapless::Vec::clear`: drops every item.
#[verifier::external_body]
fn clicks_clear(v: &mut heapless::Vec<ClickKind, MAX_PATTERN>)
    ensures
        held_clicks(*final(v)) == Seq::<ClickKind>::empty(),
{
    v.clear()
}

/// `heapless::Vec::as_slice`: the held items, in order.
#[verifier::external_body]
fn clicks_slice(v: &heapless::Vec<ClickKind, MAX_PATTERN>) -> (s: &[ClickKind])
    ensures
        s@ == held_clicks(*v),
{
    v.as_slice()
}

/// Abstract state of the decoder: debounced state, clicks of the running
/// series, last raw level seen, and the time that level was first seen.
pub type ButtonView = (State, Seq<ClickKind>, bool, u32);

/// Milliseconds from `then` to `now` on a 32-bit clock that wraps.
pub open spec fn wrapping_elapsed(now: u32, then: u32) -> int {
    if now >= then {
        now - then
    } else {
        now - then + 0x1_0000_0000
    }
}

/// The action a finished series stands for, if any.
pub open spec fn pattern_action(p: Seq<ClickKind>) -> Option<ButtonAction> {
    if p == seq![ClickKind::Short] {
        Some(ButtonAction::Short)
    } else if p == seq![ClickKind::Long] {
        Some(ButtonAction::Long)
    } else if p == seq![ClickKind::Short, ClickKind::Short] {
        Some(ButtonAction::DoubleShort)
    } else if p == seq![ClickKind::Long, ClickKind::Short, ClickKind::Short] {
        Some(ButtonAction::LongShortShort)
    } else {
        None
    }
}

/// The click a press of the given length makes.
pub open spec fn click_of(press_ms: int) -> ClickKind {
    if press_ms >= LONG_PRESS_MS {
        ClickKind::Long
    } else {
        ClickKind::Short
    }
}

/// One poll of the decoder at `now` with raw level `raw`.
///
/// A raw level different from the last one only restarts the debounce
/// timer. Otherwise, with `stable` the time since the level last changed:
/// - Idle: pressed and stable for `DEBOUNCE_MS` starts a press;
/// - Pressed: released and stable for `DEBOUNCE_MS` ends the press, records
///   its click (dropped when `MAX_PATTERN` clicks are already held) and
///   starts the gap;
/// - Released: pressed and stable starts the next press of the series;
///   released for `INTERCLICK_GAP_MS` since the last release closes the
///   series: the clicks are decoded and cleared and the decoder goes idle.
pub open spec fn button_step(v: ButtonView, now: u32, raw: bool) -> (ButtonView, Option<ButtonAction>) {
    let (state, clicks, last_raw, last_change) = v;
    if raw != last_raw {
        ((state, clicks, raw, now), None)
    } else {
        let stable = wrapping_elapsed(now, last_change);
        match state {
            State::Idle => {
                if raw && stable >= DEBOUNCE_MS {
                    ((State::Pressed { since_ms: now }, clicks, last_raw, last_change), None)
                } else {
                    (v, None)
                }
            },
            State::Pressed { since_ms } => {
                if !raw && stable >= DEBOUNCE_MS {
                    let kind = click_of(wrapping_elapsed(now, since_ms));
                    let kept = if clicks.len() < MAX_PATTERN { clicks.push(kind) } else { clicks };
                    ((State::Released { last_release_ms: now }, kept, last_raw, last_change), None)
                } else {
                    (v, None)
                }
            },
            State::Released { last_release_ms } => {
                if raw && stable >= DEBOUNCE_MS {
                    ((State::Pressed { since_ms: now }, clicks, last_raw, last_change), None)
                } else if !raw && wrapping_elapsed(now, last_release_ms) >= INTERCLICK_GAP_MS {
                    ((State::Idle, Seq::empty(), last_raw, last_change), pattern_action(clicks))
                } else {
                    (v, None)
                }
            },
        }
    }
}

pub struct ButtonFsm {
    state: State,
    pattern: heapless::Vec<ClickKind, MAX_PATTERN>,
    /// Last raw level seen.
    last_raw: bool,
    /// When the raw level last changed: where debouncing counts from.
    last_change_ms: u32,
}

impl View for ButtonFsm {
    type V = ButtonView;

    closed spec fn view(&self) -> ButtonView {
        (self.state, held_clicks(self.pattern), self.last_raw, self.last_change_ms)
    }
}

impl ButtonFsm {
    /// At most `MAX_PATTERN` clicks are held.
    pub open spec fn wf(self) -> bool {
        self@.1.len() <= MAX_PATTERN
    }

    pub fn new() -> (r: Self)
        ensures
            r.wf(),
            r@ == (State::Idle, Seq::<ClickKind>::empty(), false, 0u32),
    {
        Self { state: State::Idle, pattern: clicks_new(), last_raw: false, last_change_ms: 0 }
    }

    /// One poll; call every 5-10 ms.
    pub fn step(&mut self, now_ms: u32, raw_pressed: bool) -> (r: Option<ButtonAction>)
        requires
            old(self).wf(),
        ensures
            final(self).wf(),
            (final(self)@, r) == button_step(old(self)@, now_ms, raw_pressed),
    {
        if raw_pressed != self.last_raw {
            self.last_raw = raw_pressed;
            self.last_change_ms = now_ms;
            return None;
        }
        let stable_ms = now_ms.wrapping_sub(self.last_change_ms);
        match self.state {
            State::Idle => {
                if raw_pressed && stable_ms >= DEBOUNCE_MS {
                    self.state = State::Pressed { since_ms: now_ms };
                }
                None
            },
            State::Pressed { since_ms } => {
                if !raw_pressed && stable_ms >= DEBOUNCE_MS {
                    let press_dur = now_ms.wrapping_sub(since_ms);
                    let kind = if press_dur >= LONG_PRESS_MS {
                        ClickKind::Long
                    } else {
                        ClickKind::Short
                    };
                    // A full buffer already makes the series unrecognised;
                    // the extra click is simply not kept.
                    let _ = clicks_push(&mut self.pattern, kind);
                    self.state = State::Released { last_release_ms: now_ms };
                }
                None
            },
            State::Released { last_release_ms } => {
                if raw_pressed && stable_ms >= DEBOUNCE_MS {
                    self.state = State::Pressed { since_ms: now_ms };
                    None
                } else if !raw_pressed && now_ms.wrapping_sub(last_release_ms) >= INTERCLICK_GAP_MS {
                    let action = decode(clicks_slice(&self.pattern));
                    clicks_clear(&mut self.pattern);
                    self.state = State::Idle;
                    action
                } else {
                    None
                }
            },
        }
    }
}

impl Default for ButtonFsm {
    fn default() -> (r: Self)
        ensures
            r.wf(),
            r@ == (State::Idle, Seq::<ClickKind>::empty(), false, 0u32),
    {
        Self::new()
    }
}

/// Debounce: a poll whose raw level differs from the last one only restarts
/// the debounce timer. It returns nothing and leaves the decoder state and
/// the clicks of the series alone.
pub proof fn lemma_raw_change_is_debounced(v: ButtonView, now: u32, raw: bool)
    requires
        raw != v.2,
    ensures
        button_step(v, now, raw).1 is None,
        button_step(v, now, raw).0 == (v.0, v.1, raw, now),
{
}

/// A press is only recognised once the pressed level has held for
/// `DEBOUNCE_MS`: a shorter bounce leaves an idle decoder idle.
pub proof fn lemma_short_bounce_stays_idle(v: ButtonView, now: u32, raw: bool)
    requires
        v.0 == State::Idle,
        wrapping_elapsed(now, v.3) < DEBOUNCE_MS,
    ensures
        button_step(v, now, raw).0.0 == State::Idle,
        button_step(v, now, raw).1 is None,
{
}

/// An action comes out only when a series closes: the decoder was between
/// clicks, the button has been up for `INTERCLICK_GAP_MS` since the last
/// release, the action is what the clicks spell, and the decoder goes idle
/// with no clicks held. Unrecognised series close the same way, silently.
pub proof fn lemma_action_only_when_series_closes(v: ButtonView, now: u32, raw: bool)
    ensures
        ({
            let (next, action) = button_step(v, now, raw);
            &&& action is Some ==> (v.0 matches State::Released { last_release_ms } && !raw && raw == v.2
                && wrapping_elapsed(now, last_release_ms) >= INTERCLICK_GAP_MS)
            &&& action is Some ==> action == pattern_action(v.1) && next.0 == State::Idle && next.1
                == Seq::<ClickKind>::empty()
        }),
{
}

/// A finished press adds exactly one click to the series (when there is
/// room): long when it lasted `LONG_PRESS_MS` or more, short otherwise.
pub proof fn lemma_release_records_click(v: ButtonView, now: u32)
    requires
        v.0 matches State::Pressed { .. },
        v.2 == false,
        wrapping_elapsed(now, v.3) >= DEBOUNCE_MS,
        v.1.len() < MAX_PATTERN,
    ensures
        ({
            let since = v.0->since_ms;
            &&& button_step(v, now, false).0.1 == v.1.push(click_of(wrapping_elapsed(now, since)))
            &&& button_step(v, now, false).0.0 == State::Released { last_release_ms: now }
        }),
{
}

/// Every press of a series is timed from its own start. From between clicks
/// (released, with the raw level already high and stable for
/// `DEBOUNCE_MS`), a poll at `t1` starts a press at `t1`; the release seen
/// at `t2` and confirmed at `t3` records the click of length `t3 - t1`,
/// exactly as the first press of a series is recorded.
pub proof fn lemma_press_in_series_timed_from_its_start(v: ButtonView, t1: u32, t2: u32, t3: u32)
    requires
        v.0 matches State::Released { .. },
        v.2 == true,
        wrapping_elapsed(t1, v.3) >= DEBOUNCE_MS,
        wrapping_elapsed(t3, t2) >= DEBOUNCE_MS,
        v.1.len() < MAX_PATTERN,
    ensures
        ({
            let v1 = button_step(v, t1, true).0;
            let v2 = button_step(v1, t2, false).0;
            let (v3, action) = button_step(v2, t3, false);
            &&& v1.0 == State::Pressed { since_ms: t1 }
            &&& v3.0 == State::Released { last_release_ms: t3 }
            &&& v3.1 == v.1.push(click_of(wrapping_elapsed(t3, t1)))
            &&& action is None
        }),
{
}

fn decode(p: &[ClickKind]) -> (r: Option<ButtonAction>)
    ensures
        r == pattern_action(p@),
{
    let n = p.len();
    if n == 1 {
        assert(p@ =~= seq![p@[0]]);
        match p[0] {
            ClickKind::Short => Some(ButtonAction::Short),
            ClickKind::Long => Some(ButtonAction::Long),
        }
    } else if n == 2 {
        if p[0] == ClickKind::Short && p[1] == ClickKind::Short {
            assert(p@ =~= seq![ClickKind::Short, ClickKind::Short]);
            Some(ButtonAction::DoubleShort)
        } else {
            assert(p@ != seq![ClickKind::Short, ClickKind::Short] || p@[0] == ClickKind::Short);
            None
        }
    } else if n == 3 {
        if p[0] == ClickKind::Long && p[1] == ClickKind::Short && p[2] == ClickKind::Short {
            assert(p@ =~= seq![ClickKind::Long, ClickKind::Short, ClickKind::Short]);
            Some(ButtonAction::LongShortShort)
        } else {
            assert(p@ != seq![ClickKind::Long, ClickKind::Short, ClickKind::Short] || p@[0]
                == ClickKind::Long);
            None
        }
    } else {
        None
    }
}

} // verus!
