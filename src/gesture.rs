//! The gesture state machine over button timing.
use vstd::prelude::*;
use crate::event::{decode_spec, parse_event, Event};

verus! {

/// Longest hold, in milliseconds, that counts as a quick press.
pub const QUICK_PRESS_MAX_MS: u64 = 500;

/// Shortest deliberate hold, in milliseconds.
pub const MIN_HOLD_MS: u64 = 1500;

/// Longest deliberate hold, in milliseconds.
pub const MAX_HOLD_MS: u64 = 6000;

/// Trailing window, in milliseconds, over which quick presses are counted.
pub const TRIPLE_PRESS_WINDOW_MS: u64 = 2000;

/// Number of quick presses within the window that ends display mode.
pub const TRIPLE_PRESS_COUNT: usize = 3;

/// Whether the button is currently held, and since when (milliseconds).
#[derive(Debug, Clone, Copy, PartialEq, Eq, Structural)]
pub enum ButtonState {
    Idle,
    Pressed { since: u64 },
}

/// What a completed press asks the device to do.
#[derive(Debug, Clone, Copy, PartialEq, Eq, Structural)]
pub enum Action {
    ShowQr,
    Exit,
    Ignore,
}

/// Time between two instants, counted as zero if the clock went backwards.
pub open spec fn elapsed(since: u64, now: u64) -> int {
    if now >= since {
        now - since
    } else {
        0
    }
}

/// Whether a quick release at `t` still lies in the trailing window ending at `now`.
pub open spec fn within_window(now: u64) -> spec_fn(u64) -> bool {
    |t: u64| now as int - t as int <= TRIPLE_PRESS_WINDOW_MS as int
}

/// The quick-press history after a quick release at `now`.
pub open spec fn recent_after(history: Seq<u64>, now: u64) -> Seq<u64> {
    history.push(now).filter(within_window(now))
}

/// A hold that ends a triple press when repeated.
pub open spec fn is_quick(d: int) -> bool {
    d <= QUICK_PRESS_MAX_MS as int
}

/// A hold that asks for the QR code.
pub open spec fn is_deliberate(d: int) -> bool {
    MIN_HOLD_MS as int <= d && d <= MAX_HOLD_MS as int
}

/// The button state after a transition at `now`.
pub open spec fn next_state(s: ButtonState, e: Event, now: u64) -> ButtonState {
    match (s, e) {
        (ButtonState::Idle, Event::KeyDown) => ButtonState::Pressed { since: now },
        (ButtonState::Pressed { .. }, Event::KeyUp) => ButtonState::Idle,
        _ => s,
    }
}

/// The quick-press history after a transition at `now`.
pub open spec fn next_history(s: ButtonState, h: Seq<u64>, e: Event, now: u64) -> Seq<u64> {
    match (s, e) {
        (ButtonState::Pressed { since }, Event::KeyUp) => if is_quick(elapsed(since, now)) {
            recent_after(h, now)
        } else {
            Seq::empty()
        },
        _ => h,
    }
}

/// The action emitted by a transition at `now`, if any.
pub open spec fn next_action(s: ButtonState, h: Seq<u64>, e: Event, now: u64) -> Option<Action> {
    match (s, e) {
        (ButtonState::Pressed { since }, Event::KeyUp) => {
            let d = elapsed(since, now);
            if is_quick(d) {
                if recent_after(h, now).len() >= TRIPLE_PRESS_COUNT {
                    Some(Action::Exit)
                } else {
                    Some(Action::Ignore)
                }
            } else if is_deliberate(d) {
                Some(Action::ShowQr)
            } else {
                Some(Action::Ignore)
            }
        },
        _ => None,
    }
}

/// The classifier's state and history after a press at `down` and a release at `up`.
pub open spec fn after_press(s: ButtonState, h: Seq<u64>, down: u64, up: u64) -> (ButtonState, Seq<u64>) {
    let s1 = next_state(s, Event::KeyDown, down);
    let h1 = next_history(s, h, Event::KeyDown, down);
    (next_state(s1, Event::KeyUp, up), next_history(s1, h1, Event::KeyUp, up))
}

/// The actions emitted by a press at `down` and a release at `up`.
pub open spec fn press_actions(s: ButtonState, h: Seq<u64>, down: u64, up: u64) -> (Option<Action>, Option<Action>) {
    let s1 = next_state(s, Event::KeyDown, down);
    let h1 = next_history(s, h, Event::KeyDown, down);
    (next_action(s, h, Event::KeyDown, down), next_action(s1, h1, Event::KeyUp, up))
}

/// A hold of 1.5 s to 6 s from the released state yields exactly one `ShowQr`,
/// on the release, and leaves the button released with no quick presses
/// recorded.
pub proof fn lemma_deliberate_hold_shows_qr(h: Seq<u64>, down: u64, up: u64)
    requires
        down <= up,
        is_deliberate(up - down),
    ensures
        press_actions(ButtonState::Idle, h, down, up) == (None::<Action>, Some(Action::ShowQr)),
        after_press(ButtonState::Idle, h, down, up) == (ButtonState::Idle, Seq::<u64>::empty()),
{
}

/// A hold longer than a quick press that is not a deliberate hold yields
/// `Ignore` and clears the quick-press history.
pub proof fn lemma_other_hold_ignored(h: Seq<u64>, down: u64, up: u64)
    requires
        down <= up,
        !is_quick(up - down),
        !is_deliberate(up - down),
    ensures
        press_actions(ButtonState::Idle, h, down, up) == (None::<Action>, Some(Action::Ignore)),
        after_press(ButtonState::Idle, h, down, up) == (ButtonState::Idle, Seq::<u64>::empty()),
{
}

/// Three quick presses from a fresh history: if the first and third releases
/// lie within the trailing window the third release yields `Exit`, otherwise
/// it yields `Ignore`; the first two releases yield `Ignore`.
pub proof fn lemma_triple_quick_press(d1: u64, u1: u64, d2: u64, u2: u64, d3: u64, u3: u64)
    requires
        d1 <= u1 <= d2 <= u2 <= d3 <= u3,
        is_quick(u1 - d1),
        is_quick(u2 - d2),
        is_quick(u3 - d3),
    ensures
        ({
            let e = Seq::<u64>::empty();
            let (s1, h1) = after_press(ButtonState::Idle, e, d1, u1);
            let (s2, h2) = after_press(s1, h1, d2, u2);
            &&& press_actions(ButtonState::Idle, e, d1, u1) == (None::<Action>, Some(Action::Ignore))
            &&& press_actions(s1, h1, d2, u2) == (None::<Action>, Some(Action::Ignore))
            &&& press_actions(s2, h2, d3, u3).0 == None::<Action>
            &&& (u3 - u1 <= TRIPLE_PRESS_WINDOW_MS ==> press_actions(s2, h2, d3, u3).1 == Some(Action::Exit))
            &&& (u3 - u1 > TRIPLE_PRESS_WINDOW_MS ==> press_actions(s2, h2, d3, u3).1 == Some(Action::Ignore))
        }),
{
    let e = Seq::<u64>::empty();
    let w2 = within_window(u2);
    let w3 = within_window(u3);
    reveal_with_fuel(Seq::filter, 2);
    e.lemma_filter_push(u1, within_window(u1));
    assert(recent_after(e, u1) =~= seq![u1]);
    seq![u1].lemma_filter_push(u2, w2);
    e.lemma_filter_push(u1, w2);
    assert(e.push(u1) =~= seq![u1]);
    let h2 = recent_after(seq![u1], u2);
    assert(h2.len() <= 2);
    if u2 - u1 <= TRIPLE_PRESS_WINDOW_MS {
        assert(h2 =~= seq![u1, u2]);
        seq![u1, u2].lemma_filter_push(u3, w3);
        seq![u1].lemma_filter_push(u2, w3);
        e.lemma_filter_push(u1, w3);
        assert(seq![u1].push(u2) =~= seq![u1, u2]);
    } else {
        assert(h2 =~= seq![u2]);
        seq![u2].lemma_filter_push(u3, w3);
        e.lemma_filter_push(u2, w3);
        assert(e.push(u2) =~= seq![u2]);
    }
}

/// Classifies button transitions into actions.
///
/// `history` holds the release instants of recent quick presses, oldest first.
pub struct GestureClassifier {
    pub state: ButtonState,
    pub history: Vec<u64>,
}

impl GestureClassifier {
    /// A classifier with the button released and no quick presses recorded.
    pub fn new() -> (r: GestureClassifier)
        ensures
            r.state == ButtonState::Idle,
            r.history@ == Seq::<u64>::empty(),
    {
        GestureClassifier { state: ButtonState::Idle, history: Vec::new() }
    }

    /// Feeds one transition observed at `now` (milliseconds on a monotonic
    /// clock); a release of a held button yields an action.
    pub fn handle(&mut self, e: Event, now: u64) -> (r: Option<Action>)
        ensures
            final(self).state == next_state(old(self).state, e, now),
            final(self).history@ == next_history(old(self).state, old(self).history@, e, now),
            r == next_action(old(self).state, old(self).history@, e, now),
    {
        match (self.state, e) {
            (ButtonState::Idle, Event::KeyDown) => {
                self.state = ButtonState::Pressed { since: now };
                None
            },
            (ButtonState::Pressed { since }, Event::KeyUp) => {
                self.state = ButtonState::Idle;
                let d: u64 = if now >= since {
                    now - since
                } else {
                    0
                };
                if d <= QUICK_PRESS_MAX_MS {
                    let kept = prune_history(&self.history, now);
                    self.history = kept;
                    if self.history.len() >= TRIPLE_PRESS_COUNT {
                        Some(Action::Exit)
                    } else {
                        Some(Action::Ignore)
                    }
                } else {
                    self.history = Vec::new();
                    if MIN_HOLD_MS <= d && d <= MAX_HOLD_MS {
                        Some(Action::ShowQr)
                    } else {
                        Some(Action::Ignore)
                    }
                }
            },
            _ => None,
        }
    }
}

impl GestureClassifier {
    /// Feeds one raw input-event record read at `now`: a record that decodes
    /// to a transition is handled as `handle` does; any other record leaves
    /// the classifier unchanged and yields nothing.
    pub fn handle_record(&mut self, record: &[u8], now: u64) -> (r: Option<Action>)
        ensures
            match decode_spec(record@) {
                Some(e) => {
                    &&& final(self).state == next_state(old(self).state, e, now)
                    &&& final(self).history@ == next_history(old(self).state, old(self).history@, e, now)
                    &&& r == next_action(old(self).state, old(self).history@, e, now)
                },
                None => {
                    &&& final(self).state == old(self).state
                    &&& final(self).history@ == old(self).history@
                    &&& r is None
                },
            },
    {
        match parse_event(record) {
            Some(e) => self.handle(e, now),
            None => None,
        }
    }
}

/// Appends a quick release at `now` and keeps only the entries in the window.
fn prune_history(history: &Vec<u64>, now: u64) -> (r: Vec<u64>)
    ensures
        r@ == recent_after(history@, now),
{
    let mut kept: Vec<u64> = Vec::new();
    let mut i: usize = 0;
    while i < history.len()
        invariant
            i <= history.len(),
            kept@ == history@.subrange(0, i as int).filter(within_window(now)),
        decreases history.len() - i,
    {
        let t = history[i];
        proof {
            assert(history@.subrange(0, i + 1) =~= history@.subrange(0, i as int).push(t));
            history@.subrange(0, i as int).lemma_filter_push(t, within_window(now));
        }
        if t >= now || now - t <= TRIPLE_PRESS_WINDOW_MS {
            kept.push(t);
        }
        i = i + 1;
    }
    proof {
        assert(history@.subrange(0, history.len() as int) =~= history@);
        history@.lemma_filter_push(now, within_window(now));
    }
    kept.push(now);
    kept
}

} // verus!
