use vstd::prelude::*;

use crate::Milliseconds;

verus! {

/// Longest gap between two presses that still counts them as one group.
pub const PRESS_BREAK: Milliseconds = 250;

/// Time after the contact opens until a hold is over.
pub const HOLD_BREAK: Milliseconds = 100;

/// Time the contact stays closed before a press counts as a hold.
pub const HOLD_DELAY: Milliseconds = 750;

/// Time to wait after a state change before the contact is sampled again.
pub const DEBOUNCE_DELAY: Milliseconds = 50;

/// A contact that can be sampled: `true` while it is actuated.
///
/// The polarity of the physical pin is resolved by the implementation.
pub trait PushButton {
    fn is_pressed(&self) -> bool;
}

/// What one update of a button observed.
#[derive(Clone, Copy, PartialEq, Eq, Debug, Structural)]
pub enum ButtonEvent {
    /// The button went down in this update.
    Push,
    /// The button is held.
    Pressed,
    /// The button went up in this update.
    Release,
    /// The button is not pushed.
    NotPressed,
}

impl ButtonEvent {
    pub open spec fn spec_is_pressed(self) -> bool {
        self is Push || self is Pressed
    }

    pub open spec fn spec_is_change(self) -> bool {
        self is Push || self is Release
    }

    /// The event that reports an unchanged level.
    pub open spec fn level(pressed: bool) -> ButtonEvent {
        if pressed {
            ButtonEvent::Pressed
        } else {
            ButtonEvent::NotPressed
        }
    }

    /// The event that reports a change to a level.
    pub open spec fn edge(pressed: bool) -> ButtonEvent {
        if pressed {
            ButtonEvent::Push
        } else {
            ButtonEvent::Release
        }
    }

    /// `true` if the event corresponds to the button being pressed.
    pub fn is_pressed(&self) -> (r: bool)
        ensures
            r == self.spec_is_pressed(),
    {
        match self {
            ButtonEvent::Push | ButtonEvent::Pressed => true,
            ButtonEvent::Release | ButtonEvent::NotPressed => false,
        }
    }

    /// `true` if the event corresponds to a change of state.
    pub fn is_change(&self) -> (r: bool)
        ensures
            r == self.spec_is_change(),
    {
        match self {
            ButtonEvent::Push | ButtonEvent::Release => true,
            ButtonEvent::Pressed | ButtonEvent::NotPressed => false,
        }
    }
}

/// The abstract state of a debounced button.
pub struct ButtonModel {
    /// The last debounced level, as a level event.
    pub last: ButtonEvent,
    /// The quiet window after a change; `None` when debouncing is disabled.
    pub delay: Option<Milliseconds>,
    /// The end of the current quiet window, if one was opened.
    pub until: Option<Milliseconds>,
}

impl ButtonModel {
    pub open spec fn wf(self) -> bool {
        &&& (self.last is Pressed || self.last is NotPressed)
        &&& (self.delay matches Some(d) ==> d > 0)
    }

    /// The model of a freshly created button with the given window.
    pub open spec fn initial(debounce: Milliseconds) -> ButtonModel {
        ButtonModel {
            last: ButtonEvent::NotPressed,
            delay: if debounce == 0 { None } else { Some(debounce) },
            until: None,
        }
    }

    /// Whether samples are ignored at `now`.
    pub open spec fn debouncing(self, now: Milliseconds) -> bool {
        self.until matches Some(t) && now < t
    }

    /// The end of a quiet window opened at `now` (saturating at the largest time).
    pub open spec fn deadline(self, now: Milliseconds) -> Option<Milliseconds> {
        match self.delay {
            None => None,
            Some(d) => Some(now.saturating_add(d)),
        }
    }

    /// One update at `now`, where `pressed` is what the contact would read.
    ///
    /// Inside a quiet window the sample is not taken and the last level is
    /// repeated. Otherwise the window is closed; an unchanged sample reports
    /// the level, a changed one reports the edge and opens a new window.
    pub open spec fn next(self, now: Milliseconds, pressed: bool) -> (ButtonModel, ButtonEvent) {
        if self.debouncing(now) {
            (self, self.last)
        } else if pressed == self.last.spec_is_pressed() {
            (ButtonModel { until: None, ..self }, ButtonEvent::level(pressed))
        } else {
            (
                ButtonModel {
                    last: ButtonEvent::level(pressed),
                    delay: self.delay,
                    until: self.deadline(now),
                },
                ButtonEvent::edge(pressed),
            )
        }
    }
}

/// A button debounced inside a clocked loop.
pub struct Button<BTN> {
    last_state: ButtonEvent,
    debounce_delay: Option<Milliseconds>,
    debouncing_till: Option<Milliseconds>,
    button: BTN,
}

impl<BTN: PushButton> View for Button<BTN> {
    type V = ButtonModel;

    closed spec fn view(&self) -> ButtonModel {
        ButtonModel {
            last: self.last_state,
            delay: self.debounce_delay,
            until: self.debouncing_till,
        }
    }
}

impl<BTN: PushButton> Button<BTN> {
    /// Creates a button that ignores its contact for `debounce` ms after
    /// every change; 0 disables debouncing.
    pub fn new(button: BTN, debounce: Milliseconds) -> (r: Button<BTN>)
        ensures
            r@ == ButtonModel::initial(debounce),
            r@.wf(),
    {
        Button {
            last_state: ButtonEvent::NotPressed,
            debounce_delay: if debounce == 0 {
                None
            } else {
                Some(debounce)
            },
            debouncing_till: None,
            button,
        }
    }

    /// Samples the contact unless a quiet window is open, and reports what
    /// was observed.
    pub fn update(&mut self, now: Milliseconds) -> (r: ButtonEvent)
        requires
            old(self)@.wf(),
        ensures
            final(self)@.wf(),
            exists|pressed: bool| (final(self)@, r) == old(self)@.next(now, pressed),
            old(self)@.debouncing(now) ==> final(self)@ == old(self)@ && r == old(self)@.last,
    {
        let ghost start = self@;
        if self.debounce(now) {
            assert((self@, self.last_state) == start.next(now, true));
            return self.last_state;
        }
        let pressed = self.button.is_pressed();
        let r = self.record(now, pressed);
        assert((self@, r) == start.next(now, pressed));
        r
    }

    /// Like `update`, with `pressed` standing for what the contact reads.
    pub fn update_sampled(&mut self, now: Milliseconds, pressed: bool) -> (r: ButtonEvent)
        requires
            old(self)@.wf(),
        ensures
            final(self)@.wf(),
            (final(self)@, r) == old(self)@.next(now, pressed),
    {
        if self.debounce(now) {
            return self.last_state;
        }
        self.record(now, pressed)
    }

    /// Compares a sample with the last level, outside any quiet window.
    fn record(&mut self, now: Milliseconds, pressed: bool) -> (r: ButtonEvent)
        requires
            old(self)@.wf(),
            old(self)@.until is None,
        ensures
            (final(self)@, r) == old(self)@.next(now, pressed),
    {
        match (self.last_state.is_pressed(), pressed) {
            (true, true) => ButtonEvent::Pressed,
            (false, false) => ButtonEvent::NotPressed,
            (false, true) => {
                self.set_debounce(now);
                self.last_state = ButtonEvent::Pressed;
                ButtonEvent::Push
            },
            (true, false) => {
                self.set_debounce(now);
                self.last_state = ButtonEvent::NotPressed;
                ButtonEvent::Release
            },
        }
    }

    /// Opens a quiet window at `now`.
    fn set_debounce(&mut self, now: Milliseconds)
        ensures
            final(self)@ == (ButtonModel { until: old(self)@.deadline(now), ..old(self)@ }),
    {
        self.debouncing_till = match self.debounce_delay {
            None => None,
            Some(d) => Some(now.saturating_add(d)),
        };
    }

    /// Closes a quiet window that has ended.
    ///
    /// Returns `true` while the window is still open at `now`.
    fn debounce(&mut self, now: Milliseconds) -> (r: bool)
        ensures
            r == old(self)@.debouncing(now),
            r ==> final(self)@ == old(self)@,
            !r ==> final(self)@ == (ButtonModel { until: None, ..old(self)@ }),
    {
        match self.debouncing_till {
            None => false,
            Some(s) if now < s => true,
            Some(_) => {
                self.debouncing_till = None;
                false
            },
        }
    }
}

/// What one update of a multi-press button observed.
#[derive(Clone, Copy, PartialEq, Eq, Debug, Structural)]
pub enum MultiButtonEvent {
    /// A group of presses ended; the number is how many (double, triple, ...).
    Press(u8),
    /// The button is held; the number is how many presses came before.
    Hold(u8),
    /// A hold was released.
    Release,
}

/// The abstract state of a multi-press button.
pub struct FancyModel {
    /// Whether the contact was closed at the last sample.
    pub last_state: bool,
    /// When the contact last changed.
    pub last_change_time: Milliseconds,
    /// The end of the quiet window after a release, if one was opened.
    pub until: Option<Milliseconds>,
    /// Presses counted in the current group, less one.
    pub prev_presses: u8,
    /// Whether the current press has become a hold.
    pub holding: bool,
}

impl FancyModel {
    /// The model of a freshly created button.
    pub open spec fn initial() -> FancyModel {
        FancyModel {
            last_state: false,
            last_change_time: 0,
            until: None,
            prev_presses: 0,
            holding: false,
        }
    }

    /// One update at `now`, where `pressed` is what the contact would read.
    ///
    /// Inside the quiet window after a release nothing is reported. A closed
    /// contact reports a hold once it has stayed closed `HOLD_DELAY`; a press
    /// that follows the last change within `PRESS_BREAK` joins the group. An
    /// open contact ends a hold after `HOLD_BREAK` and reports the group of
    /// presses once `PRESS_BREAK` has passed.
    pub open spec fn next(self, now: Milliseconds, pressed: bool) -> (FancyModel, Option<MultiButtonEvent>) {
        if self.until matches Some(t) && now < t {
            (self, None)
        } else {
            let s = FancyModel { until: None, ..self };
            let duration = now.wrapping_sub(s.last_change_time);
            if pressed {
                if s.last_state {
                    if duration >= HOLD_DELAY {
                        (FancyModel { holding: true, ..s }, Some(MultiButtonEvent::Hold(s.prev_presses)))
                    } else {
                        (s, None)
                    }
                } else {
                    let prev_presses = if duration < PRESS_BREAK {
                        s.prev_presses.saturating_add(1)
                    } else {
                        s.prev_presses
                    };
                    (FancyModel { last_state: true, last_change_time: now, prev_presses, ..s }, None)
                }
            } else if s.last_state {
                (
                    FancyModel {
                        last_state: false,
                        last_change_time: now,
                        until: Some(now.saturating_add(DEBOUNCE_DELAY)),
                        ..s
                    },
                    None,
                )
            } else if s.holding {
                if duration >= HOLD_BREAK {
                    (FancyModel { holding: false, prev_presses: 0, ..s }, None)
                } else {
                    (s, Some(MultiButtonEvent::Hold(s.prev_presses)))
                }
            } else if duration >= PRESS_BREAK {
                (
                    FancyModel { prev_presses: 0, ..s },
                    Some(MultiButtonEvent::Press(s.prev_presses.saturating_add(1))),
                )
            } else {
                (s, None)
            }
        }
    }
}

/// A button that tells single presses from double presses and holds.
pub struct FancyButton<BTN> {
    last_state: bool,
    last_change_time: Milliseconds,
    debouncing_till: Option<Milliseconds>,
    prev_presses: u8,
    holding: bool,
    button: BTN,
}

impl<BTN: PushButton> View for FancyButton<BTN> {
    type V = FancyModel;

    closed spec fn view(&self) -> FancyModel {
        FancyModel {
            last_state: self.last_state,
            last_change_time: self.last_change_time,
            until: self.debouncing_till,
            prev_presses: self.prev_presses,
            holding: self.holding,
        }
    }
}

impl<BTN: PushButton> FancyButton<BTN> {
    /// Creates a released button with no presses counted.
    pub fn new(button: BTN) -> (r: FancyButton<BTN>)
        ensures
            r@ == FancyModel::initial(),
    {
        FancyButton {
            last_state: false,
            last_change_time: 0,
            debouncing_till: None,
            prev_presses: 0,
            holding: false,
            button,
        }
    }

    /// Samples the contact unless a quiet window is open, and reports what
    /// was observed.
    pub fn update(&mut self, now: Milliseconds) -> (r: Option<MultiButtonEvent>)
        ensures
            exists|pressed: bool| (final(self)@, r) == old(self)@.next(now, pressed),
    {
        let ghost start = self@;
        if let Some(s) = self.debouncing_till {
            if now < s {
                assert((self@, None::<MultiButtonEvent>) == start.next(now, true));
                return None;
            } else {
                self.debouncing_till = None;
            }
        }
        let pressed = self.button.is_pressed();
        let r = self.record(now, pressed);
        assert((self@, r) == start.next(now, pressed));
        r
    }

    /// Like `update`, with `pressed` standing for what the contact reads.
    pub fn update_sampled(&mut self, now: Milliseconds, pressed: bool) -> (r: Option<MultiButtonEvent>)
        ensures
            (final(self)@, r) == old(self)@.next(now, pressed),
    {
        if let Some(s) = self.debouncing_till {
            if now < s {
                return None;
            } else {
                self.debouncing_till = None;
            }
        }
        self.record(now, pressed)
    }

    /// Takes a sample outside any quiet window.
    fn record(&mut self, now: Milliseconds, pressed: bool) -> (r: Option<MultiButtonEvent>)
        requires
            old(self)@.until is None,
        ensures
            (final(self)@, r) == old(self)@.next(now, pressed),
    {
        let duration = now.wrapping_sub(self.last_change_time);
        if pressed {
            if self.last_state {
                if duration >= HOLD_DELAY {
                    self.holding = true;
                    Some(MultiButtonEvent::Hold(self.prev_presses))
                } else {
                    None
                }
            } else {
                if duration < PRESS_BREAK {
                    self.prev_presses = self.prev_presses.saturating_add(1);
                }
                self.last_state = true;
                self.last_change_time = now;
                None
            }
        } else {
            if self.last_state {
                self.last_state = false;
                self.last_change_time = now;
                self.debouncing_till = Some(now.saturating_add(DEBOUNCE_DELAY));
                None
            } else {
                if self.holding {
                    if duration >= HOLD_BREAK {
                        self.holding = false;
                        self.prev_presses = 0;
                        None
                    } else {
                        Some(MultiButtonEvent::Hold(self.prev_presses))
                    }
                } else {
                    if duration >= PRESS_BREAK {
                        let presses = self.prev_presses.saturating_add(1);
                        self.prev_presses = 0;
                        Some(MultiButtonEvent::Press(presses))
                    } else {
                        None
                    }
                }
            }
        }
    }
}

/// At most one edge per quiet window: when the contact changes at `t1`
/// outside a quiet window, that update reports the edge, and a second change
/// at any `t2` less than the window `d` later is not reported as an edge.
///
/// A window of 0 disables debouncing, and then no two times are less than
/// `d` apart. The one exception is the largest time, where a window that
/// would end past it is cut short.
pub proof fn lemma_one_edge_per_window(
    b: ButtonModel,
    d: Milliseconds,
    t1: Milliseconds,
    first_pressed: bool,
    t2: Milliseconds,
    second_pressed: bool,
)
    requires
        b.wf(),
        b.delay == ButtonModel::initial(d).delay,
        !b.debouncing(t1),
        first_pressed != b.last.spec_is_pressed(),
        t1 <= t2,
        t2 < t1 + d,
        t1 + d <= Milliseconds::MAX || t2 < Milliseconds::MAX,
    ensures
        b.next(t1, first_pressed).1.spec_is_change(),
        !b.next(t1, first_pressed).0.next(t2, second_pressed).1.spec_is_change(),
{
    let after = b.next(t1, first_pressed).0;
    assert(after.until == Some(t1.saturating_add(d)));
    assert(after.debouncing(t2));
}

} // verus!
