use vstd::prelude::*;

use crate::button::{Button, ButtonEvent, ButtonModel, PushButton};
use crate::display::{uniform_ring, RING_SIZE};
use crate::Milliseconds;

verus! {

/// The light after `idx` around the ring.
pub open spec fn next_index(idx: usize) -> usize {
    if idx < RING_SIZE - 1 {
        (idx + 1) as usize
    } else {
        0
    }
}

/// The ring after step `index` of the press-stepper: steps 0 to 7 switch
/// lights on in order, steps 8 to 15 switch them off in order, and any
/// later step switches the whole ring off.
pub open spec fn stepped_ring(ring: Seq<bool>, index: usize) -> Seq<bool> {
    if index < 8 {
        ring.update(index as int, true)
    } else if index < 16 {
        ring.update(index - 8, false)
    } else {
        uniform_ring(false)
    }
}

/// The step that follows step `index` of the press-stepper.
pub open spec fn next_step(index: usize) -> usize {
    if index < 16 {
        ((index + 1) % 16) as usize
    } else {
        0
    }
}

/// Performs step `index` of the press-stepper and returns the next step.
pub fn update_leds(leds: &mut Vec<bool>, index: usize) -> (r: usize)
    requires
        old(leds)@.len() == RING_SIZE,
    ensures
        final(leds)@ == stepped_ring(old(leds)@, index),
        r == next_step(index),
{
    if index < 8 {
        leds[index] = true;
    } else if index < 16 {
        leds[index - 8] = false;
    } else {
        let mut i: usize = 0;
        while i < RING_SIZE
            invariant
                leds@.len() == RING_SIZE,
                i <= RING_SIZE,
                forall|j: int| 0 <= j < i ==> !leds@[j],
            decreases RING_SIZE - i,
        {
            leds[i] = false;
            i = i + 1;
        }
        assert(leds@ =~= uniform_ring(false));
        return 0;
    }
    (index + 1) % 16
}

/// The abstract state of the snake.
pub struct SnakeModel {
    pub ring: Seq<bool>,
    /// The next light to switch on.
    pub on_idx: usize,
    /// The next light to switch off.
    pub off_idx: usize,
    pub button: ButtonModel,
    /// The time between two steps of the head, and of the tail.
    pub period: Milliseconds,
    /// When the head next moves; while paused, how long after resuming.
    pub next_on: Milliseconds,
    /// When the tail next moves; while paused, how long after resuming.
    pub next_off: Milliseconds,
    pub running: bool,
}

impl SnakeModel {
    pub open spec fn wf(self) -> bool {
        &&& self.ring.len() == RING_SIZE
        &&& self.on_idx < RING_SIZE
        &&& self.off_idx < RING_SIZE
        &&& self.button.wf()
    }

    /// A push pauses or resumes the snake: its deadlines are kept relative
    /// to the time of the pause while it is paused.
    pub open spec fn toggled(self, now: Milliseconds) -> SnakeModel {
        if self.running {
            SnakeModel {
                next_on: self.next_on.wrapping_sub(now),
                next_off: self.next_off.wrapping_sub(now),
                running: false,
                ..self
            }
        } else {
            SnakeModel {
                next_on: self.next_on.wrapping_add(now),
                next_off: self.next_off.wrapping_add(now),
                running: true,
                ..self
            }
        }
    }

    /// The head moves when it is due.
    pub open spec fn head_moved(self, now: Milliseconds) -> SnakeModel {
        if now >= self.next_on {
            SnakeModel {
                ring: self.ring.update(self.on_idx as int, true),
                next_on: self.next_on.wrapping_add(self.period),
                on_idx: next_index(self.on_idx),
                ..self
            }
        } else {
            self
        }
    }

    /// The tail moves when it is due.
    pub open spec fn tail_moved(self, now: Milliseconds) -> SnakeModel {
        if now >= self.next_off {
            SnakeModel {
                ring: self.ring.update(self.off_idx as int, false),
                next_off: self.next_off.wrapping_add(self.period),
                off_idx: next_index(self.off_idx),
                ..self
            }
        } else {
            self
        }
    }

    /// One update at `now`, where `pressed` is what the contact would read.
    pub open spec fn next(self, now: Milliseconds, pressed: bool) -> SnakeModel {
        let moved = if self.running {
            self.head_moved(now).tail_moved(now)
        } else {
            self
        };
        let (button, event) = moved.button.next(now, pressed);
        let s = SnakeModel { button, ..moved };
        if event is Push {
            s.toggled(now)
        } else {
            s
        }
    }
}

/// A group of lit lights that runs around the ring: the head lights one
/// light each period and the tail follows; the button pauses and resumes it.
pub struct LedSnake<B> {
    leds: Vec<bool>,
    on_idx: usize,
    off_idx: usize,
    button: Button<B>,
    period: Milliseconds,
    next_on: Milliseconds,
    next_off: Milliseconds,
    running: bool,
}

impl<B: PushButton> View for LedSnake<B> {
    type V = SnakeModel;

    closed spec fn view(&self) -> SnakeModel {
        SnakeModel {
            ring: self.leds@,
            on_idx: self.on_idx,
            off_idx: self.off_idx,
            button: self.button@,
            period: self.period,
            next_on: self.next_on,
            next_off: self.next_off,
            running: self.running,
        }
    }
}

impl<B: PushButton> LedSnake<B> {
    /// Creates a running snake on a dark ring: the head starts at once, and
    /// the tail starts `max_on - 1` periods plus `offset` later.
    pub fn new(button: Button<B>, period: Milliseconds, offset: Milliseconds, max_on: u8) -> (r:
        LedSnake<B>)
        requires
            button@.wf(),
            1 <= max_on,
            period * (max_on - 1) + offset <= Milliseconds::MAX,
        ensures
            r@.wf(),
            r@ == (SnakeModel {
                ring: uniform_ring(false),
                on_idx: 0,
                off_idx: 0,
                button: button@,
                period,
                next_on: 0,
                next_off: (period * (max_on - 1) + offset) as Milliseconds,
                running: true,
            }),
    {
        let mut leds: Vec<bool> = Vec::new();
        let mut i: usize = 0;
        while i < RING_SIZE
            invariant
                i <= RING_SIZE,
                leds@.len() == i,
                forall|j: int| 0 <= j < i ==> !leds@[j],
            decreases RING_SIZE - i,
        {
            leds.push(false);
            i = i + 1;
        }
        assert(leds@ =~= uniform_ring(false));
        assert(period * (max_on - 1) <= period * (max_on - 1) + offset);
        let lead = period * (max_on - 1) as Milliseconds;
        LedSnake {
            leds,
            on_idx: 0,
            off_idx: 0,
            button,
            period,
            next_on: 0,
            next_off: lead + offset,
            running: true,
        }
    }

    /// Moves the snake to `now`, then samples the button and pauses or
    /// resumes on a push.
    pub fn update(&mut self, now: Milliseconds)
        requires
            old(self)@.wf(),
        ensures
            final(self)@.wf(),
            exists|pressed: bool| final(self)@ == old(self)@.next(now, pressed),
    {
        let ghost start = self@;
        self.advance(now);
        let event = self.button.update(now);
        let ghost p = choose|p: bool| (self.button@, event) == start.button.next(now, p);
        if event == ButtonEvent::Push {
            self.toggle(now);
        }
        assert(self@ == start.next(now, p));
    }

    /// Like `update`, with `pressed` standing for what the contact reads.
    pub fn update_sampled(&mut self, now: Milliseconds, pressed: bool)
        requires
            old(self)@.wf(),
        ensures
            final(self)@.wf(),
            final(self)@ == old(self)@.next(now, pressed),
    {
        self.advance(now);
        let event = self.button.update_sampled(now, pressed);
        if event == ButtonEvent::Push {
            self.toggle(now);
        }
    }

    /// Moves the head and the tail when they are due.
    fn advance(&mut self, now: Milliseconds)
        requires
            old(self)@.wf(),
        ensures
            final(self)@.wf(),
            final(self)@ == if old(self)@.running {
                old(self)@.head_moved(now).tail_moved(now)
            } else {
                old(self)@
            },
    {
        if self.running {
            if now >= self.next_on {
                self.leds[self.on_idx] = true;
                self.next_on = self.next_on.wrapping_add(self.period);
                if self.on_idx < 7 {
                    self.on_idx = self.on_idx + 1;
                } else {
                    self.on_idx = 0;
                }
            }
            if now >= self.next_off {
                self.leds[self.off_idx] = false;
                self.next_off = self.next_off.wrapping_add(self.period);
                if self.off_idx < 7 {
                    self.off_idx = self.off_idx + 1;
                } else {
                    self.off_idx = 0;
                }
            }
        }
    }

    /// Pauses a running snake or resumes a paused one.
    fn toggle(&mut self, now: Milliseconds)
        ensures
            final(self)@ == old(self)@.toggled(now),
    {
        if self.running {
            self.next_on = self.next_on.wrapping_sub(now);
            self.next_off = self.next_off.wrapping_sub(now);
        } else {
            self.next_on = self.next_on.wrapping_add(now);
            self.next_off = self.next_off.wrapping_add(now);
        }
        self.running = !self.running;
    }

    /// Whether light `idx` is on.
    pub fn led(&self, idx: usize) -> (r: bool)
        requires
            self@.wf(),
            idx < RING_SIZE,
        ensures
            r == self@.ring[idx as int],
    {
        self.leds[idx]
    }
}

} // verus!
