use vstd::prelude::*;

use crate::Milliseconds;

verus! {

/// Number of lights in the ring.
pub const RING_SIZE: usize = 8;

/// How long a slowly blinking light stays on.
pub const LONG_ON: Milliseconds = 1250;
/// How long a slowly blinking light stays off.
pub const LONG_OFF: Milliseconds = 750;
/// How long a quickly blinking light stays on.
pub const SHORT_ON: Milliseconds = 625;
/// How long a quickly blinking light stays off.
pub const SHORT_OFF: Milliseconds = 375;
/// Half the period at which the whole ring flashes.
pub const BLINK: Milliseconds = 600;

/// How the display should blink in a frame.
#[derive(Clone, Copy, PartialEq, Eq, Debug, Structural)]
pub enum BlinkKind {
    /// Blink the light after the solid ones quickly.
    Fast,
    /// Blink the light after the solid ones slowly.
    Slow,
    /// Don't blink.
    NoBlink,
    /// Flash the whole ring.
    All,
}

impl BlinkKind {
    /// The light that blinks in this mode when `n` lights are solid.
    pub open spec fn spec_to_some(self, n: usize) -> Option<usize> {
        match self {
            BlinkKind::Fast | BlinkKind::Slow => Some(n),
            BlinkKind::NoBlink | BlinkKind::All => None,
        }
    }

    /// The index of the single blinking light, if this mode has one, when
    /// `n` lights are solid.
    pub fn to_some(self, n: usize) -> (r: Option<usize>)
        ensures
            r == self.spec_to_some(n),
    {
        match self {
            BlinkKind::Fast | BlinkKind::Slow => Some(n),
            BlinkKind::NoBlink | BlinkKind::All => None,
        }
    }
}

/// A ring where every light is `on`.
pub open spec fn uniform_ring(on: bool) -> Seq<bool> {
    Seq::new(RING_SIZE as nat, |i: int| on)
}

/// A ring where the first `n` lights are on and the others off.
pub open spec fn solid_ring(n: usize) -> Seq<bool> {
    Seq::new(RING_SIZE as nat, |i: int| i < n)
}

/// The abstract state of the single blinking light.
pub struct BlinkyModel {
    pub led_idx: Option<usize>,
    pub is_on: bool,
    pub fast_on: Milliseconds,
    pub fast_off: Milliseconds,
    pub slow_on: Milliseconds,
    pub slow_off: Milliseconds,
    pub next_toggle: Milliseconds,
}

impl BlinkyModel {
    pub open spec fn wf(self) -> bool {
        self.led_idx matches Some(i) ==> i < RING_SIZE
    }

    /// How long a light stays in phase `on` at the given speed.
    pub open spec fn duration(self, is_fast: bool, on: bool) -> Milliseconds {
        if is_fast {
            if on {
                self.fast_on
            } else {
                self.fast_off
            }
        } else {
            if on {
                self.slow_on
            } else {
                self.slow_off
            }
        }
    }

    /// Light `idx` takes the phase opposite to the remembered one, and the
    /// next flip is scheduled one phase after the current deadline.
    pub open spec fn toggled(self, ring: Seq<bool>, idx: usize, is_fast: bool) -> (
        BlinkyModel,
        Seq<bool>,
    ) {
        let on = !self.is_on;
        (
            BlinkyModel {
                is_on: on,
                next_toggle: self.next_toggle.saturating_add(self.duration(is_fast, on)),
                ..self
            },
            ring.update(idx as int, on),
        )
    }

    /// One frame in which light `led_idx` (if any) should blink.
    pub open spec fn next(
        self,
        now: Milliseconds,
        ring: Seq<bool>,
        led_idx: Option<usize>,
        is_fast: bool,
    ) -> (BlinkyModel, Seq<bool>) {
        let (b, r) = match (led_idx, self.led_idx) {
            (None, None) => (self, ring),
            (None, Some(old)) => (BlinkyModel { is_on: false, ..self }, ring.update(old as int, false)),
            (Some(new), None) => BlinkyModel { is_on: true, next_toggle: now, ..self }.toggled(
                ring,
                new,
                is_fast,
            ),
            (Some(new), Some(old)) => if old == new {
                if now >= self.next_toggle {
                    self.toggled(ring, new, is_fast)
                } else {
                    (self, ring)
                }
            } else {
                BlinkyModel { is_on: !self.is_on, next_toggle: now, ..self }.toggled(
                    ring,
                    new,
                    is_fast,
                )
            },
        };
        (BlinkyModel { led_idx: led_idx, ..b }, r)
    }
}

/// The light, if any, that blinks on its own.
struct Blinky {
    /// Which light blinks, if any.
    led_idx: Option<usize>,
    /// Whether that light is currently on.
    is_on: bool,
    fast_on: Milliseconds,
    fast_off: Milliseconds,
    slow_on: Milliseconds,
    slow_off: Milliseconds,
    /// When next to toggle.
    next_toggle: Milliseconds,
}

impl View for Blinky {
    type V = BlinkyModel;

    closed spec fn view(&self) -> BlinkyModel {
        BlinkyModel {
            led_idx: self.led_idx,
            is_on: self.is_on,
            fast_on: self.fast_on,
            fast_off: self.fast_off,
            slow_on: self.slow_on,
            slow_off: self.slow_off,
            next_toggle: self.next_toggle,
        }
    }
}

/// Switches light `idx` off when `off` holds and on otherwise; returns
/// whether it is on.
fn set_led(leds: &mut Vec<bool>, idx: usize, off: bool) -> (r: bool)
    requires
        idx < old(leds)@.len(),
    ensures
        r == !off,
        final(leds)@ == old(leds)@.update(idx as int, !off),
{
    leds[idx] = !off;
    !off
}

impl Blinky {
    /// Creates a blinker with the given phase lengths; when `idx` names a
    /// light, that light is switched off and becomes the blinking one.
    fn new(
        idx: Option<usize>,
        leds: &mut Vec<bool>,
        fast_on: Milliseconds,
        fast_off: Milliseconds,
        slow_on: Milliseconds,
        slow_off: Milliseconds,
    ) -> (r: Blinky)
        requires
            idx matches Some(i) ==> i < old(leds)@.len(),
        ensures
            final(leds)@ == match idx {
                Some(i) => old(leds)@.update(i as int, false),
                None => old(leds)@,
            },
            r@ == (BlinkyModel {
                led_idx: idx,
                is_on: false,
                fast_on,
                fast_off,
                slow_on,
                slow_off,
                next_toggle: 0,
            }),
    {
        let led_idx = match idx {
            Some(i) => {
                leds[i] = false;
                Some(i)
            },
            None => None,
        };
        Blinky { led_idx, is_on: false, fast_on, fast_off, slow_on, slow_off, next_toggle: 0 }
    }

    /// Forgets the blinking light.
    fn reset(&mut self)
        ensures
            final(self)@ == (BlinkyModel { led_idx: None, is_on: false, ..old(self)@ }),
    {
        self.led_idx = None;
        self.is_on = false;
    }

    /// Blinks light `led_idx`, or stops blinking when it is `None`.
    fn update_seq(
        &mut self,
        now: Milliseconds,
        leds: &mut Vec<bool>,
        led_idx: Option<usize>,
        is_fast: bool,
    )
        requires
            old(self)@.wf(),
            old(leds)@.len() == RING_SIZE,
            led_idx matches Some(i) ==> i < RING_SIZE,
        ensures
            (final(self)@, final(leds)@) == old(self)@.next(now, old(leds)@, led_idx, is_fast),
            final(self)@.wf(),
    {
        match (led_idx, self.led_idx) {
            (None, None) => {},
            (None, Some(old)) => {
                self.is_on = set_led(leds, old, true);
            },
            (Some(new), None) => {
                self.is_on = true;
                self.next_toggle = now;
                self.toggle(leds, new, is_fast);
            },
            (Some(new), Some(old)) => {
                if old == new {
                    if now >= self.next_toggle {
                        self.toggle(leds, new, is_fast);
                    }
                } else {
                    self.is_on = !self.is_on;
                    self.next_toggle = now;
                    self.toggle(leds, new, is_fast);
                }
            },
        }
        self.led_idx = led_idx;
    }

    /// Flips light `idx` and schedules its next flip.
    fn toggle(&mut self, leds: &mut Vec<bool>, idx: usize, is_fast: bool)
        requires
            idx < old(leds)@.len(),
        ensures
            (final(self)@, final(leds)@) == old(self)@.toggled(old(leds)@, idx, is_fast),
    {
        self.is_on = set_led(leds, idx, self.is_on);
        let d = match (is_fast, self.is_on) {
            (true, true) => self.fast_on,
            (true, false) => self.fast_off,
            (false, false) => self.slow_off,
            (false, true) => self.slow_on,
        };
        self.next_toggle = self.next_toggle.saturating_add(d);
    }
}

/// The abstract state of the ring display.
pub struct DisplayModel {
    /// The state of each light.
    pub ring: Seq<bool>,
    /// When the whole ring next flashes; `None` outside flashing mode.
    pub next_blink: Option<Milliseconds>,
    /// Whether the flashing ring is lit.
    pub blink_on: bool,
    /// The number of solid lights.
    pub num_on: usize,
    pub blinky: BlinkyModel,
}

impl DisplayModel {
    pub open spec fn wf(self) -> bool {
        &&& self.ring.len() == RING_SIZE
        &&& self.num_on <= RING_SIZE
        &&& self.blinky.wf()
        &&& (self.next_blink is Some ==> self.ring == uniform_ring(self.blink_on))
    }

    /// The model of a freshly created display: everything off.
    pub open spec fn initial() -> DisplayModel {
        DisplayModel {
            ring: uniform_ring(false),
            next_blink: None,
            blink_on: false,
            num_on: 0,
            blinky: BlinkyModel {
                led_idx: None,
                is_on: false,
                fast_on: SHORT_ON,
                fast_off: SHORT_OFF,
                slow_on: LONG_ON,
                slow_off: LONG_OFF,
                next_toggle: 0,
            },
        }
    }

    /// Which frames are valid: at most a full ring solid, and a light to
    /// blink after the solid ones when the mode has one.
    pub open spec fn valid_frame(solid: usize, blink: BlinkKind) -> bool {
        &&& solid <= RING_SIZE
        &&& ((blink is Fast || blink is Slow) ==> solid < RING_SIZE)
    }

    /// The whole ring flips, and the next flip is due `BLINK` after `last`.
    pub open spec fn flipped(self, last: Milliseconds) -> DisplayModel {
        let on = !self.blink_on;
        DisplayModel {
            ring: uniform_ring(on),
            blink_on: on,
            next_blink: Some(last.saturating_add(BLINK)),
            ..self
        }
    }

    /// A frame of flashing mode.
    pub open spec fn flash(self, now: Milliseconds) -> DisplayModel {
        match self.next_blink {
            None => self.flipped(now),
            Some(next) => if now < next {
                self
            } else {
                self.flipped(next)
            },
        }
    }

    /// Whether a frame with `solid` lights rewrites the solid lights: the
    /// count changed, or flashing mode is being left.
    pub open spec fn needs_resync(self, solid: usize) -> bool {
        self.num_on != solid || self.next_blink is Some
    }

    /// Every light is rewritten: the first `solid` on, the others off.
    /// Leaving flashing mode also forgets the light that blinked before it.
    pub open spec fn resynced(self, solid: usize) -> DisplayModel {
        DisplayModel {
            ring: solid_ring(solid),
            next_blink: None,
            blink_on: if self.next_blink is Some {
                false
            } else {
                self.blink_on
            },
            num_on: solid,
            blinky: if self.next_blink is Some {
                BlinkyModel { led_idx: None, is_on: false, ..self.blinky }
            } else {
                self.blinky
            },
            ..self
        }
    }

    /// One frame with `solid` solid lights, blinking as `blink` says.
    pub open spec fn next(self, now: Milliseconds, solid: usize, blink: BlinkKind) -> DisplayModel {
        if blink is All {
            self.flash(now)
        } else {
            let s = if self.needs_resync(solid) {
                self.resynced(solid)
            } else {
                self
            };
            let (b, ring) = s.blinky.next(now, s.ring, blink.spec_to_some(solid), blink is Fast);
            DisplayModel { ring, blinky: b, ..s }
        }
    }
}

/// The ring of eight lights used as a display.
pub struct CompassDisplay {
    leds: Vec<bool>,
    next_blink: Option<Milliseconds>,
    blink_on: bool,
    num_on: usize,
    blinky: Blinky,
}

impl View for CompassDisplay {
    type V = DisplayModel;

    closed spec fn view(&self) -> DisplayModel {
        DisplayModel {
            ring: self.leds@,
            next_blink: self.next_blink,
            blink_on: self.blink_on,
            num_on: self.num_on,
            blinky: self.blinky@,
        }
    }
}

impl CompassDisplay {
    /// Creates a display with every light off.
    pub fn new() -> (r: CompassDisplay)
        ensures
            r@ == DisplayModel::initial(),
            r@.wf(),
    {
        let mut leds: Vec<bool> = Vec::new();
        let mut i: usize = 0;
        while i < RING_SIZE
            invariant
                i <= RING_SIZE,
                leds@.len() == i,
                forall|j: int| 0 <= j < i ==> !leds@[j],
            decreases RING_SIZE - i,
        {
            leds.push(false);
            i = i + 1;
        }
        Self::set_all(&mut leds, true);
        let blinky = Blinky::new(None, &mut leds, SHORT_ON, SHORT_OFF, LONG_ON, LONG_OFF);
        CompassDisplay { leds, next_blink: None, blink_on: false, num_on: 0, blinky }
    }

    /// Whether light `idx` is on.
    pub fn led(&self, idx: usize) -> (r: bool)
        requires
            self@.wf(),
            idx < RING_SIZE,
        ensures
            r == self@.ring[idx as int],
    {
        self.leds[idx]
    }

    /// Renders one frame: `solid` lights on, blinking as `blink` says.
    pub fn update(&mut self, now: Milliseconds, solid: usize, blink: BlinkKind)
        requires
            old(self)@.wf(),
            DisplayModel::valid_frame(solid, blink),
        ensures
            final(self)@ == old(self)@.next(now, solid, blink),
            final(self)@.wf(),
            blink is All ==> forall|i: int|
                0 <= i < RING_SIZE ==> final(self)@.ring[i] == final(self)@.blink_on,
            !(blink is All) ==> forall|i: int|
                {
                    &&& 0 <= i < RING_SIZE
                    &&& old(self)@.blinky.led_idx != Some(i as usize)
                    &&& blink.spec_to_some(solid) != Some(i as usize)
                } ==> final(self)@.ring[i] == if old(self)@.needs_resync(solid) {
                    i < solid
                } else {
                    old(self)@.ring[i]
                },
            !(blink is All) && old(self)@.next_blink is Some ==> forall|i: int|
                0 <= i < RING_SIZE && blink.spec_to_some(solid) != Some(i as usize)
                    ==> final(self)@.ring[i] == (i < solid),
    {
        let ghost start = self@;
        if blink == BlinkKind::All {
            self.blink(now);
        } else {
            if self.num_on != solid || self.next_blink.is_some() {
                if self.next_blink.is_some() {
                    self.blink_on = Self::set_all(&mut self.leds, true);
                    self.next_blink = None;
                    self.blinky.reset();
                }
                if self.num_on != solid {
                    self.num_on = solid;
                }
                let mut idx: usize = 0;
                while idx < self.num_on
                    invariant
                        self.num_on == solid,
                        solid <= RING_SIZE,
                        idx <= solid,
                        self.blinky@ == start.resynced(solid).blinky,
                        self.next_blink is None,
                        self.blink_on == start.resynced(solid).blink_on,
                        self.leds@.len() == RING_SIZE,
                        forall|j: int| 0 <= j < idx ==> self.leds@[j],
                    decreases solid - idx,
                {
                    self.leds[idx] = true;
                    idx = idx + 1;
                }
                let mut idx: usize = self.num_on;
                while idx < RING_SIZE
                    invariant
                        self.num_on == solid,
                        solid <= idx <= RING_SIZE,
                        self.blinky@ == start.resynced(solid).blinky,
                        self.next_blink is None,
                        self.blink_on == start.resynced(solid).blink_on,
                        self.leds@.len() == RING_SIZE,
                        forall|j: int| 0 <= j < solid ==> self.leds@[j],
                        forall|j: int| solid <= j < idx ==> !self.leds@[j],
                    decreases RING_SIZE - idx,
                {
                    self.leds[idx] = false;
                    idx = idx + 1;
                }
                assert(self.leds@ =~= solid_ring(solid));
                assert(self@ == start.resynced(solid));
            }
            self.blinky.update_seq(
                now,
                &mut self.leds,
                blink.to_some(solid),
                blink == BlinkKind::Fast,
            );
        }
    }

    /// Switches every light off when `off` holds and on otherwise; returns
    /// whether they are on.
    fn set_all(leds: &mut Vec<bool>, off: bool) -> (r: bool)
        requires
            old(leds)@.len() == RING_SIZE,
        ensures
            r == !off,
            final(leds)@ == uniform_ring(!off),
    {
        let mut i: usize = 0;
        while i < leds.len()
            invariant
                leds@.len() == RING_SIZE,
                i <= RING_SIZE,
                forall|j: int| 0 <= j < i ==> leds@[j] == !off,
            decreases RING_SIZE - i,
        {
            leds[i] = !off;
            i = i + 1;
        }
        assert(leds@ =~= uniform_ring(!off));
        !off
    }

    /// A frame of flashing mode.
    fn blink(&mut self, now: Milliseconds)
        requires
            old(self)@.wf(),
        ensures
            final(self)@ == old(self)@.flash(now),
    {
        match self.next_blink {
            None => self.toggle(now),
            Some(next) => {
                if now >= next {
                    self.toggle(next);
                }
            },
        }
    }

    /// Flips the whole ring and schedules the next flip after `last`.
    fn toggle(&mut self, last: Milliseconds)
        requires
            old(self)@.wf(),
        ensures
            final(self)@ == old(self)@.flipped(last),
    {
        self.blink_on = Self::set_all(&mut self.leds, self.blink_on);
        self.next_blink = Some(last.saturating_add(BLINK));
    }
}

} // verus!
