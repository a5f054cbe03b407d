//! The buzzer: a small state machine the alert loop polls.
//!
//! The loop that toggles the pin and sleeps runs at the hardware
//! boundary; it polls [`Buzzer::cycle`] once per period and plays the
//! beep that comes back.

use vstd::prelude::*;

verus! {

/// What the buzzer plays each period while it is started.
#[derive(Clone, Copy, Debug, PartialEq, Eq, Structural)]
pub enum BuzzPattern {
    /// A tone of `frequency` hertz for `duration` milliseconds.
    Beep { frequency: u32, duration: u32 },
    /// Silence.
    Quiet,
}

/// The buzzer state: whether it is playing, what it plays, how many
/// milliseconds one cycle lasts, and whether it stops itself after
/// the next cycle.
#[derive(Clone, Copy, Debug, PartialEq, Eq, Structural)]
pub struct Buzzer {
    pub playing: bool,
    pub pattern: BuzzPattern,
    pub period: u32,
    pub once: bool,
}

impl Buzzer {
    /// A silent buzzer: not playing, quiet pattern, 5-second period.
    pub fn new() -> (b: Buzzer)
        ensures
            b == (Buzzer { playing: false, pattern: BuzzPattern::Quiet, period: 5000, once: false }),
    {
        Buzzer { playing: false, pattern: BuzzPattern::Quiet, period: 5000, once: false }
    }

    /// Sets what the buzzer plays.
    pub fn pattern(&mut self, buzz_pattern: BuzzPattern)
        ensures
            *final(self) == (Buzzer { pattern: buzz_pattern, ..*old(self) }),
    {
        self.pattern = buzz_pattern;
    }

    /// Starts playing every period.
    pub fn start(&mut self)
        ensures
            *final(self) == (Buzzer { playing: true, ..*old(self) }),
    {
        self.playing = true;
    }

    /// Plays one single cycle, then stops by itself.
    pub fn once(&mut self)
        ensures
            *final(self) == (Buzzer { playing: true, once: true, ..*old(self) }),
    {
        self.once = true;
        self.playing = true;
    }

    /// Stops playing.
    pub fn stop(&mut self)
        ensures
            *final(self) == (Buzzer { playing: false, ..*old(self) }),
    {
        self.playing = false;
    }

    /// Sets how many milliseconds one cycle lasts.
    pub fn period(&mut self, period: u32)
        ensures
            *final(self) == (Buzzer { period, ..*old(self) }),
    {
        self.period = period;
    }

    /// One pass of the alert loop: the beep to play this period, if
    /// any, and the one-shot flag consumed.  A started buzzer with a
    /// beep pattern yields the beep; a one-shot buzzer stops itself
    /// whatever its pattern.
    pub fn cycle(&mut self) -> (r: Option<(u32, u32)>)
        ensures
            r == if old(self).playing {
                match old(self).pattern {
                    BuzzPattern::Beep { frequency, duration } => Some((frequency, duration)),
                    BuzzPattern::Quiet => None::<(u32, u32)>,
                }
            } else {
                None::<(u32, u32)>
            },
            *final(self) == if old(self).playing && old(self).once {
                Buzzer { playing: false, once: false, ..*old(self) }
            } else {
                *old(self)
            },
    {
        if self.playing {
            let r = match self.pattern {
                BuzzPattern::Beep { frequency, duration } => Some((frequency, duration)),
                BuzzPattern::Quiet => None,
            };
            if self.once {
                self.playing = false;
                self.once = false;
            }
            r
        } else {
            None
        }
    }
}

} // verus!
