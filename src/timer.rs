use vstd::prelude::*;
use crate::render::{shows_time, Renderer};

verus! {

/// Seconds in a focus session.
pub const FOCUS_SECS: u64 = 1500;

/// Seconds in a rest session.
pub const REST_SECS: u64 = 300;

/// The largest number of seconds whose minutes still fit in two digits.
pub const MAX_SHOWN_SECS: u64 = 5999;

/// The signal that a countdown has reached zero.
#[derive(Debug, PartialEq, Eq, Structural)]
pub struct TimeUp;

/// A countdown of whole seconds.
#[derive(Debug, Clone, Copy)]
pub struct Timer {
    secs: u64,
}

/// What one tick leaves of `d` seconds: one second less, never below zero.
pub open spec fn next_secs(d: nat) -> nat {
    if d > 0 {
        (d - 1) as nat
    } else {
        0
    }
}

/// What `k` ticks leave of `d` seconds.
pub open spec fn secs_after(d: nat, k: nat) -> nat
    decreases k,
{
    if k == 0 {
        d
    } else {
        next_secs(secs_after(d, (k - 1) as nat))
    }
}

/// Whether the `k`-th tick (counted from one) of a countdown started at `d`
/// seconds signals that the time is up.
pub open spec fn expires_at(d: nat, k: nat) -> bool {
    k >= 1 && secs_after(d, k) == 0
}

impl View for Timer {
    type V = nat;

    closed spec fn view(&self) -> nat {
        self.secs as nat
    }
}

impl Default for Timer {
    /// A focus countdown of twenty-five minutes.
    fn default() -> (r: Timer)
        ensures
            r@ == FOCUS_SECS,
    {
        Timer { secs: FOCUS_SECS }
    }
}

impl Timer {
    /// A rest countdown of five minutes.
    pub fn rest() -> (r: Timer)
        ensures
            r@ == REST_SECS,
    {
        Timer { secs: REST_SECS }
    }

    /// A countdown of `secs` seconds.
    pub fn from_secs(secs: u64) -> (r: Timer)
        ensures
            r@ == secs,
    {
        Timer { secs }
    }

    /// The seconds left.
    pub fn remaining_secs(&self) -> (r: u64)
        ensures
            r == self@,
    {
        self.secs
    }

    /// Takes one second off, stopping at zero, and signals `TimeUp` when the
    /// countdown is then at zero.
    pub fn tick(&mut self) -> (r: Result<(), TimeUp>)
        ensures
            final(self)@ == next_secs(old(self)@),
            r is Err <==> final(self)@ == 0,
    {
        self.secs = self.secs.saturating_sub(1);
        if self.secs != 0 {
            Ok(())
        } else {
            Err(TimeUp)
        }
    }

    /// The time left as four digits: tens and ones of the minutes, then tens
    /// and ones of the seconds.
    pub fn format(&self) -> (r: (u8, u8, u8, u8))
        requires
            self@ <= MAX_SHOWN_SECS,
        ensures
            r.0 == self@ / 60 / 10,
            r.1 == self@ / 60 % 10,
            r.2 == self@ % 60 / 10,
            r.3 == self@ % 60 % 10,
            r.0 <= 9 && r.1 <= 9 && r.2 <= 5 && r.3 <= 9,
            600 * r.0 + 60 * r.1 + 10 * r.2 + r.3 == self@,
    {
        let minutes: u64 = self.secs / 60;
        let seconds: u64 = self.secs % 60;
        assert(minutes <= 99);
        ((minutes / 10) as u8, (minutes % 10) as u8, (seconds / 10) as u8, (seconds % 10) as u8)
    }

    /// The time left drawn in glyphs, one line per glyph row.
    pub fn pretty_lines(&self, r: &Renderer) -> (lines: Vec<String>)
        requires
            self@ <= MAX_SHOWN_SECS,
        ensures
            shows_time(lines@.map_values(|l: String| l@), self@),
    {
        let (mt, mo, st, so) = self.format();
        let lines = r.frame(mt, mo, st, so);
        assert(shows_time(lines@.map_values(|l: String| l@), self@));
        lines
    }
}

/// A countdown started at `d` seconds, with `d` at least one, signals that
/// the time is up at its `d`-th tick and at no earlier one; between ticks
/// `k` seconds have gone, and the count never drops below zero.
pub proof fn lemma_expires_after_exactly(d: nat, k: nat)
    requires
        d >= 1,
        k >= 1,
    ensures
        k <= d ==> secs_after(d, k) == d - k,
        k >= d ==> secs_after(d, k) == 0,
        expires_at(d, k) <==> k >= d,
    decreases k,
{
    if k > 1 {
        lemma_expires_after_exactly(d, (k - 1) as nat);
    }
    assert(secs_after(d, 0) == d);
}

} // verus!
