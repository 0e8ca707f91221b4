use vstd::prelude::*;
use crate::render::{shows_time, Renderer};
use crate::timer::{next_secs, Timer, FOCUS_SECS, MAX_SHOWN_SECS, REST_SECS};

verus! {

/// The title of every notification.
pub const TITLE: &'static str = "Tameta";

/// How long a notification stays on screen, in milliseconds.
pub const NOTIFY_TIMEOUT_MS: u32 = 12000;

/// The notification at the end of a focus session.
pub const FOCUS_DONE: &'static str = "Your focus session has finished, please take a break!";

/// The notification at the end of a rest session.
pub const REST_DONE: &'static str = "Your break session has ended, time to get back to studying!";

/// The terminal that a countdown is drawn on.
pub struct Screen;

impl Screen {
    /// The terminal of this process.
    pub fn new() -> (r: Screen) {
        Screen
    }
}

/// The stages of a run: a focus countdown, a rest countdown, the question
/// whether to go on, and the end.
#[derive(Debug, Clone, Copy, PartialEq, Eq, Structural)]
pub enum Phase {
    FocusSession,
    RestSession,
    Prompt,
    Stopped,
}

impl Phase {
    /// The stage that follows this one; `carry_on` is the answer to the
    /// question, and counts only at the prompt.
    pub fn next(self, carry_on: bool) -> (r: Phase)
        ensures
            self == Phase::FocusSession ==> r == Phase::RestSession,
            self == Phase::RestSession ==> r == Phase::Prompt,
            self == Phase::Prompt ==> r == (if carry_on {
                Phase::FocusSession
            } else {
                Phase::Stopped
            }),
            self == Phase::Stopped ==> r == Phase::Stopped,
    {
        match self {
            Phase::FocusSession => Phase::RestSession,
            Phase::RestSession => Phase::Prompt,
            Phase::Prompt => if carry_on {
                Phase::FocusSession
            } else {
                Phase::Stopped
            },
            Phase::Stopped => Phase::Stopped,
        }
    }

    /// The notification that ends this stage's countdown, where it has one.
    pub fn message(&self) -> (r: Option<&'static str>)
        ensures
            *self == Phase::FocusSession ==> r == Some(FOCUS_DONE),
            *self == Phase::RestSession ==> r == Some(REST_DONE),
            *self == Phase::Prompt || *self == Phase::Stopped ==> r is None,
    {
        match self {
            Phase::FocusSession => Some(FOCUS_DONE),
            Phase::RestSession => Some(REST_DONE),
            _ => None,
        }
    }
}

/// Runs the sessions: owns the screen and the glyph table.
pub struct Focus {
    pub screen: Screen,
    pub renderer: Renderer,
}

impl Focus {
    /// Sessions drawn on `s` with the glyphs of `r`.
    pub fn new(s: Screen, r: Renderer) -> (f: Focus)
        ensures
            f.screen == s,
            f.renderer == r,
    {
        Focus { screen: s, renderer: r }
    }

    /// The countdown of a focus session.
    pub fn start_session(&self) -> (t: Timer)
        ensures
            t@ == FOCUS_SECS,
    {
        Timer::default()
    }

    /// The countdown of a rest session.
    pub fn start_rest(&self) -> (t: Timer)
        ensures
            t@ == REST_SECS,
    {
        Timer::rest()
    }

    /// The countdown of the stage `phase`, where it has one.
    pub fn timer_for(&self, phase: Phase) -> (t: Option<Timer>)
        ensures
            phase == Phase::FocusSession ==> (t matches Some(x) && x@ == FOCUS_SECS),
            phase == Phase::RestSession ==> (t matches Some(x) && x@ == REST_SECS),
            phase == Phase::Prompt || phase == Phase::Stopped ==> t is None,
    {
        match phase {
            Phase::FocusSession => Some(self.start_session()),
            Phase::RestSession => Some(self.start_rest()),
            _ => None,
        }
    }

    /// One second of a countdown: ticks `timer`; while time is left, the
    /// lines to draw for it, and `None` once it is up, with nothing drawn.
    pub fn start_timer_step(&self, timer: &mut Timer) -> (r: Option<Vec<String>>)
        requires
            old(timer)@ <= MAX_SHOWN_SECS + 1,
        ensures
            final(timer)@ == next_secs(old(timer)@),
            r is None <==> final(timer)@ == 0,
            r matches Some(lines) ==> shows_time(lines@.map_values(|l: String| l@), final(timer)@),
    {
        match timer.tick() {
            Ok(()) => Some(timer.pretty_lines(&self.renderer)),
            Err(_) => None,
        }
    }
}

/// Whether `s` is the one answer that carries on: a single `Y`.
pub open spec fn is_yes(s: Seq<char>) -> bool {
    s == seq!['Y']
}

/// Whether `c` is white space: the characters of Unicode's `White_Space`
/// property.
pub open spec fn is_white_space(c: char) -> bool {
    let u = c as u32;
    (0x9 <= u <= 0xd) || u == 0x20 || u == 0x85 || u == 0xa0 || u == 0x1680 || (0x2000 <= u
        <= 0x200a) || u == 0x2028 || u == 0x2029 || u == 0x202f || u == 0x205f || u == 0x3000
}

/// `s` without its leading white space.
pub open spec fn trim_start(s: Seq<char>) -> Seq<char>
    decreases s.len(),
{
    if s.len() > 0 && is_white_space(s[0]) {
        trim_start(s.drop_first())
    } else {
        s
    }
}

/// `s` without its trailing white space.
pub open spec fn trim_end(s: Seq<char>) -> Seq<char>
    decreases s.len(),
{
    if s.len() > 0 && is_white_space(s.last()) {
        trim_end(s.drop_last())
    } else {
        s
    }
}

/// `s` without its leading and trailing white space.
pub open spec fn trimmed(s: Seq<char>) -> Seq<char> {
    trim_end(trim_start(s))
}

/// What `str::to_uppercase` makes of a text.
pub uninterp spec fn upper_of(s: Seq<char>) -> Seq<char>;

/// Relies on `str::trim`: the text without its leading and trailing white
/// space, as `char::is_whitespace` tells it (Unicode's `White_Space`).
#[verifier::external_body]
fn trim(s: &str) -> (r: &str)
    ensures
        r@ == trimmed(s@),
{
    s.trim()
}

/// Relies on `str::to_uppercase`: the upper case of the text, which depends
/// on the characters alone.
#[verifier::external_body]
fn to_uppercase(s: &str) -> (r: String)
    ensures
        r@ == upper_of(s@),
{
    s.to_uppercase()
}

/// Whether an answer already trimmed and in upper case carries on.
pub fn is_continue(normalized: &str) -> (r: bool)
    ensures
        r == is_yes(normalized@),
{
    proof {
        reveal_strlit("Y");
    }
    let n = normalized.unicode_len();
    if n != 1 {
        return false;
    }
    let c = normalized.get_char(0);
    let r = c == 'Y';
    assert(r ==> normalized@ =~= seq!['Y']);
    r
}

/// Whether the line `answer` carries on to another session: only where,
/// trimmed and in upper case, it is exactly `Y`.
pub fn should_continue(answer: &str) -> (r: bool)
    ensures
        r == is_yes(upper_of(trimmed(answer@))),
{
    let t = trim(answer);
    let u = to_uppercase(t);
    is_continue(u.as_str())
}

} // verus!
