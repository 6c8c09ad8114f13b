//! The document clock: the time span and pace at which a scene plays.
use vstd::prelude::*;
use crate::bundle::ONE_BITS;
use crate::time::{Time, TimeInterval};
use crate::token::{emit, field, serialize_field, toks, Number, Serialize, Tok, Token};

verus! {

/// What the clock does when it reaches the end of its interval.
#[derive(Clone, Copy, Debug, PartialEq, Eq)]
pub enum ClockRange {
    Unbounded,
    Clamped,
    LoopStop,
}

impl ClockRange {
    /// The literal this member is written as.
    pub open spec fn text(&self) -> Seq<char> {
        match self {
            ClockRange::Unbounded => "UNBOUNDED"@,
            ClockRange::Clamped => "CLAMPED"@,
            ClockRange::LoopStop => "LOOP_STOP"@,
        }
    }

    pub fn as_str(&self) -> (r: &'static str)
        ensures
            r@ == self.text(),
    {
        match self {
            ClockRange::Unbounded => "UNBOUNDED",
            ClockRange::Clamped => "CLAMPED",
            ClockRange::LoopStop => "LOOP_STOP",
        }
    }
}

/// A member is written as its literal, a plain string.
impl Serialize for ClockRange {
    open spec fn tokens(&self) -> Seq<Tok> {
        seq![Tok::Str(self.text())]
    }

    fn serialize(&self, out: &mut Vec<Token>) {
        emit(out, Token::Str(self.as_str().to_string()));
    }
}

/// Each member of `ClockRange` is written as its own literal, so two
/// members are written alike only when they are the same member.
pub proof fn lemma_clock_range_literals(a: ClockRange, b: ClockRange)
    ensures
        ClockRange::Unbounded.tokens() == seq![Tok::Str("UNBOUNDED"@)],
        ClockRange::Clamped.tokens() == seq![Tok::Str("CLAMPED"@)],
        ClockRange::LoopStop.tokens() == seq![Tok::Str("LOOP_STOP"@)],
        a.tokens() == b.tokens() ==> a == b,
{
    reveal_strlit("UNBOUNDED");
    reveal_strlit("CLAMPED");
    reveal_strlit("LOOP_STOP");
    if a.tokens() == b.tokens() {
        assert(a.text() == b.tokens()[0]->Str_0);
        if a != b {
            assert(a.text().len() != b.text().len() || a.text()[0] != b.text()[0]);
        }
    }
}

/// How the clock advances.
#[derive(Clone, Copy, Debug, PartialEq, Eq)]
pub enum ClockStep {
    TickDependent,
    SystemClockMultiplier,
    SystemClock,
}

impl ClockStep {
    /// The literal this member is written as.
    pub open spec fn text(&self) -> Seq<char> {
        match self {
            ClockStep::TickDependent => "TICK_DEPENDENT"@,
            ClockStep::SystemClockMultiplier => "SYSTEM_CLOCK_MULTIPLIER"@,
            ClockStep::SystemClock => "SYSTEM_CLOCK"@,
        }
    }

    pub fn as_str(&self) -> (r: &'static str)
        ensures
            r@ == self.text(),
    {
        match self {
            ClockStep::TickDependent => "TICK_DEPENDENT",
            ClockStep::SystemClockMultiplier => "SYSTEM_CLOCK_MULTIPLIER",
            ClockStep::SystemClock => "SYSTEM_CLOCK",
        }
    }
}

/// A member is written as its literal, a plain string.
impl Serialize for ClockStep {
    open spec fn tokens(&self) -> Seq<Tok> {
        seq![Tok::Str(self.text())]
    }

    fn serialize(&self, out: &mut Vec<Token>) {
        emit(out, Token::Str(self.as_str().to_string()));
    }
}

/// Each member of `ClockStep` is written as its own literal, so two
/// members are written alike only when they are the same member.
pub proof fn lemma_clock_step_literals(a: ClockStep, b: ClockStep)
    ensures
        ClockStep::TickDependent.tokens() == seq![Tok::Str("TICK_DEPENDENT"@)],
        ClockStep::SystemClockMultiplier.tokens() == seq![Tok::Str("SYSTEM_CLOCK_MULTIPLIER"@)],
        ClockStep::SystemClock.tokens() == seq![Tok::Str("SYSTEM_CLOCK"@)],
        a.tokens() == b.tokens() ==> a == b,
{
    reveal_strlit("TICK_DEPENDENT");
    reveal_strlit("SYSTEM_CLOCK_MULTIPLIER");
    reveal_strlit("SYSTEM_CLOCK");
    if a.tokens() == b.tokens() {
        assert(a.text() == b.tokens()[0]->Str_0);
        if a != b {
            assert(a.text().len() != b.text().len() || a.text()[0] != b.text()[0]);
        }
    }
}

/// The clock settings of a document.
#[derive(Clone, Debug, PartialEq)]
pub struct Clock {
    pub interval: Option<TimeInterval>,
    pub current_time: Option<Time>,
    pub multiplier: Option<Number>,
    pub range: Option<ClockRange>,
    pub step: Option<ClockStep>,
}

impl Serialize for Clock {
    open spec fn tokens(&self) -> Seq<Tok> {
        seq![Tok::BeginObject] + self.members() + seq![Tok::EndObject]
    }

    fn serialize(&self, out: &mut Vec<Token>) {
        emit(out, Token::BeginObject);
        self.serialize_members(out);
        emit(out, Token::EndObject);
        assert(toks(out@) =~= toks(old(out)@) + self.tokens());
    }
}

impl Clock {
    /// The members written for the fields that are present, in field order.
    pub open spec fn members(&self) -> Seq<Tok> {
        field("interval"@, self.interval)
            + field("currentTime"@, self.current_time)
            + field("multiplier"@, self.multiplier)
            + field("range"@, self.range)
            + field("step"@, self.step)
    }

    fn serialize_members(&self, out: &mut Vec<Token>)
        ensures
            toks(final(out)@) == toks(old(out)@) + self.members(),
    {
        let ghost start = toks(out@);
        serialize_field(out, "interval", &self.interval);
        serialize_field(out, "currentTime", &self.current_time);
        serialize_field(out, "multiplier", &self.multiplier);
        serialize_field(out, "range", &self.range);
        serialize_field(out, "step", &self.step);
        assert(toks(out@) =~= start + self.members());
    }
}

/// The default clock: a multiplier of one, looping at the end of its
/// interval, and advancing as the system clock times the multiplier; no
/// interval and no current time.
impl Default for Clock {
    fn default() -> (r: Clock)
        ensures
            r.interval is None,
            r.current_time is None,
            r.multiplier == Some(Number { bits: ONE_BITS }),
            r.range == Some(ClockRange::LoopStop),
            r.step == Some(ClockStep::SystemClockMultiplier),
    {
        Clock {
            interval: None,
            current_time: None,
            multiplier: Some(Number::from_bits(ONE_BITS)),
            range: Some(ClockRange::LoopStop),
            step: Some(ClockStep::SystemClockMultiplier),
        }
    }
}

} // verus!
