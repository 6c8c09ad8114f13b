//! Absolute UTC timestamps and time intervals.
use vstd::prelude::*;
use crate::token::{emit, toks, Serialize, Tok, Token};

verus! {

/// The text chrono gives a UTC instant `secs` seconds and `nanos`
/// nanoseconds after the Unix epoch (ISO 8601 with a `Z` designator), or
/// `None` where chrono cannot represent that instant.
pub uninterp spec fn utc_text(secs: int, nanos: int) -> Option<Seq<char>>;

/// Relies on chrono's `DateTime::<Utc>::from_timestamp`, which returns `None`
/// exactly for out-of-range instants, and on the `Debug` text of the
/// resulting `DateTime<Utc>`. Its source accepts every instant of the years
/// 1970 to 9999 with a nanosecond part under one second.
#[verifier::external_body]
fn format_utc(secs: i64, nanos: u32) -> (r: Option<String>)
    ensures
        match r {
            Some(s) => utc_text(secs as int, nanos as int) == Some(s@),
            None => utc_text(secs as int, nanos as int) is None,
        },
        0 <= secs < 253402300800 && nanos < 1000000000 ==> r is Some,
{
    match chrono::DateTime::<chrono::Utc>::from_timestamp(secs, nanos) {
        Some(t) => Some(format!("{:?}", t)),
        None => None,
    }
}

/// An absolute instant in UTC, as seconds and nanoseconds since the Unix
/// epoch. Only instants that have a text form can be built.
#[derive(Clone, Copy, Debug, PartialEq, Eq)]
pub struct Time {
    secs: i64,
    nanos: u32,
}

impl View for Time {
    type V = (int, int);

    closed spec fn view(&self) -> (int, int) {
        (self.secs as int, self.nanos as int)
    }
}

impl Time {
    #[verifier::type_invariant]
    spec fn inv(self) -> bool {
        utc_text(self.secs as int, self.nanos as int) is Some
    }

    /// The ISO 8601 text of this instant.
    pub open spec fn text(&self) -> Seq<char> {
        utc_text(self@.0, self@.1)->0
    }

    /// The instant `secs` seconds and `nanos` nanoseconds after the Unix
    /// epoch, if it can be written out.
    pub fn from_timestamp(secs: i64, nanos: u32) -> (r: Option<Time>)
        ensures
            r is Some <==> utc_text(secs as int, nanos as int) is Some,
            r matches Some(t) ==> t@ == (secs as int, nanos as int),
            0 <= secs < 253402300800 && nanos < 1000000000 ==> r is Some,
    {
        match format_utc(secs, nanos) {
            Some(_) => Some(Time { secs, nanos }),
            None => None,
        }
    }

    pub fn timestamp(&self) -> (r: i64)
        ensures
            r as int == self@.0,
    {
        self.secs
    }

    pub fn nanosecond(&self) -> (r: u32)
        ensures
            r as int == self@.1,
    {
        self.nanos
    }

    /// Writes this instant out as text.
    pub fn to_text(&self) -> (r: String)
        ensures
            utc_text(self@.0, self@.1) == Some(r@),
            r@ == self.text(),
    {
        proof {
            use_type_invariant(self);
        }
        match format_utc(self.secs, self.nanos) {
            Some(s) => s,
            // never taken: the type invariant says chrono accepts this instant
            None => String::new(),
        }
    }
}

/// An instant encodes as its text.
impl Serialize for Time {
    open spec fn tokens(&self) -> Seq<Tok> {
        seq![Tok::Str(self.text())]
    }

    fn serialize(&self, out: &mut Vec<Token>) {
        emit(out, Token::Str(self.to_text()));
    }
}

/// The text of an interval from `start` to `stop`: the two joined by `/`.
pub open spec fn interval_text(start: Seq<char>, stop: Seq<char>) -> Seq<char> {
    start + seq!['/'] + stop
}

/// Joins the texts of an interval's two ends.
pub fn join_interval(start: &str, stop: &str) -> (r: String)
    ensures
        r@ == interval_text(start@, stop@),
{
    let mut s = String::new();
    s.append(start);
    s.append("/");
    s.append(stop);
    proof {
        reveal_strlit("/");
    }
    assert(s@ =~= interval_text(start@, stop@));
    s
}

/// A span of time between two instants. The ends are not checked against
/// each other: an interval whose stop precedes its start is written as given.
#[derive(Clone, Copy, Debug, PartialEq, Eq)]
pub struct TimeInterval {
    pub start: Time,
    pub stop: Time,
}

impl TimeInterval {
    /// The text of this interval.
    pub open spec fn text(&self) -> Seq<char> {
        interval_text(self.start.text(), self.stop.text())
    }

    pub fn to_text(&self) -> (r: String)
        ensures
            r@ == self.text(),
    {
        let a = self.start.to_text();
        let b = self.stop.to_text();
        join_interval(a.as_str(), b.as_str())
    }
}

/// An interval encodes as one string, not as an object.
impl Serialize for TimeInterval {
    open spec fn tokens(&self) -> Seq<Tok> {
        seq![Tok::Str(self.text())]
    }

    fn serialize(&self, out: &mut Vec<Token>) {
        emit(out, Token::Str(self.to_text()));
    }
}

/// An interval is written as the text of its start, a `/`, and the text of
/// its stop, whatever the order of the two instants.
pub proof fn lemma_interval_format(i: TimeInterval)
    ensures
        i.tokens() == seq![Tok::Str(i.start.text() + seq!['/'] + i.stop.text())],
        i.text().len() == i.start.text().len() + 1 + i.stop.text().len(),
        i.text()[i.start.text().len() as int] == '/',
{
}

} // verus!
