//! The console timestamp: the UTC time of day as `HH:MM:SS.mmm`.
use vstd::prelude::*;

verus! {

/// The clock as chrono reports it: the UTC time of day, with a nanosecond
/// count that runs past one second during a leap second.
#[derive(Clone, Copy, Debug, PartialEq, Eq)]
pub struct ClockReading {
    pub hour: u32,
    pub minute: u32,
    pub second: u32,
    pub nanosecond: u32,
}

impl ClockReading {
    /// The ranges chrono documents for its time-of-day accessors.
    pub open spec fn wf(self) -> bool {
        &&& self.hour < 24
        &&& self.minute < 60
        &&& self.second < 60
        &&& self.nanosecond < 2_000_000_000
    }
}

/// A time of day as it is shown: a leap second shows as second 60.
#[derive(Clone, Copy, Debug, PartialEq, Eq)]
pub struct TimeOfDay {
    pub hour: u32,
    pub minute: u32,
    pub second: u32,
    pub millisecond: u32,
}

impl TimeOfDay {
    pub open spec fn wf(self) -> bool {
        &&& self.hour < 24
        &&& self.minute < 60
        &&& self.second <= 60
        &&& self.millisecond < 1000
    }

    /// The shown time of a clock reading: the leap second's overflow of the
    /// nanosecond count moves into the seconds, and the milliseconds are the
    /// whole milliseconds of the rest.
    pub open spec fn from_reading(r: ClockReading) -> TimeOfDay {
        TimeOfDay {
            hour: r.hour,
            minute: r.minute,
            second: (r.second + r.nanosecond / 1_000_000_000) as u32,
            millisecond: ((r.nanosecond % 1_000_000_000) / 1_000_000) as u32,
        }
    }

    pub fn from_clock(r: ClockReading) -> (t: TimeOfDay)
        requires
            r.wf(),
        ensures
            t == TimeOfDay::from_reading(r),
            t.wf(),
    {
        TimeOfDay {
            hour: r.hour,
            minute: r.minute,
            second: r.second + r.nanosecond / 1_000_000_000,
            millisecond: (r.nanosecond % 1_000_000_000) / 1_000_000,
        }
    }

    /// The text of this time of day: `HH:MM:SS.mmm`, zero-padded.
    pub open spec fn text(self) -> Seq<char> {
        two_digits(self.hour as int) + seq![':'] + two_digits(self.minute as int) + seq![':']
            + two_digits(self.second as int) + seq!['.'] + three_digits(self.millisecond as int)
    }

    pub fn to_text(&self) -> (s: String)
        requires
            self.wf(),
        ensures
            s@ == self.text(),
    {
        let mut s = String::new();
        push_two_digits(&mut s, self.hour);
        s.append(":");
        push_two_digits(&mut s, self.minute);
        s.append(":");
        push_two_digits(&mut s, self.second);
        s.append(".");
        push_three_digits(&mut s, self.millisecond);
        proof {
            reveal_strlit(":");
            reveal_strlit(".");
        }
        assert(s@ =~= self.text());
        s
    }
}

/// The decimal digit for `d` in `0..10`.
pub open spec fn digit_char(d: int) -> char {
    seq!['0', '1', '2', '3', '4', '5', '6', '7', '8', '9'][d]
}

pub open spec fn two_digits(n: int) -> Seq<char> {
    seq![digit_char(n / 10), digit_char(n % 10)]
}

pub open spec fn three_digits(n: int) -> Seq<char> {
    seq![digit_char(n / 100), digit_char((n / 10) % 10), digit_char(n % 10)]
}

pub open spec fn is_digit(c: char) -> bool {
    '0' <= c <= '9'
}

pub open spec fn digit_value(c: char) -> int {
    c as int - '0' as int
}

/// The value of the decimal numeral `s[start..start + len]`.
pub open spec fn numeral_value(s: Seq<char>, start: int, len: nat) -> int
    decreases len,
{
    if len == 0 {
        0
    } else {
        numeral_value(s, start, (len - 1) as nat) * 10 + digit_value(s[start + len - 1])
    }
}

/// `s` reads `DD:DD:DD.DDD`, with a decimal digit at each `D`.
pub open spec fn has_timestamp_layout(s: Seq<char>) -> bool {
    &&& s.len() == 12
    &&& s[2] == ':'
    &&& s[5] == ':'
    &&& s[8] == '.'
    &&& forall|i: int| 0 <= i < 12 && i != 2 && i != 5 && i != 8 ==> is_digit(#[trigger] s[i])
}

proof fn lemma_digit_char(d: int)
    requires
        0 <= d < 10,
    ensures
        is_digit(digit_char(d)),
        digit_value(digit_char(d)) == d,
{
    assert(d == 0 || d == 1 || d == 2 || d == 3 || d == 4 || d == 5 || d == 6 || d == 7 || d == 8
        || d == 9);
}

/// The text of a time of day has the layout `HH:MM:SS.mmm`, and its four
/// numerals read back as the hour, minute, second and millisecond.
pub proof fn lemma_timestamp_layout(t: TimeOfDay)
    requires
        t.wf(),
    ensures
        has_timestamp_layout(t.text()),
        numeral_value(t.text(), 0, 2) == t.hour,
        numeral_value(t.text(), 3, 2) == t.minute,
        numeral_value(t.text(), 6, 2) == t.second,
        numeral_value(t.text(), 9, 3) == t.millisecond,
{
    let s = t.text();
    let (h, m, c, ms) = (t.hour as int, t.minute as int, t.second as int, t.millisecond as int);
    lemma_digit_char(h / 10);
    lemma_digit_char(h % 10);
    lemma_digit_char(m / 10);
    lemma_digit_char(m % 10);
    lemma_digit_char(c / 10);
    lemma_digit_char(c % 10);
    lemma_digit_char(ms / 100);
    lemma_digit_char((ms / 10) % 10);
    lemma_digit_char(ms % 10);
    assert(s.len() == 12);
    assert(s[0] == digit_char(h / 10) && s[1] == digit_char(h % 10));
    assert(s[3] == digit_char(m / 10) && s[4] == digit_char(m % 10));
    assert(s[6] == digit_char(c / 10) && s[7] == digit_char(c % 10));
    assert(s[9] == digit_char(ms / 100));
    assert(s[10] == digit_char((ms / 10) % 10));
    assert(s[11] == digit_char(ms % 10));
    assert(s[2] == ':' && s[5] == ':' && s[8] == '.');
    reveal_with_fuel(numeral_value, 4);
}

fn digit_text(d: u32) -> (r: &'static str)
    requires
        d < 10,
    ensures
        r@ == seq![digit_char(d as int)],
{
    proof {
        reveal_strlit("0");
        reveal_strlit("1");
        reveal_strlit("2");
        reveal_strlit("3");
        reveal_strlit("4");
        reveal_strlit("5");
        reveal_strlit("6");
        reveal_strlit("7");
        reveal_strlit("8");
        reveal_strlit("9");
    }
    let r = match d {
        0 => "0",
        1 => "1",
        2 => "2",
        3 => "3",
        4 => "4",
        5 => "5",
        6 => "6",
        7 => "7",
        8 => "8",
        _ => "9",
    };
    assert(r@ =~= seq![digit_char(d as int)]);
    r
}

fn push_two_digits(s: &mut String, n: u32)
    requires
        n < 100,
    ensures
        final(s)@ == old(s)@ + two_digits(n as int),
{
    s.append(digit_text(n / 10));
    s.append(digit_text(n % 10));
    assert(final(s)@ =~= old(s)@ + two_digits(n as int));
}

fn push_three_digits(s: &mut String, n: u32)
    requires
        n < 1000,
    ensures
        final(s)@ == old(s)@ + three_digits(n as int),
{
    s.append(digit_text(n / 100));
    s.append(digit_text((n / 10) % 10));
    s.append(digit_text(n % 10));
    assert(final(s)@ =~= old(s)@ + three_digits(n as int));
}

/// Relies on chrono's conversion `From<SystemTime> for DateTime<Utc>`, applied
/// to `SystemTime::now()`, and on its `Timelike` accessors: the hour is in
/// `0..24`, the minute and the second in `0..60`. The conversion takes the
/// seconds and the sub-second nanoseconds of the distance from the Unix epoch
/// (on either side of it), so the nanosecond count stays below one second and
/// no leap second comes back. The conversion panics only for an instant
/// outside chrono's range of dates, some 262,000 years from year 0.
#[verifier::external_body]
fn read_utc_clock() -> (r: ClockReading)
    ensures
        r.wf(),
        r.nanosecond < 1_000_000_000,
{
    let now: chrono::DateTime<chrono::Utc> = std::time::SystemTime::now().into();
    ClockReading {
        hour: chrono::Timelike::hour(&now),
        minute: chrono::Timelike::minute(&now),
        second: chrono::Timelike::second(&now),
        nanosecond: chrono::Timelike::nanosecond(&now),
    }
}

/// The current UTC time of day as `HH:MM:SS.mmm`: the hour below 24, the
/// minute and the second below 60, the milliseconds below 1000.
pub fn current_timestamp() -> (s: String)
    ensures
        has_timestamp_layout(s@),
        numeral_value(s@, 0, 2) <= 23,
        numeral_value(s@, 3, 2) <= 59,
        numeral_value(s@, 6, 2) <= 59,
        numeral_value(s@, 9, 3) <= 999,
        exists|r: ClockReading|
            r.wf() && r.nanosecond < 1_000_000_000 && s@ == TimeOfDay::from_reading(r).text(),
{
    let r = read_utc_clock();
    let t = TimeOfDay::from_clock(r);
    proof {
        lemma_timestamp_layout(t);
    }
    t.to_text()
}

} // verus!
