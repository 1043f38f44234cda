use vstd::prelude::*;
use chrono::{Datelike, Timelike};

verus! {

/// Largest distance, in seconds from 1970-01-01T00:00:00Z, of an instant that
/// is rendered; about 253 000 years, inside the calendar's range.
pub const STAMP_LIMIT: i64 = 8_000_000_000_000;

/// A local calendar time with its offset from UTC, to the second.
#[derive(Debug, Clone, Copy, PartialEq, Eq)]
pub struct Stamp {
    pub year: i32,
    pub month: u32,
    pub day: u32,
    pub hour: u32,
    pub minute: u32,
    pub second: u32,
    /// Local time minus UTC, in seconds.
    pub offset: i32,
}

/// Days from 1970-01-01 to the given day of the proleptic Gregorian calendar.
pub open spec fn days_from_civil(y: int, m: int, d: int) -> int {
    let yy = if m <= 2 { y - 1 } else { y };
    let era = yy / 400;
    let yoe = yy - era * 400;
    let mp = if m > 2 { m - 3 } else { m + 9 };
    let doy = (153 * mp + 2) / 5 + d - 1;
    let doe = yoe * 365 + yoe / 4 - yoe / 100 + doy;
    era * 146097 + doe - 719468
}

impl Stamp {
    pub open spec fn wf(self) -> bool {
        &&& -262144 <= self.year <= 262144
        &&& 1 <= self.month <= 12
        &&& 1 <= self.day <= 31
        &&& self.hour < 24
        &&& self.minute < 60
        &&& self.second < 60
        &&& -86400 < self.offset < 86400
    }

    /// The instant this stamp denotes, in seconds since 1970-01-01T00:00:00Z.
    pub open spec fn instant(self) -> int {
        days_from_civil(self.year as int, self.month as int, self.day as int) * 86400
            + self.hour * 3600 + self.minute * 60 + self.second - self.offset
    }
}

pub open spec fn digit(n: int) -> char {
    seq!['0', '1', '2', '3', '4', '5', '6', '7', '8', '9'][n]
}

/// The last `w` decimal digits of `n`, zero-padded.
pub open spec fn fixed(n: nat, w: nat) -> Seq<char>
    decreases w,
{
    if w == 0 {
        seq![]
    } else {
        fixed(n / 10, (w - 1) as nat).push(digit((n % 10) as int))
    }
}

/// How many digits a year's magnitude is written with: at least four.
pub open spec fn year_width(n: nat) -> nat {
    if n < 10000 {
        4
    } else if n < 100000 {
        5
    } else {
        6
    }
}

/// Years 0 to 9999 take four digits; others take a sign and at least four digits.
pub open spec fn year_text(y: int) -> Seq<char> {
    if 0 <= y <= 9999 {
        fixed(y as nat, 4)
    } else if y < 0 {
        seq!['-'] + fixed((-y) as nat, year_width((-y) as nat))
    } else {
        seq!['+'] + fixed(y as nat, year_width(y as nat))
    }
}

/// `±HH:MM`, followed by `:SS` when the offset has seconds.
pub open spec fn offset_text(o: int) -> Seq<char> {
    let a = if o < 0 { -o } else { o };
    let sign = if o < 0 { '-' } else { '+' };
    let secs = if a % 60 == 0 { seq![] } else { seq![':'] + fixed((a % 60) as nat, 2) };
    seq![sign] + fixed((a / 3600) as nat, 2) + seq![':'] + fixed(((a / 60) % 60) as nat, 2) + secs
}

/// `YYYY-MM-DD HH:MM:SS ±HH:MM`.
pub open spec fn stamp_text(s: Stamp) -> Seq<char> {
    year_text(s.year as int) + seq!['-'] + fixed(s.month as nat, 2) + seq!['-'] + fixed(
        s.day as nat,
        2,
    ) + seq![' '] + fixed(s.hour as nat, 2) + seq![':'] + fixed(s.minute as nat, 2) + seq![':']
        + fixed(s.second as nat, 2) + seq![' '] + offset_text(s.offset as int)
}

/// `t` renders some local time of the instant `unix` (seconds since 1970-01-01T00:00:00Z).
pub open spec fn local_text(t: Seq<char>, unix: int) -> bool {
    exists|st: Stamp| st.wf() && st.instant() == unix && #[trigger] stamp_text(st) == t
}

fn push_digit(s: &mut String, d: u32)
    requires
        d < 10,
    ensures
        final(s)@ == old(s)@.push(digit(d as int)),
{
    let t: &str = if d == 0 {
        proof { reveal_strlit("0"); }
        "0"
    } else if d == 1 {
        proof { reveal_strlit("1"); }
        "1"
    } else if d == 2 {
        proof { reveal_strlit("2"); }
        "2"
    } else if d == 3 {
        proof { reveal_strlit("3"); }
        "3"
    } else if d == 4 {
        proof { reveal_strlit("4"); }
        "4"
    } else if d == 5 {
        proof { reveal_strlit("5"); }
        "5"
    } else if d == 6 {
        proof { reveal_strlit("6"); }
        "6"
    } else if d == 7 {
        proof { reveal_strlit("7"); }
        "7"
    } else if d == 8 {
        proof { reveal_strlit("8"); }
        "8"
    } else {
        proof { reveal_strlit("9"); }
        "9"
    };
    s.append(t);
    assert(final(s)@ =~= old(s)@.push(digit(d as int)));
}

fn push_char(s: &mut String, t: &str, Ghost(c): Ghost<char>)
    requires
        t@.len() == 1,
        t@[0] == c,
    ensures
        final(s)@ == old(s)@.push(c),
{
    s.append(t);
    assert(final(s)@ =~= old(s)@.push(c));
}

fn push_fixed(s: &mut String, n: u32, w: u32)
    ensures
        final(s)@ == old(s)@ + fixed(n as nat, w as nat),
    decreases w,
{
    if w == 0 {
        assert(final(s)@ =~= old(s)@ + fixed(n as nat, w as nat));
    } else {
        push_fixed(s, n / 10, w - 1);
        push_digit(s, n % 10);
        assert(final(s)@ =~= old(s)@ + fixed(n as nat, w as nat));
    }
}

fn push_year(s: &mut String, y: i32)
    requires
        -262144 <= y <= 262144,
    ensures
        final(s)@ == old(s)@ + year_text(y as int),
{
    if 0 <= y && y <= 9999 {
        push_fixed(s, y as u32, 4);
    } else {
        let a: u32 = if y < 0 {
            proof { reveal_strlit("-"); }
            push_char(s, "-", Ghost('-'));
            (-y) as u32
        } else {
            proof { reveal_strlit("+"); }
            push_char(s, "+", Ghost('+'));
            y as u32
        };
        let w: u32 = if a < 10000 {
            4
        } else if a < 100000 {
            5
        } else {
            6
        };
        push_fixed(s, a, w);
    }
    assert(final(s)@ =~= old(s)@ + year_text(y as int));
}

fn push_offset(s: &mut String, o: i32)
    requires
        -86400 < o < 86400,
    ensures
        final(s)@ == old(s)@ + offset_text(o as int),
{
    proof {
        reveal_strlit("-");
        reveal_strlit("+");
        reveal_strlit(":");
    }
    let a: u32 = if o < 0 {
        push_char(s, "-", Ghost('-'));
        (-o) as u32
    } else {
        push_char(s, "+", Ghost('+'));
        o as u32
    };
    push_fixed(s, a / 3600, 2);
    push_char(s, ":", Ghost(':'));
    push_fixed(s, (a / 60) % 60, 2);
    if a % 60 != 0 {
        push_char(s, ":", Ghost(':'));
        push_fixed(s, a % 60, 2);
    }
    assert(final(s)@ =~= old(s)@ + offset_text(o as int));
}

/// Renders a stamp as `YYYY-MM-DD HH:MM:SS ±HH:MM`.
pub fn render_stamp(st: &Stamp) -> (r: String)
    requires
        st.wf(),
    ensures
        r@ == stamp_text(*st),
{
    proof {
        reveal_strlit("-");
        reveal_strlit(":");
        reveal_strlit(" ");
    }
    let mut s = String::new();
    push_year(&mut s, st.year);
    push_char(&mut s, "-", Ghost('-'));
    push_fixed(&mut s, st.month, 2);
    push_char(&mut s, "-", Ghost('-'));
    push_fixed(&mut s, st.day, 2);
    push_char(&mut s, " ", Ghost(' '));
    push_fixed(&mut s, st.hour, 2);
    push_char(&mut s, ":", Ghost(':'));
    push_fixed(&mut s, st.minute, 2);
    push_char(&mut s, ":", Ghost(':'));
    push_fixed(&mut s, st.second, 2);
    push_char(&mut s, " ", Ghost(' '));
    push_offset(&mut s, st.offset);
    assert(s@ =~= stamp_text(*st));
    s
}

/// Relies on chrono's `DateTime::from_timestamp`, `DateTime::with_timezone(&Local)`
/// and the calendar fields and offset of the result: the process's local time of
/// the instant `secs` seconds after 1970-01-01T00:00:00Z. Inside the limit the
/// instant is in chrono's calendar range, and a local time is the UTC time plus
/// an offset of less than a day.
#[verifier::external_body]
fn local_stamp(secs: i64) -> (r: Option<Stamp>)
    requires
        -STAMP_LIMIT <= secs <= STAMP_LIMIT,
    ensures
        r is Some,
        r matches Some(st) ==> st.wf() && st.instant() == secs,
{
    let t = chrono::DateTime::from_timestamp(secs, 0)?.with_timezone(&chrono::Local);
    Some(Stamp {
        year: t.year(),
        month: t.month(),
        day: t.day(),
        hour: t.hour(),
        minute: t.minute(),
        second: t.second(),
        offset: t.offset().local_minus_utc(),
    })
}

/// Renders the instant `unix` (seconds since 1970-01-01T00:00:00Z) in the
/// process's local time zone.
pub fn render_local(unix: i64) -> (r: String)
    requires
        -STAMP_LIMIT <= unix <= STAMP_LIMIT,
    ensures
        local_text(r@, unix as int),
{
    match local_stamp(unix) {
        Some(st) => {
            let r = render_stamp(&st);
            assert(stamp_text(st) == r@);
            r
        },
        None => String::new(),
    }
}

} // verus!
