//! The start date of a maintenance window: typed as local wall-clock time,
//! sent as an RFC 3339 timestamp with the local offset.
use vstd::prelude::*;
use chrono::{Datelike, TimeZone, Timelike};
use crate::text::{digit_char, push_char};

verus! {

/// A local wall-clock time to the minute.
#[derive(PartialEq, Eq, Structural, Clone, Copy, Debug)]
pub struct WallClock {
    pub year: i32,
    pub month: u32,
    pub day: u32,
    pub hour: u32,
    pub minute: u32,
}

/// Whether `y` is a leap year of the proleptic Gregorian calendar.
pub open spec fn is_leap_year(y: int) -> bool {
    (y % 4 == 0 && y % 100 != 0) || y % 400 == 0
}

/// The number of days of month `m` of year `y`.
pub open spec fn days_in_month(y: int, m: int) -> int {
    if m == 2 {
        if is_leap_year(y) {
            29
        } else {
            28
        }
    } else if m == 4 || m == 6 || m == 9 || m == 11 {
        30
    } else {
        31
    }
}

/// Whether `w` names a real calendar day and a time of day.
pub open spec fn is_valid(w: WallClock) -> bool {
    &&& 1 <= w.month <= 12
    &&& 1 <= w.day <= days_in_month(w.year as int, w.month as int)
    &&& w.hour < 24
    &&& w.minute < 60
}

/// The value of a decimal digit character.
pub open spec fn digit_value(c: char) -> int {
    c as int - '0' as int
}

pub open spec fn is_digit(c: char) -> bool {
    '0' <= c <= '9'
}

/// The two-digit number at positions `i` and `i + 1` of `s`.
pub open spec fn two_at(s: Seq<char>, i: int) -> int {
    10 * digit_value(s[i]) + digit_value(s[i + 1])
}

/// Whether `s` has the shape `YYYY-MM-DD?HH:MM`, with `sep` in place of `?`
/// and a decimal digit in place of each letter.
pub open spec fn is_stamp(s: Seq<char>, sep: char) -> bool {
    &&& s.len() == 16
    &&& s[4] == '-'
    &&& s[7] == '-'
    &&& s[10] == sep
    &&& s[13] == ':'
    &&& forall|i: int|
        0 <= i < 16 && i != 4 && i != 7 && i != 10 && i != 13 ==> #[trigger] is_digit(s[i])
}

/// The wall-clock time that a text of shape `YYYY-MM-DD?HH:MM` spells.
pub open spec fn stamp_fields(s: Seq<char>) -> WallClock {
    WallClock {
        year: (100 * two_at(s, 0) + two_at(s, 2)) as i32,
        month: two_at(s, 5) as u32,
        day: two_at(s, 8) as u32,
        hour: two_at(s, 11) as u32,
        minute: two_at(s, 14) as u32,
    }
}

/// A number below 100 in two digits.
pub open spec fn two_text(n: int) -> Seq<char> {
    seq![digit_char((n / 10) as nat), digit_char((n % 10) as nat)]
}

/// `w` written `YYYY-MM-DD?HH:MM`, with `sep` in place of `?`.
pub open spec fn stamp_text(w: WallClock, sep: char) -> Seq<char> {
    two_text(w.year as int / 100) + two_text(w.year as int % 100) + "-"@ + two_text(w.month as int) + "-"@
        + two_text(w.day as int) + seq![sep] + two_text(w.hour as int) + ":"@ + two_text(
        w.minute as int,
    )
}

/// An offset from UTC of `minutes` minutes, east unless `negative`, written
/// `+HH:MM` or `-HH:MM`.
pub open spec fn offset_text(negative: bool, minutes: nat) -> Seq<char> {
    seq![
        if negative {
            '-'
        } else {
            '+'
        },
    ] + two_text((minutes / 60) as int) + ":"@ + two_text((minutes % 60) as int)
}

/// `w` as an RFC 3339 timestamp, to the second, with the given offset.
pub open spec fn rfc3339_text(w: WallClock, negative: bool, minutes: nat) -> Seq<char> {
    stamp_text(w, 'T') + ":00"@ + offset_text(negative, minutes)
}

/// Whether `r` is `w` as an RFC 3339 timestamp with an offset of at most a day.
pub open spec fn is_rfc3339_of(r: Seq<char>, w: WallClock) -> bool {
    exists|negative: bool, minutes: nat|
        minutes <= 1440 && r == #[trigger] rfc3339_text(w, negative, minutes)
}

/// Relies on chrono's `NaiveDateTime::parse_from_str` with the format
/// `%Y-%m-%dT%H:%M`: a `NaiveDateTime` only ever holds a real date and time,
/// text of exactly that shape, with a four-digit year and two-digit fields,
/// reads as those fields, and does parse when they name a real date and time.
#[verifier::external_body]
fn parse_wall_clock(s: &str) -> (r: Option<WallClock>)
    ensures
        r is Some ==> is_valid(r->0),
        is_stamp(s@, 'T') && is_valid(stamp_fields(s@)) ==> r is Some,
        is_stamp(s@, 'T') && r is Some ==> r->0 == stamp_fields(s@),
{
    match chrono::NaiveDateTime::parse_from_str(s, "%Y-%m-%dT%H:%M") {
        Ok(t) => Some(
            WallClock {
                year: t.year(),
                month: t.month(),
                day: t.day(),
                hour: t.hour(),
                minute: t.minute(),
            },
        ),
        Err(_) => None,
    }
}

/// Relies on chrono's `Local::from_local_datetime` and `DateTime::to_rfc3339`:
/// when the machine's time zone gives the wall-clock time exactly one
/// instant, that instant as RFC 3339 text, which for a four-digit year is
/// the wall-clock time to the second followed by the offset, rounded to the
/// minute and below a day in size. No result for a time that the zone skips
/// or repeats.
#[verifier::external_body]
fn local_rfc3339(w: &WallClock) -> (r: Option<String>)
    ensures
        r is Some && 0 <= w.year <= 9999 ==> is_rfc3339_of(r->0@, *w),
{
    let naive = match chrono::NaiveDate::from_ymd_opt(w.year, w.month, w.day) {
        Some(d) => d.and_hms_opt(w.hour, w.minute, 0),
        None => None,
    };
    match naive {
        Some(n) => match chrono::Local.from_local_datetime(&n).single() {
            Some(t) => Some(t.to_rfc3339()),
            None => None,
        },
        None => None,
    }
}

/// Why a typed start date was not accepted.
#[derive(PartialEq, Eq, Structural, Clone, Copy, Debug)]
pub enum DateError {
    /// The text is not a date and time of the form `YYYY-MM-DD HH:MM`.
    InvalidFormat,
    /// The local time zone skips or repeats that wall-clock time.
    NoSuchLocalTime,
}

impl DateError {
    /// The message shown before the date is asked again.
    pub fn message(&self) -> (r: String)
        ensures
            *self == DateError::InvalidFormat ==> r@
                == "Invalid date format! Please use YYYY-MM-DD HH:MM (e.g., 2025-12-23 14:30)"@,
            *self == DateError::NoSuchLocalTime ==> r@
                == "That time does not exist or is ambiguous in the local time zone"@,
    {
        match self {
            DateError::InvalidFormat => String::from_str(
                "Invalid date format! Please use YYYY-MM-DD HH:MM (e.g., 2025-12-23 14:30)",
            ),
            DateError::NoSuchLocalTime => String::from_str(
                "That time does not exist or is ambiguous in the local time zone",
            ),
        }
    }
}

/// `s` with every space turned into `T`.
pub open spec fn spaces_to_t(s: Seq<char>) -> Seq<char> {
    s.map_values(
        |c: char|
            if c == ' ' {
                'T'
            } else {
                c
            },
    )
}

/// Turns every space of `s` into `T`.
pub fn replace_spaces(s: &str) -> (r: String)
    ensures
        r@ == spaces_to_t(s@),
{
    let n = s.unicode_len();
    let mut r = String::new();
    let mut i: usize = 0;
    while i < n
        invariant
            n == s@.len(),
            i <= n,
            r@ == spaces_to_t(s@.take(i as int)),
        decreases n - i,
    {
        let c = s.get_char(i);
        if c == ' ' {
            push_char(&mut r, 'T');
        } else {
            push_char(&mut r, c);
        }
        i = i + 1;
        assert(r@ =~= spaces_to_t(s@.take(i as int)));
    }
    assert(s@.take(n as int) =~= s@);
    r
}

/// Whether `out` is an accepted reading of the typed start date `input`:
/// `input` has the form `YYYY-MM-DD HH:MM` and names a real date and time,
/// and `out` is that wall-clock time as RFC 3339 text.
pub open spec fn is_start_date_of(input: Seq<char>, out: Seq<char>) -> bool {
    &&& is_stamp(input, ' ')
    &&& is_valid(stamp_fields(input))
    &&& is_rfc3339_of(out, stamp_fields(input))
}

/// Whether `s` has the form `YYYY-MM-DD HH:MM`, digits in place of letters.
pub fn is_stamp_text(s: &str) -> (r: bool)
    ensures
        r == is_stamp(s@, ' '),
{
    if s.unicode_len() != 16 {
        return false;
    }
    let mut i: usize = 0;
    while i < 16
        invariant
            s@.len() == 16,
            i <= 16,
            forall|j: int|
                0 <= j < i ==> if j == 4 || j == 7 {
                    s@[j] == '-'
                } else if j == 10 {
                    s@[j] == ' '
                } else if j == 13 {
                    s@[j] == ':'
                } else {
                    is_digit(#[trigger] s@[j])
                },
        decreases 16 - i,
    {
        let c = s.get_char(i);
        let ok = if i == 4 || i == 7 {
            c == '-'
        } else if i == 10 {
            c == ' '
        } else if i == 13 {
            c == ':'
        } else {
            '0' <= c && c <= '9'
        };
        if !ok {
            assert(!is_stamp(s@, ' ')) by {
                if i != 4 && i != 7 && i != 10 && i != 13 {
                    assert(!is_digit(s@[i as int]));
                }
            }
            return false;
        }
        i = i + 1;
    }
    assert(is_stamp(s@, ' ')) by {
        assert(s@[4] == '-' && s@[7] == '-' && s@[10] == ' ' && s@[13] == ':');
    }
    true
}

/// Reads a start date typed as `YYYY-MM-DD HH:MM` in local time and writes
/// it as an RFC 3339 timestamp with the local offset. Any other text, and a
/// date or time that does not exist, is a format error.
pub fn parse_start_date(input: &str) -> (r: Result<String, DateError>)
    ensures
        r is Ok ==> is_start_date_of(input@, r->Ok_0@),
        is_stamp(input@, ' ') && is_valid(stamp_fields(input@)) ==> r != Err::<
            String,
            DateError,
        >(DateError::InvalidFormat),
        !(is_stamp(input@, ' ') && is_valid(stamp_fields(input@))) ==> r == Err::<
            String,
            DateError,
        >(DateError::InvalidFormat),
{
    if !is_stamp_text(input) {
        return Err(DateError::InvalidFormat);
    }
    let text = replace_spaces(input);
    proof {
        lemma_spaces_keep_stamp(input@);
        lemma_stamp_year_in_range(input@, ' ');
    }
    match parse_wall_clock(text.as_str()) {
        None => Err(DateError::InvalidFormat),
        Some(w) => match local_rfc3339(&w) {
            Some(out) => {
                assert(w == stamp_fields(input@));
                Ok(out)
            },
            None => Err(DateError::NoSuchLocalTime),
        },
    }
}

proof fn lemma_stamp_year_in_range(s: Seq<char>, sep: char)
    requires
        is_stamp(s, sep),
    ensures
        0 <= stamp_fields(s).year <= 9999,
{
    assert(is_digit(s[0]) && is_digit(s[1]));
    assert(is_digit(s[2]) && is_digit(s[3]));
    assert(0 <= two_at(s, 0) <= 99);
    assert(0 <= two_at(s, 2) <= 99);
}

proof fn lemma_spaces_keep_stamp(s: Seq<char>)
    requires
        is_stamp(s, ' '),
    ensures
        is_stamp(spaces_to_t(s), 'T'),
        stamp_fields(spaces_to_t(s)) == stamp_fields(s),
{
    let t = spaces_to_t(s);
    assert forall|i: int| 0 <= i < 16 && i != 10 implies #[trigger] t[i] == s[i] by {
        assert(is_digit(s[i]) || s[i] == '-' || s[i] == ':');
    }
    assert forall|i: int|
        0 <= i < 16 && i != 4 && i != 7 && i != 10 && i != 13 implies #[trigger] is_digit(t[i]) by {
        assert(t[i] == s[i]);
    }
    assert(t[0] == s[0] && t[1] == s[1] && t[2] == s[2] && t[3] == s[3]);
    assert(t[5] == s[5] && t[6] == s[6] && t[8] == s[8] && t[9] == s[9]);
    assert(t[11] == s[11] && t[12] == s[12] && t[14] == s[14] && t[15] == s[15]);
}

/// Whether `s` is an offset from UTC written `+HH:MM` or `-HH:MM`, of at
/// most a day.
pub open spec fn is_offset(s: Seq<char>) -> bool {
    &&& s.len() == 6
    &&& (s[0] == '+' || s[0] == '-')
    &&& is_digit(s[1]) && is_digit(s[2]) && is_digit(s[4]) && is_digit(s[5])
    &&& s[3] == ':'
    &&& two_at(s, 4) < 60
    &&& 60 * two_at(s, 1) + two_at(s, 4) <= 1440
}

proof fn lemma_two_text(n: int)
    requires
        0 <= n < 100,
    ensures
        two_text(n).len() == 2,
        is_digit(two_text(n)[0]) && is_digit(two_text(n)[1]),
        two_at(two_text(n), 0) == n,
{
    let t = two_text(n);
    assert(digit_value(t[0]) == n / 10);
    assert(digit_value(t[1]) == n % 10);
}

proof fn lemma_stamp_text_reads_back(w: WallClock, sep: char)
    requires
        is_valid(w),
        0 <= w.year <= 9999,
    ensures
        is_stamp(stamp_text(w, sep), sep),
        stamp_fields(stamp_text(w, sep)) == w,
{
    let y = w.year as int;
    lemma_two_text(y / 100);
    lemma_two_text(y % 100);
    lemma_two_text(w.month as int);
    lemma_two_text(w.day as int);
    lemma_two_text(w.hour as int);
    lemma_two_text(w.minute as int);
    reveal_strlit("-");
    reveal_strlit(":");
    let t = stamp_text(w, sep);
    let a = two_text(y / 100);
    let b = two_text(y % 100);
    let mo = two_text(w.month as int);
    let d = two_text(w.day as int);
    let h = two_text(w.hour as int);
    let mi = two_text(w.minute as int);
    assert(t =~= seq![
        a[0], a[1], b[0], b[1], '-', mo[0], mo[1], '-', d[0], d[1], sep, h[0], h[1], ':', mi[0], mi[1],
    ]);
    assert(two_at(t, 0) == two_at(a, 0));
    assert(two_at(t, 2) == two_at(b, 0));
    assert(two_at(t, 5) == two_at(mo, 0));
    assert(two_at(t, 8) == two_at(d, 0));
    assert(two_at(t, 11) == two_at(h, 0));
    assert(two_at(t, 14) == two_at(mi, 0));
    assert(100 * (y / 100) + y % 100 == y);
}

proof fn lemma_rfc3339_reads_back(w: WallClock, negative: bool, minutes: nat)
    requires
        is_valid(w),
        0 <= w.year <= 9999,
        minutes <= 1440,
    ensures
        ({
            let out = rfc3339_text(w, negative, minutes);
            &&& out.len() == 25
            &&& out.take(16) == stamp_text(w, 'T')
            &&& is_stamp(out.take(16), 'T')
            &&& stamp_fields(out.take(16)) == w
            &&& out.subrange(16, 19) == ":00"@
            &&& is_offset(out.subrange(19, 25))
        }),
{
    let out = rfc3339_text(w, negative, minutes);
    lemma_stamp_text_reads_back(w, 'T');
    let st = stamp_text(w, 'T');
    let off = offset_text(negative, minutes);
    lemma_two_text((minutes / 60) as int);
    lemma_two_text((minutes % 60) as int);
    reveal_strlit(":00");
    reveal_strlit(":");
    assert(out.take(16) =~= st);
    assert(out.subrange(16, 19) =~= ":00"@);
    assert(out.subrange(19, 25) =~= off);
    let hh = two_text((minutes / 60) as int);
    let mm = two_text((minutes % 60) as int);
    assert(off =~= seq![off[0], hh[0], hh[1], ':', mm[0], mm[1]]);
    assert(two_at(off, 1) == two_at(hh, 0));
    assert(two_at(off, 4) == two_at(mm, 0));
}

/// A start date typed as `YYYY-MM-DD HH:MM` that names a real time comes
/// back, whenever it is accepted, as an RFC 3339 timestamp that spells the
/// same wall-clock time, with zero seconds and an offset of at most a day.
pub proof fn lemma_start_date_round_trip(input: Seq<char>, out: Seq<char>)
    requires
        is_stamp(input, ' '),
        is_valid(stamp_fields(input)),
        is_start_date_of(input, out),
    ensures
        out.len() == 25,
        is_stamp(out.take(16), 'T'),
        stamp_fields(out.take(16)) == stamp_fields(input),
        out.take(16) == spaces_to_t(input),
        out.subrange(16, 19) == ":00"@,
        is_offset(out.subrange(19, 25)),
{
    let w = stamp_fields(input);
    lemma_stamp_year_in_range(input, ' ');
    lemma_spaces_keep_stamp(input);
    let (negative, minutes) = choose|negative: bool, minutes: nat|
        minutes <= 1440 && out == #[trigger] rfc3339_text(w, negative, minutes);
    lemma_rfc3339_reads_back(w, negative, minutes);
    lemma_stamp_text_of_fields(spaces_to_t(input));
}

proof fn lemma_two_text_of_digits(x: char, y: char)
    requires
        is_digit(x),
        is_digit(y),
    ensures
        two_text(10 * digit_value(x) + digit_value(y)) == seq![x, y],
{
    let n = 10 * digit_value(x) + digit_value(y);
    assert(n / 10 == digit_value(x));
    assert(n % 10 == digit_value(y));
    assert(two_text(n) =~= seq![x, y]);
}

/// A text of the form `YYYY-MM-DDTHH:MM` is the text of the fields it spells.
proof fn lemma_stamp_text_of_fields(s: Seq<char>)
    requires
        is_stamp(s, 'T'),
    ensures
        stamp_text(stamp_fields(s), 'T') == s,
{
    assert(is_digit(s[0]) && is_digit(s[1]) && is_digit(s[2]) && is_digit(s[3]));
    assert(is_digit(s[5]) && is_digit(s[6]) && is_digit(s[8]) && is_digit(s[9]));
    assert(is_digit(s[11]) && is_digit(s[12]) && is_digit(s[14]) && is_digit(s[15]));
    lemma_two_text_of_digits(s[0], s[1]);
    lemma_two_text_of_digits(s[2], s[3]);
    lemma_two_text_of_digits(s[5], s[6]);
    lemma_two_text_of_digits(s[8], s[9]);
    lemma_two_text_of_digits(s[11], s[12]);
    lemma_two_text_of_digits(s[14], s[15]);
    let w = stamp_fields(s);
    let hi = two_at(s, 0);
    let lo = two_at(s, 2);
    assert((100 * hi + lo) / 100 == hi);
    assert((100 * hi + lo) % 100 == lo);
    reveal_strlit("-");
    reveal_strlit(":");
    assert(stamp_text(w, 'T') =~= s);
}

/// Whatever a typed start date is accepted as names a real date and time:
/// the input had the form `YYYY-MM-DD HH:MM`, and the timestamp spells a
/// valid calendar day and time of day, with zero seconds and an offset of at
/// most a day.
pub proof fn lemma_accepted_start_date_is_real(input: Seq<char>, out: Seq<char>)
    requires
        is_start_date_of(input, out),
    ensures
        is_stamp(input, ' '),
        out.len() == 25,
        is_stamp(out.take(16), 'T'),
        is_valid(stamp_fields(out.take(16))),
        out.subrange(16, 19) == ":00"@,
        is_offset(out.subrange(19, 25)),
{
    lemma_start_date_round_trip(input, out);
}

} // verus!
