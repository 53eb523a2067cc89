use vstd::prelude::*;
use vstd::string::*;

use chrono::{Datelike, Timelike};

verus! {

pub open spec fn digit_char(d: nat) -> char {
    if d == 0 {
        '0'
    } else if d == 1 {
        '1'
    } else if d == 2 {
        '2'
    } else if d == 3 {
        '3'
    } else if d == 4 {
        '4'
    } else if d == 5 {
        '5'
    } else if d == 6 {
        '6'
    } else if d == 7 {
        '7'
    } else if d == 8 {
        '8'
    } else {
        '9'
    }
}

/// The decimal digits of `n`, without leading zeros.
pub open spec fn decimal(n: nat) -> Seq<char>
    decreases n,
{
    if n < 10 {
        seq![digit_char(n)]
    } else {
        decimal(n / 10).push(digit_char(n % 10))
    }
}

/// "st", "nd", "rd" or "th": 11, 12 and 13 (and every number ending in them)
/// take "th".
pub open spec fn ordinal_suffix(n: nat) -> Seq<char> {
    if 11 <= n % 100 <= 13 {
        "th"@
    } else if n % 10 == 1 {
        "st"@
    } else if n % 10 == 2 {
        "nd"@
    } else if n % 10 == 3 {
        "rd"@
    } else {
        "th"@
    }
}

pub open spec fn ordinal(n: nat) -> Seq<char> {
    decimal(n) + ordinal_suffix(n)
}

/// `n` (below 100) as two digits.
pub open spec fn two_digits(n: nat) -> Seq<char> {
    if n < 10 {
        "0"@ + decimal(n)
    } else {
        decimal(n)
    }
}

/// `n` zero-padded to four digits.
pub open spec fn four_digits(n: nat) -> Seq<char> {
    if n < 10 {
        "000"@ + decimal(n)
    } else if n < 100 {
        "00"@ + decimal(n)
    } else if n < 1000 {
        "0"@ + decimal(n)
    } else {
        decimal(n)
    }
}

/// A year as the calendar writes it: four digits from 0 to 9999, and a sign
/// before any other.
pub open spec fn year_text(y: int) -> Seq<char> {
    if 0 <= y <= 9999 {
        four_digits(y as nat)
    } else if y > 9999 {
        "+"@ + decimal(y as nat)
    } else {
        "-"@ + four_digits((-y) as nat)
    }
}

/// Weekday names, counted from Monday = 0.
pub open spec fn weekday_name(w: nat) -> Seq<char> {
    if w == 0 {
        "Monday"@
    } else if w == 1 {
        "Tuesday"@
    } else if w == 2 {
        "Wednesday"@
    } else if w == 3 {
        "Thursday"@
    } else if w == 4 {
        "Friday"@
    } else if w == 5 {
        "Saturday"@
    } else {
        "Sunday"@
    }
}

/// Month names, counted from January = 1.
pub open spec fn month_name(m: nat) -> Seq<char> {
    if m == 1 {
        "January"@
    } else if m == 2 {
        "February"@
    } else if m == 3 {
        "March"@
    } else if m == 4 {
        "April"@
    } else if m == 5 {
        "May"@
    } else if m == 6 {
        "June"@
    } else if m == 7 {
        "July"@
    } else if m == 8 {
        "August"@
    } else if m == 9 {
        "September"@
    } else if m == 10 {
        "October"@
    } else if m == 11 {
        "November"@
    } else {
        "December"@
    }
}

/// A local date and time of day.
pub struct Moment {
    pub year: i32,
    pub month: u32,
    pub day: u32,
    /// Days since Monday.
    pub weekday: u32,
    pub hour: u32,
    pub minute: u32,
    pub second: u32,
}

impl Moment {
    pub open spec fn wf(&self) -> bool {
        &&& 1 <= self.month <= 12
        &&& 1 <= self.day <= 31
        &&& self.weekday < 7
        &&& self.hour < 24
        &&& self.minute < 60
        &&& self.second < 60
    }
}

/// "It is 13:05:09 Monday March 3rd 2025".
pub open spec fn time_sentence(m: Moment) -> Seq<char> {
    "It is "@ + two_digits(m.hour as nat) + ":"@ + two_digits(m.minute as nat) + ":"@ + two_digits(
        m.second as nat,
    ) + " "@ + weekday_name(m.weekday as nat) + " "@ + month_name(m.month as nat) + " "@ + ordinal(
        m.day as nat,
    ) + " "@ + year_text(m.year as int)
}

pub open spec fn opt_view(o: Option<String>) -> Option<Seq<char>> {
    match o {
        Some(t) => Some(t@),
        None => None,
    }
}

/// The caption of the searched clip: the custom text when one is given,
/// else "time for <query>".
pub open spec fn query_caption(query: Seq<char>, custom: Option<Seq<char>>) -> Seq<char> {
    match custom {
        Some(t) => t,
        None => "time for "@ + query,
    }
}

fn digit_str(d: u32) -> (r: &'static str)
    requires
        d < 10,
    ensures
        r@ == seq![digit_char(d as nat)],
{
    proof {
        reveal_strlit("0");
        reveal_strlit("1");
        reveal_strlit("2");
        reveal_strlit("3");
        reveal_strlit("4");
        reveal_strlit("5");
        reveal_strlit("6");
        reveal_strlit("7");
        reveal_strlit("8");
        reveal_strlit("9");
    }
    match d {
        0 => "0",
        1 => "1",
        2 => "2",
        3 => "3",
        4 => "4",
        5 => "5",
        6 => "6",
        7 => "7",
        8 => "8",
        _ => "9",
    }
}

/// Appends the decimal digits of `n` to `s`.
pub fn push_decimal(s: &mut String, n: u32)
    ensures
        final(s)@ == old(s)@ + decimal(n as nat),
    decreases n,
{
    if n >= 10 {
        push_decimal(s, n / 10);
    }
    s.append(digit_str(n % 10));
    assert(decimal(n as nat) =~= if n < 10 {
        seq![digit_char(n as nat)]
    } else {
        decimal((n / 10) as nat).push(digit_char((n % 10) as nat))
    });
}

/// The day of the month as an ordinal number: 1st, 2nd, 3rd, 4th, 11th, 21st.
pub fn ordinal_day(n: u32) -> (r: String)
    ensures
        r@ == ordinal(n as nat),
{
    let mut r = String::new();
    push_decimal(&mut r, n);
    let tens = n % 100;
    let ones = n % 10;
    if 11 <= tens && tens <= 13 {
        r.append("th");
    } else if ones == 1 {
        r.append("st");
    } else if ones == 2 {
        r.append("nd");
    } else if ones == 3 {
        r.append("rd");
    } else {
        r.append("th");
    }
    r
}

fn push_two_digits(s: &mut String, n: u32)
    requires
        n < 100,
    ensures
        final(s)@ == old(s)@ + two_digits(n as nat),
{
    if n < 10 {
        s.append("0");
    }
    push_decimal(s, n);
}

fn push_four_digits(s: &mut String, n: u32)
    ensures
        final(s)@ == old(s)@ + four_digits(n as nat),
{
    if n < 10 {
        s.append("000");
    } else if n < 100 {
        s.append("00");
    } else if n < 1000 {
        s.append("0");
    }
    push_decimal(s, n);
}

fn push_year(s: &mut String, y: i32)
    ensures
        final(s)@ == old(s)@ + year_text(y as int),
{
    if y > 9999 {
        s.append("+");
        push_decimal(s, y as u32);
    } else if y >= 0 {
        push_four_digits(s, y as u32);
    } else {
        s.append("-");
        let magnitude: i64 = -(y as i64);
        push_four_digits(s, magnitude as u32);
    }
}

fn weekday_str(w: u32) -> (r: &'static str)
    ensures
        r@ == weekday_name(w as nat),
{
    match w {
        0 => "Monday",
        1 => "Tuesday",
        2 => "Wednesday",
        3 => "Thursday",
        4 => "Friday",
        5 => "Saturday",
        _ => "Sunday",
    }
}

fn month_str(m: u32) -> (r: &'static str)
    ensures
        r@ == month_name(m as nat),
{
    match m {
        1 => "January",
        2 => "February",
        3 => "March",
        4 => "April",
        5 => "May",
        6 => "June",
        7 => "July",
        8 => "August",
        9 => "September",
        10 => "October",
        11 => "November",
        _ => "December",
    }
}

/// The sentence that captions the clock clip.
pub fn time_text(m: &Moment) -> (r: String)
    requires
        m.wf(),
    ensures
        r@ == time_sentence(*m),
{
    let mut r = String::from_str("It is ");
    push_two_digits(&mut r, m.hour);
    r.append(":");
    push_two_digits(&mut r, m.minute);
    r.append(":");
    push_two_digits(&mut r, m.second);
    r.append(" ");
    r.append(weekday_str(m.weekday));
    r.append(" ");
    r.append(month_str(m.month));
    r.append(" ");
    let day = ordinal_day(m.day);
    r.append(day.as_str());
    r.append(" ");
    push_year(&mut r, m.year);
    r
}

/// The caption of the searched clip.
pub fn query_text(query: &str, custom_text: &Option<String>) -> (r: String)
    ensures
        r@ == query_caption(query@, opt_view(*custom_text)),
{
    match custom_text {
        Some(t) => t.clone(),
        None => {
            let mut r = String::from_str("time for ");
            r.append(query);
            r
        },
    }
}

/// Relies on chrono's `Local::now` and `DateTime + TimeDelta`: the local
/// time `delay_secs` seconds from now, read field by field. Chrono's months,
/// days, weekdays, hours, minutes and seconds stay in their calendar ranges
/// (a leap second shows as second 59), and a shift of at most `u32::MAX`
/// seconds stays far inside chrono's range of years, so nothing panics.
#[verifier::external_body]
fn local_time_after(delay_secs: u32) -> (m: Moment)
    ensures
        m.wf(),
{
    let t = chrono::Local::now() + chrono::TimeDelta::seconds(delay_secs as i64);
    Moment {
        year: t.year(),
        month: t.month(),
        day: t.day(),
        weekday: t.weekday().num_days_from_monday(),
        hour: t.hour(),
        minute: t.minute(),
        second: t.second(),
    }
}

/// The sentence for the local time `delay_secs` seconds from now.
pub fn current_time_text(delay_secs: u32) -> (r: String)
    ensures
        exists|m: Moment| m.wf() && r@ == time_sentence(m),
{
    let m = local_time_after(delay_secs);
    time_text(&m)
}

} // verus!
