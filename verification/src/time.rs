//! Dates of commits: relative ("il y a 2 heures", "2 hours ago") and
//! absolute in the local time zone.

use vstd::prelude::*;
use chrono::{DateTime, Local, TimeZone, Utc};
use crate::i18n::{Language, pick};
use crate::strings::{decimal, push_decimal, push_str};

verus! {

/// Whether `DateTime::<Utc>::from_timestamp(secs, nanos)` is `Some`: the
/// instant lies in chrono's date range and the nanosecond part is valid.
pub uninterp spec fn utc_instant_representable(secs: i64, nanos: u32) -> bool;

/// The whole seconds of `later.signed_duration_since(earlier)` (its
/// `num_seconds()`), both instants given by their UNIX timestamp and
/// sub-second nanoseconds.
pub uninterp spec fn utc_seconds_between(
    later_secs: i64,
    later_nanos: u32,
    earlier_secs: i64,
    earlier_nanos: u32,
) -> i64;

/// The current UTC time (`Utc::now`) as its timestamp and sub-second
/// nanoseconds. The value depends on the clock; chrono documents that
/// `from_timestamp` gives the same instant back from these two numbers.
#[verifier::external_body]
fn utc_now() -> (res: (i64, u32))
    ensures
        utc_instant_representable(res.0, res.1),
{
    let now = Utc::now();
    (now.timestamp(), now.timestamp_subsec_nanos())
}

/// Whether chrono represents the UNIX timestamp `secs` as a UTC date
/// (`DateTime::<Utc>::from_timestamp(secs, 0).is_some()`).
#[verifier::external_body]
fn utc_timestamp_representable(secs: i64) -> (res: bool)
    ensures
        res == utc_instant_representable(secs, 0),
{
    DateTime::<Utc>::from_timestamp(secs, 0).is_some()
}

/// Whole seconds from `earlier` to `later`
/// (`later.signed_duration_since(earlier).num_seconds()`).
#[verifier::external_body]
fn whole_seconds_between(later: (i64, u32), earlier: (i64, u32)) -> (res: i64)
    requires
        utc_instant_representable(later.0, later.1),
        utc_instant_representable(earlier.0, earlier.1),
    ensures
        res == utc_seconds_between(later.0, later.1, earlier.0, earlier.1),
{
    let later = DateTime::<Utc>::from_timestamp(later.0, later.1).unwrap();
    let earlier = DateTime::<Utc>::from_timestamp(earlier.0, earlier.1).unwrap();
    later.signed_duration_since(earlier).num_seconds()
}

/// "il y a N unit" / "N unit ago".
pub open spec fn ago(lang: Language, n: nat, fr_unit: Seq<char>, en_unit: Seq<char>) -> Seq<char> {
    pick(
        lang,
        "il y a "@ + decimal(n) + " "@ + fr_unit,
        decimal(n) + " "@ + en_unit + " ago"@,
    )
}

/// The text of an elapsed time of `seconds` whole seconds. Minutes, hours
/// and days are whole counts; a week is 7 days, a month 30 days and a year
/// 365 days. Anything under a minute, negative values included, is "just
/// now"; a count of one takes the singular.
pub open spec fn duration_text(seconds: int, lang: Language) -> Seq<char> {
    let minutes = seconds / 60;
    let hours = seconds / 3600;
    let days = seconds / 86400;
    let weeks = days / 7;
    let months = days / 30;
    let years = days / 365;
    if seconds < 60 {
        pick(lang, "a l'instant"@, "just now"@)
    } else if minutes < 60 {
        if minutes == 1 {
            pick(lang, "il y a 1 minute"@, "1 minute ago"@)
        } else {
            ago(lang, minutes as nat, "minutes"@, "minutes"@)
        }
    } else if hours < 24 {
        if hours == 1 {
            pick(lang, "il y a 1 heure"@, "1 hour ago"@)
        } else {
            ago(lang, hours as nat, "heures"@, "hours"@)
        }
    } else if days == 1 {
        pick(lang, "hier"@, "yesterday"@)
    } else if days < 7 {
        ago(lang, days as nat, "jours"@, "days"@)
    } else if weeks < 4 {
        if weeks == 1 {
            pick(lang, "il y a 1 semaine"@, "1 week ago"@)
        } else {
            ago(lang, weeks as nat, "semaines"@, "weeks"@)
        }
    } else if months < 12 {
        if months == 1 {
            pick(lang, "il y a 1 mois"@, "1 month ago"@)
        } else {
            ago(lang, months as nat, "mois"@, "months"@)
        }
    } else if years == 1 {
        pick(lang, "il y a 1 an"@, "1 year ago"@)
    } else {
        ago(lang, years as nat, "ans"@, "years"@)
    }
}

fn push_text(s: &mut String, lang: Language, fr: &str, en: &str)
    ensures
        final(s)@ == old(s)@ + pick(lang, fr@, en@),
{
    match lang {
        Language::Fr => push_str(s, fr),
        Language::En => push_str(s, en),
    }
}

fn ago_text(lang: Language, n: u64, fr_unit: &str, en_unit: &str) -> (res: String)
    ensures
        res@ == ago(lang, n as nat, fr_unit@, en_unit@),
{
    let mut s = String::new();
    match lang {
        Language::Fr => {
            push_str(&mut s, "il y a ");
            push_decimal(&mut s, n);
            push_str(&mut s, " ");
            push_str(&mut s, fr_unit);
        },
        Language::En => {
            push_decimal(&mut s, n);
            push_str(&mut s, " ");
            push_str(&mut s, en_unit);
            push_str(&mut s, " ago");
        },
    }
    assert(s@ =~= ago(lang, n as nat, fr_unit@, en_unit@));
    s
}

fn fixed_text(lang: Language, fr: &str, en: &str) -> (res: String)
    ensures
        res@ == pick(lang, fr@, en@),
{
    let mut s = String::new();
    push_text(&mut s, lang, fr, en);
    assert(s@ =~= pick(lang, fr@, en@));
    s
}

/// Formats an elapsed time, given in whole seconds, as a relative date.
pub fn format_duration(seconds: i64, lang: Language) -> (res: String)
    ensures
        res@ == duration_text(seconds as int, lang),
{
    if seconds < 60 {
        return fixed_text(lang, "a l'instant", "just now");
    }
    let minutes = (seconds / 60) as u64;
    let hours = (seconds / 3600) as u64;
    let days = (seconds / 86400) as u64;
    let weeks = days / 7;
    let months = days / 30;
    let years = days / 365;
    if minutes < 60 {
        if minutes == 1 {
            fixed_text(lang, "il y a 1 minute", "1 minute ago")
        } else {
            ago_text(lang, minutes, "minutes", "minutes")
        }
    } else if hours < 24 {
        if hours == 1 {
            fixed_text(lang, "il y a 1 heure", "1 hour ago")
        } else {
            ago_text(lang, hours, "heures", "hours")
        }
    } else if days == 1 {
        fixed_text(lang, "hier", "yesterday")
    } else if days < 7 {
        ago_text(lang, days, "jours", "days")
    } else if weeks < 4 {
        if weeks == 1 {
            fixed_text(lang, "il y a 1 semaine", "1 week ago")
        } else {
            ago_text(lang, weeks, "semaines", "weeks")
        }
    } else if months < 12 {
        if months == 1 {
            fixed_text(lang, "il y a 1 mois", "1 month ago")
        } else {
            ago_text(lang, months, "mois", "months")
        }
    } else if years == 1 {
        fixed_text(lang, "il y a 1 an", "1 year ago")
    } else {
        ago_text(lang, years, "ans", "years")
    }
}

/// Whether `text` is the relative date of the UNIX timestamp `timestamp`:
/// the text of the whole seconds from it to some instant the clock gave (a
/// timestamp chrono cannot represent counting as an instant the clock gave).
pub open spec fn is_relative_date_of(text: Seq<char>, timestamp: i64, lang: Language) -> bool {
    exists|now: (i64, u32), then: (i64, u32)|
        #![trigger utc_seconds_between(now.0, now.1, then.0, then.1)]
        {
            &&& utc_instant_representable(timestamp, 0) ==> then == (timestamp, 0u32)
            &&& text == duration_text(utc_seconds_between(now.0, now.1, then.0, then.1) as int, lang)
        }
}

/// Formats a UNIX timestamp as a date relative to the current time (see
/// `is_relative_date_of`).
pub fn format_relative_time(timestamp: i64, lang: Language) -> (res: String)
    ensures
        is_relative_date_of(res@, timestamp, lang),
{
    let then = if utc_timestamp_representable(timestamp) {
        (timestamp, 0u32)
    } else {
        utc_now()
    };
    let now = utc_now();
    let seconds = whole_seconds_between(now, then);
    format_duration(seconds, lang)
}

/// The proleptic Gregorian date (year, month, day) of the day `days` days
/// after 1970-01-01 (before it when negative), counted in 400-year eras of
/// 146097 days from 0000-03-01.
pub open spec fn civil_from_days(days: int) -> (int, nat, nat) {
    let z = days + 719468;
    let era = z / 146097;
    let doe = z - era * 146097;
    let yoe = (doe - doe / 1460 + doe / 36524 - doe / 146096) / 365;
    let doy = doe - (365 * yoe + yoe / 4 - yoe / 100);
    let mp = (5 * doy + 2) / 153;
    let day = doy - (153 * mp + 2) / 5 + 1;
    let month = if mp < 10 { mp + 3 } else { mp - 9 };
    let year = yoe + era * 400 + (if month <= 2 { 1int } else { 0int });
    (year, month as nat, day as nat)
}

/// "YYYY-MM-DD HH:MM:SS" of the instant `offset` seconds after the UNIX
/// timestamp `timestamp`: the civil date and time of that many seconds from
/// 1970-01-01 00:00:00.
pub open spec fn local_date_time_text(timestamp: int, offset: int) -> Seq<char> {
    let instant = timestamp + offset;
    let days = instant / 86400;
    let second_of_day = instant % 86400;
    let date = civil_from_days(days);
    date_time_text(
        date.0,
        date.1,
        date.2,
        (second_of_day / 3600) as nat,
        ((second_of_day % 3600) / 60) as nat,
        (second_of_day % 60) as nat,
    )
}

/// Whether `text` is the date and time of `timestamp` in some time zone: that
/// of the timestamp shifted by an offset of less than a day either way (the
/// range of chrono's `FixedOffset`).
pub open spec fn is_local_date_time_of(text: Seq<char>, timestamp: i64) -> bool {
    exists|offset: int|
        #![trigger local_date_time_text(timestamp as int, offset)]
        -86400 < offset < 86400 && text == local_date_time_text(timestamp as int, offset)
}

/// The layout of an absolute date: "YYYY-MM-DD HH:MM:SS".
pub const DATE_TIME_PATTERN: &'static str = "%Y-%m-%d %H:%M:%S";

/// A number written on at least `width` digits, zeros in front.
pub open spec fn zero_padded(n: nat, width: nat) -> Seq<char> {
    let d = decimal(n);
    if d.len() >= width {
        d
    } else {
        Seq::new((width - d.len()) as nat, |i: int| '0') + d
    }
}

/// A year as chrono's `%Y` writes it: four digits for the years 0 to 9999,
/// otherwise a sign and at least four digits.
pub open spec fn year_text(year: int) -> Seq<char> {
    if 0 <= year <= 9999 {
        zero_padded(year as nat, 4)
    } else if year > 9999 {
        "+"@ + decimal(year as nat)
    } else {
        "-"@ + zero_padded((-year) as nat, 4)
    }
}

/// "YYYY-MM-DD HH:MM:SS" for the given fields, as chrono writes
/// `%Y-%m-%d %H:%M:%S` (each field but the year on two digits).
pub open spec fn date_time_text(year: int, month: nat, day: nat, hour: nat, minute: nat, second: nat) -> Seq<char> {
    year_text(year) + "-"@ + zero_padded(month, 2) + "-"@ + zero_padded(day, 2) + " "@
        + zero_padded(hour, 2) + ":"@ + zero_padded(minute, 2) + ":"@ + zero_padded(second, 2)
}

/// Whether a text is a date and time laid out as `date_time_text` writes it,
/// with a month, day, hour, minute and second in their ranges (a second of
/// 60 being a leap second).
pub open spec fn is_date_time_text(t: Seq<char>) -> bool {
    exists|year: int, month: nat, day: nat, hour: nat, minute: nat, second: nat|
        #![trigger date_time_text(year, month, day, hour, minute, second)]
        {
            &&& 1 <= month <= 12
            &&& 1 <= day <= 31
            &&& hour < 24
            &&& minute < 60
            &&& second <= 60
            &&& t == date_time_text(year, month, day, hour, minute, second)
        }
}

/// The local date and time of a UNIX timestamp formatted by chrono
/// (`Local.timestamp_opt(timestamp, 0).single()`, then `format(pattern)`).
/// `timestamp_opt` gives a single local time exactly when
/// `DateTime::from_timestamp` represents the timestamp, and that time is the
/// UTC instant shifted by the zone's offset, a `FixedOffset` of less than a
/// day either way; which offset depends on the machine's time zone. The
/// text is laid out as chrono writes this pattern. (chrono panics only when
/// the machine's time zone data cannot give an offset.)
#[verifier::external_body]
fn local_time_text(timestamp: i64, pattern: &str) -> (res: Option<String>)
    requires
        pattern@ == DATE_TIME_PATTERN@,
    ensures
        res is Some <==> utc_instant_representable(timestamp, 0),
        res matches Some(t) ==> is_local_date_time_of(t@, timestamp) && is_date_time_text(t@),
{
    Local.timestamp_opt(timestamp, 0).single().map(|d| d.format(pattern).to_string())
}

/// The current local date and time formatted by chrono
/// (`Local::now().format(pattern)`). Which date and time it shows depends
/// on the clock and the time zone; what is claimed is the layout chrono
/// writes for this pattern.
#[verifier::external_body]
fn local_now_text(pattern: &str) -> (res: String)
    requires
        pattern@ == DATE_TIME_PATTERN@,
    ensures
        is_date_time_text(res@),
{
    Local::now().format(pattern).to_string()
}

/// Formats a UNIX timestamp as the local date and time,
/// "YYYY-MM-DD HH:MM:SS": the timestamp's date and time in the machine's
/// time zone; a timestamp chrono cannot represent shows the current time.
pub fn format_absolute_time(timestamp: i64) -> (res: String)
    ensures
        is_date_time_text(res@),
        utc_instant_representable(timestamp, 0) ==> is_local_date_time_of(res@, timestamp),
{
    match local_time_text(timestamp, DATE_TIME_PATTERN) {
        Some(text) => text,
        None => local_now_text(DATE_TIME_PATTERN),
    }
}

} // verus!
