use chrono::{Duration, Utc};
use git_sv::i18n::Language;
use git_sv::time::{format_duration, format_relative_time};

#[test]
fn test_format_relative_time_now() {
    let now = Utc::now().timestamp();
    assert_eq!(format_relative_time(now, Language::Fr), "a l'instant");
}

#[test]
fn test_format_relative_time_minutes() {
    let five_min_ago = (Utc::now() - Duration::minutes(5)).timestamp();
    assert_eq!(format_relative_time(five_min_ago, Language::Fr), "il y a 5 minutes");
}

#[test]
fn test_format_relative_time_hours() {
    let two_hours_ago = (Utc::now() - Duration::hours(2)).timestamp();
    assert_eq!(format_relative_time(two_hours_ago, Language::Fr), "il y a 2 heures");
}

#[test]
fn test_format_relative_time_yesterday() {
    let yesterday = (Utc::now() - Duration::days(1)).timestamp();
    assert_eq!(format_relative_time(yesterday, Language::Fr), "hier");
}

#[test]
fn test_format_relative_time_days() {
    let three_days_ago = (Utc::now() - Duration::days(3)).timestamp();
    assert_eq!(format_relative_time(three_days_ago, Language::Fr), "il y a 3 jours");
}

#[test]
fn test_format_relative_time_weeks() {
    let two_weeks_ago = (Utc::now() - Duration::weeks(2)).timestamp();
    assert_eq!(format_relative_time(two_weeks_ago, Language::Fr), "il y a 2 semaines");
}

#[test]
fn test_format_relative_time_months() {
    let two_months_ago = (Utc::now() - Duration::days(60)).timestamp();
    assert_eq!(format_relative_time(two_months_ago, Language::Fr), "il y a 2 mois");
}

#[test]
fn test_format_relative_time_years() {
    let two_years_ago = (Utc::now() - Duration::days(730)).timestamp();
    assert_eq!(format_relative_time(two_years_ago, Language::Fr), "il y a 2 ans");
}

#[test]
fn unrepresentable_timestamp_counts_as_now() {
    assert_eq!(format_relative_time(i64::MAX, Language::En), "just now");
    assert_eq!(format_relative_time(i64::MIN, Language::Fr), "a l'instant");
}

#[test]
fn duration_text_boundaries() {
    assert_eq!(format_duration(-5, Language::En), "just now");
    assert_eq!(format_duration(59, Language::En), "just now");
    assert_eq!(format_duration(60, Language::En), "1 minute ago");
    assert_eq!(format_duration(119, Language::Fr), "il y a 1 minute");
    assert_eq!(format_duration(120, Language::En), "2 minutes ago");
    assert_eq!(format_duration(3599, Language::En), "59 minutes ago");
    assert_eq!(format_duration(3600, Language::Fr), "il y a 1 heure");
    assert_eq!(format_duration(7200, Language::En), "2 hours ago");
    assert_eq!(format_duration(86399, Language::En), "23 hours ago");
    assert_eq!(format_duration(86400, Language::En), "yesterday");
    assert_eq!(format_duration(2 * 86400, Language::En), "2 days ago");
    assert_eq!(format_duration(7 * 86400, Language::En), "1 week ago");
    assert_eq!(format_duration(27 * 86400, Language::Fr), "il y a 3 semaines");
    assert_eq!(format_duration(28 * 86400, Language::En), "0 months ago");
    assert_eq!(format_duration(30 * 86400, Language::En), "1 month ago");
    assert_eq!(format_duration(359 * 86400, Language::En), "11 months ago");
    assert_eq!(format_duration(360 * 86400, Language::Fr), "il y a 0 ans");
    assert_eq!(format_duration(365 * 86400, Language::En), "1 year ago");
    assert_eq!(format_duration(3650 * 86400, Language::Fr), "il y a 10 ans");
    assert_eq!(format_duration(i64::MAX, Language::En), "292471208677 years ago");
}
