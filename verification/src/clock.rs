//! Timestamps.
//!
//! The current time comes from the `chrono` crate; since it differs from
//! call to call, the wrappers promise nothing about the value. Parsing a
//! timestamp, by contrast, is a pure function of its text, so its result
//! gets a name that contracts can build on.

use std::time::SystemTime;
use vstd::prelude::*;
use vstd::string::*;
use crate::strutil::u64_to_dec;
use crate::strutil::dec_chars;

verus! {

/// Relies on `chrono::Utc::now` and `DateTime::to_rfc3339`: an RFC 3339
/// rendering of the current time. The value depends on the clock, so
/// nothing is promised beyond it being non-empty.
#[verifier::external_body]
pub fn now_iso() -> (r: String)
    ensures
        r@.len() > 0,
{
    chrono::Utc::now().to_rfc3339()
}

/// Relies on `chrono::Utc::now` and `DateTime::timestamp_millis`: the
/// current time in Unix milliseconds. Depends on the clock; nothing is
/// promised about the value.
#[verifier::external_body]
pub fn now_timestamp() -> (r: i64)
{
    chrono::Utc::now().timestamp_millis()
}

/// The Unix-millisecond reading of an RFC 3339 timestamp, or nothing when
/// the text does not parse; what `chrono::DateTime::parse_from_rfc3339`
/// followed by `timestamp_millis` returns, a function of the text alone.
pub uninterp spec fn iso_millis(s: Seq<char>) -> Option<i64>;

/// Relies on `chrono::DateTime::parse_from_rfc3339` and
/// `timestamp_millis`: both are functions of the input text alone.
#[verifier::external_body]
pub fn parse_iso(iso: &str) -> (r: Option<i64>)
    ensures
        r == iso_millis(iso@),
{
    chrono::DateTime::parse_from_rfc3339(iso).ok().map(|dt| dt.timestamp_millis())
}

/// The wording used for a positive time difference of the given whole
/// seconds: the largest coarse unit is chosen, and the unit word is
/// pluralised exactly when its count is not one.
pub open spec fn relative_label_spec(seconds: nat) -> Seq<char> {
    if seconds < 60 {
        "just now"@
    } else if seconds / 60 < 60 {
        counted_label(seconds / 60, " minute"@)
    } else if seconds / 3600 < 24 {
        counted_label(seconds / 3600, " hour"@)
    } else if seconds / 86400 < 30 {
        counted_label(seconds / 86400, " day"@)
    } else if seconds / 86400 / 30 < 12 {
        counted_label(seconds / 86400 / 30, " month"@)
    } else {
        counted_label(seconds / 86400 / 30 / 12, " year"@)
    }
}

/// `<count><unit>[s] ago`, pluralised exactly when `count != 1`.
pub open spec fn counted_label(count: nat, unit: Seq<char>) -> Seq<char> {
    dec_chars(count) + unit + (if count == 1 { Seq::<char>::empty() } else { "s"@ }) + " ago"@
}

fn render_counted(count: u64, unit: &str) -> (r: String)
    ensures
        r@ == counted_label(count as nat, unit@),
{
    let mut s = u64_to_dec(count);
    s.append(unit);
    if count != 1 {
        s.append("s");
    }
    s.append(" ago");
    proof {
        if count == 1 {
            assert(dec_chars(count as nat) + unit@ + Seq::<char>::empty() + " ago"@ =~= dec_chars(
                count as nat,
            ) + unit@ + " ago"@);
        }
    }
    s
}

/// Renders the label for a difference of `seconds` whole seconds.
pub fn relative_label(seconds: u64) -> (r: String)
    ensures
        r@ == relative_label_spec(seconds as nat),
{
    if seconds < 60 {
        "just now".to_owned()
    } else {
        let minutes = seconds / 60;
        if minutes < 60 {
            render_counted(minutes, " minute")
        } else {
            let hours = minutes / 60;
            proof {
                assert(seconds as nat / 3600 == seconds as nat / 60 / 60) by (nonlinear_arith);
            }
            if hours < 24 {
                render_counted(hours, " hour")
            } else {
                let days = hours / 24;
                proof {
                    assert(seconds as nat / 86400 == seconds as nat / 60 / 60 / 24)
                        by (nonlinear_arith);
                }
                if days < 30 {
                    render_counted(days, " day")
                } else {
                    let months = days / 30;
                    if months < 12 {
                        render_counted(months, " month")
                    } else {
                        render_counted(months / 12, " year")
                    }
                }
            }
        }
    }
}

/// Describes how long ago the given RFC 3339 timestamp lies, against the
/// clock reading `now_ms`. Unparseable text comes back unchanged; a
/// timestamp after `now_ms` reads "in the future".
pub fn relative_time_at(iso: &str, now_ms: i64) -> (r: String)
    ensures
        iso_millis(iso@) is None ==> r@ == iso@,
        iso_millis(iso@) matches Some(then) ==> (now_ms < then ==> r@ == "in the future"@),
        iso_millis(iso@) matches Some(then) ==> (now_ms >= then ==> r@ == relative_label_spec(
            (((now_ms - then) / 1000) as nat),
        )),
{
    match parse_iso(iso) {
        None => iso.to_owned(),
        Some(then) => {
            if now_ms < then {
                "in the future".to_owned()
            } else {
                let diff_ms: i128 = (now_ms as i128) - (then as i128);
                let seconds_wide: i128 = diff_ms / 1000;
                proof {
                    assert(diff_ms / 1000 <= diff_ms) by (nonlinear_arith)
                        requires diff_ms >= 0;
                }
                relative_label(seconds_wide as u64)
            }
        },
    }
}

/// What `relative_time` may answer for a timestamp reading `then`
/// against a clock reading `now_ms`.
pub open spec fn relative_reading(then: i64, now_ms: i64, r: Seq<char>) -> bool {
    ||| now_ms < then && r == "in the future"@
    ||| now_ms >= then && r == relative_label_spec((((now_ms - then) / 1000) as nat))
}

/// Describes how long ago the given RFC 3339 timestamp lies, read against
/// the current clock: whatever the clock said, the result is what
/// `relative_time_at` yields for that reading.
pub fn relative_time(iso: &str) -> (r: String)
    ensures
        iso_millis(iso@) is None ==> r@ == iso@,
        iso_millis(iso@) matches Some(then) ==> exists|now_ms: i64|
            #[trigger] relative_reading(then, now_ms, r@),
{
    let now_ms = now_timestamp();
    let r = relative_time_at(iso, now_ms);
    proof {
        if iso_millis(iso@) is Some {
            let then = iso_millis(iso@).unwrap();
            assert(relative_reading(then, now_ms, r@));
        }
    }
    r
}

/// Relies on `std::time::SystemTime::now` and `duration_since`: whole
/// seconds of the Unix clock, and zero should the clock read before the
/// epoch. Depends on the clock; nothing is promised about the value.
#[verifier::external_body]
fn system_now_secs() -> (r: u64)
{
    match SystemTime::now().duration_since(SystemTime::UNIX_EPOCH) {
        Ok(d) => d.as_secs(),
        Err(_) => 0,
    }
}

/// The current Unix time in milliseconds, rendered as a decimal string;
/// the value saturates rather than overflowing.
pub fn chrono_now() -> (r: String)
    ensures
        exists|ms: u64| r@ == dec_chars(ms as nat),
{
    let secs = system_now_secs();
    let ms: u64 = if secs <= u64::MAX / 1000 {
        secs * 1000
    } else {
        u64::MAX
    };
    let r = u64_to_dec(ms);
    proof {
        assert(r@ == dec_chars(ms as nat));
    }
    r
}

} // verus!
