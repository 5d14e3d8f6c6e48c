use std::fmt::Write;

use vstd::prelude::*;

verus! {

/// The UTC date and time `secs` seconds after 1970-01-01 00:00:00, written by `chrono` with
/// the `strftime`-style format `fmt`; `None` when `chrono` cannot represent that instant or
/// `fmt` holds a specifier it does not know.
pub uninterp spec fn utc_text(secs: int, fmt: Seq<char>) -> Option<Seq<char>>;

/// `chrono::DateTime::from_timestamp(secs, 0)`, written with `DateTime::format(fmt)`. The
/// contract only names the text: the calendar arithmetic and the format specifiers are
/// `chrono`'s. It states no range on which the text exists, since that depends on `fmt` too.
#[verifier::external_body]
fn utc_datetime_text(secs: i64, fmt: &str) -> (r: Option<String>)
    ensures
        r.deep_view() == utc_text(secs as int, fmt@),
{
    let t = chrono::DateTime::from_timestamp(secs, 0)?;
    let mut s = String::new();
    write!(s, "{}", t.format(fmt)).ok()?;
    Some(s)
}

/// How update times are written: `YYYY-MM-DD HH:MM:SS`.
pub const TIME_FORMAT: &'static str = "%Y-%m-%d %H:%M:%S";

/// A modification time in seconds since 1970 read as a signed count, as a 64-bit cast does.
pub open spec fn as_signed(secs: u64) -> int {
    if secs <= i64::MAX {
        secs as int
    } else {
        secs - 0x1_0000_0000_0000_0000
    }
}

/// The line that tells when a city's data was last updated, given the written time.
pub open spec fn time_line_text(name: Seq<char>, time: Option<Seq<char>>) -> Option<Seq<char>> {
    match time {
        Some(t) => Some("City: "@ + name + ", Time: "@ + t),
        None => None,
    }
}

/// The line that tells when a city's data was last updated.
pub open spec fn city_time_text(name: Seq<char>, modified_secs: u64) -> Option<Seq<char>> {
    time_line_text(name, utc_text(as_signed(modified_secs), TIME_FORMAT@))
}

/// The line that tells that the data of the city `name` was last updated at the time written
/// `time`; `None` when the time could not be written.
pub fn time_line(name: &str, time: Option<String>) -> (r: Option<String>)
    ensures
        r.deep_view() == time_line_text(name@, time.deep_view()),
{
    match time {
        Some(t) => {
            let mut s = String::from_str("City: ");
            s.append(name);
            s.append(", Time: ");
            s.append(t.as_str());
            Some(s)
        },
        None => None,
    }
}

/// The line that tells that the data of the city `name` was last updated `modified_secs`
/// seconds after 1970 (UTC); `None` when the calendar cannot write that instant.
pub fn city_time_line(name: &str, modified_secs: u64) -> (r: Option<String>)
    ensures
        r.deep_view() == city_time_text(name@, modified_secs),
{
    let secs: i64 = if modified_secs <= 9223372036854775807u64 {
        modified_secs as i64
    } else {
        let above: u64 = modified_secs - 9223372036854775808u64;
        (above as i64) - 9223372036854775807i64 - 1
    };
    assert(secs as int == as_signed(modified_secs));
    time_line(name, utc_datetime_text(secs, TIME_FORMAT))
}

} // verus!
