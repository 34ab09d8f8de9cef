//! The battery bucket: a coarse label for a charge percentage.
use vstd::prelude::*;

use crate::text::{i32_value, parse_i32};

verus! {

/// Four ordered buckets of a battery's charge.
#[derive(Clone, Copy, Debug, PartialEq, Eq, Structural)]
pub enum BatteryBucket {
    Low,
    Warn,
    Alright,
    Good,
}

/// The bucket of a percentage: 0 to 25 low, 26 to 50 warn, 51 to 75 alright,
/// 76 to 100 good, and none outside 0 to 100.
pub open spec fn bucket_of(percent: int) -> Option<BatteryBucket> {
    if 0 <= percent <= 25 {
        Some(BatteryBucket::Low)
    } else if 26 <= percent <= 50 {
        Some(BatteryBucket::Warn)
    } else if 51 <= percent <= 75 {
        Some(BatteryBucket::Alright)
    } else if 76 <= percent <= 100 {
        Some(BatteryBucket::Good)
    } else {
        None
    }
}

/// The text of each bucket's label.
pub open spec fn label_text(b: BatteryBucket) -> Seq<char> {
    match b {
        BatteryBucket::Low => "low"@,
        BatteryBucket::Warn => "warn"@,
        BatteryBucket::Alright => "alright"@,
        BatteryBucket::Good => "good"@,
    }
}

/// The text of the line for a percentage, if it gets one.
pub open spec fn battery_text(percent: int) -> Option<Seq<char>> {
    match bucket_of(percent) {
        Some(b) => Some(label_text(b)),
        None => None,
    }
}

/// The characters of an optional line.
pub open spec fn line_view(line: Option<&str>) -> Option<Seq<char>> {
    match line {
        Some(s) => Some(s@),
        None => None,
    }
}

impl BatteryBucket {
    /// The bucket that a percentage falls in, if it lies in 0 to 100.
    pub fn from_percent(percent: i32) -> (r: Option<BatteryBucket>)
        ensures
            r == bucket_of(percent as int),
    {
        if 0 <= percent && percent <= 25 {
            Some(BatteryBucket::Low)
        } else if 26 <= percent && percent <= 50 {
            Some(BatteryBucket::Warn)
        } else if 51 <= percent && percent <= 75 {
            Some(BatteryBucket::Alright)
        } else if 76 <= percent && percent <= 100 {
            Some(BatteryBucket::Good)
        } else {
            None
        }
    }

    /// The label that the bar shows for the bucket.
    pub fn label(&self) -> (r: &'static str)
        ensures
            r@ == label_text(*self),
    {
        match self {
            BatteryBucket::Low => "low",
            BatteryBucket::Warn => "warn",
            BatteryBucket::Alright => "alright",
            BatteryBucket::Good => "good",
        }
    }
}

/// The line shown for a battery percentage: its bucket's label, or nothing
/// outside 0 to 100.
pub fn format_battery_line(percent: i32) -> (r: Option<&'static str>)
    ensures
        line_view(r) == battery_text(percent as int),
{
    match BatteryBucket::from_percent(percent) {
        Some(b) => Some(b.label()),
        None => None,
    }
}

/// What `str::trim` leaves of a text: it drops the white space at both ends,
/// white space being what Unicode's table says it is.
pub uninterp spec fn trimmed(s: Seq<char>) -> Seq<char>;

/// Relies on `str::trim`: the text less its leading and trailing white space.
#[verifier::external_body]
fn trim_text<'a>(s: &'a str) -> (r: &'a str)
    ensures
        r@ == trimmed(s@),
{
    s.trim()
}

/// The percentage that a sensor's text reads as, once trimmed: `None` where
/// the text is no `i32`.
pub fn parse_percent(text: &str) -> (r: Option<i32>)
    ensures
        r == i32_value(trimmed(text@)),
{
    parse_i32(trim_text(text))
}

/// The line shown for a sensor's text: the label of the percentage that it
/// reads as, or nothing where it reads as no number or lies outside 0 to 100.
pub fn format_battery_text(text: &str) -> (r: Option<&'static str>)
    ensures
        line_view(r) == match i32_value(trimmed(text@)) {
            Some(p) => battery_text(p as int),
            None => None,
        },
{
    match parse_percent(text) {
        Some(p) => format_battery_line(p),
        None => None,
    }
}

} // verus!
