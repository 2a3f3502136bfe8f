use vstd::prelude::*;
use crate::text::{decimal_with, div_rem_i64, int_decimal, trunc_div};

verus! {

/// The capacity of a disk in whole gibibytes: `<size / 2^30> GB`.
pub fn size_gb_text(size: i64) -> (s: String)
    ensures
        s@ == int_decimal(trunc_div(size as int, 1073741824)) + " GB"@,
{
    let (gb, _) = div_rem_i64(size, 1073741824);
    decimal_with(gb, " GB")
}

/// The rotation rate of a disk: `<rpm> RPM`.
pub fn rotation_text(rpm: i32) -> (s: String)
    ensures
        s@ == int_decimal(rpm as int) + " RPM"@,
{
    decimal_with(rpm as i64, " RPM")
}

/// How SMART monitoring of a disk is shown.
#[derive(Debug)]
pub struct SmartStatus {
    pub enabled: bool,
    pub subtitle: &'static str,
    pub badge: &'static str,
    pub css_class: &'static str,
}

/// SMART monitoring counts as on unless the disk says it is off.
pub fn smart_status(togglesmart: Option<bool>) -> (s: SmartStatus)
    ensures
        s.enabled == (togglesmart != Some(false)),
        s.subtitle@ == (if s.enabled { "Active and monitoring"@ } else { "Disabled — consider enabling"@ }),
        s.badge@ == (if s.enabled { "ON"@ } else { "OFF"@ }),
        s.css_class@ == (if s.enabled { "success"@ } else { "error"@ }),
{
    let enabled = togglesmart.unwrap_or(true);
    if enabled {
        SmartStatus { enabled, subtitle: "Active and monitoring", badge: "ON", css_class: "success" }
    } else {
        SmartStatus { enabled, subtitle: "Disabled — consider enabling", badge: "OFF", css_class: "error" }
    }
}

} // verus!
