use vstd::prelude::*;
use crate::date::iso_text;
use crate::record::Alert;

verus! {

/// The rule printed above and below each alert.
pub const SEPARATOR: &'static str = "**********************************************";

/// The line that announces open slots.
pub const BANNER: &'static str = "BOOKING AVAILABLE DIU DIU DIU DIU DIU DIU";

/// Where a booking is made.
pub const BOOKING_URL: &'static str =
    "https://www.gov.hk/tc/residents/immigration/idcard/hkic/bookregidcard.htm";

/// Label before the alert's day.
pub const DATE_LABEL: &'static str = "Date: ";

/// Label before the alert's district.
pub const OFFICE_LABEL: &'static str = "Office: ";

/// The lines of an alert, top to bottom: two rules, the banner, the day,
/// the district, the booking link and a closing rule.
pub fn banner_lines(alert: &Alert) -> (r: Vec<String>)
    requires
        alert.date.wf(),
    ensures
        r@.len() == 7,
        r@[0]@ == SEPARATOR@,
        r@[1]@ == SEPARATOR@,
        r@[2]@ == BANNER@,
        0 <= alert.date.year <= 9999 ==> r@[3]@ == DATE_LABEL@ + iso_text(
            alert.date.year as int,
            alert.date.month as int,
            alert.date.day as int,
        ),
        r@[4]@ == OFFICE_LABEL@ + alert.district@,
        r@[5]@ == BOOKING_URL@,
        r@[6]@ == SEPARATOR@,
{
    let mut lines: Vec<String> = Vec::new();
    lines.push(String::from_str(SEPARATOR));
    lines.push(String::from_str(SEPARATOR));
    lines.push(String::from_str(BANNER));
    lines.push(String::from_str(DATE_LABEL).concat(alert.date.to_iso_string().as_str()));
    lines.push(String::from_str(OFFICE_LABEL).concat(alert.district.as_str()));
    lines.push(String::from_str(BOOKING_URL));
    lines.push(String::from_str(SEPARATOR));
    lines
}

} // verus!
