use vstd::prelude::*;
use crate::date::{Date, day_key};

verus! {

/// First day of the earlier booking window, as a day key (2023-06-13).
pub const WINDOW_A_START: i64 = 20230613;

/// Last day of the earlier booking window (2023-06-17).
pub const WINDOW_A_END: i64 = 20230617;

/// First day of the later booking window (2023-06-24).
pub const WINDOW_B_START: i64 = 20230624;

/// Last day of the later booking window (2023-07-01).
pub const WINDOW_B_END: i64 = 20230701;

/// The day, given by its key, lies in one of the two booking windows,
/// both ends included.
pub open spec fn in_booking_window(key: int) -> bool {
    (WINDOW_A_START <= key <= WINDOW_A_END) || (WINDOW_B_START <= key <= WINDOW_B_END)
}

/// A record deserves an alert: its day lies in a booking window and at least
/// one of its two quotas is open.
pub open spec fn qualifies(key: int, quota_r: bool, quota_k: bool) -> bool {
    in_booking_window(key) && (quota_r || quota_k)
}

/// Decides whether a day with these two quota flags deserves an alert.
pub fn is_bookable(date: &Date, quota_r: bool, quota_k: bool) -> (r: bool)
    ensures
        r == qualifies(date.key(), quota_r, quota_k),
{
    let key = date.ordinal_key();
    let in_a = WINDOW_A_START <= key && key <= WINDOW_A_END;
    let in_b = WINDOW_B_START <= key && key <= WINDOW_B_END;
    (in_a || in_b) && (quota_r || quota_k)
}

/// No day after the earlier window and before the later one deserves an
/// alert, whatever its quotas say.
pub proof fn lemma_gap_rejected(date: Date, quota_r: bool, quota_k: bool)
    requires
        date.wf(),
        day_key(2023, 6, 17) < date.key() < day_key(2023, 6, 24),
    ensures
        !qualifies(date.key(), quota_r, quota_k),
{
}

/// A day with both quotas closed never deserves an alert, inside a booking
/// window or not.
pub proof fn lemma_closed_quotas_rejected(date: Date)
    requires
        date.wf(),
    ensures
        !qualifies(date.key(), false, false),
{
}

} // verus!
