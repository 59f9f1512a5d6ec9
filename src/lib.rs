//! Watches a booking-availability feed and decides which quota records
//! deserve an alert: quota tokens, the office index, the booking windows,
//! and the text of each alert.

pub mod alert;
pub mod date;
pub mod office;
pub mod poll;
pub mod quota;
pub mod record;
pub mod window;

pub use alert::{banner_lines, BANNER, BOOKING_URL, DATE_LABEL, OFFICE_LABEL, SEPARATOR};
pub use date::{Date, MAX_YEAR, MIN_YEAR};
pub use office::{generate_office_id_map, OfficeIndex, OfficeInfo};
pub use poll::{
    next_action, PollAction, PollEvent, POLL_INTERVAL_SECS, REQUEST_TIMEOUT_SECS, SITUATION_URL,
};
pub use quota::{bool_from_str, QuotaError, QUOTA_GREEN, QUOTA_NONE, QUOTA_RED, QUOTA_YES};
pub use record::{
    alert_for, decode_record, decode_response, evaluate_record, handle_response, process_records,
    Alert, ApiResponse, CycleReport, Fatal, QuotaRecord, RawRecord,
};
pub use window::{is_bookable, WINDOW_A_END, WINDOW_A_START, WINDOW_B_END, WINDOW_B_START};
