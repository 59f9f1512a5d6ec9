use vstd::prelude::*;
use crate::date::{Date, day_key, mdy_date};
use crate::office::{generate_office_id_map, index_of, OfficeIndex, OfficeInfo};
use crate::quota::{bool_from_str, quota_value, QuotaError};
use crate::window::{is_bookable, qualifies};

verus! {

/// A quota record as the feed writes it, its two quotas still as tokens.
#[derive(Clone, Debug)]
pub struct RawRecord {
    pub date: String,
    pub quota_r: String,
    pub office_id: String,
    pub quota_k: String,
}

/// One office's quota status for one day.
#[derive(Clone, Debug)]
pub struct QuotaRecord {
    pub date: String,
    pub office_id: String,
    pub quota_r: bool,
    pub quota_k: bool,
}

/// Decodes the two quota tokens of a record, the first one first.
pub fn decode_record(raw: &RawRecord) -> (r: Result<QuotaRecord, QuotaError>)
    ensures
        quota_value(raw.quota_r@) is None ==> (r matches Err(e) && e.token@ == raw.quota_r@),
        quota_value(raw.quota_r@) is Some && quota_value(raw.quota_k@) is None ==> (
        r matches Err(e) && e.token@ == raw.quota_k@),
        quota_value(raw.quota_r@) is Some && quota_value(raw.quota_k@) is Some ==> (
        r matches Ok(q) && q.date@ == raw.date@ && q.office_id@ == raw.office_id@
            && Some(q.quota_r) == quota_value(raw.quota_r@)
            && Some(q.quota_k) == quota_value(raw.quota_k@)),
{
    let quota_r = match bool_from_str(raw.quota_r.as_str()) {
        Ok(b) => b,
        Err(e) => return Err(e),
    };
    let quota_k = match bool_from_str(raw.quota_k.as_str()) {
        Ok(b) => b,
        Err(e) => return Err(e),
    };
    Ok(QuotaRecord {
        date: raw.date.clone(),
        office_id: raw.office_id.clone(),
        quota_r,
        quota_k,
    })
}

/// An alert for one bookable day at one office.
#[derive(Clone, Debug)]
pub struct Alert {
    pub date: Date,
    pub district: String,
}

/// A condition that ends the monitoring: the feed broke its contract.
#[derive(Clone, Debug)]
pub enum Fatal {
    /// The date text is not `MM/DD/YYYY`.
    BadDate(String),
    /// A bookable record names an office that the office list lacks.
    UnknownOffice(String),
}

/// What becomes of one record, in terms of values.
pub enum Verdict {
    Skip,
    Notify((int, int, int), Seq<char>),
    BadDate,
    UnknownOffice,
}

/// The verdict on a record whose day has already been read.
pub open spec fn verdict_for_day(
    day: (int, int, int),
    quota_r: bool,
    quota_k: bool,
    office_id: Seq<char>,
    index: Map<Seq<char>, Seq<char>>,
) -> Verdict {
    if !qualifies(day_key(day.0, day.1, day.2), quota_r, quota_k) {
        Verdict::Skip
    } else if !index.contains_key(office_id) {
        Verdict::UnknownOffice
    } else {
        Verdict::Notify(day, index[office_id])
    }
}

/// The verdict on a record: its date is read first, then the window and
/// quota rule decides, then the office must be known.
pub open spec fn verdict(rec: QuotaRecord, index: Map<Seq<char>, Seq<char>>) -> Verdict {
    match mdy_date(rec.date@) {
        None => Verdict::BadDate,
        Some(day) => verdict_for_day(day, rec.quota_r, rec.quota_k, rec.office_id@, index),
    }
}

pub open spec fn is_fatal(v: Verdict) -> bool {
    v is BadDate || v is UnknownOffice
}

/// A result that carries out a verdict on `rec`.
pub open spec fn carries_out(r: Result<Option<Alert>, Fatal>, v: Verdict, rec: QuotaRecord) -> bool {
    match v {
        Verdict::Skip => r matches Ok(None),
        Verdict::Notify(day, district) => r matches Ok(Some(a)) && a.date@ == day
            && a.date.wf() && a.district@ == district,
        Verdict::BadDate => r matches Err(Fatal::BadDate(s)) && s@ == rec.date@,
        Verdict::UnknownOffice => r matches Err(Fatal::UnknownOffice(s)) && s@ == rec.office_id@,
    }
}

/// Decides on a record whose day has been read as `date`.
pub fn alert_for(date: &Date, rec: &QuotaRecord, index: &OfficeIndex) -> (r: Result<
    Option<Alert>,
    Fatal,
>)
    requires
        date.wf(),
    ensures
        carries_out(
            r,
            verdict_for_day(date@, rec.quota_r, rec.quota_k, rec.office_id@, index@),
            *rec,
        ),
{
    if !is_bookable(date, rec.quota_r, rec.quota_k) {
        return Ok(None);
    }
    match index.get(&rec.office_id) {
        Some(district) => Ok(Some(Alert { date: *date, district })),
        None => Err(Fatal::UnknownOffice(rec.office_id.clone())),
    }
}

/// Decides on a record: reads its date, then applies the booking rule and
/// resolves its office.
pub fn evaluate_record(rec: &QuotaRecord, index: &OfficeIndex) -> (r: Result<
    Option<Alert>,
    Fatal,
>)
    ensures
        carries_out(r, verdict(*rec, index@), *rec),
{
    match Date::parse_mdy(rec.date.as_str()) {
        Some(date) => alert_for(&date, rec, index),
        None => Err(Fatal::BadDate(rec.date.clone())),
    }
}

/// The alerts that the records give, in order, up to their first fatal
/// verdict.
pub open spec fn alerts_of(
    records: Seq<QuotaRecord>,
    index: Map<Seq<char>, Seq<char>>,
) -> Seq<((int, int, int), Seq<char>)>
    decreases records.len(),
{
    if records.len() == 0 {
        Seq::empty()
    } else {
        let before = alerts_of(records.drop_last(), index);
        match verdict(records.last(), index) {
            Verdict::Notify(day, district) => before.push((day, district)),
            _ => before,
        }
    }
}

/// What one poll of the feed gives: the alerts in order and, where a record
/// broke the feed's contract, the fatal condition that stopped the work.
pub struct CycleReport {
    pub alerts: Vec<Alert>,
    pub fatal: Option<Fatal>,
}

pub open spec fn alert_views(alerts: Seq<Alert>) -> Seq<((int, int, int), Seq<char>)> {
    alerts.map_values(|a: Alert| (a.date@, a.district@))
}

/// Decides on every record in order; the first fatal verdict stops the work,
/// and the alerts before it are kept.
pub fn process_records(records: &Vec<QuotaRecord>, index: &OfficeIndex) -> (r: CycleReport)
    ensures
        forall|j: int| 0 <= j < r.alerts@.len() ==> (#[trigger] r.alerts@[j]).date.wf(),
        r.fatal is None ==> alert_views(r.alerts@) == alerts_of(records@, index@)
            && forall|j: int| 0 <= j < records@.len() ==> !is_fatal(
            #[trigger] verdict(records@[j], index@),
        ),
        r.fatal is Some ==> exists|f: int|
            0 <= f < records@.len() && is_fatal(#[trigger] verdict(records@[f], index@))
                && carries_out(Err(r.fatal->0), verdict(records@[f], index@), records@[f])
                && alert_views(r.alerts@) == alerts_of(records@.take(f), index@)
                && forall|j: int| 0 <= j < f ==> !is_fatal(#[trigger] verdict(records@[j], index@)),
{
    let mut alerts: Vec<Alert> = Vec::new();
    let mut i: usize = 0;
    while i < records.len()
        invariant
            i <= records.len(),
            alert_views(alerts@) == alerts_of(records@.take(i as int), index@),
            forall|j: int| 0 <= j < alerts@.len() ==> (#[trigger] alerts@[j]).date.wf(),
            forall|j: int| 0 <= j < i ==> !is_fatal(#[trigger] verdict(records@[j], index@)),
        decreases records.len() - i,
    {
        let ghost prefix = records@.take(i + 1);
        proof {
            assert(prefix.drop_last() =~= records@.take(i as int));
            assert(prefix.last() == records@[i as int]);
        }
        match evaluate_record(&records[i], index) {
            Ok(Some(a)) => {
                alerts.push(a);
                proof {
                    let f = |a: Alert| (a.date@, a.district@);
                    assert(alerts@.map_values(f).drop_last() =~= alerts@.drop_last().map_values(f));
                    assert(alert_views(alerts@) =~= alerts_of(prefix, index@));
                }
            },
            Ok(None) => {},
            Err(e) => {
                return CycleReport { alerts, fatal: Some(e) };
            },
        }
        i = i + 1;
    }
    assert(records@.take(i as int) =~= records@);
    CycleReport { alerts, fatal: None }
}

/// Both quota tokens of the record are known ones.
pub open spec fn decodes(raw: RawRecord) -> bool {
    quota_value(raw.quota_r@) is Some && quota_value(raw.quota_k@) is Some
}

/// `q` is what `raw` decodes to.
pub open spec fn decoded_as(raw: RawRecord, q: QuotaRecord) -> bool {
    q.date@ == raw.date@ && q.office_id@ == raw.office_id@
        && Some(q.quota_r) == quota_value(raw.quota_r@)
        && Some(q.quota_k) == quota_value(raw.quota_k@)
}

/// The token that decoding `raw` stops on: its first unknown one.
pub open spec fn first_bad_token(raw: RawRecord) -> Seq<char> {
    if quota_value(raw.quota_r@) is None {
        raw.quota_r@
    } else {
        raw.quota_k@
    }
}

/// A decoded poll response: the quota records and the office list.
pub struct ApiResponse {
    pub records: Vec<QuotaRecord>,
    pub offices: Vec<OfficeInfo>,
}

/// Decodes the quota tokens of every record of a response. The first record
/// with an unknown token stops the work, and the error names that token.
pub fn decode_response(raw: &Vec<RawRecord>, offices: Vec<OfficeInfo>) -> (r: Result<
    ApiResponse,
    QuotaError,
>)
    ensures
        r is Ok <==> forall|j: int| 0 <= j < raw@.len() ==> decodes(#[trigger] raw@[j]),
        r matches Ok(resp) ==> resp.offices@ == offices@ && resp.records@.len() == raw@.len()
            && forall|j: int|
            0 <= j < raw@.len() ==> decoded_as(raw@[j], #[trigger] resp.records@[j]),
        r matches Err(e) ==> exists|f: int|
            0 <= f < raw@.len() && !decodes(#[trigger] raw@[f]) && e.token@ == first_bad_token(
                raw@[f],
            ) && forall|j: int| 0 <= j < f ==> decodes(#[trigger] raw@[j]),
{
    let mut records: Vec<QuotaRecord> = Vec::new();
    let mut i: usize = 0;
    while i < raw.len()
        invariant
            i <= raw.len(),
            records@.len() == i,
            forall|j: int| 0 <= j < i ==> decodes(#[trigger] raw@[j]),
            forall|j: int| 0 <= j < i ==> decoded_as(raw@[j], #[trigger] records@[j]),
        decreases raw.len() - i,
    {
        match decode_record(&raw[i]) {
            Ok(q) => records.push(q),
            Err(e) => {
                assert(!decodes(raw@[i as int]));
                return Err(e);
            },
        }
        i = i + 1;
    }
    Ok(ApiResponse { records, offices })
}

/// One poll's work on a decoded response: the office index is built from
/// this response alone, then every record is decided in order.
pub fn handle_response(resp: ApiResponse) -> (r: CycleReport)
    ensures
        forall|j: int| 0 <= j < r.alerts@.len() ==> (#[trigger] r.alerts@[j]).date.wf(),
        r.fatal is None ==> alert_views(r.alerts@) == alerts_of(
            resp.records@,
            index_of(resp.offices@),
        ) && forall|j: int| 0 <= j < resp.records@.len() ==> !is_fatal(
            #[trigger] verdict(resp.records@[j], index_of(resp.offices@)),
        ),
        r.fatal is Some ==> exists|f: int|
            0 <= f < resp.records@.len() && is_fatal(
                #[trigger] verdict(resp.records@[f], index_of(resp.offices@)),
            ) && carries_out(
                Err(r.fatal->0),
                verdict(resp.records@[f], index_of(resp.offices@)),
                resp.records@[f],
            ) && alert_views(r.alerts@) == alerts_of(
                resp.records@.take(f),
                index_of(resp.offices@),
            ) && forall|j: int|
                0 <= j < f ==> !is_fatal(
                    #[trigger] verdict(resp.records@[j], index_of(resp.offices@)),
                ),
{
    let ApiResponse { records, offices } = resp;
    let index = generate_office_id_map(offices);
    process_records(&records, &index)
}

} // verus!
