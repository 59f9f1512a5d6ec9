use slot_watch::{
    alert_for, banner_lines, bool_from_str, decode_record, decode_response, evaluate_record,
    generate_office_id_map, handle_response, is_bookable, next_action, process_records, Alert,
    ApiResponse, Date, Fatal, OfficeIndex, OfficeInfo, PollAction, PollEvent, QuotaRecord,
    RawRecord, BANNER, BOOKING_URL, SEPARATOR,
};

fn office(id: &str, district: &str) -> OfficeInfo {
    OfficeInfo { office_id: id.to_string(), district: district.to_string() }
}

fn record(date: &str, office_id: &str, quota_r: bool, quota_k: bool) -> QuotaRecord {
    QuotaRecord { date: date.to_string(), office_id: office_id.to_string(), quota_r, quota_k }
}

fn raw(date: &str, quota_r: &str, office_id: &str, quota_k: &str) -> RawRecord {
    RawRecord {
        date: date.to_string(),
        quota_r: quota_r.to_string(),
        office_id: office_id.to_string(),
        quota_k: quota_k.to_string(),
    }
}

fn day(y: i32, m: u32, d: u32) -> Date {
    Date::from_ymd(y, m, d).unwrap()
}

#[test]
fn quota_tokens_decode() {
    assert!(matches!(bool_from_str("quota-y"), Ok(true)));
    assert!(matches!(bool_from_str("quota-g"), Ok(true)));
    assert!(matches!(bool_from_str("quota-non"), Ok(false)));
    assert!(matches!(bool_from_str("quota-r"), Ok(false)));
}

#[test]
fn unknown_quota_token_is_named() {
    for bad in ["quota-x", "", "QUOTA-Y", "quota-y "] {
        let e = bool_from_str(bad).unwrap_err();
        assert_eq!(e.token, bad);
        assert_eq!(e.message(), format!("unknown quota token: \"{}\"", bad));
    }
}

#[test]
fn dates_between_windows_rejected() {
    for d in 18..=23 {
        let date = day(2023, 6, d);
        for (r, k) in [(false, false), (true, false), (false, true), (true, true)] {
            assert!(!is_bookable(&date, r, k));
        }
    }
}

#[test]
fn closed_quotas_rejected_in_windows() {
    for date in [day(2023, 6, 13), day(2023, 6, 15), day(2023, 6, 17), day(2023, 6, 24),
        day(2023, 6, 30), day(2023, 7, 1)]
    {
        assert!(!is_bookable(&date, false, false));
        assert!(is_bookable(&date, true, false));
        assert!(is_bookable(&date, false, true));
    }
}

#[test]
fn window_edges() {
    assert!(!is_bookable(&day(2023, 6, 12), true, true));
    assert!(!is_bookable(&day(2023, 7, 2), true, true));
    assert!(!is_bookable(&day(2024, 6, 14), true, true));
    assert!(!is_bookable(&day(2022, 6, 14), true, true));
}

#[test]
fn window_a_accepts_and_renders_date() {
    let index = generate_office_id_map(vec![office("O1", "Central")]);
    let rec = record("06/14/2023", "O1", true, false);
    let alert = evaluate_record(&rec, &index).unwrap().unwrap();
    assert_eq!(alert.date, day(2023, 6, 14));
    assert_eq!(alert.date.to_iso_string(), "2023-06-14");
    let direct = alert_for(&day(2023, 6, 14), &rec, &index).unwrap().unwrap();
    assert_eq!(direct.district, "Central");
}

#[test]
fn office_index_last_write_wins() {
    let index = generate_office_id_map(vec![office("A", "X"), office("A", "Y")]);
    assert_eq!(index.get(&"A".to_string()), Some("Y".to_string()));
    assert_eq!(index.get(&"B".to_string()), None);
}

#[test]
fn office_index_insert_and_get() {
    let mut index = OfficeIndex::new();
    assert_eq!(index.get(&"A".to_string()), None);
    index.insert("A".to_string(), "X".to_string());
    index.insert("B".to_string(), "Z".to_string());
    index.insert("A".to_string(), "Y".to_string());
    assert_eq!(index.get(&"A".to_string()), Some("Y".to_string()));
    assert_eq!(index.get(&"B".to_string()), Some("Z".to_string()));
}

#[test]
fn end_to_end_single_alert() {
    let raws = vec![raw("06/13/2023", "quota-y", "O1", "quota-non")];
    let resp = decode_response(&raws, vec![office("O1", "Central")]).unwrap();
    let report = handle_response(resp);
    assert!(report.fatal.is_none());
    assert_eq!(report.alerts.len(), 1);
    let lines = banner_lines(&report.alerts[0]);
    let text = lines.join("\n");
    assert!(text.contains("2023-06-13"));
    assert!(text.contains("Central"));
    assert_eq!(text.matches(BANNER).count(), 1);
}

#[test]
fn non_success_status_skips_cycle() {
    assert_eq!(next_action(PollEvent::Responded(503)), PollAction::SkipCycle);
    assert_eq!(next_action(PollEvent::Responded(404)), PollAction::SkipCycle);
    assert_eq!(next_action(PollEvent::Responded(301)), PollAction::SkipCycle);
    assert_eq!(next_action(PollEvent::TransportFailed), PollAction::SkipCycle);
    assert_eq!(next_action(PollEvent::Responded(200)), PollAction::ReadBody);
    assert_eq!(next_action(PollEvent::Responded(204)), PollAction::ReadBody);
}

#[test]
fn unknown_office_is_fatal() {
    let resp = ApiResponse {
        records: vec![record("06/13/2023", "O9", true, false)],
        offices: vec![office("O1", "Central")],
    };
    let report = handle_response(resp);
    assert!(report.alerts.is_empty());
    match report.fatal {
        Some(Fatal::UnknownOffice(id)) => assert_eq!(id, "O9"),
        other => panic!("expected an unknown office, got {:?}", other),
    }
}

#[test]
fn unknown_office_of_rejected_record_is_ignored() {
    let index = generate_office_id_map(vec![office("O1", "Central")]);
    let rec = record("06/20/2023", "O9", true, true);
    assert!(matches!(evaluate_record(&rec, &index), Ok(None)));
}

#[test]
fn bad_date_is_fatal() {
    let index = generate_office_id_map(vec![office("O1", "Central")]);
    for text in ["2023-06-13", "13/06/2023", "02/30/2023", ""] {
        match evaluate_record(&record(text, "O1", true, true), &index) {
            Err(Fatal::BadDate(t)) => assert_eq!(t, text),
            other => panic!("expected a bad date for {:?}, got {:?}", text, other),
        }
    }
}

#[test]
fn alerts_before_fatal_are_kept() {
    let index = generate_office_id_map(vec![office("O1", "Central"), office("O2", "Kowloon")]);
    let records = vec![
        record("06/13/2023", "O1", true, false),
        record("06/20/2023", "O1", true, true),
        record("06/25/2023", "O2", false, true),
        record("06/26/2023", "O3", true, true),
        record("06/27/2023", "O1", true, true),
    ];
    let report = process_records(&records, &index);
    assert_eq!(report.alerts.len(), 2);
    assert_eq!(report.alerts[0].district, "Central");
    assert_eq!(report.alerts[1].district, "Kowloon");
    assert_eq!(report.alerts[1].date, day(2023, 6, 25));
    assert!(matches!(report.fatal, Some(Fatal::UnknownOffice(ref id)) if id == "O3"));
}

#[test]
fn decode_record_maps_tokens() {
    let q = decode_record(&raw("06/13/2023", "quota-g", "O1", "quota-r")).unwrap();
    assert!(q.quota_r);
    assert!(!q.quota_k);
    assert_eq!(q.office_id, "O1");
    assert_eq!(q.date, "06/13/2023");
}

#[test]
fn decode_response_names_first_bad_token() {
    let raws = vec![
        raw("06/13/2023", "quota-y", "O1", "quota-non"),
        raw("06/14/2023", "quota-y", "O1", "quota-maybe"),
        raw("06/15/2023", "bogus", "O1", "quota-non"),
    ];
    let e = decode_response(&raws, vec![]).err().unwrap();
    assert_eq!(e.token, "quota-maybe");
}

#[test]
fn banner_layout() {
    let alert = Alert { date: day(2023, 7, 1), district: "Tuen Mun".to_string() };
    let lines = banner_lines(&alert);
    assert_eq!(lines.len(), 7);
    assert_eq!(lines[0], SEPARATOR);
    assert_eq!(lines[1], SEPARATOR);
    assert_eq!(lines[2], BANNER);
    assert_eq!(lines[3], "Date: 2023-07-01");
    assert_eq!(lines[4], "Office: Tuen Mun");
    assert_eq!(lines[5], BOOKING_URL);
    assert_eq!(lines[6], SEPARATOR);
}

#[test]
fn date_parsing_and_rendering() {
    let d = Date::parse_mdy("12/31/2024").unwrap();
    assert_eq!((d.year, d.month, d.day), (2024, 12, 31));
    assert_eq!(d.to_iso_string(), "2024-12-31");
    assert_eq!(Date::parse_mdy("02/29/2024"), Some(day(2024, 2, 29)));
    assert_eq!(Date::parse_mdy("02/29/2023"), None);
    assert_eq!(day(5, 3, 7).to_iso_string(), "0005-03-07");
    assert_eq!(day(2023, 6, 14).ordinal_key(), 20230614);
}

#[test]
fn from_ymd_checks_calendar() {
    assert!(Date::from_ymd(2023, 2, 29).is_none());
    assert!(Date::from_ymd(2000, 2, 29).is_some());
    assert!(Date::from_ymd(1900, 2, 29).is_none());
    assert!(Date::from_ymd(2023, 4, 31).is_none());
    assert!(Date::from_ymd(2023, 13, 1).is_none());
    assert!(Date::from_ymd(2023, 1, 0).is_none());
    assert!(Date::from_ymd(262143, 1, 1).is_none());
    assert!(Date::from_ymd(262142, 12, 31).is_some());
}
