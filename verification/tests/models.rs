use chrono::{Offset, TimeZone};
use cliproxy_admin::models::{
    format_ts, ApiKeyDto, ApiKeyRecord, ApiKeyStatus, ListFilter, ListKeysQuery, UsageEventDto,
    UsageEventRecord, MAX_TIMESTAMP, MIN_TIMESTAMP,
};

fn stored_key(status: &str, limit: i64, consumed: i64) -> ApiKeyRecord {
    ApiKeyRecord {
        id: "id".into(),
        name: "n".into(),
        api_key: "cpa_k".into(),
        token_limit: limit,
        consumed_tokens: consumed,
        status: status.into(),
        disabled_reason: None,
        notes: Some("x".into()),
        created_at: 0,
        updated_at: 60,
        disabled_at: None,
        deleted_at: None,
    }
}

#[test]
fn status_text_and_parse() {
    assert_eq!(ApiKeyStatus::Active.as_str(), "active");
    assert_eq!(ApiKeyStatus::Disabled.as_str(), "disabled");
    assert_eq!(ApiKeyStatus::Deleted.as_str(), "deleted");
    assert_eq!(ApiKeyStatus::parse("  ACTIVE "), Some(ApiKeyStatus::Active));
    assert_eq!(ApiKeyStatus::parse("Deleted"), Some(ApiKeyStatus::Deleted));
    assert_eq!(ApiKeyStatus::parse("disabled"), Some(ApiKeyStatus::Disabled));
    assert_eq!(ApiKeyStatus::parse("unknown"), None);
    for s in [ApiKeyStatus::Active, ApiKeyStatus::Disabled, ApiKeyStatus::Deleted] {
        assert_eq!(ApiKeyStatus::parse(s.as_str()), Some(s));
    }
}

#[test]
fn dto_from_record() {
    let d = ApiKeyDto::from(stored_key("active", 100, 40));
    assert_eq!(d.remaining_tokens, 60);
    assert_eq!(d.consumed_percent(), 40);
    assert_eq!(d.status_class(), "status-active");
    let d = ApiKeyDto::from(stored_key("disabled", 100, 150));
    assert_eq!(d.remaining_tokens, 0);
    assert_eq!(d.consumed_percent(), 100);
    assert_eq!(d.status_class(), "status-disabled");
    let d = ApiKeyDto::from(stored_key("deleted", 0, 5));
    assert_eq!(d.consumed_percent(), 0);
    assert_eq!(d.status_class(), "status-muted");
    let d = ApiKeyDto::from(stored_key("active", 3, 1));
    assert_eq!(d.consumed_percent(), 33);
    let d = ApiKeyDto::from(stored_key("active", 10, -5));
    assert_eq!(d.consumed_percent(), 0);
    let d = ApiKeyDto::from(stored_key("active", i64::MAX, i64::MAX));
    assert_eq!(d.consumed_percent(), 1);
}

/// The `%Y-%m-%d %H:%M:%S` text of the proleptic Gregorian date and time `secs` seconds
/// after 1970-01-01 00:00:00.
fn calendar_text(secs: i64) -> String {
    let days = secs.div_euclid(86400);
    let sod = secs.rem_euclid(86400);
    let z = days + 719468;
    let era = z.div_euclid(146097);
    let doe = z - era * 146097;
    let yoe = (doe - doe / 1460 + doe / 36524 - doe / 146096) / 365;
    let doy = doe - (365 * yoe + yoe / 4 - yoe / 100);
    let mp = (5 * doy + 2) / 153;
    let day = doy - (153 * mp + 2) / 5 + 1;
    let month = if mp < 10 { mp + 3 } else { mp - 9 };
    let year = yoe + era * 400 + if month <= 2 { 1 } else { 0 };
    let year_text = if (0..10000).contains(&year) {
        format!("{:04}", year)
    } else {
        format!("{:+05}", year)
    };
    format!(
        "{}-{:02}-{:02} {:02}:{:02}:{:02}",
        year_text,
        month,
        day,
        sod / 3600,
        sod % 3600 / 60,
        sod % 60
    )
}

/// Whether `text` is the calendar text of `ts` shifted by some offset of less than a day.
fn is_local_time_text(ts: i64, text: &str) -> bool {
    (-86399..=86399).any(|o| calendar_text(ts + o) == text)
}

#[test]
fn calendar_text_values() {
    assert_eq!(calendar_text(0), "1970-01-01 00:00:00");
    assert_eq!(calendar_text(951868800), "2000-03-01 00:00:00");
    assert_eq!(calendar_text(-1), "1969-12-31 23:59:59");
    assert_eq!(calendar_text(MIN_TIMESTAMP), "-262143-01-01 00:00:00");
    assert_eq!(calendar_text(MAX_TIMESTAMP), "+262142-12-31 23:59:59");
    assert_eq!(calendar_text(-62167219200), "0000-01-01 00:00:00");
    assert_eq!(calendar_text(253402300799), "9999-12-31 23:59:59");
}

#[test]
fn timestamps_as_text() {
    assert_eq!(format_ts(MAX_TIMESTAMP + 1), "-");
    assert_eq!(format_ts(MIN_TIMESTAMP - 1), "-");
    assert_eq!(format_ts(i64::MIN), "-");
    for ts in [0, -1, 951868800, 1700000000, MIN_TIMESTAMP, MAX_TIMESTAMP] {
        let t = format_ts(ts);
        assert!(is_local_time_text(ts, &t), "{} gave {}", ts, t);
    }
    assert_eq!(format_ts(0).len(), 19);
    let d = ApiKeyDto::from(stored_key("active", 1, 0));
    assert!(is_local_time_text(d.created_at, &d.created_at_text()));
    assert!(is_local_time_text(d.updated_at, &d.updated_at_text()));
}

#[test]
fn timestamps_follow_the_local_offset() {
    for ts in [0, 1700000000, -5000000000] {
        let utc = chrono::DateTime::from_timestamp(ts, 0).unwrap().naive_utc();
        let offset = chrono::Local.offset_from_utc_datetime(&utc).fix().local_minus_utc() as i64;
        assert_eq!(format_ts(ts), calendar_text(ts + offset));
    }
}

#[test]
fn usage_event_view() {
    let e = UsageEventDto::from_record(UsageEventRecord {
        id: 3,
        api_key_id: "k".into(),
        request_id: None,
        path: "/v1/models".into(),
        model: Some("m".into()),
        input_tokens: 1,
        output_tokens: 2,
        reasoning_tokens: 0,
        cached_tokens: 0,
        total_tokens: 3,
        upstream_status: 200,
        created_at: i64::MAX,
    });
    assert_eq!(e.id, 3);
    assert_eq!(e.total_tokens, 3);
    assert_eq!(e.created_at_text, "-");
}

#[test]
fn filter_from_query() {
    let f = ListFilter::from_query(&ListKeysQuery {
        status: Some(" Disabled".into()),
        search: Some("  demo ".into()),
        page: Some(0),
        page_size: Some(1000),
    });
    assert_eq!(f.status, Some(ApiKeyStatus::Disabled));
    assert_eq!(f.search.as_deref(), Some("demo"));
    assert_eq!(f.page, 1);
    assert_eq!(f.page_size, 200);
    let f = ListFilter::from_query(&ListKeysQuery { status: Some("nope".into()), search: None, page: None, page_size: None });
    assert_eq!(f.status, None);
    assert_eq!(f.search, None);
    assert_eq!(f.page, 1);
    assert_eq!(f.page_size, 20);
    let f = ListFilter::from_query(&ListKeysQuery { status: None, search: Some("   ".into()), page: Some(7), page_size: Some(0) });
    assert_eq!(f.search.as_deref(), Some(""));
    assert_eq!(f.page, 7);
    assert_eq!(f.page_size, 1);
}
