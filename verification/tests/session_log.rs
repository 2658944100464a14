use photobooth::clock::Timestamp;
use photobooth::session::PhotoSession;
use photobooth::session_logger::{
    new_logger, CsvLogger, LoggerError, LoggerKind, SessionRecord, SqliteLogger,
};

fn ts(secs: i64, nanos: u32) -> Timestamp {
    Timestamp::from_unix(secs, nanos).unwrap()
}

#[test]
fn timestamps_outside_the_calendar_are_refused() {
    assert!(Timestamp::from_unix(0, 0).is_some());
    assert!(Timestamp::from_unix(8_210_266_876_799, 999_999_999).is_some());
    assert!(Timestamp::from_unix(8_210_266_876_800, 0).is_none());
    assert!(Timestamp::from_unix(-8_334_601_228_800, 0).is_some());
    assert!(Timestamp::from_unix(-8_334_601_228_801, 0).is_none());
    assert!(Timestamp::from_unix(5, 1_000_000_000).is_none());
}

#[test]
fn seconds_since_rounds_toward_zero() {
    assert_eq!(ts(105, 0).seconds_since(&ts(100, 500_000_000)), 4);
    assert_eq!(ts(100, 500_000_000).seconds_since(&ts(105, 0)), -4);
    assert_eq!(ts(160, 0).seconds_since(&ts(100, 0)), 60);
}

#[test]
fn formats_time_column() {
    assert_eq!(ts(0, 0).format("%Y-%m-%d %H:%M:%S UTC"), "1970-01-01 00:00:00 UTC");
    assert_eq!(ts(1_700_000_000, 5).format("%Y%m%d-%H%M%S"), "20231114-221320");
}

fn record() -> SessionRecord {
    let mut r = SessionRecord::new_at("session_17".to_string(), ts(0, 0));
    r.names = vec!["Ann".to_string(), "Bob".to_string()];
    r.weapon_choice = Some("sword".to_string());
    r.photo_path = Some("./photos/photo_17.jpg".to_string());
    r.email = Some("a@b.c".to_string());
    r.session_duration_seconds = Some(42);
    r
}

#[test]
fn csv_row_has_ten_columns() {
    assert_eq!(
        record().to_csv_row(),
        "session_17,1970-01-01 00:00:00 UTC,Ann;Bob,sword,,,./photos/photo_17.jpg,a@b.c,,42"
    );
}

#[test]
fn csv_row_of_empty_record() {
    let r = SessionRecord::new_at("s".to_string(), ts(86_400, 0));
    assert_eq!(r.to_csv_row(), "s,1970-01-02 00:00:00 UTC,,,,,,,,0");
    assert_eq!(r.csv_row("T"), "s,T,,,,,,,,0");
}

#[test]
fn new_record_is_empty() {
    let r = SessionRecord::new("abc".to_string()).unwrap();
    assert_eq!(r.session_id, "abc");
    assert!(r.names.is_empty());
    assert!(r.email.is_none());
    assert!(r.session_duration_seconds.is_none());
}

#[test]
fn header_names_the_columns() {
    assert_eq!(
        SessionRecord::csv_header(),
        "session_id,timestamp,names,weapon_choice,land_choice,companion_choice,photo_path,email,print_job_id,duration_seconds"
    );
    assert_eq!(CsvLogger::header_line(), format!("{}\n", SessionRecord::csv_header()));
}

#[test]
fn session_count_skips_the_header() {
    let log = CsvLogger::new("./sessions.csv");
    assert_eq!(log.get_session_count(None), 0);
    assert_eq!(log.get_session_count(Some("")), 0);
    assert_eq!(log.get_session_count(Some("header\n")), 0);
    assert_eq!(log.get_session_count(Some("header\nrow1\nrow2\n")), 2);
    assert_eq!(log.get_session_count(Some("header\r\nrow1")), 1);
}

#[test]
fn logged_records_are_counted() {
    let mut content = CsvLogger::header_line();
    for _ in 0..3 {
        content.push_str(&CsvLogger::record_line(&record()));
    }
    let log = CsvLogger::new("./sessions.csv");
    assert_eq!(log.get_session_count(Some(&content)), 3);
}

#[test]
fn logger_selection() {
    match new_logger("sqlite") {
        LoggerKind::Sqlite(l) => {
            assert_eq!(l.db_path, "./sessions.db");
            assert_eq!(l.logger_type(), "sqlite");
            assert_eq!(l.get_session_count(), 0);
        }
        _ => panic!("expected sqlite"),
    }
    for name in ["csv", "anything"] {
        match new_logger(name) {
            LoggerKind::Csv(l) => {
                assert_eq!(l.file_path, "./sessions.csv");
                assert_eq!(l.logger_type(), "csv");
            }
            _ => panic!("expected csv"),
        }
    }
    assert_eq!(SqliteLogger::new("x.db").db_path, "x.db");
}

#[test]
fn logger_error_messages() {
    assert_eq!(LoggerError::Io("disk full".into()).message(), "IO Error: disk full");
    assert_eq!(LoggerError::Serialization("bad".into()).message(), "Serialization error: bad");
    assert_eq!(LoggerError::Csv("x".into()).message(), "CSV error: x");
    assert_eq!(LoggerError::Database("y".into()).message(), "Database error: y");
}

#[test]
fn fresh_session_defaults() {
    let s = PhotoSession::new_at(1_700_000_000, ts(1_700_000_000, 0));
    assert_eq!(s.session_id, "session_1700000000");
    assert_eq!(s.retakes_used, 0);
    assert_eq!(s.max_retakes, 1);
    assert!(s.can_retake());
    assert!(!s.is_complete());
    let n = PhotoSession::new().unwrap();
    assert!(n.session_id.starts_with("session_"));
}

#[test]
fn one_retake_only() {
    let mut s = PhotoSession::new_at(1, ts(1, 0));
    s.use_retake();
    assert_eq!(s.retakes_used, 1);
    assert!(!s.can_retake());
    s.use_retake();
    assert_eq!(s.retakes_used, 1);
}

#[test]
fn complete_needs_names_photo_email() {
    let mut s = PhotoSession::new_at(1, ts(1, 0));
    s.user_names = Some(vec!["A".into()]);
    s.photo_path = Some("p.jpg".into());
    assert!(!s.is_complete());
    s.email = Some("e@x".into());
    assert!(s.is_complete());
}

#[test]
fn record_carries_session_and_duration() {
    let mut s = PhotoSession::new_at(7, ts(100, 0));
    s.user_names = Some(vec!["A".into(), "B".into()]);
    s.land = Some("forest".into());
    let r = s.to_session_record_at(&ts(130, 999_999_999));
    assert_eq!(r.session_id, "session_7");
    assert_eq!(r.names, vec!["A".to_string(), "B".to_string()]);
    assert_eq!(r.land_choice.as_deref(), Some("forest"));
    assert_eq!(r.session_duration_seconds, Some(30));
    let earlier = s.to_session_record_at(&ts(90, 0));
    assert_eq!(earlier.session_duration_seconds, Some((-10i64) as u64));
}

#[test]
fn csv_row_reads_back_into_columns() {
    let row = record().to_csv_row();
    let cols: Vec<&str> = row.split(',').collect();
    assert_eq!(
        cols,
        vec![
            "session_17",
            "1970-01-01 00:00:00 UTC",
            "Ann;Bob",
            "sword",
            "",
            "",
            "./photos/photo_17.jpg",
            "a@b.c",
            "",
            "42"
        ]
    );
    let names: Vec<&str> = cols[2].split(';').collect();
    assert_eq!(names, vec!["Ann", "Bob"]);
}

#[test]
fn calendar_bounds_are_representable() {
    let first = ts(photobooth::clock::MIN_UNIX_SECONDS, 0);
    let last = ts(photobooth::clock::MAX_UNIX_SECONDS, 999_999_999);
    assert_eq!(first.format("%Y-%m-%d %H:%M:%S UTC"), "-262143-01-01 00:00:00 UTC");
    assert_eq!(last.format("%Y-%m-%d %H:%M:%S UTC"), "+262142-12-31 23:59:59 UTC");
    assert_eq!(
        last.seconds_since(&first),
        photobooth::clock::MAX_UNIX_SECONDS - photobooth::clock::MIN_UNIX_SECONDS
    );
}

#[test]
fn clock_reads_after_the_epoch() {
    let now = Timestamp::now().expect("the clock reads after the epoch");
    assert!(now.unix_seconds() > 1_600_000_000);
    assert!(now.subsec_nanos() < 1_000_000_000);
    let secs = photobooth::clock::unix_seconds_now().unwrap();
    assert!(secs >= now.unix_seconds() as u64);
}
