use rotolog::Location;
use rotolog::LogRecord;
use rotolog::Severity;
use rotolog::Timestamp;
use rotolog::now_local;
use rotolog::render_record;

fn sample_timestamp() -> Timestamp {
    Timestamp { year: 2021, month: 3, day: 4, hour: 5, minute: 6, second: 7, nanos: 8 }
}

#[test]
fn it_works() {
    assert_eq!(2 + 2, 4);
}

#[test]
fn render_exact_with_location() {
    let rec = LogRecord {
        timestamp: sample_timestamp(),
        severity: Severity::Info,
        message: b"hi".to_vec(),
        location: Some(Location { file: b"a.rs".to_vec(), line: 7 }),
    };
    let (line, nonempty) = render_record(&rec, true);
    assert_eq!(line, b"2021-03-04 05:06:07.000000008 [INFO    ] [a.rs:7] hi".to_vec());
    assert!(nonempty);
}

#[test]
fn render_location_suppressed() {
    let rec = LogRecord {
        timestamp: sample_timestamp(),
        severity: Severity::Error,
        message: b"boom".to_vec(),
        location: Some(Location { file: b"a.rs".to_vec(), line: 7 }),
    };
    let (line, nonempty) = render_record(&rec, false);
    assert_eq!(line, b"2021-03-04 05:06:07.000000008 [ERROR   ] boom".to_vec());
    assert!(nonempty);
}

#[test]
fn render_missing_location_shown() {
    let rec = LogRecord {
        timestamp: sample_timestamp(),
        severity: Severity::Critical,
        message: b"x".to_vec(),
        location: None,
    };
    let (line, _) = render_record(&rec, true);
    assert_eq!(line, b"2021-03-04 05:06:07.000000008 [CRITICAL] x".to_vec());
}

#[test]
fn render_empty_message() {
    let rec = LogRecord {
        timestamp: sample_timestamp(),
        severity: Severity::Trace,
        message: Vec::new(),
        location: None,
    };
    let (line, nonempty) = render_record(&rec, false);
    assert_eq!(line, b"2021-03-04 05:06:07.000000008 [TRACE   ] ".to_vec());
    assert!(!nonempty);
}

#[test]
fn render_negative_year_and_wide_fields() {
    let rec = LogRecord {
        timestamp: Timestamp {
            year: -44,
            month: 12,
            day: 31,
            hour: 23,
            minute: 59,
            second: 59,
            nanos: 1_999_999_999,
        },
        severity: Severity::Warn,
        message: b"m".to_vec(),
        location: None,
    };
    let (line, _) = render_record(&rec, false);
    assert_eq!(line, b"-0044-12-31 23:59:59.1999999999 [WARN    ] m".to_vec());
}

#[test]
fn severity_order_is_total() {
    let all = [
        Severity::Trace,
        Severity::Debug,
        Severity::Info,
        Severity::Warn,
        Severity::Error,
        Severity::Critical,
    ];
    for (i, a) in all.iter().enumerate() {
        for (j, b) in all.iter().enumerate() {
            assert_eq!(a.at_least(b), i >= j);
        }
    }
}

#[test]
fn size_constants() {
    assert_eq!(rotolog::BITE, 1);
    assert_eq!(rotolog::KB, 1024);
    assert_eq!(rotolog::MB, 1024 * 1024);
    assert_eq!(rotolog::GB, 1024 * 1024 * 1024);
}

#[test]
fn clock_reading_is_in_range() {
    let t = now_local();
    assert!((1..=12).contains(&t.month));
    assert!((1..=31).contains(&t.day));
    assert!(t.hour <= 23);
    assert!(t.minute <= 59);
    assert!(t.second <= 59);
    assert!(t.nanos <= 1_999_999_999);
}

#[test]
fn rendered_clock_reading_has_fixed_layout() {
    let t = now_local();
    let rec = LogRecord {
        timestamp: t,
        severity: Severity::Info,
        message: b"now".to_vec(),
        location: None,
    };
    let (line, _) = render_record(&rec, false);
    // A contemporary year is four digits, so the separators sit at fixed
    // offsets: `YYYY-MM-DD HH:MM:SS.nnnnnnnnn `.
    assert_eq!(line[4], b'-');
    assert_eq!(line[7], b'-');
    assert_eq!(line[10], b' ');
    assert_eq!(line[13], b':');
    assert_eq!(line[16], b':');
    assert_eq!(line[19], b'.');
    assert_eq!(line[29], b' ');
    assert_eq!(&line[30..41], b"[INFO    ] ");
    assert_eq!(&line[41..], b"now");
}
