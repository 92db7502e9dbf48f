use rotolog::RotatingFileSink;
use rotolog::RotationPolicy;
use rotolog::SinkError;
use rotolog::rotation_rename_steps;

fn record_of(byte: u8, len: usize) -> Vec<u8> {
    vec![byte; len]
}

#[test]
fn rotation_scenario_five_records() {
    // max_bytes = 100, keep_count = 2, five records of 30 bytes each:
    // the 4th write reaches 120 bytes and rotates, the 5th starts fresh.
    let policy = RotationPolicy { max_bytes: 100, keep_count: 2, compress: false };
    let mut sink = RotatingFileSink::new(b"app.log".to_vec(), policy);
    let r1 = record_of(b'1', 30);
    let r2 = record_of(b'2', 30);
    let r3 = record_of(b'3', 30);
    let r4 = record_of(b'4', 30);
    let r5 = record_of(b'5', 30);
    assert_eq!(sink.write(r1.clone()), Ok(false));
    assert_eq!(sink.write(r2.clone()), Ok(false));
    assert_eq!(sink.write(r3.clone()), Ok(false));
    assert_eq!(sink.write(r4.clone()), Ok(true));
    assert_eq!(sink.write(r5.clone()), Ok(false));
    // The live file holds only the 5th record.
    assert_eq!(sink.live, vec![r5]);
    assert_eq!(sink.live_bytes, 30);
    // `path.1` holds the first four records; `path.2` does not exist.
    assert_eq!(sink.history.len(), 1);
    assert_eq!(sink.history[0].records, vec![r1, r2, r3, r4]);
    assert!(!sink.history[0].compressed);
}

#[test]
fn rotation_preserves_every_record() {
    let policy = RotationPolicy { max_bytes: 10, keep_count: 3, compress: false };
    let mut sink = RotatingFileSink::new(b"app.log".to_vec(), policy);
    let a = record_of(b'a', 6);
    let b = record_of(b'b', 6);
    assert_eq!(sink.write(a.clone()), Ok(false));
    assert_eq!(sink.write(b.clone()), Ok(true));
    // Both records sit in the newest history entry, in order, exactly once,
    // and the live file restarts empty.
    assert_eq!(sink.history.len(), 1);
    assert_eq!(sink.history[0].records, vec![a, b]);
    assert!(sink.live.is_empty());
    assert_eq!(sink.live_bytes, 0);
}

#[test]
fn retention_drops_oldest() {
    let policy = RotationPolicy { max_bytes: 4, keep_count: 1, compress: false };
    let mut sink = RotatingFileSink::new(b"app.log".to_vec(), policy);
    let first = record_of(b'x', 5);
    let second = record_of(b'y', 5);
    assert_eq!(sink.write(first), Ok(true));
    assert_eq!(sink.write(second.clone()), Ok(true));
    // Only the newest rotated file survives a full retention.
    assert_eq!(sink.history.len(), 1);
    assert_eq!(sink.history[0].records, vec![second]);
}

#[test]
fn retention_zero_discards_rotated_file() {
    let policy = RotationPolicy { max_bytes: 4, keep_count: 0, compress: false };
    let mut sink = RotatingFileSink::new(b"app.log".to_vec(), policy);
    assert_eq!(sink.write(record_of(b'z', 9)), Ok(true));
    assert!(sink.history.is_empty());
    assert!(sink.live.is_empty());
}

#[test]
fn rotated_file_carries_compress_flag() {
    let policy = RotationPolicy { max_bytes: 1, keep_count: 2, compress: true };
    let mut sink = RotatingFileSink::new(b"app.log".to_vec(), policy);
    assert_eq!(sink.write(record_of(b'c', 3)), Ok(true));
    assert!(sink.history[0].compressed);
}

#[test]
fn failed_sink_refuses_writes() {
    let policy = RotationPolicy { max_bytes: 100, keep_count: 2, compress: false };
    let mut sink = RotatingFileSink::new(b"app.log".to_vec(), policy);
    assert_eq!(sink.write(record_of(b'q', 3)), Ok(false));
    sink.mark_failed();
    assert_eq!(sink.write(record_of(b'r', 3)), Err(SinkError::Failed));
    // The failed sink keeps its files untouched.
    assert_eq!(sink.live, vec![record_of(b'q', 3)]);
    assert!(sink.history.is_empty());
}

#[test]
fn rename_steps_in_execution_order() {
    let steps = rotation_rename_steps(3);
    assert_eq!(steps.len(), 3);
    assert_eq!((steps[0].source, steps[0].target), (2, 3));
    assert_eq!((steps[1].source, steps[1].target), (1, 2));
    assert_eq!((steps[2].source, steps[2].target), (0, 1));
    assert!(rotation_rename_steps(0).is_empty());
}
