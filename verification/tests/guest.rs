use trigger_kinesis::guest::{data_line, id_line, Kinesis};
use trigger_kinesis::record::{Blob, KinesisRecord};

fn record(number: &str, data: &[u8]) -> KinesisRecord {
    KinesisRecord {
        partition_key: "key".to_string(),
        sequence_number: number.to_string(),
        data: Blob { inner: data.to_vec() },
        approximate_arrival_timestamp: None,
        encryption_type: None,
    }
}

#[test]
fn text_records_are_printed_whole() {
    let batch = Kinesis::handle_batch_records(vec![
        record("49", b"hello"),
        record("50", "gr\u{fc}\u{df}e \"x\"".as_bytes()),
    ]);
    assert_eq!(
        batch.lines,
        vec![
            "I GOT A RECORD!  ID: \"49\"",
            "  ... DATA: \"hello\"",
            "I GOT A RECORD!  ID: \"50\"",
            "  ... DATA: \"gr\u{fc}\u{df}e \\\"x\\\"\"",
        ]
    );
    assert!(!batch.stopped);
}

#[test]
fn printing_stops_at_data_that_is_no_text() {
    let batch = Kinesis::handle_batch_records(vec![
        record("1", b""),
        record("2", &[0xff, 0xfe]),
        record("3", b"unseen"),
    ]);
    assert_eq!(
        batch.lines,
        vec![
            "I GOT A RECORD!  ID: \"1\"",
            "  ... DATA: \"\"",
            "I GOT A RECORD!  ID: \"2\"",
        ]
    );
    assert!(batch.stopped);
}

#[test]
fn empty_batch_prints_nothing() {
    let batch = Kinesis::handle_batch_records(vec![]);
    assert!(batch.lines.is_empty());
    assert!(!batch.stopped);
}

#[test]
fn lines_are_framed() {
    assert_eq!(id_line("1"), "I GOT A RECORD!  ID: 1");
    assert_eq!(data_line("x"), "  ... DATA: x");
}
