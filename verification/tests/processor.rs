use std::time::Duration;
use trigger_kinesis::config::ShardIteratorType;
use trigger_kinesis::processor::{
    BatchStep, GetRecordsOutput, GetRecordsRequest, PollAction, PollEvent, ShardIteratorRequest,
    ShardProcessor,
};
use trigger_kinesis::record::{
    convert_batch, Blob, EncryptionType, KinesisRecord, Record, RecordEncryption,
};
use trigger_kinesis::record_processor::{
    Error, Invocation, InvocationOutcome, KinesisRecordProcessor,
};

const IDLE: Duration = Duration::from_millis(250);

fn new_processor() -> ShardProcessor {
    ShardProcessor::new(
        "component",
        "arn",
        "shard-0".to_string(),
        1000,
        IDLE,
        ShardIteratorType::TrimHorizon,
    )
}

fn fetching() -> ShardProcessor {
    let mut processor = new_processor();
    processor.poll(PollEvent::Started);
    assert_eq!(
        processor.poll(PollEvent::ShardIterator(Ok(Some("it-0".to_string())))),
        get_records("it-0")
    );
    processor
}

fn get_records(iterator: &str) -> PollAction {
    PollAction::GetRecords(GetRecordsRequest {
        shard_iterator: iterator.to_string(),
        stream_arn: "arn".to_string(),
        limit: 1000,
    })
}

fn close() -> PollAction {
    PollAction::Close { shard_id: "shard-0".to_string() }
}

fn record(number: &str) -> Record {
    Record {
        partition_key: "key".to_string(),
        sequence_number: number.to_string(),
        data: vec![104, 105],
        approximate_arrival_secs: Some(17),
        encryption_type: Some(RecordEncryption::Kms),
    }
}

fn kinesis_record(number: &str) -> KinesisRecord {
    KinesisRecord {
        partition_key: "key".to_string(),
        sequence_number: number.to_string(),
        data: Blob { inner: vec![104, 105] },
        approximate_arrival_timestamp: Some(17),
        encryption_type: Some(EncryptionType::Kms),
    }
}

fn process(numbers: &[&str]) -> PollAction {
    PollAction::ProcessRecords(Invocation {
        component_id: "component".to_string(),
        records: numbers.iter().map(|n| kinesis_record(n)).collect(),
    })
}

fn output(numbers: &[&str], next: Option<&str>, behind: Option<i64>) -> GetRecordsOutput {
    GetRecordsOutput {
        records: numbers.iter().map(|n| record(n)).collect(),
        next_shard_iterator: next.map(|n| n.to_string()),
        millis_behind_latest: behind,
    }
}

fn reply(numbers: &[&str], next: Option<&str>, behind: Option<i64>) -> PollEvent {
    PollEvent::Records(Ok(output(numbers, next, behind)))
}

#[test]
fn processor_asks_for_the_configured_iterator() {
    assert_eq!(
        new_processor().poll(PollEvent::Started),
        PollAction::GetShardIterator(ShardIteratorRequest {
            stream_arn: "arn".to_string(),
            shard_id: "shard-0".to_string(),
            shard_iterator_type: ShardIteratorType::TrimHorizon,
        })
    );
}

#[test]
fn batches_are_processed_one_after_the_other() {
    let mut processor = fetching();
    assert_eq!(
        processor.poll(reply(&["1", "2"], Some("it-1"), Some(5))),
        process(&["1", "2"])
    );
    assert_eq!(
        processor.poll(PollEvent::Processed(Ok(()))),
        get_records("it-1")
    );
    assert_eq!(
        processor.poll(reply(&["3"], Some("it-2"), Some(0))),
        process(&["3"])
    );
    assert_eq!(
        processor.poll(PollEvent::Processed(Ok(()))),
        get_records("it-2")
    );
}

#[test]
fn failing_component_does_not_stop_the_shard() {
    let mut processor = fetching();
    processor.poll(reply(&["1"], Some("it-1"), None));
    assert_eq!(
        processor.poll(PollEvent::Processed(Err("failed".to_string()))),
        get_records("it-1")
    );
}

#[test]
fn idle_shard_is_waited_for() {
    for behind in [None, Some(0), Some(1), Some(5000), Some(-1), Some(i64::MAX)] {
        let mut processor = fetching();
        assert_eq!(
            processor.poll(reply(&[], Some("it-1"), behind)),
            PollAction::Wait { wait: IDLE }
        );
        assert_eq!(processor.poll(PollEvent::Waited), get_records("it-1"));
    }
}

#[test]
fn shard_with_records_is_not_waited_for() {
    for behind in [None, Some(0), Some(5000)] {
        let mut processor = fetching();
        assert_eq!(
            processor.poll(reply(&["1"], Some("it-1"), behind)),
            process(&["1"])
        );
        assert_eq!(
            processor.poll(PollEvent::Processed(Ok(()))),
            get_records("it-1")
        );
    }
}

#[test]
fn shard_end_is_closed_after_the_last_batch() {
    let mut processor = fetching();
    assert_eq!(processor.poll(reply(&["1"], None, Some(0))), process(&["1"]));
    assert_eq!(processor.poll(PollEvent::Processed(Ok(()))), close());
    assert_eq!(
        processor.poll(PollEvent::Closed(Ok(()))),
        PollAction::Finish
    );
}

#[test]
fn shard_end_without_records_is_closed() {
    for behind in [None, Some(3)] {
        let mut processor = fetching();
        assert_eq!(
            processor.poll(reply(&[], None, behind)),
            PollAction::Wait { wait: IDLE }
        );
        assert_eq!(processor.poll(PollEvent::Waited), close());
    }
}

#[test]
fn failed_fetch_is_waited_out_and_closes_the_shard() {
    let mut processor = fetching();
    assert_eq!(
        processor.poll(PollEvent::Records(Err("expired".to_string()))),
        PollAction::Wait { wait: IDLE }
    );
    assert_eq!(processor.poll(PollEvent::Waited), close());
    assert_eq!(
        processor.poll(PollEvent::Closed(Err("gone".to_string()))),
        PollAction::Finish
    );
}

#[test]
fn missing_iterator_closes_the_shard() {
    for iterator in [Ok(None), Err("denied".to_string())] {
        let mut processor = new_processor();
        processor.poll(PollEvent::Started);
        assert_eq!(processor.poll(PollEvent::ShardIterator(iterator)), close());
    }
}

#[test]
fn process_batch_decides_on_each_reply() {
    let processor = new_processor();
    let (step, next) = processor.process_batch(Ok(output(&["1"], Some("n"), Some(0))));
    match step {
        BatchStep::Process(call) => {
            assert_eq!(PollAction::ProcessRecords(call), process(&["1"]));
        }
        _ => panic!("a batch was not processed"),
    }
    assert_eq!(next, Some("n".to_string()));
    let (step, next) = processor.process_batch(Ok(output(&[], Some("n"), None)));
    assert!(matches!(step, BatchStep::Wait));
    assert_eq!(next, Some("n".to_string()));
    let (step, next) = processor.process_batch(Ok(output(&[], Some("it1"), Some(5000))));
    assert!(matches!(step, BatchStep::Wait));
    assert_eq!(next, Some("it1".to_string()));
    let (step, next) = processor.process_batch(Ok(output(&[], None, Some(9))));
    assert!(matches!(step, BatchStep::Wait));
    assert_eq!(next, None);
    let (step, next) = processor.process_batch(Err("expired".to_string()));
    assert!(matches!(step, BatchStep::Wait));
    assert_eq!(next, None);
}

#[test]
fn requests_hold_the_settings() {
    let processor = new_processor();
    assert_eq!(processor.get_shard_iterator().shard_id, "shard-0");
    let request = processor.get_records("it".to_string());
    assert_eq!(request.shard_iterator, "it");
    assert_eq!(request.limit, 1000);
    assert_eq!(processor.close(), "shard-0");
    assert_eq!(processor.component_id(), "component");
    let largest = ShardProcessor::new(
        "c",
        "a",
        "s".to_string(),
        u16::MAX,
        IDLE,
        ShardIteratorType::Latest,
    );
    assert_eq!(largest.get_records("it".to_string()).limit, 65535);
}

#[test]
fn processor_accepts_only_the_answer_to_its_last_action() {
    let mut processor = new_processor();
    assert!(processor.accepts(&PollEvent::Started));
    assert!(!processor.accepts(&PollEvent::Waited));
    processor.poll(PollEvent::Started);
    assert!(processor.accepts(&PollEvent::ShardIterator(Ok(None))));
    assert!(!processor.accepts(&PollEvent::Started));
    let mut processor = fetching();
    assert!(processor.accepts(&reply(&[], None, None)));
    processor.poll(reply(&["1"], None, None));
    assert!(processor.accepts(&PollEvent::Processed(Ok(()))));
    assert!(!processor.accepts(&reply(&[], None, None)));
    processor.poll(PollEvent::Processed(Ok(())));
    assert!(processor.accepts(&PollEvent::Closed(Ok(()))));
    processor.poll(PollEvent::Closed(Ok(())));
    assert!(!processor.accepts(&PollEvent::Started));
    assert!(!processor.accepts(&PollEvent::Closed(Ok(()))));
}

#[test]
fn shards_do_not_disturb_each_other() {
    let mut one = fetching();
    let mut two = fetching();
    assert_eq!(one.poll(reply(&["1"], Some("a"), None)), process(&["1"]));
    assert_eq!(
        two.poll(PollEvent::Records(Err("expired".to_string()))),
        PollAction::Wait { wait: IDLE }
    );
    assert_eq!(one.poll(PollEvent::Processed(Ok(()))), get_records("a"));
    assert_eq!(two.poll(PollEvent::Waited), close());
    assert_eq!(one.poll(reply(&["2"], Some("b"), None)), process(&["2"]));
}

#[test]
fn records_are_converted_field_by_field() {
    let mut plain = record("7");
    plain.approximate_arrival_secs = None;
    plain.encryption_type = None;
    let mut open = record("8");
    open.encryption_type = Some(RecordEncryption::Unencrypted);
    let mut new = record("9");
    new.encryption_type = Some(RecordEncryption::Unknown);
    new.data = vec![];
    let converted = convert_batch(vec![record("6"), plain, open, new]);
    assert_eq!(converted.len(), 4);
    assert_eq!(converted[0], kinesis_record("6"));
    assert_eq!(converted[1].sequence_number, "7");
    assert_eq!(converted[1].approximate_arrival_timestamp, None);
    assert_eq!(converted[1].encryption_type, None);
    assert_eq!(converted[2].encryption_type, Some(EncryptionType::Unencrypted));
    assert_eq!(converted[3].encryption_type, Some(EncryptionType::Unencrypted));
    assert_eq!(converted[3].data.inner, Vec::<u8>::new());
    assert!(convert_batch(vec![]).is_empty());
}

#[test]
fn arrival_before_the_epoch_wraps() {
    for (secs, unsigned) in [
        (0, 0),
        (i64::MAX, 9223372036854775807),
        (-1, 18446744073709551615),
        (i64::MIN, 9223372036854775808),
    ] {
        let mut early = record("1");
        early.approximate_arrival_secs = Some(secs);
        let converted = KinesisRecord::from_record(early);
        assert_eq!(converted.approximate_arrival_timestamp, Some(unsigned));
    }
}

#[test]
fn outcomes_are_reported() {
    let processor = KinesisRecordProcessor::new("abc");
    assert_eq!(
        processor.execute_wasm(InvocationOutcome::Returned(Ok(()))),
        Ok(())
    );
    assert_eq!(
        processor.execute_wasm(InvocationOutcome::Returned(Err(Error::Other("x".to_string())))),
        Err("[Kinesis] Component abc returned error processing records".to_string())
    );
    assert_eq!(
        processor.execute_wasm(InvocationOutcome::EngineFailed { error: "trap".to_string() }),
        Err("[Kinesis] Error executing component abc while processing records".to_string())
    );
    assert_eq!(
        processor.execute_wasm(InvocationOutcome::NotPrepared { error: "no module".to_string() }),
        Err("no module".to_string())
    );
}

#[test]
fn invocation_names_the_component() {
    let call = KinesisRecordProcessor::new("abc").process_records(vec![record("1")]);
    assert_eq!(call.component_id, "abc");
    assert_eq!(call.records, vec![kinesis_record("1")]);
}
