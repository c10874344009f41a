use std::time::Duration;
use trigger_kinesis::config::{Component, KinesisTriggerConfig, ShardIteratorType};
use trigger_kinesis::detector::{DetectorAction, DetectorEvent};
use trigger_kinesis::processor::{PollAction, PollEvent};
use trigger_kinesis::trigger::{
    failure_message, KinesisTrigger, ReceiveAction, TerminationReason, SHARD_CHANNEL_CAPACITY,
};

fn component() -> Component {
    let mut config = KinesisTriggerConfig::default();
    config.component = "component".to_string();
    config.stream_arn = "arn".to_string();
    config.batch_size = Some(5);
    config.detector_poll_millis = Some(2000);
    Component::from_config(&config)
}

#[test]
fn receive_loop_starts_a_detector_for_its_stream() {
    let mut detector = KinesisTrigger::start_receive_loop(&component());
    assert_eq!(detector.component_id(), "component");
    detector.poll_new_shards(DetectorEvent::Started);
    assert_eq!(
        detector.poll_new_shards(DetectorEvent::NoneFinished),
        DetectorAction::ListShards { stream_arn: "arn".to_string() }
    );
    assert_eq!(
        detector.poll_new_shards(DetectorEvent::Listed(Ok(None))),
        DetectorAction::Wait { wait: Duration::from_millis(2000) }
    );
    assert_eq!(SHARD_CHANNEL_CAPACITY, 10);
}

#[test]
fn new_shard_gets_a_processor_with_the_settings() {
    let action = KinesisTrigger::receive(&component(), Some("shard-1".to_string()));
    let mut processor = match action {
        ReceiveAction::Spawn(processor) => processor,
        ReceiveAction::End(reason) => panic!("{:?}", reason),
    };
    match processor.poll(PollEvent::Started) {
        PollAction::GetShardIterator(request) => {
            assert_eq!(request.stream_arn, "arn");
            assert_eq!(request.shard_id, "shard-1");
            assert_eq!(request.shard_iterator_type, ShardIteratorType::Latest);
        }
        other => panic!("{:?}", other),
    }
    match processor.poll(PollEvent::ShardIterator(Ok(Some("it".to_string())))) {
        PollAction::GetRecords(request) => assert_eq!(request.limit, 5),
        other => panic!("{:?}", other),
    }
}

#[test]
fn stopped_processor_frees_its_shard() {
    let component = component();
    let mut detector = KinesisTrigger::start_receive_loop(&component);
    let list = || DetectorEvent::Listed(Ok(Some(vec!["s".to_string()])));
    detector.poll_new_shards(DetectorEvent::Started);
    detector.poll_new_shards(DetectorEvent::NoneFinished);
    let shard = match detector.poll_new_shards(list()) {
        DetectorAction::SendShard { shard_id } => shard_id,
        other => panic!("{:?}", other),
    };
    detector.poll_new_shards(DetectorEvent::Sent(Ok(())));
    let mut processor = match KinesisTrigger::receive(&component, Some(shard)) {
        ReceiveAction::Spawn(processor) => processor,
        ReceiveAction::End(reason) => panic!("{:?}", reason),
    };
    processor.poll(PollEvent::Started);
    let closed = match processor.poll(PollEvent::ShardIterator(Ok(None))) {
        PollAction::Close { shard_id } => shard_id,
        other => panic!("{:?}", other),
    };
    detector.poll_new_shards(DetectorEvent::Waited);
    detector.poll_new_shards(DetectorEvent::Finished(Some(closed)));
    detector.poll_new_shards(DetectorEvent::NoneFinished);
    assert_eq!(
        detector.poll_new_shards(list()),
        DetectorAction::SendShard { shard_id: "s".to_string() }
    );
}

#[test]
fn lost_detector_ends_the_loop() {
    match KinesisTrigger::receive(&component(), None) {
        ReceiveAction::End(reason) => assert_eq!(
            reason,
            TerminationReason::Other("Shard detector task exited".to_string())
        ),
        ReceiveAction::Spawn(_) => panic!("a processor without a shard"),
    }
}

#[test]
fn requested_exit_is_no_error() {
    assert_eq!(
        KinesisTrigger::run(Ok(TerminationReason::ExitRequested)),
        Ok(())
    );
}

#[test]
fn other_ends_are_errors() {
    let reason = TerminationReason::Other("Shard detector task exited".to_string());
    let printed = format!("{:?}", Ok::<TerminationReason, String>(reason));
    let reason = TerminationReason::Other("Shard detector task exited".to_string());
    assert_eq!(KinesisTrigger::run(Ok(reason)), Err(printed));
    let reason = TerminationReason::Other("a \"b\"\n".to_string());
    assert_eq!(
        KinesisTrigger::run(Ok(reason)),
        Err("Ok(Other(\"a \\\"b\\\"\\n\"))".to_string())
    );
    assert_eq!(
        KinesisTrigger::run(Err("JoinError::Cancelled(Id(4))".to_string())),
        Err("Err(JoinError::Cancelled(Id(4)))".to_string())
    );
}

#[test]
fn failure_message_frames_the_reason() {
    assert_eq!(failure_message("\"x\""), "Ok(Other(\"x\"))");
}
