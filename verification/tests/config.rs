use std::time::Duration;
use trigger_kinesis::config::{
    parse_milliseconds, Component, KinesisTriggerConfig, ShardIteratorType,
};
use trigger_kinesis::trigger::{KinesisTrigger, TRIGGER_TYPE};

fn section(component: &str, stream_arn: &str) -> KinesisTriggerConfig {
    KinesisTriggerConfig {
        component: component.to_string(),
        stream_arn: stream_arn.to_string(),
        ..KinesisTriggerConfig::default()
    }
}

fn with_iterator_type(name: &str) -> Component {
    let mut config = section("test", "arn");
    config.shard_iterator_type = Some(name.to_string());
    Component::from_config(&config)
}

#[test]
fn default_config_is_empty() {
    let config = KinesisTriggerConfig::default();
    assert_eq!(config.component, "");
    assert_eq!(config.stream_arn, "");
    assert_eq!(config.batch_size, None);
    assert_eq!(config.shard_idle_wait_millis, None);
    assert_eq!(config.detector_poll_millis, None);
    assert_eq!(config.shard_iterator_type, None);
}

#[test]
fn unconfigured_settings_have_documented_defaults() {
    let component = Component::from_config(&section("test", "arn:aws:kinesis"));
    assert_eq!(component.id, "test");
    assert_eq!(component.stream_arn, "arn:aws:kinesis");
    assert_eq!(component.batch_size, 10);
    assert_eq!(component.shard_idle_wait_millis, Duration::from_millis(1000));
    assert_eq!(component.detector_poll_millis, Duration::from_millis(30_000));
    assert_eq!(component.shard_iterator_type, ShardIteratorType::Latest);
}

#[test]
fn manifest_example_is_taken_over() {
    let arn = "arn:aws:kinesis:us-east-1:1234567890:stream/TestStream";
    let mut config = section("test", arn);
    config.batch_size = Some(1000);
    config.shard_idle_wait_millis = Some(250);
    config.detector_poll_millis = Some(30000);
    config.shard_iterator_type = Some("TRIM_HORIZON".to_string());
    let component = Component::from_config(&config);
    assert_eq!(component.id, "test");
    assert_eq!(component.stream_arn, arn);
    assert_eq!(component.batch_size, 1000);
    assert_eq!(component.shard_idle_wait_millis, Duration::from_millis(250));
    assert_eq!(component.detector_poll_millis, Duration::from_millis(30_000));
    assert_eq!(component.shard_iterator_type, ShardIteratorType::TrimHorizon);
}

#[test]
fn waits_are_clamped() {
    assert_eq!(parse_milliseconds(0), Duration::from_millis(100));
    assert_eq!(parse_milliseconds(99), Duration::from_millis(100));
    assert_eq!(parse_milliseconds(100), Duration::from_millis(100));
    assert_eq!(parse_milliseconds(101), Duration::from_millis(101));
    assert_eq!(parse_milliseconds(300_000), Duration::from_secs(300));
    assert_eq!(parse_milliseconds(300_001), Duration::from_secs(300));
    assert_eq!(parse_milliseconds(u64::MAX), Duration::from_secs(300));
}

#[test]
fn configured_waits_are_clamped() {
    let mut config = section("test", "arn");
    config.shard_idle_wait_millis = Some(1);
    config.detector_poll_millis = Some(1_000_000);
    let component = Component::from_config(&config);
    assert_eq!(component.shard_idle_wait_millis, Duration::from_millis(100));
    assert_eq!(component.detector_poll_millis, Duration::from_millis(300_000));
}

#[test]
fn iterator_types_are_recognised() {
    let known = [
        ("AFTER_SEQUENCE_NUMBER", ShardIteratorType::AfterSequenceNumber),
        ("AT_SEQUENCE_NUMBER", ShardIteratorType::AtSequenceNumber),
        ("AT_TIMESTAMP", ShardIteratorType::AtTimestamp),
        ("LATEST", ShardIteratorType::Latest),
        ("TRIM_HORIZON", ShardIteratorType::TrimHorizon),
    ];
    for (name, kind) in known {
        let component = with_iterator_type(name);
        assert_eq!(component.shard_iterator_type, kind);
        assert_eq!(component.shard_iterator_type.as_str(), name);
    }
}

#[test]
fn unknown_iterator_types_are_kept() {
    for name in ["", "latest", "LATEST ", "NEWEST"] {
        let component = with_iterator_type(name);
        assert_eq!(
            component.shard_iterator_type,
            ShardIteratorType::Unknown(name.to_string())
        );
        assert_eq!(component.shard_iterator_type.as_str(), name);
        assert_eq!(
            component.shard_iterator_type.clone(),
            component.shard_iterator_type
        );
    }
}

#[test]
fn iterator_type_names_are_those_of_the_sdk() {
    for name in aws_sdk_kinesis::types::ShardIteratorType::values() {
        let component = with_iterator_type(name);
        assert!(!matches!(
            component.shard_iterator_type,
            ShardIteratorType::Unknown(_)
        ));
    }
}

#[test]
fn trigger_has_one_component_per_section() {
    let trigger = KinesisTrigger::new(&vec![
        section("one", "arn-1"),
        section("two", "arn-2"),
        section("one", "arn-3"),
    ]);
    let found: Vec<(String, String)> = trigger
        .components()
        .iter()
        .map(|component| (component.id.clone(), component.stream_arn.clone()))
        .collect();
    assert_eq!(
        found,
        vec![
            ("one".to_string(), "arn-1".to_string()),
            ("two".to_string(), "arn-2".to_string()),
            ("one".to_string(), "arn-3".to_string()),
        ]
    );
    for component in trigger.components() {
        assert_eq!(component.shard_iterator_type, ShardIteratorType::Latest);
    }
    assert!(KinesisTrigger::new(&vec![]).components().is_empty());
    assert_eq!(TRIGGER_TYPE, "kinesis");
}
