use std::time::Duration;
use trigger_kinesis::detector::{DetectorAction, DetectorEvent, ShardDetector};

const POLL: Duration = Duration::from_millis(30_000);

fn started() -> ShardDetector {
    let mut detector = ShardDetector::new("arn", POLL, "component");
    assert_eq!(
        detector.poll_new_shards(DetectorEvent::Started),
        DetectorAction::CheckFinished
    );
    detector
}

fn listed(shards: &[&str]) -> DetectorEvent {
    DetectorEvent::Listed(Ok(Some(shards.iter().map(|s| s.to_string()).collect())))
}

fn send(shard: &str) -> DetectorAction {
    DetectorAction::SendShard { shard_id: shard.to_string() }
}

fn wait() -> DetectorAction {
    DetectorAction::Wait { wait: POLL }
}

fn finished(shard: &str) -> DetectorEvent {
    DetectorEvent::Finished(Some(shard.to_string()))
}

/// Lists the shards, lets the receive loop take all that are handed out, and
/// returns those.
fn round(detector: &mut ShardDetector, shards: &[&str]) -> Vec<String> {
    assert_eq!(
        detector.poll_new_shards(DetectorEvent::NoneFinished),
        DetectorAction::ListShards { stream_arn: "arn".to_string() }
    );
    let mut action = detector.poll_new_shards(listed(shards));
    let mut sent = vec![];
    while let DetectorAction::SendShard { shard_id } = action {
        sent.push(shard_id);
        action = detector.poll_new_shards(DetectorEvent::Sent(Ok(())));
    }
    assert_eq!(action, wait());
    assert_eq!(
        detector.poll_new_shards(DetectorEvent::Waited),
        DetectorAction::CheckFinished
    );
    sent
}

#[test]
fn new_shards_are_handed_out_in_order() {
    let mut detector = started();
    assert_eq!(round(&mut detector, &["b", "a", "c"]), vec!["b", "a", "c"]);
}

#[test]
fn running_shards_are_not_handed_out_again() {
    let mut detector = started();
    assert_eq!(round(&mut detector, &["a", "b"]), vec!["a", "b"]);
    assert_eq!(round(&mut detector, &["a", "c", "b"]), vec!["c"]);
    assert!(round(&mut detector, &["a", "b", "c"]).is_empty());
}

#[test]
fn shard_listed_twice_is_handed_out_once() {
    let mut detector = started();
    assert_eq!(round(&mut detector, &["a", "a", "b", "a"]), vec!["a", "b"]);
}

#[test]
fn finished_shard_is_handed_out_again() {
    let mut detector = started();
    assert_eq!(round(&mut detector, &["a", "b"]), vec!["a", "b"]);
    assert_eq!(
        detector.poll_new_shards(finished("a")),
        DetectorAction::CheckFinished
    );
    assert_eq!(round(&mut detector, &["a", "b"]), vec!["a"]);
}

#[test]
fn finished_shard_that_was_not_running_changes_nothing() {
    let mut detector = started();
    assert_eq!(round(&mut detector, &["a"]), vec!["a"]);
    assert_eq!(
        detector.poll_new_shards(finished("z")),
        DetectorAction::CheckFinished
    );
    assert!(round(&mut detector, &["a"]).is_empty());
}

#[test]
fn all_finished_shards_are_taken_before_listing() {
    let mut detector = started();
    assert_eq!(round(&mut detector, &["a", "b"]), vec!["a", "b"]);
    assert_eq!(
        detector.poll_new_shards(finished("a")),
        DetectorAction::CheckFinished
    );
    assert_eq!(
        detector.poll_new_shards(finished("b")),
        DetectorAction::CheckFinished
    );
    assert_eq!(round(&mut detector, &["a", "b"]), vec!["a", "b"]);
}

#[test]
fn closed_channel_of_finished_shards_is_survived() {
    let mut detector = started();
    assert_eq!(
        detector.poll_new_shards(DetectorEvent::Finished(None)),
        DetectorAction::CheckFinished
    );
    assert_eq!(round(&mut detector, &["a"]), vec!["a"]);
}

#[test]
fn refused_shard_is_offered_at_the_next_listing() {
    let mut detector = started();
    detector.poll_new_shards(DetectorEvent::NoneFinished);
    assert_eq!(detector.poll_new_shards(listed(&["a", "b"])), send("a"));
    assert_eq!(
        detector.poll_new_shards(DetectorEvent::Sent(Err("closed".to_string()))),
        send("b")
    );
    assert_eq!(
        detector.poll_new_shards(DetectorEvent::Sent(Ok(()))),
        wait()
    );
    detector.poll_new_shards(DetectorEvent::Waited);
    assert_eq!(round(&mut detector, &["a", "b"]), vec!["a"]);
}

#[test]
fn refused_shards_keep_the_order_of_the_list() {
    let mut detector = started();
    assert_eq!(round(&mut detector, &["b"]), vec!["b"]);
    detector.poll_new_shards(DetectorEvent::NoneFinished);
    let refused = || DetectorEvent::Sent(Err("closed".to_string()));
    assert_eq!(
        detector.poll_new_shards(listed(&["d", "b", "a", "c"])),
        send("d")
    );
    assert_eq!(detector.poll_new_shards(refused()), send("a"));
    assert_eq!(
        detector.poll_new_shards(DetectorEvent::Sent(Ok(()))),
        send("c")
    );
    assert_eq!(detector.poll_new_shards(refused()), wait());
}

#[test]
fn refused_shard_listed_again_is_offered_again() {
    let mut detector = started();
    detector.poll_new_shards(DetectorEvent::NoneFinished);
    assert_eq!(detector.poll_new_shards(listed(&["a", "a"])), send("a"));
    assert_eq!(
        detector.poll_new_shards(DetectorEvent::Sent(Err("closed".to_string()))),
        send("a")
    );
}

#[test]
fn failed_or_empty_listing_is_waited_out() {
    for reply in [
        DetectorEvent::Listed(Ok(None)),
        DetectorEvent::Listed(Err("throttled".to_string())),
        listed(&[]),
    ] {
        let mut detector = started();
        assert_eq!(round(&mut detector, &["a"]), vec!["a"]);
        detector.poll_new_shards(DetectorEvent::NoneFinished);
        assert_eq!(detector.poll_new_shards(reply), wait());
        assert_eq!(
            detector.poll_new_shards(DetectorEvent::Waited),
            DetectorAction::CheckFinished
        );
        assert!(round(&mut detector, &["a"]).is_empty());
    }
}

#[test]
fn detector_accepts_only_the_answer_to_its_last_action() {
    let mut detector = ShardDetector::new("arn", POLL, "component");
    assert!(detector.accepts(&DetectorEvent::Started));
    assert!(!detector.accepts(&DetectorEvent::NoneFinished));
    detector.poll_new_shards(DetectorEvent::Started);
    assert!(detector.accepts(&DetectorEvent::NoneFinished));
    assert!(detector.accepts(&finished("a")));
    assert!(!detector.accepts(&listed(&["a"])));
    detector.poll_new_shards(DetectorEvent::NoneFinished);
    assert!(detector.accepts(&listed(&["a"])));
    detector.poll_new_shards(listed(&["a"]));
    assert!(detector.accepts(&DetectorEvent::Sent(Ok(()))));
    assert!(!detector.accepts(&DetectorEvent::Waited));
    detector.poll_new_shards(DetectorEvent::Sent(Ok(())));
    assert!(detector.accepts(&DetectorEvent::Waited));
    assert!(!detector.accepts(&DetectorEvent::Sent(Ok(()))));
}
