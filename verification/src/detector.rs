//! Finding the shards of a stream that no processor follows yet.
use std::time::Duration;
use vstd::hash_set::StringHashSet;
use vstd::prelude::*;

verus! {

/// What the detector asks of the outside.
#[derive(Debug, PartialEq, Eq)]
pub enum DetectorAction {
    /// Take one finished shard from the channel, if there is one.
    CheckFinished,
    /// List the shards of the stream.
    ListShards { stream_arn: String },
    /// Hand a shard that nothing follows yet to the receive loop.
    SendShard { shard_id: String },
    /// Sleep.
    Wait { wait: Duration },
}

/// What the outside reports to the detector.
#[derive(Debug)]
pub enum DetectorEvent {
    /// The detector's task has started.
    Started,
    /// No finished shard is in the channel.
    NoneFinished,
    /// What the channel of finished shards gave: a shard, or that it is closed.
    Finished(Option<String>),
    /// The shards of the stream, if the reply named any, or the request's error.
    Listed(Result<Option<Vec<String>>, String>),
    /// Whether the receive loop took the shard.
    Sent(Result<(), String>),
    /// The sleep is over.
    Waited,
}

/// A detector action, with texts as sequences.
pub enum DetectorActionView {
    CheckFinished,
    ListShards { stream_arn: Seq<char> },
    SendShard { shard_id: Seq<char> },
    Wait { wait: Duration },
}

impl View for DetectorAction {
    type V = DetectorActionView;

    open spec fn view(&self) -> DetectorActionView {
        match self {
            DetectorAction::CheckFinished => DetectorActionView::CheckFinished,
            DetectorAction::ListShards { stream_arn } => DetectorActionView::ListShards {
                stream_arn: stream_arn@,
            },
            DetectorAction::SendShard { shard_id } => DetectorActionView::SendShard {
                shard_id: shard_id@,
            },
            DetectorAction::Wait { wait } => DetectorActionView::Wait { wait: *wait },
        }
    }
}

/// What the detector is waiting for.
pub enum DetectorPhaseView {
    /// To be started.
    Created,
    /// For word from the channel of finished shards.
    Checking,
    /// For the list of shards.
    Listing,
    /// For the receive loop to take the first of these; the others come after it.
    Sending { rest: Seq<Seq<char>> },
    /// For the end of its sleep.
    Waiting,
}

/// The state of a detector.
pub struct DetectorView {
    pub component_id: Seq<char>,
    pub stream_arn: Seq<char>,
    pub detector_poll_millis: Duration,
    /// The shards that were handed out and have not finished since.
    pub running_shards: Set<Seq<char>>,
    pub phase: DetectorPhaseView,
}

/// The shard ids as sequences.
pub open spec fn shard_ids(shards: Seq<String>) -> Seq<Seq<char>> {
    shards.map_values(|shard: String| shard@)
}

/// The listed shards from the first one on that is not running.
pub open spec fn from_first_new(running: Set<Seq<char>>, listed: Seq<Seq<char>>) -> Seq<Seq<char>>
    decreases listed.len(),
{
    if listed.len() == 0 || !running.contains(listed[0]) {
        listed
    } else {
        from_first_new(running, listed.drop_first())
    }
}

impl DetectorView {
    /// A shard on its way to the receive loop is not a running one.
    pub open spec fn well_formed(self) -> bool {
        match self.phase {
            DetectorPhaseView::Sending { rest } => rest.len() > 0 && !self.running_shards.contains(
                rest[0],
            ),
            _ => true,
        }
    }

    /// Whether the event answers what the detector asked last.
    pub open spec fn accepts(self, event: DetectorEvent) -> bool {
        match self.phase {
            DetectorPhaseView::Created => event is Started,
            DetectorPhaseView::Checking => event is NoneFinished || event is Finished,
            DetectorPhaseView::Listing => event is Listed,
            DetectorPhaseView::Sending { rest } => event is Sent,
            DetectorPhaseView::Waiting => event is Waited,
        }
    }

    /// Looks for finished shards next.
    pub open spec fn check_finished(self) -> (DetectorView, DetectorActionView) {
        (
            DetectorView { phase: DetectorPhaseView::Checking, ..self },
            DetectorActionView::CheckFinished,
        )
    }

    /// Sleeps next.
    pub open spec fn wait(self) -> (DetectorView, DetectorActionView) {
        (
            DetectorView { phase: DetectorPhaseView::Waiting, ..self },
            DetectorActionView::Wait { wait: self.detector_poll_millis },
        )
    }

    /// Hands out the first shard of the list that is not running, or sleeps
    /// where there is none.
    pub open spec fn send_from(self, listed: Seq<Seq<char>>) -> (DetectorView, DetectorActionView) {
        let rest = from_first_new(self.running_shards, listed);
        if rest.len() == 0 {
            self.wait()
        } else {
            (
                DetectorView { phase: DetectorPhaseView::Sending { rest }, ..self },
                DetectorActionView::SendShard { shard_id: rest[0] },
            )
        }
    }

    /// The next state and what to do in it, after an event that answers what
    /// was asked last.
    pub open spec fn step(self, event: DetectorEvent) -> (DetectorView, DetectorActionView) {
        match event {
            DetectorEvent::Started => self.check_finished(),
            DetectorEvent::NoneFinished => (
                DetectorView { phase: DetectorPhaseView::Listing, ..self },
                DetectorActionView::ListShards { stream_arn: self.stream_arn },
            ),
            DetectorEvent::Finished(Some(shard)) => DetectorView {
                running_shards: self.running_shards.remove(shard@),
                ..self
            }.check_finished(),
            DetectorEvent::Finished(None) => self.check_finished(),
            DetectorEvent::Listed(Ok(Some(shards))) => self.send_from(shard_ids(shards@)),
            DetectorEvent::Listed(_) => self.wait(),
            DetectorEvent::Sent(Ok(_)) => DetectorView {
                running_shards: self.running_shards.insert(self.phase->rest[0]),
                ..self
            }.send_from(self.phase->rest.drop_first()),
            DetectorEvent::Sent(Err(_)) => self.send_from(self.phase->rest.drop_first()),
            DetectorEvent::Waited => self.check_finished(),
        }
    }
}

#[derive(Clone, Copy, Debug, PartialEq, Eq, Structural)]
enum DetectorPhase {
    Created,
    Checking,
    Listing,
    Sending,
    Waiting,
}

/// Looks for shards of a stream that no processor follows, again and again.
pub struct ShardDetector {
    component_id: String,
    stream_arn: String,
    detector_poll_millis: Duration,
    running_shards: StringHashSet,
    phase: DetectorPhase,
    /// The shards of the last listing, of which those before `next` are dealt with.
    pending: Vec<String>,
    next: usize,
}

impl View for ShardDetector {
    type V = DetectorView;

    closed spec fn view(&self) -> DetectorView {
        DetectorView {
            component_id: self.component_id@,
            stream_arn: self.stream_arn@,
            detector_poll_millis: self.detector_poll_millis,
            running_shards: self.running_shards@,
            phase: match self.phase {
                DetectorPhase::Created => DetectorPhaseView::Created,
                DetectorPhase::Checking => DetectorPhaseView::Checking,
                DetectorPhase::Listing => DetectorPhaseView::Listing,
                DetectorPhase::Sending => DetectorPhaseView::Sending {
                    rest: shard_ids(self.pending@).skip(self.next as int),
                },
                DetectorPhase::Waiting => DetectorPhaseView::Waiting,
            },
        }
    }
}

impl ShardDetector {
    /// What every detector keeps.
    pub closed spec fn well_formed(self) -> bool {
        self.next <= self.pending@.len() && self@.well_formed()
    }

    /// Creates a detector for the given stream, which has handed out no shard.
    pub fn new(stream_arn: &str, detector_poll_millis: Duration, component_id: &str) -> (detector:
        ShardDetector)
        ensures
            detector.well_formed(),
            detector@.well_formed(),
            detector@ == (DetectorView {
                component_id: component_id@,
                stream_arn: stream_arn@,
                detector_poll_millis,
                running_shards: Set::empty(),
                phase: DetectorPhaseView::Created,
            }),
    {
        ShardDetector {
            component_id: component_id.to_owned(),
            stream_arn: stream_arn.to_owned(),
            detector_poll_millis,
            running_shards: StringHashSet::new(),
            phase: DetectorPhase::Created,
            pending: Vec::new(),
            next: 0,
        }
    }

    /// The component that the stream is read for.
    pub fn component_id(&self) -> (component_id: &str)
        ensures
            component_id@ == self@.component_id,
    {
        self.component_id.as_str()
    }

    /// Whether the event answers what the detector asked last.
    pub fn accepts(&self, event: &DetectorEvent) -> (answers: bool)
        ensures
            answers == self@.accepts(*event),
    {
        match event {
            DetectorEvent::Started => self.phase == DetectorPhase::Created,
            DetectorEvent::NoneFinished => self.phase == DetectorPhase::Checking,
            DetectorEvent::Finished(_) => self.phase == DetectorPhase::Checking,
            DetectorEvent::Listed(_) => self.phase == DetectorPhase::Listing,
            DetectorEvent::Sent(_) => self.phase == DetectorPhase::Sending,
            DetectorEvent::Waited => self.phase == DetectorPhase::Waiting,
        }
    }

    /// Hands out the next listed shard that is not running.
    fn send_next(&mut self) -> (action: DetectorAction)
        requires
            old(self).next <= old(self).pending@.len(),
        ensures
            final(self).well_formed(),
            (final(self)@, action@) == old(self)@.send_from(
                shard_ids(old(self).pending@).skip(old(self).next as int),
            ),
    {
        let ghost listed = shard_ids(self.pending@);
        let ghost start = self.next as int;
        while self.next < self.pending.len() && self.running_shards.contains(
            self.pending[self.next].as_str(),
        )
            invariant
                self.next <= self.pending@.len(),
                listed == shard_ids(self.pending@),
                self.pending == old(self).pending,
                self.running_shards == old(self).running_shards,
                self.component_id == old(self).component_id,
                self.stream_arn == old(self).stream_arn,
                self.detector_poll_millis == old(self).detector_poll_millis,
                start == old(self).next,
                from_first_new(self.running_shards@, listed.skip(self.next as int))
                    == from_first_new(self.running_shards@, listed.skip(start)),
            decreases self.pending@.len() - self.next,
        {
            proof {
                assert(listed.skip(self.next as int).drop_first() =~= listed.skip(
                    self.next as int + 1,
                ));
            }
            self.next = self.next + 1;
        }
        let ghost rest = listed.skip(self.next as int);
        proof {
            assert(self.next < listed.len() ==> rest[0] == listed[self.next as int]);
        }
        if self.next < self.pending.len() {
            self.phase = DetectorPhase::Sending;
            DetectorAction::SendShard { shard_id: self.pending[self.next].clone() }
        } else {
            self.phase = DetectorPhase::Waiting;
            DetectorAction::Wait { wait: self.detector_poll_millis }
        }
    }

    /// Takes the next step of the loop that looks for new shards: the event
    /// answers the last action, and the returned action is the next one.
    pub fn poll_new_shards(&mut self, event: DetectorEvent) -> (action: DetectorAction)
        requires
            old(self).well_formed(),
            old(self)@.accepts(event),
        ensures
            final(self).well_formed(),
            final(self)@.well_formed(),
            (final(self)@, action@) == old(self)@.step(event),
    {
        match event {
            DetectorEvent::Started => {
                self.phase = DetectorPhase::Checking;
                DetectorAction::CheckFinished
            },
            DetectorEvent::NoneFinished => {
                self.phase = DetectorPhase::Listing;
                DetectorAction::ListShards { stream_arn: self.stream_arn.clone() }
            },
            DetectorEvent::Finished(finished) => {
                if let Some(shard) = finished {
                    self.running_shards.remove(shard.as_str());
                }
                self.phase = DetectorPhase::Checking;
                DetectorAction::CheckFinished
            },
            DetectorEvent::Listed(Ok(Some(shards))) => {
                self.pending = shards;
                self.next = 0;
                proof {
                    assert(shard_ids(self.pending@).skip(0) =~= shard_ids(self.pending@));
                }
                self.send_next()
            },
            DetectorEvent::Listed(_) => {
                self.phase = DetectorPhase::Waiting;
                DetectorAction::Wait { wait: self.detector_poll_millis }
            },
            DetectorEvent::Sent(sent) => {
                proof {
                    let listed = shard_ids(self.pending@);
                    assert(self.next < self.pending.len());
                    assert(listed.skip(self.next as int)[0] == listed[self.next as int]);
                    assert(listed.skip(self.next as int).drop_first() =~= listed.skip(
                        self.next as int + 1,
                    ));
                }
                if sent.is_ok() {
                    self.running_shards.insert(self.pending[self.next].clone());
                }
                self.next = self.next + 1;
                self.send_next()
            },
            DetectorEvent::Waited => {
                self.phase = DetectorPhase::Checking;
                DetectorAction::CheckFinished
            },
        }
    }
}

} // verus!
