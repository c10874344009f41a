//! Reading one shard of a stream, batch by batch.
use crate::config::{ShardIteratorType, ShardIteratorTypeView};
use crate::record::{batch_for_component, for_component, Record};
use crate::record_processor::{Invocation, InvocationView, KinesisRecordProcessor};
use std::time::Duration;
use vstd::prelude::*;

verus! {

/// The request for a shard's first iterator.
#[derive(Debug, PartialEq, Eq)]
pub struct ShardIteratorRequest {
    pub stream_arn: String,
    pub shard_id: String,
    pub shard_iterator_type: ShardIteratorType,
}

/// The request for the next records of a shard.
#[derive(Debug, PartialEq, Eq)]
pub struct GetRecordsRequest {
    pub shard_iterator: String,
    pub stream_arn: String,
    pub limit: i32,
}

/// The reply to a request for records.
#[derive(Debug)]
pub struct GetRecordsOutput {
    pub records: Vec<Record>,
    pub next_shard_iterator: Option<String>,
    /// How far the reply is behind the end of the shard. Nothing is decided by it.
    pub millis_behind_latest: Option<i64>,
}

/// What the processor asks of the outside.
#[derive(Debug, PartialEq, Eq)]
pub enum PollAction {
    GetShardIterator(ShardIteratorRequest),
    GetRecords(GetRecordsRequest),
    /// Call the component, and wait until it is done.
    ProcessRecords(Invocation),
    /// Sleep.
    Wait { wait: Duration },
    /// Tell the detector that the shard is finished.
    Close { shard_id: String },
    /// End the task: nothing is left to do.
    Finish,
}

/// What the outside reports to the processor.
#[derive(Debug)]
pub enum PollEvent {
    /// The processor's task has started.
    Started,
    /// The shard's first iterator, if the reply held one, or the request's error.
    ShardIterator(Result<Option<String>, String>),
    /// The reply to the request for records, or its error.
    Records(Result<GetRecordsOutput, String>),
    /// The component is done with the batch, or has failed.
    Processed(Result<(), String>),
    /// The sleep is over.
    Waited,
    /// Whether the detector took the finished shard.
    Closed(Result<(), String>),
}

/// A processor action, with texts and batches as sequences.
pub enum PollActionView {
    GetShardIterator {
        stream_arn: Seq<char>,
        shard_id: Seq<char>,
        shard_iterator_type: ShardIteratorTypeView,
    },
    GetRecords { shard_iterator: Seq<char>, stream_arn: Seq<char>, limit: int },
    ProcessRecords(InvocationView),
    Wait { wait: Duration },
    Close { shard_id: Seq<char> },
    Finish,
}

impl View for PollAction {
    type V = PollActionView;

    open spec fn view(&self) -> PollActionView {
        match self {
            PollAction::GetShardIterator(request) => PollActionView::GetShardIterator {
                stream_arn: request.stream_arn@,
                shard_id: request.shard_id@,
                shard_iterator_type: request.shard_iterator_type@,
            },
            PollAction::GetRecords(request) => PollActionView::GetRecords {
                shard_iterator: request.shard_iterator@,
                stream_arn: request.stream_arn@,
                limit: request.limit as int,
            },
            PollAction::ProcessRecords(invocation) => PollActionView::ProcessRecords(invocation@),
            PollAction::Wait { wait } => PollActionView::Wait { wait: *wait },
            PollAction::Close { shard_id } => PollActionView::Close { shard_id: shard_id@ },
            PollAction::Finish => PollActionView::Finish,
        }
    }
}

/// An iterator, if there is one, as a sequence.
pub open spec fn iterator_view(iterator: Option<String>) -> Option<Seq<char>> {
    match iterator {
        Some(iterator) => Some(iterator@),
        None => None,
    }
}

/// What the processor is waiting for.
pub enum PollPhaseView {
    /// To be started.
    Created,
    /// For the shard's first iterator.
    Opening,
    /// For records.
    Fetching,
    /// For the component to be done; then it reads on from the iterator.
    Processing { next: Option<Seq<char>> },
    /// For the end of its sleep; then it reads on from the iterator.
    Waiting { next: Option<Seq<char>> },
    /// For the detector to take the finished shard.
    Closing,
    /// For nothing.
    Finished,
}

/// What a processor was made for.
pub struct ShardView {
    pub component_id: Seq<char>,
    pub stream_arn: Seq<char>,
    pub shard_id: Seq<char>,
    pub batch_size: u16,
    pub shard_idle_wait_millis: Duration,
    pub shard_iterator_type: ShardIteratorTypeView,
}

/// The state of a processor.
pub struct ProcessorView {
    pub shard: ShardView,
    pub phase: PollPhaseView,
}

/// A shard is idle when the last check brought no records, however far the
/// reply is behind.
pub open spec fn is_idle(output: GetRecordsOutput) -> bool {
    output.records@.len() == 0
}

impl ProcessorView {
    /// Whether the event answers what the processor asked last.
    pub open spec fn accepts(self, event: PollEvent) -> bool {
        match self.phase {
            PollPhaseView::Created => event is Started,
            PollPhaseView::Opening => event is ShardIterator,
            PollPhaseView::Fetching => event is Records,
            PollPhaseView::Processing { next } => event is Processed,
            PollPhaseView::Waiting { next } => event is Waited,
            PollPhaseView::Closing => event is Closed,
            PollPhaseView::Finished => false,
        }
    }

    /// Reads on from the iterator, or closes the shard where there is none.
    pub open spec fn read_on(self, next: Option<Seq<char>>) -> (ProcessorView, PollActionView) {
        match next {
            Some(shard_iterator) => (
                ProcessorView { phase: PollPhaseView::Fetching, ..self },
                PollActionView::GetRecords {
                    shard_iterator,
                    stream_arn: self.shard.stream_arn,
                    limit: self.shard.batch_size as int,
                },
            ),
            None => (
                ProcessorView { phase: PollPhaseView::Closing, ..self },
                PollActionView::Close { shard_id: self.shard.shard_id },
            ),
        }
    }

    /// Sleeps for the idle wait, and reads on from the iterator after it.
    pub open spec fn wait(self, next: Option<Seq<char>>) -> (ProcessorView, PollActionView) {
        (
            ProcessorView { phase: PollPhaseView::Waiting { next }, ..self },
            PollActionView::Wait { wait: self.shard.shard_idle_wait_millis },
        )
    }

    /// Hands the records to the component, and reads on from the iterator
    /// when it is done.
    pub open spec fn process(self, records: Seq<Record>, next: Option<Seq<char>>) -> (
        ProcessorView,
        PollActionView,
    ) {
        (
            ProcessorView { phase: PollPhaseView::Processing { next }, ..self },
            PollActionView::ProcessRecords(
                InvocationView {
                    component_id: self.shard.component_id,
                    records: batch_for_component(records),
                },
            ),
        )
    }

    /// The next state and what to do in it, after an event that answers what
    /// was asked last.
    pub open spec fn step(self, event: PollEvent) -> (ProcessorView, PollActionView) {
        match event {
            PollEvent::Started => (
                ProcessorView { phase: PollPhaseView::Opening, ..self },
                PollActionView::GetShardIterator {
                    stream_arn: self.shard.stream_arn,
                    shard_id: self.shard.shard_id,
                    shard_iterator_type: self.shard.shard_iterator_type,
                },
            ),
            PollEvent::ShardIterator(Ok(iterator)) => self.read_on(iterator_view(iterator)),
            PollEvent::ShardIterator(Err(_)) => self.read_on(None),
            PollEvent::Records(Ok(output)) => {
                let next = iterator_view(output.next_shard_iterator);
                if is_idle(output) {
                    self.wait(next)
                } else {
                    self.process(output.records@, next)
                }
            },
            PollEvent::Records(Err(_)) => self.wait(None),
            PollEvent::Processed(_) => self.read_on(self.phase->Processing_next),
            PollEvent::Waited => self.read_on(self.phase->Waiting_next),
            PollEvent::Closed(_) => (
                ProcessorView { phase: PollPhaseView::Finished, ..self },
                PollActionView::Finish,
            ),
        }
    }
}

#[derive(Clone, Copy, Debug, PartialEq, Eq, Structural)]
enum PollPhase {
    Created,
    Opening,
    Fetching,
    Processing,
    Waiting,
    Closing,
    Finished,
}

/// What to do about the reply to a request for records.
pub enum BatchStep {
    /// Hand these records to the component.
    Process(Invocation),
    /// Sleep for the idle wait.
    Wait,
}

/// Reads one shard from its first iterator to its end.
pub struct ShardProcessor {
    component_id: String,
    stream_arn: String,
    shard_id: String,
    batch_size: u16,
    shard_idle_wait_millis: Duration,
    shard_iterator_type: ShardIteratorType,
    phase: PollPhase,
    /// Where to read on after processing or waiting.
    next_shard_iterator: Option<String>,
}

impl View for ShardProcessor {
    type V = ProcessorView;

    closed spec fn view(&self) -> ProcessorView {
        ProcessorView {
            shard: ShardView {
                component_id: self.component_id@,
                stream_arn: self.stream_arn@,
                shard_id: self.shard_id@,
                batch_size: self.batch_size,
                shard_idle_wait_millis: self.shard_idle_wait_millis,
                shard_iterator_type: self.shard_iterator_type@,
            },
            phase: match self.phase {
                PollPhase::Created => PollPhaseView::Created,
                PollPhase::Opening => PollPhaseView::Opening,
                PollPhase::Fetching => PollPhaseView::Fetching,
                PollPhase::Processing => PollPhaseView::Processing {
                    next: iterator_view(self.next_shard_iterator),
                },
                PollPhase::Waiting => PollPhaseView::Waiting {
                    next: iterator_view(self.next_shard_iterator),
                },
                PollPhase::Closing => PollPhaseView::Closing,
                PollPhase::Finished => PollPhaseView::Finished,
            },
        }
    }
}

impl ShardProcessor {
    /// Creates a processor for the given stream and shard.
    pub fn new(
        component_id: &str,
        stream_arn: &str,
        shard_id: String,
        batch_size: u16,
        shard_idle_wait_millis: Duration,
        shard_iterator_type: ShardIteratorType,
    ) -> (processor: ShardProcessor)
        ensures
            processor@ == (ProcessorView {
                shard: ShardView {
                    component_id: component_id@,
                    stream_arn: stream_arn@,
                    shard_id: shard_id@,
                    batch_size,
                    shard_idle_wait_millis,
                    shard_iterator_type: shard_iterator_type@,
                },
                phase: PollPhaseView::Created,
            }),
    {
        ShardProcessor {
            component_id: component_id.to_owned(),
            stream_arn: stream_arn.to_owned(),
            shard_id,
            batch_size,
            shard_idle_wait_millis,
            shard_iterator_type,
            phase: PollPhase::Created,
            next_shard_iterator: None,
        }
    }

    /// The component that the shard is read for.
    pub fn component_id(&self) -> (component_id: &str)
        ensures
            component_id@ == self@.shard.component_id,
    {
        self.component_id.as_str()
    }

    /// Whether the event answers what the processor asked last.
    pub fn accepts(&self, event: &PollEvent) -> (answers: bool)
        ensures
            answers == self@.accepts(*event),
    {
        match event {
            PollEvent::Started => self.phase == PollPhase::Created,
            PollEvent::ShardIterator(_) => self.phase == PollPhase::Opening,
            PollEvent::Records(_) => self.phase == PollPhase::Fetching,
            PollEvent::Processed(_) => self.phase == PollPhase::Processing,
            PollEvent::Waited => self.phase == PollPhase::Waiting,
            PollEvent::Closed(_) => self.phase == PollPhase::Closing,
        }
    }

    /// The request for the shard's first iterator.
    pub fn get_shard_iterator(&self) -> (request: ShardIteratorRequest)
        ensures
            request.stream_arn@ == self@.shard.stream_arn,
            request.shard_id@ == self@.shard.shard_id,
            request.shard_iterator_type@ == self@.shard.shard_iterator_type,
    {
        ShardIteratorRequest {
            stream_arn: self.stream_arn.clone(),
            shard_id: self.shard_id.clone(),
            shard_iterator_type: self.shard_iterator_type.clone(),
        }
    }

    /// The request for the records at the iterator.
    pub fn get_records(&self, shard_iterator: String) -> (request: GetRecordsRequest)
        ensures
            request.shard_iterator@ == shard_iterator@,
            request.stream_arn@ == self@.shard.stream_arn,
            request.limit == self@.shard.batch_size,
    {
        GetRecordsRequest {
            shard_iterator,
            stream_arn: self.stream_arn.clone(),
            limit: self.batch_size as i32,
        }
    }

    /// The id of the shard that is finished.
    pub fn close(&self) -> (shard_id: String)
        ensures
            shard_id@ == self@.shard.shard_id,
    {
        self.shard_id.clone()
    }

    /// What to do about the reply to a request for records, and where to read
    /// on after it. A shard whose request failed is waited for and not read on.
    pub fn process_batch(&self, reply: Result<GetRecordsOutput, String>) -> (decision: (
        BatchStep,
        Option<String>,
    ))
        ensures
            match reply {
                Ok(output) => {
                    &&& decision.1 == output.next_shard_iterator
                    &&& decision.0 is Wait <==> is_idle(output)
                    &&& decision.0 matches BatchStep::Process(invocation) ==> invocation@ == (
                    InvocationView {
                        component_id: self@.shard.component_id,
                        records: batch_for_component(output.records@),
                    })
                    &&& decision.0 is Wait <==> output.records@.len() == 0
                    &&& decision.0 matches BatchStep::Process(invocation)
                        ==> invocation.component_id@ == self@.shard.component_id
                        && invocation.records@.len() == output.records@.len() && (forall|i: int|
                        0 <= i < output.records@.len() ==> (#[trigger] invocation.records@[i])@
                            == for_component(output.records@[i]))
                },
                Err(_) => decision.0 is Wait && decision.1 is None,
            },
    {
        match reply {
            Ok(output) => {
                if output.records.len() == 0 {
                    (BatchStep::Wait, output.next_shard_iterator)
                } else {
                    let processor = KinesisRecordProcessor::new(self.component_id.as_str());
                    (
                        BatchStep::Process(processor.process_records(output.records)),
                        output.next_shard_iterator,
                    )
                }
            },
            Err(_) => (BatchStep::Wait, None),
        }
    }

    /// Reads on from the iterator, or closes the shard where there is none.
    fn read_on(&mut self, next: Option<String>) -> (action: PollAction)
        ensures
            (final(self)@, action@) == old(self)@.read_on(iterator_view(next)),
    {
        match next {
            Some(shard_iterator) => {
                self.phase = PollPhase::Fetching;
                PollAction::GetRecords(self.get_records(shard_iterator))
            },
            None => {
                self.phase = PollPhase::Closing;
                PollAction::Close { shard_id: self.close() }
            },
        }
    }

    /// Takes the next step of the loop that reads the shard: the event answers
    /// the last action, and the returned action is the next one.
    pub fn poll(&mut self, event: PollEvent) -> (action: PollAction)
        requires
            old(self)@.accepts(event),
        ensures
            (final(self)@, action@) == old(self)@.step(event),
    {
        match event {
            PollEvent::Started => {
                self.phase = PollPhase::Opening;
                PollAction::GetShardIterator(self.get_shard_iterator())
            },
            PollEvent::ShardIterator(reply) => match reply {
                Ok(iterator) => self.read_on(iterator),
                Err(_) => self.read_on(None),
            },
            PollEvent::Records(reply) => {
                let (step, next) = self.process_batch(reply);
                match step {
                    BatchStep::Process(invocation) => {
                        self.phase = PollPhase::Processing;
                        self.next_shard_iterator = next;
                        PollAction::ProcessRecords(invocation)
                    },
                    BatchStep::Wait => {
                        self.phase = PollPhase::Waiting;
                        self.next_shard_iterator = next;
                        PollAction::Wait { wait: self.shard_idle_wait_millis }
                    },
                }
            },
            PollEvent::Processed(_) => {
                let next = self.next_shard_iterator.take();
                self.read_on(next)
            },
            PollEvent::Waited => {
                let next = self.next_shard_iterator.take();
                self.read_on(next)
            },
            PollEvent::Closed(_) => {
                self.phase = PollPhase::Finished;
                PollAction::Finish
            },
        }
    }
}

} // verus!
