//! What holds of every run of a shard's processor.
use crate::processor::{
    iterator_view, GetRecordsOutput, PollAction, PollActionView, PollEvent, PollPhaseView,
    ProcessorView,
};
use crate::record::{batch_for_component, for_component, KinesisRecordView};
use crate::record_processor::InvocationView;
use vstd::prelude::*;

verus! {

impl ProcessorView {
    /// The state after the events, one after the other.
    pub open spec fn after(self, events: Seq<PollEvent>) -> ProcessorView
        decreases events.len(),
    {
        if events.len() == 0 {
            self
        } else {
            self.after(events.drop_last()).step(events.last()).0
        }
    }

    /// Whether each event answers what the processor had asked before it.
    pub open spec fn fits(self, events: Seq<PollEvent>) -> bool
        decreases events.len(),
    {
        events.len() == 0 || (self.fits(events.drop_last()) && self.after(
            events.drop_last(),
        ).accepts(events.last()))
    }

    /// What the processor asks for after each event, in order.
    pub open spec fn actions(self, events: Seq<PollEvent>) -> Seq<PollActionView>
        decreases events.len(),
    {
        if events.len() == 0 {
            Seq::empty()
        } else {
            self.actions(events.drop_last()).push(
                self.after(events.drop_last()).step(events.last()).1,
            )
        }
    }
}

/// The calls of the component among the actions, in order.
pub open spec fn invocations(actions: Seq<PollActionView>) -> Seq<InvocationView>
    decreases actions.len(),
{
    if actions.len() == 0 {
        Seq::empty()
    } else {
        match actions.last() {
            PollActionView::ProcessRecords(invocation) => invocations(actions.drop_last()).push(
                invocation,
            ),
            _ => invocations(actions.drop_last()),
        }
    }
}

/// The records of the calls, one after the other.
pub open spec fn delivered(calls: Seq<InvocationView>) -> Seq<KinesisRecordView>
    decreases calls.len(),
{
    if calls.len() == 0 {
        Seq::empty()
    } else {
        delivered(calls.drop_last()) + calls.last().records
    }
}

/// The calls that hand over the batches that came with the events: one for each
/// batch with a record in it, in order.
pub open spec fn calls_for(component_id: Seq<char>, events: Seq<PollEvent>) -> Seq<InvocationView>
    decreases events.len(),
{
    if events.len() == 0 {
        Seq::empty()
    } else {
        let before = calls_for(component_id, events.drop_last());
        match events.last() {
            PollEvent::Records(Ok(output)) => if output.records@.len() > 0 {
                before.push(
                    InvocationView { component_id, records: batch_for_component(output.records@) },
                )
            } else {
                before
            },
            _ => before,
        }
    }
}

/// The records that came with the events, one after the other, as the component
/// reads them.
pub open spec fn fetched(events: Seq<PollEvent>) -> Seq<KinesisRecordView>
    decreases events.len(),
{
    if events.len() == 0 {
        Seq::empty()
    } else {
        match events.last() {
            PollEvent::Records(Ok(output)) => fetched(events.drop_last()) + batch_for_component(
                output.records@,
            ),
            _ => fetched(events.drop_last()),
        }
    }
}

/// The iterators that came with the events, in order.
pub open spec fn offered_iterators(events: Seq<PollEvent>) -> Seq<Seq<char>>
    decreases events.len(),
{
    if events.len() == 0 {
        Seq::empty()
    } else {
        let before = offered_iterators(events.drop_last());
        match events.last() {
            PollEvent::ShardIterator(Ok(Some(iterator))) => before.push(iterator@),
            PollEvent::Records(Ok(output)) => match output.next_shard_iterator {
                Some(iterator) => before.push(iterator@),
                None => before,
            },
            _ => before,
        }
    }
}

/// The iterators that records are asked for with, in order.
pub open spec fn used_iterators(actions: Seq<PollActionView>) -> Seq<Seq<char>>
    decreases actions.len(),
{
    if actions.len() == 0 {
        Seq::empty()
    } else {
        let before = used_iterators(actions.drop_last());
        match actions.last() {
            PollActionView::GetRecords { shard_iterator, stream_arn, limit } => before.push(
                shard_iterator,
            ),
            _ => before,
        }
    }
}

/// The iterator that the processor will read on from, if it holds one.
pub open spec fn held_iterator(processor: ProcessorView) -> Seq<Seq<char>> {
    match processor.phase {
        PollPhaseView::Processing { next: Some(iterator) } => seq![iterator],
        PollPhaseView::Waiting { next: Some(iterator) } => seq![iterator],
        _ => Seq::empty(),
    }
}

/// The shards that the actions report as finished, in order.
pub open spec fn closed_shards(actions: Seq<PollActionView>) -> Seq<Seq<char>>
    decreases actions.len(),
{
    if actions.len() == 0 {
        Seq::empty()
    } else {
        let before = closed_shards(actions.drop_last());
        match actions.last() {
            PollActionView::Close { shard_id } => before.push(shard_id),
            _ => before,
        }
    }
}

/// A processor comes to an end only by finishing: in every other state some
/// event answers what it asked last, and none does after the end.
pub proof fn law_processor_goes_on_until_finished(processor: ProcessorView)
    ensures
        processor.phase is Finished <==> !exists|event: PollEvent| processor.accepts(event),
{
    let answer = match processor.phase {
        PollPhaseView::Created => PollEvent::Started,
        PollPhaseView::Opening => PollEvent::ShardIterator(Ok(None)),
        PollPhaseView::Fetching => PollEvent::Records(Err(arbitrary())),
        PollPhaseView::Processing { next } => PollEvent::Processed(Ok(())),
        PollPhaseView::Waiting { next } => PollEvent::Waited,
        PollPhaseView::Closing => PollEvent::Closed(Ok(())),
        PollPhaseView::Finished => PollEvent::Started,
    };
    assert(!(processor.phase is Finished) ==> processor.accepts(answer));
}

/// What a processor was made for never changes.
pub proof fn law_shard_is_kept(processor: ProcessorView, event: PollEvent)
    ensures
        processor.step(event).0.shard == processor.shard,
{
}

pub(crate) proof fn lemma_shard_of_run(start: ProcessorView, events: Seq<PollEvent>)
    ensures
        start.after(events).shard == start.shard,
    decreases events.len(),
{
    if events.len() > 0 {
        lemma_shard_of_run(start, events.drop_last());
    }
}

proof fn lemma_actions(start: ProcessorView, events: Seq<PollEvent>)
    ensures
        start.actions(events).len() == events.len(),
        events.len() > 0 ==> start.actions(events).drop_last() == start.actions(
            events.drop_last(),
        ),
        events.len() > 0 ==> start.actions(events).last() == start.after(events.drop_last()).step(
            events.last(),
        ).1,
    decreases events.len(),
{
    if events.len() > 0 {
        lemma_actions(start, events.drop_last());
        assert(start.actions(events).drop_last() =~= start.actions(events.drop_last()));
    }
}

pub(crate) proof fn lemma_action_of_run(start: ProcessorView, events: Seq<PollEvent>, i: int)
    requires
        0 <= i < events.len(),
    ensures
        start.actions(events).len() == events.len(),
        start.actions(events)[i] == start.after(events.take(i)).step(events[i]).1,
        start.fits(events) ==> start.after(events.take(i)).accepts(events[i]),
        start.after(events.take(i)).shard == start.shard,
    decreases events.len(),
{
    lemma_actions(start, events);
    lemma_shard_of_run(start, events.take(i));
    let before = events.drop_last();
    if i < before.len() {
        lemma_action_of_run(start, before, i);
        assert(before.take(i) =~= events.take(i));
    } else {
        assert(events.take(i) =~= before);
    }
}

/// What a processor asks for is what it then waits for an answer to, and an
/// answer of the right kind is accepted whatever it holds.
pub proof fn law_processor_waits_for_what_it_asked(
    processor: ProcessorView,
    event: PollEvent,
    answer: PollEvent,
)
    requires
        processor.accepts(event),
    ensures
        processor.step(event).0.accepts(answer) <==> match processor.step(event).1 {
            PollActionView::GetShardIterator { .. } => answer is ShardIterator,
            PollActionView::GetRecords { .. } => answer is Records,
            PollActionView::ProcessRecords(_) => answer is Processed,
            PollActionView::Wait { .. } => answer is Waited,
            PollActionView::Close { .. } => answer is Closed,
            PollActionView::Finish => false,
        },
        processor.phase is Created ==> (processor.accepts(answer) <==> answer is Started),
{
}

/// A processor starts by asking for the first iterator of its own shard, in its
/// own stream, of its own type; and it ends when it has reported the shard.
pub proof fn law_processor_starts_and_ends(processor: ProcessorView, reported: Result<(), String>)
    ensures
        processor.phase is Created ==> processor.step(PollEvent::Started).1 == (
        PollActionView::GetShardIterator {
            stream_arn: processor.shard.stream_arn,
            shard_id: processor.shard.shard_id,
            shard_iterator_type: processor.shard.shard_iterator_type,
        }),
        processor.phase is Closing ==> processor.step(PollEvent::Closed(reported)).1
            == PollActionView::Finish,
        processor.phase is Closing ==> processor.step(PollEvent::Closed(reported)).0.phase
            is Finished,
{
}

/// The first records are asked for with the first iterator, as it came; without
/// one the shard is closed at once.
pub proof fn law_first_iterator_is_read_from(
    processor: ProcessorView,
    reply: Result<Option<String>, String>,
)
    requires
        processor.phase is Opening,
    ensures
        processor.step(PollEvent::ShardIterator(reply)).1 == match reply {
            Ok(Some(iterator)) => PollActionView::GetRecords {
                shard_iterator: iterator@,
                stream_arn: processor.shard.stream_arn,
                limit: processor.shard.batch_size as int,
            },
            _ => PollActionView::Close { shard_id: processor.shard.shard_id },
        },
{
}

/// A reply with records makes one call of the shard's component, which receives
/// as many records as the reply holds, each one from the record at its place.
pub proof fn law_reply_is_handed_over(processor: ProcessorView, output: GetRecordsOutput, i: int)
    requires
        processor.phase is Fetching,
        0 <= i < output.records@.len(),
    ensures
        processor.step(PollEvent::Records(Ok(output))).1 matches PollActionView::ProcessRecords(
            invocation,
        ) && {
            &&& invocation.component_id == processor.shard.component_id
            &&& invocation.records.len() == output.records@.len()
            &&& invocation.records[i] == for_component(output.records@[i])
            &&& invocation.records[i].partition_key == output.records@[i].partition_key@
            &&& invocation.records[i].sequence_number == output.records@[i].sequence_number@
            &&& invocation.records[i].data == output.records@[i].data@
        },
{
}

/// After a reply, when the component is done or the wait is over, however it
/// went, the next records are asked for with the iterator of that reply, as it
/// came; where the reply had none, the shard has ended and is closed.
pub proof fn law_reading_goes_on_where_the_reply_says(
    processor: ProcessorView,
    output: GetRecordsOutput,
    answer: PollEvent,
)
    requires
        processor.phase is Fetching,
        processor.step(PollEvent::Records(Ok(output))).0.accepts(answer),
    ensures
        processor.step(PollEvent::Records(Ok(output))).0.step(answer).1
            == match output.next_shard_iterator {
            Some(iterator) => PollActionView::GetRecords {
                shard_iterator: iterator@,
                stream_arn: processor.shard.stream_arn,
                limit: processor.shard.batch_size as int,
            },
            None => PollActionView::Close { shard_id: processor.shard.shard_id },
        },
{
}

/// How far a reply is behind the end of the shard changes nothing.
pub proof fn law_lag_changes_nothing(
    processor: ProcessorView,
    output: GetRecordsOutput,
    other: GetRecordsOutput,
)
    requires
        output.records == other.records,
        output.next_shard_iterator == other.next_shard_iterator,
    ensures
        processor.step(PollEvent::Records(Ok(output))) == processor.step(
            PollEvent::Records(Ok(other)),
        ),
{
}

/// A request for records that fails is waited out for the idle wait, and the
/// shard is closed after it.
pub proof fn law_failed_request_closes_the_shard(processor: ProcessorView, failure: String)
    requires
        processor.phase is Fetching,
    ensures
        processor.step(PollEvent::Records(Err(failure))).1 == (PollActionView::Wait {
            wait: processor.shard.shard_idle_wait_millis,
        }),
        processor.step(PollEvent::Records(Err(failure))).0.step(PollEvent::Waited).1 == (
        PollActionView::Close { shard_id: processor.shard.shard_id }),
{
}

/// In every run, the component is called at event `i` exactly when a reply with
/// records came then, and the call carries that reply: for the shard's
/// component, and record for record.
pub proof fn law_each_call_carries_its_reply(start: ProcessorView, events: Seq<PollEvent>, i: int)
    requires
        start.fits(events),
        0 <= i < events.len(),
    ensures
        start.actions(events).len() == events.len(),
        start.actions(events)[i] is ProcessRecords <==> (events[i] matches PollEvent::Records(
            Ok(output),
        ) && output.records@.len() > 0),
        start.actions(events)[i] matches PollActionView::ProcessRecords(invocation) ==> {
            let records = events[i]->Records_0->Ok_0.records@;
            &&& invocation.component_id == start.shard.component_id
            &&& invocation.records.len() == records.len()
            &&& forall|k: int|
                0 <= k < records.len() ==> (#[trigger] invocation.records[k]).sequence_number
                    == records[k].sequence_number@ && invocation.records[k].partition_key
                    == records[k].partition_key@ && invocation.records[k].data == records[k].data@
        },
{
    lemma_action_of_run(start, events, i);
}

/// How many records came with the events.
pub open spec fn count_fetched(events: Seq<PollEvent>) -> nat
    decreases events.len(),
{
    if events.len() == 0 {
        0
    } else {
        match events.last() {
            PollEvent::Records(Ok(output)) => count_fetched(events.drop_last())
                + output.records@.len(),
            _ => count_fetched(events.drop_last()),
        }
    }
}

/// In every run, the component receives exactly as many records as came.
pub proof fn law_no_record_is_lost_or_added(start: ProcessorView, events: Seq<PollEvent>)
    requires
        start.fits(events),
    ensures
        delivered(invocations(start.actions(events))).len() == count_fetched(events),
    decreases events.len(),
{
    lemma_actions(start, events);
    if events.len() > 0 {
        let before = events.drop_last();
        law_no_record_is_lost_or_added(start, before);
        let calls = invocations(start.actions(before));
        if start.actions(events).last() is ProcessRecords {
            assert(invocations(start.actions(events)).drop_last() =~= calls);
        }
    }
}

/// An action shows what is in it.
pub proof fn law_action_shows_its_request(action: PollAction)
    ensures
        match action {
            PollAction::GetShardIterator(request) => action@ == (PollActionView::GetShardIterator {
                stream_arn: request.stream_arn@,
                shard_id: request.shard_id@,
                shard_iterator_type: request.shard_iterator_type@,
            }),
            PollAction::GetRecords(request) => action@ == (PollActionView::GetRecords {
                shard_iterator: request.shard_iterator@,
                stream_arn: request.stream_arn@,
                limit: request.limit as int,
            }),
            PollAction::ProcessRecords(invocation) => action@ == PollActionView::ProcessRecords(
                invocation@,
            ),
            PollAction::Wait { wait } => action@ == (PollActionView::Wait { wait }),
            PollAction::Close { shard_id } => action@ == (PollActionView::Close {
                shard_id: shard_id@,
            }),
            PollAction::Finish => action@ == PollActionView::Finish,
        },
{
}

/// The component is called once for each batch that came with a record in it,
/// in the order in which the batches came, with all records of the batch.
pub proof fn law_batches_are_handed_over_in_order(start: ProcessorView, events: Seq<PollEvent>)
    requires
        start.fits(events),
    ensures
        invocations(start.actions(events)) == calls_for(start.shard.component_id, events),
    decreases events.len(),
{
    lemma_actions(start, events);
    if events.len() > 0 {
        law_batches_are_handed_over_in_order(start, events.drop_last());
        lemma_shard_of_run(start, events.drop_last());
    }
}

proof fn lemma_calls_deliver(component_id: Seq<char>, events: Seq<PollEvent>)
    ensures
        delivered(calls_for(component_id, events)) == fetched(events),
    decreases events.len(),
{
    if events.len() > 0 {
        lemma_calls_deliver(component_id, events.drop_last());
        let before = calls_for(component_id, events.drop_last());
        if let PollEvent::Records(Ok(output)) = events.last() {
            if output.records@.len() > 0 {
                assert(calls_for(component_id, events).drop_last() =~= before);
            } else {
                assert(batch_for_component(output.records@) =~= Seq::empty());
                assert(fetched(events.drop_last()) + Seq::empty() =~= fetched(events.drop_last()));
            }
        }
    }
}

/// The component receives every record that was fetched, once, in the order of
/// the shard.
pub proof fn law_every_record_is_delivered_once(start: ProcessorView, events: Seq<PollEvent>)
    requires
        start.fits(events),
    ensures
        delivered(invocations(start.actions(events))) == fetched(events),
{
    law_batches_are_handed_over_in_order(start, events);
    lemma_calls_deliver(start.shard.component_id, events);
}

/// While the component works on a batch, nothing is fetched: the next event is
/// that the component is done.
pub proof fn law_batches_do_not_overlap(processor: ProcessorView, event: PollEvent, next: PollEvent)
    requires
        processor.accepts(event),
        processor.step(event).1 is ProcessRecords,
        processor.step(event).0.accepts(next),
    ensures
        next is Processed,
{
}

/// Every iterator is read from as it came, in order and at most once: those that
/// came are those that were used and, at the end, the one that is still held.
pub proof fn law_iterators_are_followed(start: ProcessorView, events: Seq<PollEvent>)
    requires
        start.phase is Created,
        start.fits(events),
    ensures
        offered_iterators(events) == used_iterators(start.actions(events)) + held_iterator(
            start.after(events),
        ),
    decreases events.len(),
{
    lemma_actions(start, events);
    if events.len() == 0 {
        assert(used_iterators(start.actions(events)) + held_iterator(start) =~= Seq::empty());
    } else {
        let before = events.drop_last();
        law_iterators_are_followed(start, before);
        let then = start.after(before);
        let now = start.after(events);
        let used = used_iterators(start.actions(before));
        assert(used + Seq::empty() =~= used);
        match events.last() {
            PollEvent::Processed(_) => {
                assert(used_iterators(start.actions(events)) + held_iterator(now) =~= used
                    + held_iterator(then));
            },
            PollEvent::Waited => {
                assert(used_iterators(start.actions(events)) + held_iterator(now) =~= used
                    + held_iterator(then));
            },
            _ => {
                assert(held_iterator(then) =~= Seq::empty());
                assert(offered_iterators(events) =~= used_iterators(start.actions(events))
                    + held_iterator(now));
            },
        }
    }
}

/// Records are always asked for from the configured stream, and at most as many
/// as the configured batch size.
pub proof fn law_requests_follow_the_settings(processor: ProcessorView, event: PollEvent)
    requires
        processor.accepts(event),
    ensures
        processor.step(event).1 matches PollActionView::GetRecords {
            shard_iterator,
            stream_arn,
            limit,
        } ==> stream_arn == processor.shard.stream_arn && limit == processor.shard.batch_size,
        processor.step(event).1 matches PollActionView::GetShardIterator {
            stream_arn,
            shard_id,
            shard_iterator_type,
        } ==> stream_arn == processor.shard.stream_arn && shard_id == processor.shard.shard_id
            && shard_iterator_type == processor.shard.shard_iterator_type,
{
}

/// The processor waits exactly when the last check brought no records or failed,
/// and then for the configured idle wait. Records are handed to the component at
/// once.
pub proof fn law_only_an_idle_or_failing_shard_is_waited_for(
    processor: ProcessorView,
    event: PollEvent,
)
    requires
        processor.accepts(event),
    ensures
        processor.step(event).1 is Wait <==> match event {
            PollEvent::Records(Ok(output)) => output.records@.len() == 0,
            PollEvent::Records(Err(_)) => true,
            _ => false,
        },
        processor.step(event).1 is ProcessRecords <==> (event matches PollEvent::Records(Ok(output))
            && output.records@.len() > 0),
        processor.step(event).1 matches PollActionView::Wait { wait } ==> wait
            == processor.shard.shard_idle_wait_millis,
{
}

/// A component that fails does not stop the shard: the processor goes on as if
/// the component had succeeded.
pub proof fn law_component_failure_changes_nothing(
    processor: ProcessorView,
    failure: String,
)
    requires
        processor.phase is Processing,
    ensures
        processor.step(PollEvent::Processed(Err(failure))) == processor.step(
            PollEvent::Processed(Ok(())),
        ),
{
}

/// A processor reports its shard as finished once at most, and that one time
/// when it stops reading. It reports no other shard.
pub proof fn law_shard_is_closed_once(start: ProcessorView, events: Seq<PollEvent>)
    requires
        start.phase is Created,
        start.fits(events),
    ensures
        closed_shards(start.actions(events)) == if start.after(events).phase is Closing
            || start.after(events).phase is Finished {
            seq![start.shard.shard_id]
        } else {
            Seq::<Seq<char>>::empty()
        },
    decreases events.len(),
{
    lemma_actions(start, events);
    if events.len() > 0 {
        law_shard_is_closed_once(start, events.drop_last());
        lemma_shard_of_run(start, events.drop_last());
    }
}

/// The processor stops reading exactly when there is no iterator to read on
/// from: the first one could not be had, a request for records failed, or the
/// shard has ended.
pub proof fn law_reading_stops_without_iterator(processor: ProcessorView, event: PollEvent)
    requires
        processor.accepts(event),
    ensures
        processor.step(event).1 is Close <==> match event {
            PollEvent::ShardIterator(Ok(iterator)) => iterator is None,
            PollEvent::ShardIterator(Err(_)) => true,
            PollEvent::Processed(_) => processor.phase->Processing_next is None,
            PollEvent::Waited => processor.phase->Waiting_next is None,
            _ => false,
        },
        event matches PollEvent::Records(Err(_)) ==> processor.step(event).0.phase == (
        PollPhaseView::Waiting { next: None }),
        event matches PollEvent::Records(Ok(output)) ==> match processor.step(event).0.phase {
            PollPhaseView::Processing { next } => next == iterator_view(output.next_shard_iterator),
            PollPhaseView::Waiting { next } => next == iterator_view(output.next_shard_iterator),
            _ => false,
        },
{
}

proof fn lemma_closed_stays_closed(start: ProcessorView, events: Seq<PollEvent>)
    requires
        start.phase is Closing,
        start.fits(events),
    ensures
        start.after(events).phase is Closing || start.after(events).phase is Finished,
        invocations(start.actions(events)) == Seq::<InvocationView>::empty(),
        used_iterators(start.actions(events)) == Seq::<Seq<char>>::empty(),
    decreases events.len(),
{
    lemma_actions(start, events);
    if events.len() > 0 {
        lemma_closed_stays_closed(start, events.drop_last());
    }
}

/// Where the first iterator cannot be had, no records are asked for or processed,
/// and the shard is finished.
pub proof fn law_no_iterator_means_no_records(
    start: ProcessorView,
    reply: PollEvent,
    events: Seq<PollEvent>,
)
    requires
        start.phase is Opening,
        start.accepts(reply),
        !(reply matches PollEvent::ShardIterator(Ok(Some(_)))),
        start.step(reply).0.fits(events),
    ensures
        start.step(reply).1 == (PollActionView::Close { shard_id: start.shard.shard_id }),
        invocations(start.step(reply).0.actions(events)) == Seq::<InvocationView>::empty(),
        used_iterators(start.step(reply).0.actions(events)) == Seq::<Seq<char>>::empty(),
{
    lemma_closed_stays_closed(start.step(reply).0, events);
}

/// The states of several processors after events that each name the processor
/// they go to.
pub open spec fn fleet_after(
    fleet: Seq<ProcessorView>,
    events: Seq<(int, PollEvent)>,
) -> Seq<ProcessorView>
    decreases events.len(),
{
    if events.len() == 0 {
        fleet
    } else {
        let before = fleet_after(fleet, events.drop_last());
        let (i, event) = events.last();
        before.update(i, before[i].step(event).0)
    }
}

/// What processor `i` asks for in the course of the events, in order.
pub open spec fn fleet_actions(
    fleet: Seq<ProcessorView>,
    events: Seq<(int, PollEvent)>,
    i: int,
) -> Seq<PollActionView>
    decreases events.len(),
{
    if events.len() == 0 {
        Seq::empty()
    } else {
        let before = fleet_actions(fleet, events.drop_last(), i);
        if events.last().0 == i {
            before.push(fleet_after(fleet, events.drop_last())[i].step(events.last().1).1)
        } else {
            before
        }
    }
}

/// The events that go to processor `i`, in order.
pub open spec fn own_events(events: Seq<(int, PollEvent)>, i: int) -> Seq<PollEvent>
    decreases events.len(),
{
    if events.len() == 0 {
        Seq::empty()
    } else if events.last().0 == i {
        own_events(events.drop_last(), i).push(events.last().1)
    } else {
        own_events(events.drop_last(), i)
    }
}

/// Each shard is processed independently: however the events of several shards
/// are interleaved, a processor does what it does with its own events alone.
pub proof fn law_shards_are_independent(
    fleet: Seq<ProcessorView>,
    events: Seq<(int, PollEvent)>,
    i: int,
)
    requires
        0 <= i < fleet.len(),
        forall|k: int| 0 <= k < events.len() ==> 0 <= (#[trigger] events[k]).0 < fleet.len(),
    ensures
        fleet_after(fleet, events).len() == fleet.len(),
        fleet_after(fleet, events)[i] == fleet[i].after(own_events(events, i)),
        fleet_actions(fleet, events, i) == fleet[i].actions(own_events(events, i)),
    decreases events.len(),
{
    if events.len() > 0 {
        let before = events.drop_last();
        assert forall|k: int| 0 <= k < before.len() implies 0 <= (#[trigger] before[k]).0
            < fleet.len() by {
            assert(before[k] == events[k]);
        }
        law_shards_are_independent(fleet, before, i);
        assert(0 <= events[events.len() - 1].0 < fleet.len());
        if events.last().0 == i {
            assert(own_events(events, i).drop_last() =~= own_events(before, i));
        }
    }
}

} // verus!
