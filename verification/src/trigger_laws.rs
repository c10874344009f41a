//! What holds between the manifest, the detector and the processors.
use crate::config::{
    configured, is_wait_of, iterator_type_named, law_settings_are_those_of_the_section,
    ComponentView, KinesisTriggerConfig, DEFAULT_BATCH_SIZE, DEFAULT_SHARD_ITERATOR_TYPE,
};
use crate::detector::{DetectorActionView, DetectorEvent, DetectorView};
use crate::detector_laws::lemma_settings_of_run;
use crate::processor::{PollActionView, PollEvent, ProcessorView};
use crate::processor_laws::{
    closed_shards, fleet_actions, fleet_after, law_shard_is_closed_once, law_shards_are_independent,
    lemma_action_of_run, lemma_shard_of_run, own_events,
};
use crate::text::debug_text_of;
use crate::trigger::{
    configured_all, new_detector, new_processor, received, trigger_result, ReceiveAction,
    TerminationReason,
};
use vstd::prelude::*;

verus! {

/// A shard's processor starts by asking for the iterator that the manifest
/// says, from the stream that it says.
pub proof fn law_processor_starts_as_configured(config: KinesisTriggerConfig, shard_id: Seq<char>)
    ensures
        new_processor(configured(config), shard_id).step(PollEvent::Started).1 == (
        PollActionView::GetShardIterator {
            stream_arn: config.stream_arn@,
            shard_id,
            shard_iterator_type: match config.shard_iterator_type {
                Some(name) => iterator_type_named(name@),
                None => iterator_type_named(DEFAULT_SHARD_ITERATOR_TYPE@),
            },
        }),
{
}

/// In every run of a shard's processor, each request for records asks for as
/// many as the manifest says at most.
pub proof fn law_processor_reads_as_configured(
    config: KinesisTriggerConfig,
    shard_id: Seq<char>,
    events: Seq<PollEvent>,
    i: int,
)
    requires
        new_processor(configured(config), shard_id).fits(events),
        0 <= i < events.len(),
    ensures
        new_processor(configured(config), shard_id).actions(events).len() == events.len(),
        new_processor(configured(config), shard_id).actions(events)[i] matches
            PollActionView::GetRecords { shard_iterator, stream_arn, limit } ==> stream_arn
            == config.stream_arn@ && limit == config.batch_size.unwrap_or(DEFAULT_BATCH_SIZE),
    decreases events.len(),
{
    let start = new_processor(configured(config), shard_id);
    let before = events.drop_last();
    lemma_shard_of_run(start, before);
    if before.len() > 0 {
        law_processor_reads_as_configured(
            config,
            shard_id,
            before,
            if i < before.len() {
                i
            } else {
                0
            },
        );
    }
    assert(start.actions(events).len() == start.actions(before).len() + 1);
}

/// In every run of a shard's processor, everything it asks for follows the
/// section of the manifest that it was made from: the component that is called,
/// the stream, the number of records, the type of the first iterator and the
/// idle wait; and it is always about its own shard.
pub proof fn law_processor_works_as_configured(
    config: KinesisTriggerConfig,
    shard_id: Seq<char>,
    events: Seq<PollEvent>,
    i: int,
)
    requires
        new_processor(configured(config), shard_id).fits(events),
        0 <= i < events.len(),
    ensures
        match new_processor(configured(config), shard_id).actions(events)[i] {
            PollActionView::GetShardIterator { stream_arn, shard_id: shard, shard_iterator_type } => {
                &&& stream_arn == config.stream_arn@
                &&& shard == shard_id
                &&& shard_iterator_type.name() == match config.shard_iterator_type {
                    Some(name) => name@,
                    None => "LATEST"@,
                }
            },
            PollActionView::GetRecords { shard_iterator, stream_arn, limit } => {
                &&& stream_arn == config.stream_arn@
                &&& limit == config.batch_size.unwrap_or(10)
            },
            PollActionView::ProcessRecords(invocation) => invocation.component_id
                == config.component@,
            PollActionView::Wait { wait } => is_wait_of(
                wait,
                config.shard_idle_wait_millis.unwrap_or(1000),
            ),
            PollActionView::Close { shard_id: shard } => shard == shard_id,
            PollActionView::Finish => true,
        },
{
    lemma_action_of_run(new_processor(configured(config), shard_id), events, i);
    law_settings_are_those_of_the_section(config);
}

/// In every run of a stream's detector, it is the stream of its section that is
/// listed, and the sleep is as long as the section says.
pub proof fn law_detector_works_as_configured(
    config: KinesisTriggerConfig,
    events: Seq<DetectorEvent>,
    i: int,
)
    requires
        new_detector(configured(config)).fits(events),
        0 <= i < events.len(),
    ensures
        match new_detector(configured(config)).action_at(events, i) {
            DetectorActionView::ListShards { stream_arn } => stream_arn == config.stream_arn@,
            DetectorActionView::Wait { wait } => is_wait_of(
                wait,
                config.detector_poll_millis.unwrap_or(30_000),
            ),
            _ => true,
        },
{
    lemma_settings_of_run(new_detector(configured(config)), events.take(i));
    law_settings_are_those_of_the_section(config);
}

/// A stream's detector starts out for its section's component and stream, with no
/// shard running.
pub proof fn law_detector_starts_as_configured(config: KinesisTriggerConfig)
    ensures
        new_detector(configured(config)).component_id == config.component@,
        new_detector(configured(config)).stream_arn == config.stream_arn@,
        new_detector(configured(config)).running_shards == Set::<Seq<char>>::empty(),
        new_detector(configured(config)).step(DetectorEvent::Started).1
            == DetectorActionView::CheckFinished,
        new_detector(configured(config)).accepts(DetectorEvent::Started),
{
}

/// A trigger has one component for each section, in order, and the component of a
/// section depends on that section alone: where the same section stands in two
/// manifests, at whatever places, it makes the same component.
pub proof fn law_each_section_has_its_own_component(
    configs: Seq<KinesisTriggerConfig>,
    i: int,
    others: Seq<KinesisTriggerConfig>,
    j: int,
)
    requires
        0 <= i < configs.len(),
        0 <= j < others.len(),
    ensures
        configured_all(configs).len() == configs.len(),
        configured_all(configs)[i] == configured(configs[i]),
        configured_all(configs)[i].id == configs[i].component@,
        configured_all(configs)[i].stream_arn == configs[i].stream_arn@,
        configured_all(configs)[i].batch_size == configs[i].batch_size.unwrap_or(10),
        is_wait_of(
            configured_all(configs)[i].shard_idle_wait_millis,
            configs[i].shard_idle_wait_millis.unwrap_or(1000),
        ),
        is_wait_of(
            configured_all(configs)[i].detector_poll_millis,
            configs[i].detector_poll_millis.unwrap_or(30_000),
        ),
        configured_all(configs)[i].shard_iterator_type.name()
            == match configs[i].shard_iterator_type {
            Some(name) => name@,
            None => "LATEST"@,
        },
        configs[i] == others[j] ==> configured_all(configs)[i] == configured_all(others)[j],
{
    law_settings_are_those_of_the_section(configs[i]);
}

/// A new shard gets a processor of its own, which has not started yet, with the
/// settings of the component, one by one, and for that very shard.
pub proof fn law_new_shard_gets_its_processor(
    component: ComponentView,
    shard_id: String,
    action: ReceiveAction,
)
    requires
        received(component, Some(shard_id), action),
    ensures
        action matches ReceiveAction::Spawn(processor) && {
            &&& processor@.shard.component_id == component.id
            &&& processor@.shard.stream_arn == component.stream_arn
            &&& processor@.shard.shard_id == shard_id@
            &&& processor@.shard.batch_size == component.batch_size
            &&& processor@.shard.shard_idle_wait_millis == component.shard_idle_wait_millis
            &&& processor@.shard.shard_iterator_type == component.shard_iterator_type
            &&& processor@.phase is Created
        },
{
}

/// The life of a shard closes: the processor that the receive loop makes for a
/// shard reports that shard when it stops, and the report frees exactly that
/// shard in the detector, to be handed out again.
pub proof fn law_stopped_processor_frees_its_shard(
    component: ComponentView,
    handed_out: String,
    action: ReceiveAction,
    events: Seq<PollEvent>,
    detector: DetectorView,
    reported: String,
)
    requires
        received(component, Some(handed_out), action),
        action->Spawn_0@.fits(events),
        action->Spawn_0@.after(events).phase is Closing,
        closed_shards(action->Spawn_0@.actions(events)).contains(reported@),
        detector.accepts(DetectorEvent::Finished(Some(reported))),
    ensures
        detector.step(DetectorEvent::Finished(Some(reported))).0.running_shards
            == detector.running_shards.remove(handed_out@),
{
    law_shard_is_closed_once(action->Spawn_0@, events);
}

/// A new shard joins without disturbing the others: whatever comes of it, each
/// processor that was there before does what it does with its own events alone,
/// and so does the new one.
pub proof fn law_new_shard_disturbs_no_other(
    component: ComponentView,
    shard_id: String,
    action: ReceiveAction,
    fleet: Seq<ProcessorView>,
    events: Seq<(int, PollEvent)>,
    i: int,
)
    requires
        received(component, Some(shard_id), action),
        0 <= i <= fleet.len(),
        forall|k: int| 0 <= k < events.len() ==> 0 <= (#[trigger] events[k]).0 <= fleet.len(),
    ensures
        ({
            let joined = fleet.push(action->Spawn_0@);
            let alone = if i < fleet.len() {
                fleet[i]
            } else {
                new_processor(component, shard_id@)
            };
            &&& fleet_after(joined, events)[i] == alone.after(own_events(events, i))
            &&& fleet_actions(joined, events, i) == alone.actions(own_events(events, i))
        }),
{
    law_shards_are_independent(fleet.push(action->Spawn_0@), events, i);
}

/// The trigger ends without an error exactly when the first of its loops to end
/// was asked to.
pub proof fn law_only_a_request_ends_the_trigger_well(ended: Result<TerminationReason, String>)
    ensures
        trigger_result(ended) is Ok <==> ended == Ok::<TerminationReason, String>(
            TerminationReason::ExitRequested,
        ),
{
}

/// A receive loop never takes the end of its detector for a request to end: the
/// trigger then ends with an error.
pub proof fn law_lost_detector_is_an_error(component: ComponentView, action: ReceiveAction)
    requires
        received(component, None, action),
    ensures
        action is End,
        trigger_result(Ok(action->End_0)) is Err,
        trigger_result(Ok(action->End_0))->Err_0 == "Ok(Other("@ + debug_text_of(
            "Shard detector task exited"@,
        ) + "))"@,
{
}

/// The error that the trigger ends with tells why the first of its loops ended:
/// the reason as `{:?}` prints it, or the failure of the loop's task.
pub proof fn law_error_tells_why_the_loop_ended(reason: String, failure: String)
    ensures
        trigger_result(Ok(TerminationReason::Other(reason))) == Err::<(), Seq<char>>(
            "Ok(Other("@ + debug_text_of(reason@) + "))"@,
        ),
        trigger_result(Err(failure)) == Err::<(), Seq<char>>("Err("@ + failure@ + ")"@),
{
}

} // verus!
