//! The trigger: one receive loop for each configured stream.
use crate::config::{configured, Component, ComponentView, KinesisTriggerConfig};
use crate::detector::{DetectorPhaseView, DetectorView, ShardDetector};
use crate::processor::{PollPhaseView, ProcessorView, ShardProcessor, ShardView};
use crate::text::{debug_text, debug_text_of, result_view};
use vstd::prelude::*;
use vstd::string::StringExecFns;

verus! {

/// The trigger type that a manifest names.
pub const TRIGGER_TYPE: &'static str = "kinesis";

/// How many shard ids the channels between detector, receive loop and
/// processors hold.
pub const SHARD_CHANNEL_CAPACITY: usize = 10;

/// Why a receive loop ended.
#[derive(Debug, PartialEq, Eq)]
pub enum TerminationReason {
    ExitRequested,
    Other(String),
}

/// What a receive loop does next.
pub enum ReceiveAction {
    /// Run the processor in a task of its own.
    Spawn(ShardProcessor),
    /// End the loop.
    End(TerminationReason),
}

/// The components that the trigger serves.
pub struct KinesisTrigger {
    queue_components: Vec<Component>,
}

impl View for KinesisTrigger {
    type V = Seq<ComponentView>;

    closed spec fn view(&self) -> Seq<ComponentView> {
        self.queue_components@.map_values(|component: Component| component@)
    }
}

/// The components of the sections of a manifest: one for each, in order.
pub open spec fn configured_all(configs: Seq<KinesisTriggerConfig>) -> Seq<ComponentView> {
    configs.map_values(|config: KinesisTriggerConfig| configured(config))
}

/// The detector of a component's stream, before it starts.
pub open spec fn new_detector(component: ComponentView) -> DetectorView {
    DetectorView {
        component_id: component.id,
        stream_arn: component.stream_arn,
        detector_poll_millis: component.detector_poll_millis,
        running_shards: Set::empty(),
        phase: DetectorPhaseView::Created,
    }
}

/// The processor of a shard of a component's stream, before it starts.
pub open spec fn new_processor(component: ComponentView, shard_id: Seq<char>) -> ProcessorView {
    ProcessorView {
        shard: ShardView {
            component_id: component.id,
            stream_arn: component.stream_arn,
            shard_id,
            batch_size: component.batch_size,
            shard_idle_wait_millis: component.shard_idle_wait_millis,
            shard_iterator_type: component.shard_iterator_type,
        },
        phase: PollPhaseView::Created,
    }
}

/// What a receive loop does about a new shard, or about the end of its detector.
pub open spec fn received(
    component: ComponentView,
    new_shard: Option<String>,
    action: ReceiveAction,
) -> bool {
    match (new_shard, action) {
        (Some(shard_id), ReceiveAction::Spawn(processor)) => processor@ == new_processor(
            component,
            shard_id@,
        ),
        (None, ReceiveAction::End(TerminationReason::Other(reason))) => reason@
            == "Shard detector task exited"@,
        _ => false,
    }
}

/// The error text of a receive loop that ended for another reason than a
/// request, given that reason as `{:?}` prints it.
pub open spec fn failure_text(printed_reason: Seq<char>) -> Seq<char> {
    "Ok(Other("@ + printed_reason + "))"@
}

/// How the trigger ends when its first receive loop has ended: with a reason,
/// or with the failure of the loop's task.
pub open spec fn trigger_result(ended: Result<TerminationReason, String>) -> Result<(), Seq<char>> {
    match ended {
        Ok(TerminationReason::ExitRequested) => Ok(()),
        Ok(TerminationReason::Other(reason)) => Err(failure_text(debug_text_of(reason@))),
        Err(failure) => Err("Err("@ + failure@ + ")"@),
    }
}

/// Makes the error text of a receive loop that ended for another reason than
/// a request.
pub fn failure_message(printed_reason: &str) -> (message: String)
    ensures
        message@ == failure_text(printed_reason@),
        message@ == "Ok(Other("@ + printed_reason@ + "))"@,
{
    let mut message: String = "Ok(Other(".to_owned();
    message.append(printed_reason);
    message.append("))");
    message
}

impl KinesisTrigger {
    /// Creates a trigger for the sections of a manifest.
    pub fn new(configs: &Vec<KinesisTriggerConfig>) -> (trigger: KinesisTrigger)
        ensures
            trigger@ == configured_all(configs@),
            forall|j: int|
                0 <= j < trigger@.len() ==> (
                #[trigger] trigger@[j]).shard_iterator_type.well_formed(),
            trigger@.len() == configs@.len(),
            forall|j: int|
                0 <= j < configs@.len() ==> #[trigger] trigger@[j] == configured(configs@[j]),
    {
        let mut queue_components: Vec<Component> = Vec::new();
        for i in 0..configs.len()
            invariant
                queue_components@.len() == i,
                forall|j: int| 0 <= j < i ==> (#[trigger] queue_components@[j])@ == configured(
                    configs@[j],
                ),
                forall|j: int|
                    0 <= j < i ==> (
                    #[trigger] queue_components@[j])@.shard_iterator_type.well_formed(),
        {
            queue_components.push(Component::from_config(&configs[i]));
        }
        let trigger = KinesisTrigger { queue_components };
        assert(trigger@ =~= configured_all(configs@));
        trigger
    }

    /// The components that the trigger serves.
    pub fn components(&self) -> (components: &Vec<Component>)
        ensures
            components@.map_values(|component: Component| component@) == self@,
            components@.len() == self@.len(),
            forall|j: int|
                0 <= j < components@.len() ==> (#[trigger] components@[j])@ == self@[j],
    {
        &self.queue_components
    }

    /// The detector that the receive loop of a component starts with.
    pub fn start_receive_loop(component: &Component) -> (detector: ShardDetector)
        ensures
            detector.well_formed(),
            detector@ == new_detector(component@),
            detector@.component_id == component.id@,
            detector@.stream_arn == component.stream_arn@,
            detector@.detector_poll_millis == component.detector_poll_millis,
            detector@.running_shards == Set::<Seq<char>>::empty(),
            detector@.phase is Created,
    {
        ShardDetector::new(
            component.stream_arn.as_str(),
            component.detector_poll_millis,
            component.id.as_str(),
        )
    }

    /// Takes the next step of a receive loop: a new shard gets a processor, and
    /// the end of the detector ends the loop.
    pub fn receive(component: &Component, new_shard: Option<String>) -> (action: ReceiveAction)
        ensures
            received(component@, new_shard, action),
            action is Spawn <==> new_shard is Some,
            action matches ReceiveAction::Spawn(processor) ==> {
                &&& processor@.shard.component_id == component.id@
                &&& processor@.shard.stream_arn == component.stream_arn@
                &&& processor@.shard.shard_id == new_shard->0@
                &&& processor@.shard.batch_size == component.batch_size
                &&& processor@.shard.shard_idle_wait_millis == component.shard_idle_wait_millis
                &&& processor@.shard.shard_iterator_type == component.shard_iterator_type@
                &&& processor@.phase is Created
            },
            action matches ReceiveAction::End(reason) ==> reason matches TerminationReason::Other(
                text,
            ) && text@ == "Shard detector task exited"@,
    {
        match new_shard {
            Some(shard_id) => ReceiveAction::Spawn(
                ShardProcessor::new(
                    component.id.as_str(),
                    component.stream_arn.as_str(),
                    shard_id,
                    component.batch_size,
                    component.shard_idle_wait_millis,
                    component.shard_iterator_type.clone(),
                ),
            ),
            None => ReceiveAction::End(
                TerminationReason::Other("Shard detector task exited".to_owned()),
            ),
        }
    }

    /// How the trigger ends when its first receive loop has ended. A loop whose
    /// task failed brings the failure as `{:?}` prints it.
    pub fn run(ended: Result<TerminationReason, String>) -> (result: Result<(), String>)
        ensures
            result_view(result) == trigger_result(ended),
            result is Ok <==> (ended matches Ok(TerminationReason::ExitRequested)),
            ended matches Ok(TerminationReason::Other(reason)) ==> result->Err_0@ == "Ok(Other("@
                + debug_text_of(reason@) + "))"@,
            ended matches Err(failure) ==> result->Err_0@ == "Err("@ + failure@ + ")"@,
    {
        match ended {
            Ok(TerminationReason::ExitRequested) => Ok(()),
            Ok(TerminationReason::Other(reason)) => Err(
                failure_message(debug_text(reason.as_str()).as_str()),
            ),
            Err(failure) => {
                let mut message: String = "Err(".to_owned();
                message.append(failure.as_str());
                message.append(")");
                Err(message)
            },
        }
    }
}

} // verus!
