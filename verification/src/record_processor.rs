//! Handing batches of records to the component.
use crate::record::{
    batch_for_component, batch_view, convert_batch, for_component, KinesisRecord,
    KinesisRecordView, Record,
};
use crate::text::result_view;
use vstd::prelude::*;
use vstd::string::StringExecFns;

verus! {

/// The error that a component returns.
#[derive(Debug, PartialEq, Eq)]
pub enum Error {
    Other(String),
}

/// A call of the component.
#[derive(Debug, PartialEq, Eq)]
pub struct Invocation {
    pub component_id: String,
    pub records: Vec<KinesisRecord>,
}

/// A call of the component, with texts and batches as sequences.
pub struct InvocationView {
    pub component_id: Seq<char>,
    pub records: Seq<KinesisRecordView>,
}

impl View for Invocation {
    type V = InvocationView;

    open spec fn view(&self) -> InvocationView {
        InvocationView { component_id: self.component_id@, records: batch_view(self.records@) }
    }
}

/// How a call of the component ended.
#[derive(Debug, PartialEq, Eq)]
pub enum InvocationOutcome {
    /// The component could not be prepared or instantiated.
    NotPrepared { error: String },
    /// The component ran and returned.
    Returned(Result<(), Error>),
    /// The engine failed while the component ran.
    EngineFailed { error: String },
}

/// What is reported of a call: its failure, or that there was none.
pub open spec fn report_of(component_id: Seq<char>, outcome: InvocationOutcome) -> Result<
    (),
    Seq<char>,
> {
    match outcome {
        InvocationOutcome::NotPrepared { error } => Err(error@),
        InvocationOutcome::Returned(Ok(_)) => Ok(()),
        InvocationOutcome::Returned(Err(_)) => Err(
            "[Kinesis] Component "@ + component_id + " returned error processing records"@,
        ),
        InvocationOutcome::EngineFailed { error } => Err(
            "[Kinesis] Error executing component "@ + component_id + " while processing records"@,
        ),
    }
}

/// Calls one component.
pub struct KinesisRecordProcessor {
    component_id: String,
}

impl View for KinesisRecordProcessor {
    type V = Seq<char>;

    /// The id of the component.
    closed spec fn view(&self) -> Seq<char> {
        self.component_id@
    }
}

impl KinesisRecordProcessor {
    /// Creates a processor for the component.
    pub fn new(component_id: &str) -> (processor: KinesisRecordProcessor)
        ensures
            processor@ == component_id@,
    {
        KinesisRecordProcessor { component_id: component_id.to_owned() }
    }

    /// The call that hands the records over: all of them, in order.
    pub fn process_records(&self, records: Vec<Record>) -> (invocation: Invocation)
        ensures
            invocation@ == (InvocationView {
                component_id: self@,
                records: batch_for_component(records@),
            }),
            invocation.component_id@ == self@,
            invocation.records@.len() == records@.len(),
            forall|i: int|
                0 <= i < records@.len() ==> (#[trigger] invocation.records@[i])@ == for_component(
                    records@[i],
                ),
    {
        Invocation { component_id: self.component_id.clone(), records: convert_batch(records) }
    }

    /// What to report of a call that ended.
    pub fn execute_wasm(&self, outcome: InvocationOutcome) -> (report: Result<(), String>)
        ensures
            result_view(report) == report_of(self@, outcome),
            report is Ok <==> (outcome matches InvocationOutcome::Returned(Ok(_))),
            outcome matches InvocationOutcome::NotPrepared { error } ==> report->Err_0@ == error@,
            outcome matches InvocationOutcome::Returned(Err(_)) ==> report->Err_0@
                == "[Kinesis] Component "@ + self@ + " returned error processing records"@,
            outcome matches InvocationOutcome::EngineFailed { error } ==> report->Err_0@
                == "[Kinesis] Error executing component "@ + self@ + " while processing records"@,
    {
        match outcome {
            InvocationOutcome::NotPrepared { error } => Err(error),
            InvocationOutcome::Returned(Ok(_)) => Ok(()),
            InvocationOutcome::Returned(Err(_)) => {
                let mut message: String = "[Kinesis] Component ".to_owned();
                message.append(self.component_id.as_str());
                message.append(" returned error processing records");
                Err(message)
            },
            InvocationOutcome::EngineFailed { .. } => {
                let mut message: String = "[Kinesis] Error executing component ".to_owned();
                message.append(self.component_id.as_str());
                message.append(" while processing records");
                Err(message)
            },
        }
    }
}

/// A call is reported as a success exactly when the component ran and returned
/// no error.
pub proof fn law_only_success_is_reported_as_success(
    component_id: Seq<char>,
    outcome: InvocationOutcome,
)
    ensures
        report_of(component_id, outcome) is Ok <==> (outcome matches InvocationOutcome::Returned(
            Ok(_),
        )),
{
}

/// The error of a call that could not be prepared is passed on as it is; of a
/// call that ran, the report names the component and says whether the component
/// or the engine failed, and nothing of the error itself.
pub proof fn law_report_says_what_failed(component_id: Seq<char>, error: String, returned: Error)
    ensures
        report_of(component_id, InvocationOutcome::NotPrepared { error }) == Err::<(), Seq<char>>(
            error@,
        ),
        report_of(component_id, InvocationOutcome::Returned(Err(returned))) == Err::<
            (),
            Seq<char>,
        >("[Kinesis] Component "@ + component_id + " returned error processing records"@),
        report_of(component_id, InvocationOutcome::EngineFailed { error }) == Err::<(), Seq<char>>(
            "[Kinesis] Error executing component "@ + component_id + " while processing records"@,
        ),
{
}

/// A call shows the component that it is for and the records that it hands over:
/// all of them, in order.
pub proof fn law_call_shows_its_records(invocation: Invocation, i: int)
    requires
        0 <= i < invocation.records@.len(),
    ensures
        invocation@.component_id == invocation.component_id@,
        invocation@.records.len() == invocation.records@.len(),
        invocation@.records[i] == invocation.records@[i]@,
{
}

} // verus!
