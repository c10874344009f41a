//! The trigger's configuration, and the settings of a component made from it.
use std::time::Duration;
use vstd::prelude::*;

verus! {

/// The records to ask for per poll where the configuration names no number.
pub const DEFAULT_BATCH_SIZE: u16 = 10;

/// The idle wait where the configuration names none.
pub const DEFAULT_SHARD_IDLE_WAIT_MILLIS: u64 = 1000;

/// The wait between checks for new shards where the configuration names none.
pub const DEFAULT_DETECTOR_POLL_MILLIS: u64 = 30_000;

/// Where to start reading where the configuration does not say.
pub const DEFAULT_SHARD_ITERATOR_TYPE: &'static str = "LATEST";

/// The shortest wait the trigger makes.
pub const MIN_WAIT_MILLIS: u64 = 100;

/// The longest wait the trigger makes: shard iterators time out after it.
pub const MAX_WAIT_MILLIS: u64 = 300_000;

/// One `[[trigger.kinesis]]` section of the application manifest.
#[derive(Clone, Debug)]
pub struct KinesisTriggerConfig {
    pub component: String,
    pub stream_arn: String,
    pub batch_size: Option<u16>,
    pub shard_idle_wait_millis: Option<u64>,
    pub detector_poll_millis: Option<u64>,
    pub shard_iterator_type: Option<String>,
}

impl Default for KinesisTriggerConfig {
    /// Empty texts, and nothing configured.
    fn default() -> (config: Self)
        ensures
            config.component@ == Seq::<char>::empty(),
            config.stream_arn@ == Seq::<char>::empty(),
            config.batch_size is None,
            config.shard_idle_wait_millis is None,
            config.detector_poll_millis is None,
            config.shard_iterator_type is None,
    {
        KinesisTriggerConfig {
            component: String::new(),
            stream_arn: String::new(),
            batch_size: None,
            shard_idle_wait_millis: None,
            detector_poll_millis: None,
            shard_iterator_type: None,
        }
    }
}

/// Where in a shard to start reading, as Kinesis names it.
#[derive(Debug, PartialEq, Eq)]
pub enum ShardIteratorType {
    AfterSequenceNumber,
    AtSequenceNumber,
    AtTimestamp,
    Latest,
    TrimHorizon,
    /// A name that the AWS SDK has no variant for.
    Unknown(String),
}

/// Where in a shard to start reading, with the name as a sequence.
pub enum ShardIteratorTypeView {
    AfterSequenceNumber,
    AtSequenceNumber,
    AtTimestamp,
    Latest,
    TrimHorizon,
    Unknown(Seq<char>),
}

impl View for ShardIteratorType {
    type V = ShardIteratorTypeView;

    open spec fn view(&self) -> ShardIteratorTypeView {
        match self {
            ShardIteratorType::AfterSequenceNumber => ShardIteratorTypeView::AfterSequenceNumber,
            ShardIteratorType::AtSequenceNumber => ShardIteratorTypeView::AtSequenceNumber,
            ShardIteratorType::AtTimestamp => ShardIteratorTypeView::AtTimestamp,
            ShardIteratorType::Latest => ShardIteratorTypeView::Latest,
            ShardIteratorType::TrimHorizon => ShardIteratorTypeView::TrimHorizon,
            ShardIteratorType::Unknown(name) => ShardIteratorTypeView::Unknown(name@),
        }
    }
}

impl ShardIteratorTypeView {
    /// The name in the Kinesis API.
    pub open spec fn name(self) -> Seq<char> {
        match self {
            ShardIteratorTypeView::AfterSequenceNumber => "AFTER_SEQUENCE_NUMBER"@,
            ShardIteratorTypeView::AtSequenceNumber => "AT_SEQUENCE_NUMBER"@,
            ShardIteratorTypeView::AtTimestamp => "AT_TIMESTAMP"@,
            ShardIteratorTypeView::Latest => "LATEST"@,
            ShardIteratorTypeView::TrimHorizon => "TRIM_HORIZON"@,
            ShardIteratorTypeView::Unknown(name) => name,
        }
    }

    /// Each of the five names has its variant, and is never held as unknown.
    pub open spec fn well_formed(self) -> bool {
        &&& self is AfterSequenceNumber <==> self.name() == "AFTER_SEQUENCE_NUMBER"@
        &&& self is AtSequenceNumber <==> self.name() == "AT_SEQUENCE_NUMBER"@
        &&& self is AtTimestamp <==> self.name() == "AT_TIMESTAMP"@
        &&& self is Latest <==> self.name() == "LATEST"@
        &&& self is TrimHorizon <==> self.name() == "TRIM_HORIZON"@
    }
}

/// The iterator type of a name.
pub open spec fn iterator_type_named(name: Seq<char>) -> ShardIteratorTypeView {
    if name == "AFTER_SEQUENCE_NUMBER"@ {
        ShardIteratorTypeView::AfterSequenceNumber
    } else if name == "AT_SEQUENCE_NUMBER"@ {
        ShardIteratorTypeView::AtSequenceNumber
    } else if name == "AT_TIMESTAMP"@ {
        ShardIteratorTypeView::AtTimestamp
    } else if name == "LATEST"@ {
        ShardIteratorTypeView::Latest
    } else if name == "TRIM_HORIZON"@ {
        ShardIteratorTypeView::TrimHorizon
    } else {
        ShardIteratorTypeView::Unknown(name)
    }
}

/// The type of a name has that name, and the five names of the Kinesis API have
/// the variants that are called after them.
pub proof fn law_iterator_type_keeps_its_name(name: Seq<char>)
    ensures
        iterator_type_named(name).name() == name,
        iterator_type_named(name).well_formed(),
{
    reveal_strlit("AFTER_SEQUENCE_NUMBER");
    reveal_strlit("AT_SEQUENCE_NUMBER");
    reveal_strlit("AT_TIMESTAMP");
    reveal_strlit("LATEST");
    reveal_strlit("TRIM_HORIZON");
    assert("AFTER_SEQUENCE_NUMBER"@.len() == 21);
    assert("AT_SEQUENCE_NUMBER"@.len() == 18);
    assert("AT_TIMESTAMP"@.len() == 12 && "AT_TIMESTAMP"@[0] == 'A');
    assert("LATEST"@.len() == 6);
    assert("TRIM_HORIZON"@.len() == 12 && "TRIM_HORIZON"@[0] == 'T');
}

/// An iterator type has one of the five names of the Kinesis API exactly where
/// it is that variant; every other name is kept as it is, and each type is sent
/// under the name that it was configured with.
pub proof fn law_iterator_types_are_told_apart(name: Seq<char>)
    ensures
        match iterator_type_named(name) {
            ShardIteratorTypeView::AfterSequenceNumber => name == "AFTER_SEQUENCE_NUMBER"@,
            ShardIteratorTypeView::AtSequenceNumber => name == "AT_SEQUENCE_NUMBER"@,
            ShardIteratorTypeView::AtTimestamp => name == "AT_TIMESTAMP"@,
            ShardIteratorTypeView::Latest => name == "LATEST"@,
            ShardIteratorTypeView::TrimHorizon => name == "TRIM_HORIZON"@,
            ShardIteratorTypeView::Unknown(kept) => {
                &&& kept == name
                &&& name != "AFTER_SEQUENCE_NUMBER"@
                &&& name != "AT_SEQUENCE_NUMBER"@
                &&& name != "AT_TIMESTAMP"@
                &&& name != "LATEST"@
                &&& name != "TRIM_HORIZON"@
            },
        },
        ShardIteratorTypeView::AfterSequenceNumber.name() == "AFTER_SEQUENCE_NUMBER"@,
        ShardIteratorTypeView::AtSequenceNumber.name() == "AT_SEQUENCE_NUMBER"@,
        ShardIteratorTypeView::AtTimestamp.name() == "AT_TIMESTAMP"@,
        ShardIteratorTypeView::Latest.name() == "LATEST"@,
        ShardIteratorTypeView::TrimHorizon.name() == "TRIM_HORIZON"@,
        ShardIteratorTypeView::Unknown(name).name() == name,
{
}

impl Clone for ShardIteratorType {
    fn clone(&self) -> (copy: Self)
        ensures
            copy == *self,
    {
        match self {
            ShardIteratorType::AfterSequenceNumber => ShardIteratorType::AfterSequenceNumber,
            ShardIteratorType::AtSequenceNumber => ShardIteratorType::AtSequenceNumber,
            ShardIteratorType::AtTimestamp => ShardIteratorType::AtTimestamp,
            ShardIteratorType::Latest => ShardIteratorType::Latest,
            ShardIteratorType::TrimHorizon => ShardIteratorType::TrimHorizon,
            ShardIteratorType::Unknown(name) => ShardIteratorType::Unknown(name.clone()),
        }
    }
}

impl ShardIteratorType {
    /// The name to send to Kinesis.
    pub fn as_str(&self) -> (name: &str)
        ensures
            name@ == self@.name(),
            match self {
                ShardIteratorType::AfterSequenceNumber => name@ == "AFTER_SEQUENCE_NUMBER"@,
                ShardIteratorType::AtSequenceNumber => name@ == "AT_SEQUENCE_NUMBER"@,
                ShardIteratorType::AtTimestamp => name@ == "AT_TIMESTAMP"@,
                ShardIteratorType::Latest => name@ == "LATEST"@,
                ShardIteratorType::TrimHorizon => name@ == "TRIM_HORIZON"@,
                ShardIteratorType::Unknown(kept) => name@ == kept@,
            },
    {
        match self {
            ShardIteratorType::AfterSequenceNumber => "AFTER_SEQUENCE_NUMBER",
            ShardIteratorType::AtSequenceNumber => "AT_SEQUENCE_NUMBER",
            ShardIteratorType::AtTimestamp => "AT_TIMESTAMP",
            ShardIteratorType::Latest => "LATEST",
            ShardIteratorType::TrimHorizon => "TRIM_HORIZON",
            ShardIteratorType::Unknown(name) => name.as_str(),
        }
    }
}

/// Calls `aws_sdk_kinesis::types::ShardIteratorType::from` on a name. Claims
/// that the five names of the Kinesis API give their variants, and that any
/// other text is kept as an unknown name, letter for letter.
#[verifier::external_body]
pub(crate) fn iterator_type_from(name: &str) -> (kind: ShardIteratorType)
    ensures
        kind@ == iterator_type_named(name@),
{
    match aws_sdk_kinesis::types::ShardIteratorType::from(name) {
        aws_sdk_kinesis::types::ShardIteratorType::AfterSequenceNumber => {
            ShardIteratorType::AfterSequenceNumber
        },
        aws_sdk_kinesis::types::ShardIteratorType::AtSequenceNumber => {
            ShardIteratorType::AtSequenceNumber
        },
        aws_sdk_kinesis::types::ShardIteratorType::AtTimestamp => ShardIteratorType::AtTimestamp,
        aws_sdk_kinesis::types::ShardIteratorType::Latest => ShardIteratorType::Latest,
        aws_sdk_kinesis::types::ShardIteratorType::TrimHorizon => ShardIteratorType::TrimHorizon,
        other => ShardIteratorType::Unknown(other.as_str().to_string()),
    }
}

/// The duration of the given number of milliseconds.
pub uninterp spec fn duration_of_millis(millis: u64) -> Duration;

/// `std::time::Duration::from_millis`, which the Tokio clock counts in. Claims
/// only that the duration depends on the number of milliseconds alone.
pub assume_specification[ Duration::from_millis ](millis: u64) -> (duration: Duration)
    ensures
        duration == duration_of_millis(millis),
;

/// The wait nearest to the configured one that the trigger makes.
pub open spec fn bounded_millis(milliseconds: u64) -> u64 {
    if milliseconds < MIN_WAIT_MILLIS {
        MIN_WAIT_MILLIS
    } else if milliseconds > MAX_WAIT_MILLIS {
        MAX_WAIT_MILLIS
    } else {
        milliseconds
    }
}

/// Whether the wait is the one to make where this many milliseconds are
/// configured: as many, but no fewer than a tenth of a second has and no more
/// than five minutes have.
pub open spec fn is_wait_of(wait: Duration, milliseconds: u64) -> bool {
    &&& 100 <= milliseconds <= 300_000 ==> wait == duration_of_millis(milliseconds)
    &&& milliseconds < 100 ==> wait == duration_of_millis(100)
    &&& milliseconds > 300_000 ==> wait == duration_of_millis(300_000)
}

/// Makes a wait out of configured milliseconds.
pub fn parse_milliseconds(milliseconds: u64) -> (wait: Duration)
    ensures
        wait == duration_of_millis(bounded_millis(milliseconds)),
        is_wait_of(wait, milliseconds),
{
    if milliseconds < MIN_WAIT_MILLIS {
        Duration::from_millis(MIN_WAIT_MILLIS)
    } else if milliseconds > MAX_WAIT_MILLIS {
        Duration::from_millis(MAX_WAIT_MILLIS)
    } else {
        Duration::from_millis(milliseconds)
    }
}

/// What the trigger needs to know to serve one configured stream.
#[derive(Debug)]
pub struct Component {
    pub id: String,
    pub stream_arn: String,
    pub batch_size: u16,
    pub shard_idle_wait_millis: Duration,
    pub detector_poll_millis: Duration,
    pub shard_iterator_type: ShardIteratorType,
}

impl Clone for Component {
    fn clone(&self) -> (copy: Self)
        ensures
            copy == *self,
    {
        Component {
            id: self.id.clone(),
            stream_arn: self.stream_arn.clone(),
            batch_size: self.batch_size,
            shard_idle_wait_millis: self.shard_idle_wait_millis,
            detector_poll_millis: self.detector_poll_millis,
            shard_iterator_type: self.shard_iterator_type.clone(),
        }
    }
}

/// The settings of a component, with texts as sequences.
pub struct ComponentView {
    pub id: Seq<char>,
    pub stream_arn: Seq<char>,
    pub batch_size: u16,
    pub shard_idle_wait_millis: Duration,
    pub detector_poll_millis: Duration,
    pub shard_iterator_type: ShardIteratorTypeView,
}

impl View for Component {
    type V = ComponentView;

    open spec fn view(&self) -> ComponentView {
        ComponentView {
            id: self.id@,
            stream_arn: self.stream_arn@,
            batch_size: self.batch_size,
            shard_idle_wait_millis: self.shard_idle_wait_millis,
            detector_poll_millis: self.detector_poll_millis,
            shard_iterator_type: self.shard_iterator_type@,
        }
    }
}

/// The settings that a section of the manifest stands for.
pub open spec fn configured(config: KinesisTriggerConfig) -> ComponentView {
    ComponentView {
        id: config.component@,
        stream_arn: config.stream_arn@,
        batch_size: config.batch_size.unwrap_or(DEFAULT_BATCH_SIZE),
        shard_idle_wait_millis: duration_of_millis(
            bounded_millis(
                config.shard_idle_wait_millis.unwrap_or(DEFAULT_SHARD_IDLE_WAIT_MILLIS),
            ),
        ),
        detector_poll_millis: duration_of_millis(
            bounded_millis(config.detector_poll_millis.unwrap_or(DEFAULT_DETECTOR_POLL_MILLIS)),
        ),
        shard_iterator_type: match config.shard_iterator_type {
            Some(name) => iterator_type_named(name@),
            None => iterator_type_named(DEFAULT_SHARD_ITERATOR_TYPE@),
        },
    }
}

impl Component {
    /// Makes the settings of one section of the manifest.
    pub fn from_config(config: &KinesisTriggerConfig) -> (component: Component)
        ensures
            component@ == configured(*config),
            component@.shard_iterator_type.well_formed(),
            component.id@ == config.component@,
            component.stream_arn@ == config.stream_arn@,
            component.batch_size == config.batch_size.unwrap_or(10),
            is_wait_of(
                component.shard_idle_wait_millis,
                config.shard_idle_wait_millis.unwrap_or(1000),
            ),
            is_wait_of(component.detector_poll_millis, config.detector_poll_millis.unwrap_or(30_000)),
            component.shard_iterator_type@.name() == match config.shard_iterator_type {
                Some(name) => name@,
                None => "LATEST"@,
            },
    {
        proof {
            law_settings_are_those_of_the_section(*config);
        }
        let shard_iterator_type = match &config.shard_iterator_type {
            Some(name) => iterator_type_from(name.as_str()),
            None => iterator_type_from(DEFAULT_SHARD_ITERATOR_TYPE),
        };
        Component {
            id: config.component.clone(),
            stream_arn: config.stream_arn.clone(),
            batch_size: config.batch_size.unwrap_or(DEFAULT_BATCH_SIZE),
            shard_idle_wait_millis: parse_milliseconds(
                config.shard_idle_wait_millis.unwrap_or(DEFAULT_SHARD_IDLE_WAIT_MILLIS),
            ),
            detector_poll_millis: parse_milliseconds(
                config.detector_poll_millis.unwrap_or(DEFAULT_DETECTOR_POLL_MILLIS),
            ),
            shard_iterator_type,
        }
    }
}

/// A wait is never shorter than the shortest nor longer than the longest; a
/// number in between is kept; and a larger number never makes a shorter wait.
pub proof fn law_waits_are_bounded(milliseconds: u64, more: u64)
    requires
        milliseconds <= more,
    ensures
        MIN_WAIT_MILLIS <= bounded_millis(milliseconds) <= MAX_WAIT_MILLIS,
        MIN_WAIT_MILLIS <= milliseconds <= MAX_WAIT_MILLIS ==> bounded_millis(milliseconds)
            == milliseconds,
        bounded_millis(milliseconds) <= bounded_millis(more),
        bounded_millis(bounded_millis(milliseconds)) == bounded_millis(milliseconds),
{
}

/// A number of milliseconds below the shortest wait makes the shortest wait, and
/// one above the longest makes the longest.
pub proof fn law_waits_out_of_bounds_are_cut(milliseconds: u64)
    ensures
        milliseconds < 100 ==> bounded_millis(milliseconds) == 100,
        milliseconds > 300_000 ==> bounded_millis(milliseconds) == 300_000,
        100 <= milliseconds <= 300_000 ==> bounded_millis(milliseconds) == milliseconds,
{
}

/// Each setting of a component comes from its own key of the section: a key that
/// is there is followed, and one that is missing has the documented default,
/// which is 10 records, one second, thirty seconds and the end of the shard.
pub proof fn law_settings_are_those_of_the_section(config: KinesisTriggerConfig)
    ensures
        configured(config).id == config.component@,
        configured(config).stream_arn == config.stream_arn@,
        config.batch_size matches Some(size) ==> configured(config).batch_size == size,
        config.batch_size is None ==> configured(config).batch_size == 10,
        config.shard_idle_wait_millis matches Some(millis) ==> is_wait_of(
            configured(config).shard_idle_wait_millis,
            millis,
        ),
        config.shard_idle_wait_millis is None ==> configured(config).shard_idle_wait_millis
            == duration_of_millis(1000),
        config.detector_poll_millis matches Some(millis) ==> is_wait_of(
            configured(config).detector_poll_millis,
            millis,
        ),
        config.detector_poll_millis is None ==> configured(config).detector_poll_millis
            == duration_of_millis(30_000),
        config.shard_iterator_type matches Some(name) ==> configured(
            config,
        ).shard_iterator_type.name() == name@,
        config.shard_iterator_type is None ==> configured(config).shard_iterator_type
            == ShardIteratorTypeView::Latest,
        configured(config).shard_iterator_type.well_formed(),
{
    match config.shard_iterator_type {
        Some(name) => {
            law_iterator_type_keeps_its_name(name@);
        },
        None => {
            law_iterator_type_keeps_its_name("LATEST"@);
        },
    }
}

/// Whatever is configured, both waits of a component lie within the bounds.
pub proof fn law_configured_waits_are_bounded(config: KinesisTriggerConfig)
    ensures
        exists|millis: u64|
            MIN_WAIT_MILLIS <= millis <= MAX_WAIT_MILLIS && configured(
                config,
            ).shard_idle_wait_millis == #[trigger] duration_of_millis(millis),
        exists|millis: u64|
            MIN_WAIT_MILLIS <= millis <= MAX_WAIT_MILLIS && configured(config).detector_poll_millis
                == #[trigger] duration_of_millis(millis),
{
    let idle = config.shard_idle_wait_millis.unwrap_or(DEFAULT_SHARD_IDLE_WAIT_MILLIS);
    let poll = config.detector_poll_millis.unwrap_or(DEFAULT_DETECTOR_POLL_MILLIS);
    assert(configured(config).shard_idle_wait_millis == duration_of_millis(bounded_millis(idle)));
    assert(configured(config).detector_poll_millis == duration_of_millis(bounded_millis(poll)));
}

} // verus!
