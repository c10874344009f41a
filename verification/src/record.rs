//! Stream records, as Kinesis returns them and as the component receives them.
use vstd::prelude::*;

verus! {

/// How Kinesis says that a record is encrypted.
#[derive(Clone, Copy, Debug, PartialEq, Eq, Structural)]
pub enum RecordEncryption {
    Kms,
    Unencrypted,
    /// A kind of encryption that the AWS SDK has no variant for.
    Unknown,
}

/// A record as Kinesis returns it.
#[derive(Debug)]
pub struct Record {
    pub partition_key: String,
    pub sequence_number: String,
    pub data: Vec<u8>,
    /// Seconds since the Unix epoch, negative before it.
    pub approximate_arrival_secs: Option<i64>,
    pub encryption_type: Option<RecordEncryption>,
}

/// The kinds of encryption that a component can be told of.
#[derive(Clone, Copy, Debug, PartialEq, Eq, Structural)]
pub enum EncryptionType {
    Unencrypted,
    Kms,
}

/// The content of a record.
#[derive(Debug, PartialEq, Eq)]
pub struct Blob {
    pub inner: Vec<u8>,
}

/// A record as the component receives it.
#[derive(Debug, PartialEq, Eq)]
pub struct KinesisRecord {
    pub partition_key: String,
    pub sequence_number: String,
    pub data: Blob,
    /// Seconds since the Unix epoch, as an unsigned number.
    pub approximate_arrival_timestamp: Option<u64>,
    pub encryption_type: Option<EncryptionType>,
}

/// What a component reads in a record.
pub struct KinesisRecordView {
    pub partition_key: Seq<char>,
    pub sequence_number: Seq<char>,
    pub data: Seq<u8>,
    pub approximate_arrival_timestamp: Option<u64>,
    pub encryption_type: Option<EncryptionType>,
}

impl View for KinesisRecord {
    type V = KinesisRecordView;

    open spec fn view(&self) -> KinesisRecordView {
        KinesisRecordView {
            partition_key: self.partition_key@,
            sequence_number: self.sequence_number@,
            data: self.data.inner@,
            approximate_arrival_timestamp: self.approximate_arrival_timestamp,
            encryption_type: self.encryption_type,
        }
    }
}

/// The sixty-four bits of a signed number of seconds, read as unsigned.
pub open spec fn unsigned_secs(secs: i64) -> u64 {
    if secs >= 0 {
        secs as u64
    } else {
        (secs + 0x1_0000_0000_0000_0000) as u64
    }
}

/// Encryption that is not KMS counts as none.
pub open spec fn encryption_for_component(encryption: RecordEncryption) -> EncryptionType {
    if encryption == RecordEncryption::Kms {
        EncryptionType::Kms
    } else {
        EncryptionType::Unencrypted
    }
}

/// The record that the component receives for a record of the stream.
pub open spec fn for_component(record: Record) -> KinesisRecordView {
    KinesisRecordView {
        partition_key: record.partition_key@,
        sequence_number: record.sequence_number@,
        data: record.data@,
        approximate_arrival_timestamp: match record.approximate_arrival_secs {
            Some(secs) => Some(unsigned_secs(secs)),
            None => None,
        },
        encryption_type: match record.encryption_type {
            Some(encryption) => Some(encryption_for_component(encryption)),
            None => None,
        },
    }
}

/// The batch that the component receives for a batch of the stream.
pub open spec fn batch_for_component(records: Seq<Record>) -> Seq<KinesisRecordView> {
    records.map_values(|record: Record| for_component(record))
}

/// What a component reads in a batch.
pub open spec fn batch_view(records: Seq<KinesisRecord>) -> Seq<KinesisRecordView> {
    records.map_values(|record: KinesisRecord| record@)
}

/// Reads the bits of signed seconds as unsigned.
fn secs_to_unsigned(secs: i64) -> (unsigned: u64)
    ensures
        unsigned == unsigned_secs(secs),
{
    proof {
        assert(secs < 0 ==> secs as u64 == secs + 0x1_0000_0000_0000_0000) by (bit_vector);
    }
    secs as u64
}

impl KinesisRecord {
    /// Converts a record of the stream.
    pub fn from_record(record: Record) -> (converted: KinesisRecord)
        ensures
            converted@ == for_component(record),
            converted.partition_key@ == record.partition_key@,
            converted.sequence_number@ == record.sequence_number@,
            converted.data.inner@ == record.data@,
    {
        let approximate_arrival_timestamp = match record.approximate_arrival_secs {
            Some(secs) => Some(secs_to_unsigned(secs)),
            None => None,
        };
        let encryption_type = match record.encryption_type {
            Some(RecordEncryption::Kms) => Some(EncryptionType::Kms),
            Some(RecordEncryption::Unencrypted) => Some(EncryptionType::Unencrypted),
            Some(RecordEncryption::Unknown) => Some(EncryptionType::Unencrypted),
            None => None,
        };
        KinesisRecord {
            partition_key: record.partition_key,
            sequence_number: record.sequence_number,
            data: Blob { inner: record.data },
            approximate_arrival_timestamp,
            encryption_type,
        }
    }
}

/// Converts the records of a batch, each one, in order.
pub fn convert_batch(records: Vec<Record>) -> (converted: Vec<KinesisRecord>)
    ensures
        batch_view(converted@) == batch_for_component(records@),
        converted@.len() == records@.len(),
        forall|i: int|
            0 <= i < records@.len() ==> (#[trigger] converted@[i])@ == for_component(records@[i]),
        forall|i: int|
            0 <= i < records@.len() ==> (#[trigger] converted@[i]).partition_key@
                == records@[i].partition_key@,
        forall|i: int|
            0 <= i < records@.len() ==> (#[trigger] converted@[i]).sequence_number@
                == records@[i].sequence_number@,
        forall|i: int|
            0 <= i < records@.len() ==> (#[trigger] converted@[i]).data.inner@ == records@[i].data@,
{
    let mut converted: Vec<KinesisRecord> = Vec::new();
    let ghost source = records@;
    for record in it: records.into_iter()
        invariant
            it.seq() == source,
            converted@.len() == it.index(),
            batch_view(converted@) == batch_for_component(source.take(it.index() as int)),
            forall|i: int|
                0 <= i < it.index() ==> (#[trigger] converted@[i])@ == for_component(source[i]),
    {
        converted.push(KinesisRecord::from_record(record));
        proof {
            let n = it.index() as int;
            assert(source.take(n + 1) =~= source.take(n).push(source[n]));
            assert(batch_for_component(source.take(n + 1)) =~= batch_for_component(
                source.take(n),
            ).push(for_component(source[n])));
        }
    }
    proof {
        assert(source.take(source.len() as int) =~= source);
    }
    converted
}

/// The component receives the partition key, the sequence number and the data
/// of a record unchanged, and its arrival time too, if it has one; a time before
/// the Unix epoch is the same modulo two to the power of sixty-four. A record
/// that says how it is encrypted is encrypted with KMS for the component exactly
/// where it says so.
pub proof fn law_record_is_kept(record: Record)
    ensures
        for_component(record).partition_key == record.partition_key@,
        for_component(record).sequence_number == record.sequence_number@,
        for_component(record).data == record.data@,
        record.approximate_arrival_secs is None <==> for_component(
            record,
        ).approximate_arrival_timestamp is None,
        record.approximate_arrival_secs matches Some(secs) ==> (secs >= 0 ==> for_component(
            record,
        ).approximate_arrival_timestamp->0 == secs),
        record.approximate_arrival_secs matches Some(secs) ==> (secs < 0 ==> for_component(
            record,
        ).approximate_arrival_timestamp->0 == secs + 0x1_0000_0000_0000_0000),
        record.encryption_type is None <==> for_component(record).encryption_type is None,
        record.encryption_type == Some(RecordEncryption::Kms) <==> for_component(
            record,
        ).encryption_type == Some(EncryptionType::Kms),
{
}

/// A batch is converted whole and in order: the component receives as many
/// records as came, and each of them for the record at its own place, whatever
/// the others are.
pub proof fn law_batch_is_kept(records: Seq<Record>, i: int)
    requires
        0 <= i < records.len(),
    ensures
        batch_for_component(records).len() == records.len(),
        batch_for_component(records)[i] == for_component(records[i]),
        batch_for_component(records)[i].partition_key == records[i].partition_key@,
        batch_for_component(records)[i].sequence_number == records[i].sequence_number@,
        batch_for_component(records)[i].data == records[i].data@,
{
}

/// An empty batch stays empty, and a batch that is cut in two gives the records
/// of the first part followed by those of the second.
pub proof fn law_batches_can_be_cut(first: Seq<Record>, second: Seq<Record>)
    ensures
        batch_for_component(Seq::empty()) == Seq::<KinesisRecordView>::empty(),
        batch_for_component(first + second) == batch_for_component(first) + batch_for_component(
            second,
        ),
{
    assert(batch_for_component(Seq::empty()) =~= Seq::<KinesisRecordView>::empty());
    assert(batch_for_component(first + second) =~= batch_for_component(first)
        + batch_for_component(second));
}

/// What is read in a batch is what its records hold: all of them, in order.
pub proof fn law_batch_shows_its_records(records: Seq<KinesisRecord>, i: int)
    requires
        0 <= i < records.len(),
    ensures
        batch_view(records).len() == records.len(),
        batch_view(records)[i].partition_key == records[i].partition_key@,
        batch_view(records)[i].sequence_number == records[i].sequence_number@,
        batch_view(records)[i].data == records[i].data.inner@,
        batch_view(records)[i].approximate_arrival_timestamp
            == records[i].approximate_arrival_timestamp,
        batch_view(records)[i].encryption_type == records[i].encryption_type,
{
}

} // verus!
