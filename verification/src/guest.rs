//! A component that prints the records it receives.
use crate::record::{batch_view, KinesisRecord, KinesisRecordView};
use crate::text::{debug_text, debug_text_of, text_from_utf8};
use vstd::prelude::*;
use vstd::string::StringExecFns;
use vstd::utf8::{decode_utf8, valid_utf8};

verus! {

/// What the component prints of a batch.
pub struct PrintedBatch {
    pub lines: Vec<String>,
    /// Whether a record whose data is not text stopped the printing.
    pub stopped: bool,
}

/// What the component prints of a batch, with texts as sequences.
pub struct PrintedBatchView {
    pub lines: Seq<Seq<char>>,
    pub stopped: bool,
}

impl View for PrintedBatch {
    type V = PrintedBatchView;

    open spec fn view(&self) -> PrintedBatchView {
        PrintedBatchView {
            lines: self.lines@.map_values(|line: String| line@),
            stopped: self.stopped,
        }
    }
}

/// The line that names a record, given its sequence number as `{:?}` prints it.
pub open spec fn id_text(printed_number: Seq<char>) -> Seq<char> {
    "I GOT A RECORD!  ID: "@ + printed_number
}

/// The line that shows a record's data, given the data as `{:?}` prints it.
pub open spec fn data_text(printed_data: Seq<char>) -> Seq<char> {
    "  ... DATA: "@ + printed_data
}

/// The lines of a record. Data that is not text has no line.
pub open spec fn record_lines(record: KinesisRecordView) -> Seq<Seq<char>> {
    let id = id_text(debug_text_of(record.sequence_number));
    if valid_utf8(record.data) {
        seq![id, data_text(debug_text_of(decode_utf8(record.data)))]
    } else {
        seq![id]
    }
}

/// The lines of a batch: those of its records in order, up to the first record
/// whose data is not text.
pub open spec fn printed(records: Seq<KinesisRecordView>) -> PrintedBatchView
    decreases records.len(),
{
    if records.len() == 0 {
        PrintedBatchView { lines: seq![], stopped: false }
    } else if !valid_utf8(records[0].data) {
        PrintedBatchView { lines: record_lines(records[0]), stopped: true }
    } else {
        let rest = printed(records.drop_first());
        PrintedBatchView { lines: record_lines(records[0]) + rest.lines, stopped: rest.stopped }
    }
}

/// Makes the line that names a record.
pub fn id_line(printed_number: &str) -> (line: String)
    ensures
        line@ == id_text(printed_number@),
        line@ == "I GOT A RECORD!  ID: "@ + printed_number@,
{
    let mut line: String = "I GOT A RECORD!  ID: ".to_owned();
    line.append(printed_number);
    line
}

/// Makes the line that shows a record's data.
pub fn data_line(printed_data: &str) -> (line: String)
    ensures
        line@ == data_text(printed_data@),
        line@ == "  ... DATA: "@ + printed_data@,
{
    let mut line: String = "  ... DATA: ".to_owned();
    line.append(printed_data);
    line
}

/// The printing component.
pub struct Kinesis;

impl Kinesis {
    /// The lines to print for a batch.
    pub fn handle_batch_records(records: Vec<KinesisRecord>) -> (batch: PrintedBatch)
        ensures
            batch@ == printed(batch_view(records@)),
            batch.stopped == batch@.stopped,
            batch.lines@.len() == batch@.lines.len(),
            forall|i: int|
                0 <= i < batch.lines@.len() ==> (#[trigger] batch.lines@[i])@ == batch@.lines[i],
    {
        let ghost all = batch_view(records@);
        let ghost source = records@;
        let mut lines: Vec<String> = Vec::new();
        proof {
            assert(all.skip(0) =~= all);
            assert(lines@.map_values(|line: String| line@) =~= seq![]);
            assert(printed(all).lines =~= seq![] + printed(all.skip(0)).lines);
        }
        for record in it: records.into_iter()
            invariant
                it.seq() == source,
                all == batch_view(source),
                printed(all).lines == lines@.map_values(|line: String| line@) + printed(
                    all.skip(it.index() as int),
                ).lines,
                printed(all).stopped == printed(all.skip(it.index() as int)).stopped,
        {
            let ghost n = it.index() as int;
            let ghost before = lines@.map_values(|line: String| line@);
            proof {
                assert(all.skip(n)[0] == record@);
                assert(all.skip(n).drop_first() =~= all.skip(n + 1));
            }
            lines.push(id_line(debug_text(record.sequence_number.as_str()).as_str()));
            match text_from_utf8(record.data.inner) {
                Some(data) => {
                    lines.push(data_line(debug_text(data.as_str()).as_str()));
                    proof {
                        assert(lines@.map_values(|line: String| line@) =~= before + record_lines(
                            record@,
                        ));
                        assert(before + (record_lines(record@) + printed(all.skip(n + 1)).lines)
                            =~= before + record_lines(record@) + printed(all.skip(n + 1)).lines);
                    }
                },
                None => {
                    proof {
                        assert(lines@.map_values(|line: String| line@) =~= before + record_lines(
                            record@,
                        ));
                    }
                    return PrintedBatch { lines, stopped: true };
                },
            }
        }
        proof {
            assert(all.skip(all.len() as int) =~= seq![]);
            assert(lines@.map_values(|line: String| line@) + seq![] =~= lines@.map_values(
                |line: String| line@,
            ));
        }
        PrintedBatch { lines, stopped: false }
    }
}

/// A batch whose records all hold text is printed whole: two lines for each
/// record, in order.
pub proof fn law_text_is_printed_whole(records: Seq<KinesisRecordView>)
    requires
        forall|i: int| 0 <= i < records.len() ==> valid_utf8((#[trigger] records[i]).data),
    ensures
        printed(records).lines.len() == 2 * records.len(),
        forall|i: int|
            0 <= i < records.len() ==> printed(records).lines[2 * i] == record_lines(
                #[trigger] records[i],
            )[0] && printed(records).lines[2 * i + 1] == record_lines(records[i])[1],
        !printed(records).stopped,
    decreases records.len(),
{
    if records.len() > 0 {
        let rest = records.drop_first();
        assert forall|i: int| 0 <= i < rest.len() implies valid_utf8((#[trigger] rest[i]).data) by {
            assert(rest[i] == records[i + 1]);
        }
        assert(valid_utf8(records[0].data));
        law_text_is_printed_whole(rest);
        assert forall|i: int| 0 <= i < records.len() implies printed(records).lines[2 * i]
            == record_lines(#[trigger] records[i])[0] && printed(records).lines[2 * i + 1]
            == record_lines(records[i])[1] by {
            if i > 0 {
                assert(records[i] == rest[i - 1]);
                assert(printed(records).lines[2 * i] == printed(rest).lines[2 * (i - 1)]);
                assert(printed(records).lines[2 * i + 1] == printed(rest).lines[2 * (i - 1) + 1]);
            }
        }
    }
}

/// The records before the first one whose data is not text have two lines each:
/// one with the sequence number and one with the data, both as `{:?}` prints
/// them.
pub proof fn law_lines_show_number_and_data(records: Seq<KinesisRecordView>, i: int)
    requires
        0 <= i < records.len(),
        forall|k: int| 0 <= k <= i ==> valid_utf8((#[trigger] records[k]).data),
    ensures
        printed(records).lines.len() >= 2 * i + 2,
        printed(records).lines[2 * i] == "I GOT A RECORD!  ID: "@ + debug_text_of(
            records[i].sequence_number,
        ),
        printed(records).lines[2 * i + 1] == "  ... DATA: "@ + debug_text_of(
            decode_utf8(records[i].data),
        ),
    decreases records.len(),
{
    assert(valid_utf8(records[0].data));
    if i > 0 {
        let rest = records.drop_first();
        assert forall|k: int| 0 <= k <= i - 1 implies valid_utf8((#[trigger] rest[k]).data) by {
            assert(rest[k] == records[k + 1]);
        }
        law_lines_show_number_and_data(rest, i - 1);
        assert(printed(records).lines[2 * i] == printed(rest).lines[2 * (i - 1)]);
        assert(printed(records).lines[2 * i + 1] == printed(rest).lines[2 * (i - 1) + 1]);
    }
}

/// Printing stops exactly at the first record whose data is not text: its
/// sequence number is the last line, and nothing of it or of the records after
/// it is printed besides.
pub proof fn law_printing_stops_at_the_first_bad_record(
    records: Seq<KinesisRecordView>,
    bad: int,
)
    requires
        0 <= bad < records.len(),
        !valid_utf8(records[bad].data),
        forall|k: int| 0 <= k < bad ==> valid_utf8((#[trigger] records[k]).data),
    ensures
        printed(records).stopped,
        printed(records).lines.len() == 2 * bad + 1,
        printed(records).lines[2 * bad] == "I GOT A RECORD!  ID: "@ + debug_text_of(
            records[bad].sequence_number,
        ),
    decreases records.len(),
{
    if bad > 0 {
        assert(valid_utf8(records[0].data));
        let rest = records.drop_first();
        assert forall|k: int| 0 <= k < bad - 1 implies valid_utf8((#[trigger] rest[k]).data) by {
            assert(rest[k] == records[k + 1]);
        }
        law_printing_stops_at_the_first_bad_record(rest, bad - 1);
        assert(printed(records).lines[2 * bad] == printed(rest).lines[2 * (bad - 1)]);
    }
}

} // verus!
