//! A report as lines of text.
//!
//! The message rates are handed in as text: they are fractions, and how a
//! fraction is written is left to the caller.

use vstd::prelude::*;
use vstd::string::{StrSliceExecFns, StringExecFns};
use crate::counters::{spec_entry_views, CounterEntry, EntryView};
use crate::stats_reporter::{Report, ReportBody, ReportBodyView, ReportView};
use crate::text::{decimal, spec_decimal, spec_texts};

verus! {

/// `count` spaces.
pub open spec fn spec_spaces(count: int) -> Seq<char> {
    Seq::new(
        if count > 0 {
            count as nat
        } else {
            0nat
        },
        |i: int| ' ',
    )
}

/// The text with spaces in front of it, as many as it lacks to `width`
/// characters.
pub open spec fn spec_pad_left(text: Seq<char>, width: int) -> Seq<char> {
    spec_spaces(width - text.len()) + text
}

/// The text with spaces behind it, as many as it lacks to `width`
/// characters.
pub open spec fn spec_pad_right(text: Seq<char>, width: int) -> Seq<char> {
    text + spec_spaces(width - text.len())
}

/// `count` spaces.
fn spaces(count: usize) -> (text: String)
    ensures
        text@ == spec_spaces(count as int),
{
    proof {
        reveal_strlit(" ");
    }
    let mut text = String::from_str("");
    proof {
        reveal_strlit("");
    }
    assert(text@ =~= spec_spaces(0));
    let mut i: usize = 0;
    while i < count
        invariant
            i <= count,
            text@ == spec_spaces(i as int),
            " "@ == seq![' '],
        decreases count - i,
    {
        text.append(" ");
        i += 1;
        assert(text@ =~= spec_spaces(i as int));
    }
    text
}

/// Pads a text on the left.
pub fn pad_left(text: &str, width: usize) -> (padded: String)
    ensures
        padded@ == spec_pad_left(text@, width as int),
{
    let length = text.unicode_len();
    let mut padded = if length < width {
        spaces(width - length)
    } else {
        spaces(0)
    };
    padded.append(text);
    padded
}

/// Pads a text on the right.
pub fn pad_right(text: &str, width: usize) -> (padded: String)
    ensures
        padded@ == spec_pad_right(text@, width as int),
{
    let length = text.unicode_len();
    let mut padded = String::from_str(text);
    let fill = if length < width {
        spaces(width - length)
    } else {
        spaces(0)
    };
    padded.append(fill.as_str());
    padded
}

/// The rate text for line `i`; empty where none was handed in.
pub open spec fn spec_rate_at(rates: Seq<Seq<char>>, i: int) -> Seq<char> {
    if 0 <= i < rates.len() {
        rates[i]
    } else {
        Seq::<char>::empty()
    }
}

/// The line of the `position`th counter of a detailed report, counted
/// from 1.
pub open spec fn spec_detail_line(position: int, entry: EntryView, rate: Seq<char>) -> Seq<char> {
    "      ["@ + spec_pad_left(spec_decimal(position as nat), 3) + "] Object: "@ + spec_pad_right(
        entry.key.object_name,
        15,
    ) + ", Type: "@ + spec_pad_left(spec_decimal(entry.key.type_id as nat), 10) + ", Stat: "@
        + spec_pad_left(spec_decimal(entry.key.stat_id as nat), 10) + ", Counter: "@
        + spec_pad_left(spec_decimal(entry.info.counter as nat), 15) + ", Msg/s: "@ + rate
        + ", LastTime: "@ + spec_decimal(entry.info.last_observation_time as nat)
}

/// The lines of the first `k` counters of a detailed report.
pub open spec fn spec_detail_lines(rows: Seq<EntryView>, rates: Seq<Seq<char>>, k: int) -> Seq<
    Seq<char>,
>
    decreases k,
{
    if k <= 0 {
        Seq::<Seq<char>>::empty()
    } else {
        spec_detail_lines(rows, rates, k - 1).push(
            spec_detail_line(k, rows[k - 1], spec_rate_at(rates, k - 1)),
        )
    }
}

/// The line that says how many counters a detailed report leaves out.
pub open spec fn spec_more_line(more: int) -> Seq<char> {
    "      ... and "@ + spec_decimal(more as nat)
        + " more counters (use max_stats_per_report: None to show all)"@
}

/// The lines of a report. `rates` holds the message rate of each listed
/// counter for a detailed report, and the overall message rate at its head
/// for a summary.
pub open spec fn spec_report_lines(report: ReportView, rates: Seq<Seq<char>>) -> Seq<Seq<char>> {
    let total = "   Total Messages Received: "@ + spec_decimal(
        report.total_messages_received as nat,
    );
    match report.body {
        ReportBodyView::NoData => seq![
            "📊 [Report #"@ + spec_decimal(report.number as nat)
                + "] No statistics data available yet"@,
            total,
            Seq::<char>::empty(),
        ],
        ReportBodyView::Detailed { rows, more } => {
            let head = seq![
                "📊 [Report #"@ + spec_decimal(report.number as nat) + "] SAI Counters Report"@,
                "   Total Unique Counters: "@ + spec_decimal(report.unique_counters as nat),
                total,
                "   📈 Detailed Counters:"@,
            ];
            let listed = head + spec_detail_lines(rows, rates, rows.len() as int);
            if more > 0 {
                listed.push(spec_more_line(more)).push(Seq::<char>::empty())
            } else {
                listed.push(Seq::<char>::empty())
            }
        },
        ReportBodyView::Summary {
            total_counter_value,
            unique_types,
            unique_objects,
            messages_in_period,
        } => seq![
            "📊 [Report #"@ + spec_decimal(report.number as nat) + "] SAI Counters Report"@,
            "   Total Unique Counters: "@ + spec_decimal(report.unique_counters as nat),
            total,
            "   📊 Summary:"@,
            "      Total Counter Value: "@ + spec_decimal(total_counter_value as nat),
            "      Unique Types: "@ + spec_decimal(unique_types as nat),
            "      Unique Objects: "@ + spec_decimal(unique_objects as nat),
            "      Messages per Second: "@ + spec_rate_at(rates, 0),
            Seq::<char>::empty(),
        ],
    }
}

/// The message counts that the rates of a report are made of: one for each
/// listed counter of a detailed report, the overall one for a summary, none
/// for a report without data.
pub open spec fn spec_rate_inputs(report: ReportView) -> Seq<int> {
    match report.body {
        ReportBodyView::NoData => Seq::<int>::empty(),
        ReportBodyView::Detailed { rows, more } => Seq::new(
            rows.len(),
            |i: int| rows[i].messages_in_period as int,
        ),
        ReportBodyView::Summary {
            total_counter_value,
            unique_types,
            unique_objects,
            messages_in_period,
        } => seq![messages_in_period],
    }
}

/// Adds a line.
pub(crate) fn push_line(lines: &mut Vec<String>, line: String)
    ensures
        spec_texts(final(lines)@) == spec_texts(old(lines)@).push(line@),
{
    let ghost before = spec_texts(lines@);
    lines.push(line);
    assert(spec_texts(lines@) =~= before.push(line@));
}

/// An empty line.
pub(crate) fn empty_line() -> (line: String)
    ensures
        line@ == Seq::<char>::empty(),
{
    proof {
        reveal_strlit("");
    }
    let line = String::from_str("");
    assert(line@ =~= Seq::<char>::empty());
    line
}

/// A text and a number behind it.
pub(crate) fn labelled(label: &str, n: u128) -> (line: String)
    ensures
        line@ == label@ + spec_decimal(n as nat),
{
    let mut line = String::from_str(label);
    line.append(decimal(n).as_str());
    line
}

/// The line of the `position`th counter of a detailed report.
pub fn detail_line(position: usize, entry: &CounterEntry, rate: &str) -> (line: String)
    ensures
        line@ == spec_detail_line(position as int, entry@, rate@),
{
    let mut line = String::from_str("      [");
    line.append(pad_left(decimal(position as u128).as_str(), 3).as_str());
    line.append("] Object: ");
    line.append(pad_right(entry.key.object_name.as_str(), 15).as_str());
    line.append(", Type: ");
    line.append(pad_left(decimal(entry.key.type_id as u128).as_str(), 10).as_str());
    line.append(", Stat: ");
    line.append(pad_left(decimal(entry.key.stat_id as u128).as_str(), 10).as_str());
    line.append(", Counter: ");
    line.append(pad_left(decimal(entry.info.counter as u128).as_str(), 15).as_str());
    line.append(", Msg/s: ");
    line.append(rate);
    line.append(", LastTime: ");
    line.append(decimal(entry.info.last_observation_time as u128).as_str());
    line
}

impl Report {
    /// The message counts that the rates of this report are made of.
    pub fn rate_inputs(&self) -> (counts: Vec<u128>)
        ensures
            counts@.map_values(|c: u128| c as int) == spec_rate_inputs(self@),
    {
        let mut counts: Vec<u128> = Vec::new();
        match &self.body {
            ReportBody::NoData => {
                assert(counts@.map_values(|c: u128| c as int) =~= spec_rate_inputs(self@));
            },
            ReportBody::Detailed { rows, more } => {
                let mut i: usize = 0;
                let ghost wanted = spec_rate_inputs(self@);
                while i < rows.len()
                    invariant
                        i <= rows.len(),
                        counts.len() == i,
                        wanted.len() == rows.len(),
                        forall|w: int|
                            0 <= w < rows.len() ==> #[trigger] wanted[w]
                                == rows[w].messages_in_period as int,
                        counts@.map_values(|c: u128| c as int) == wanted.subrange(0, i as int),
                    decreases rows.len() - i,
                {
                    counts.push(rows[i].messages_in_period as u128);
                    i += 1;
                    assert(counts@.map_values(|c: u128| c as int) =~= wanted.subrange(
                        0,
                        i as int,
                    ));
                }
                assert(wanted.subrange(0, i as int) =~= wanted);
            },
            ReportBody::Summary {
                total_counter_value,
                unique_types,
                unique_objects,
                messages_in_period,
            } => {
                counts.push(*messages_in_period);
                assert(counts@.map_values(|c: u128| c as int) =~= spec_rate_inputs(self@));
            },
        }
        counts
    }

    /// The report as lines of text, with the message rates that the caller
    /// has written out: for a detailed report the rate of each listed
    /// counter, for a summary the overall rate. A rate that is not handed in
    /// is left empty.
    pub fn lines(&self, rates: &Vec<String>) -> (lines: Vec<String>)
        ensures
            spec_texts(lines@) == spec_report_lines(self@, spec_texts(rates@)),
    {
        let ghost wanted = spec_report_lines(self@, spec_texts(rates@));
        let total = labelled("   Total Messages Received: ", self.total_messages_received as u128);
        let mut lines: Vec<String> = Vec::new();
        assert(spec_texts(lines@) =~= Seq::<Seq<char>>::empty());
        let mut first = labelled("📊 [Report #", self.number as u128);
        match &self.body {
            ReportBody::NoData => {
                first.append("] No statistics data available yet");
                push_line(&mut lines, first);
                push_line(&mut lines, total);
                push_line(&mut lines, empty_line());
                assert(self@.body is NoData);
                assert(spec_texts(lines@) =~= wanted);
            },
            ReportBody::Detailed { rows, more } => {
                first.append("] SAI Counters Report");
                push_line(&mut lines, first);
                push_line(
                    &mut lines,
                    labelled("   Total Unique Counters: ", self.unique_counters as u128),
                );
                push_line(&mut lines, total);
                push_line(&mut lines, String::from_str("   📈 Detailed Counters:"));
                let ghost head = spec_texts(lines@);
                let ghost row_views = spec_entry_views(rows@);
                let ghost rate_views = spec_texts(rates@);
                let mut i: usize = 0;
                assert(head + spec_detail_lines(row_views, rate_views, 0) =~= head);
                while i < rows.len()
                    invariant
                        i <= rows.len(),
                        row_views == spec_entry_views(rows@),
                        rate_views == spec_texts(rates@),
                        spec_texts(lines@) == head + spec_detail_lines(
                            row_views,
                            rate_views,
                            i as int,
                        ),
                    decreases rows.len() - i,
                {
                    let line = if i < rates.len() {
                        detail_line(i + 1, &rows[i], rates[i].as_str())
                    } else {
                        detail_line(i + 1, &rows[i], empty_line().as_str())
                    };
                    assert(line@ == spec_detail_line(
                        i + 1,
                        row_views[i as int],
                        spec_rate_at(rate_views, i as int),
                    ));
                    push_line(&mut lines, line);
                    i += 1;
                    assert(spec_texts(lines@) =~= head + spec_detail_lines(
                        row_views,
                        rate_views,
                        i as int,
                    ));
                }
                if *more > 0 {
                    let mut line = labelled("      ... and ", *more as u128);
                    line.append(" more counters (use max_stats_per_report: None to show all)");
                    push_line(&mut lines, line);
                }
                push_line(&mut lines, empty_line());
                proof {
                    assert(self@.body == (ReportBodyView::Detailed {
                        rows: row_views,
                        more: *more as int,
                    }));
                    assert(head =~= seq![
                        "📊 [Report #"@ + spec_decimal(self.number as nat)
                            + "] SAI Counters Report"@,
                        "   Total Unique Counters: "@ + spec_decimal(self.unique_counters as nat),
                        "   Total Messages Received: "@ + spec_decimal(
                            self.total_messages_received as nat,
                        ),
                        "   📈 Detailed Counters:"@,
                    ]);
                    assert(spec_texts(lines@) =~= wanted);
                }
            },
            ReportBody::Summary {
                total_counter_value,
                unique_types,
                unique_objects,
                messages_in_period,
            } => {
                first.append("] SAI Counters Report");
                push_line(&mut lines, first);
                push_line(
                    &mut lines,
                    labelled("   Total Unique Counters: ", self.unique_counters as u128),
                );
                push_line(&mut lines, total);
                push_line(&mut lines, String::from_str("   📊 Summary:"));
                push_line(&mut lines, labelled("      Total Counter Value: ", *total_counter_value));
                push_line(&mut lines, labelled("      Unique Types: ", *unique_types as u128));
                push_line(&mut lines, labelled("      Unique Objects: ", *unique_objects as u128));
                let mut rate = String::from_str("      Messages per Second: ");
                if rates.len() > 0 {
                    rate.append(rates[0].as_str());
                }
                assert(rate@ =~= "      Messages per Second: "@ + spec_rate_at(
                    spec_texts(rates@),
                    0,
                ));
                push_line(&mut lines, rate);
                push_line(&mut lines, empty_line());
                proof {
                    assert(self@.body == (ReportBodyView::Summary {
                        total_counter_value: *total_counter_value as int,
                        unique_types: *unique_types as int,
                        unique_objects: *unique_objects as int,
                        messages_in_period: *messages_in_period as int,
                    }));
                    assert(spec_texts(lines@) =~= wanted);
                }
            },
        }
        lines
    }
}

} // verus!
