//! A batch beside the gauges made of it, as lines of text: the first ten
//! samples, the first ten gauges, and how many more there are of each.

use vstd::prelude::*;
use vstd::string::StringExecFns;
use crate::otel::{
    AttributeView,
    DataPointView,
    GaugeView,
    MetricsView,
    OtelAttribute,
    OtelDataPoint,
    OtelGauge,
    OtelMetrics,
};
use crate::report_text::{
    empty_line,
    labelled,
    pad_left,
    pad_right,
    push_line,
    spec_pad_left,
    spec_pad_right,
};
use crate::sai::{spec_sample_views, BatchView, SAIStat, SAIStats, SampleView};
use crate::text::{decimal, signed_decimal, spec_decimal, spec_signed_decimal, spec_texts};

verus! {

/// How many samples and how many gauges the report lists at most.
pub const LISTED_AT_MOST: usize = 10;

/// How many of `count` entries the report lists.
pub open spec fn spec_listed(count: int) -> int {
    if count > LISTED_AT_MOST {
        LISTED_AT_MOST as int
    } else {
        count
    }
}

/// The line of the `position`th sample, counted from 1.
pub open spec fn spec_sample_line(position: int, sample: SampleView) -> Seq<char> {
    "   ["@ + spec_pad_left(spec_decimal(position as nat), 2) + "] Object: "@ + spec_pad_right(
        sample.object_name,
        20,
    ) + " | Type: "@ + spec_pad_left(spec_decimal(sample.type_id as nat), 3) + " | Stat: "@
        + spec_pad_left(spec_decimal(sample.stat_id as nat), 3) + " | Counter: "@ + spec_pad_left(
        spec_decimal(sample.counter as nat),
        12,
    )
}

/// The lines of the first `k` samples.
pub open spec fn spec_sample_lines(samples: Seq<SampleView>, k: int) -> Seq<Seq<char>>
    decreases k,
{
    if k <= 0 {
        Seq::<Seq<char>>::empty()
    } else {
        spec_sample_lines(samples, k - 1).push(spec_sample_line(k, samples[k - 1]))
    }
}

/// The first `k` attributes as `key=value`, with a comma and a space
/// between two of them.
pub open spec fn spec_attributes_text(attributes: Seq<AttributeView>, k: int) -> Seq<char>
    decreases k,
{
    if k <= 0 {
        Seq::<char>::empty()
    } else if k == 1 {
        attributes[0].key + "="@ + attributes[0].value
    } else {
        spec_attributes_text(attributes, k - 1) + ", "@ + attributes[k - 1].key + "="@
            + attributes[k - 1].value
    }
}

/// The line of a gauge's data point, for the `position`th gauge.
pub open spec fn spec_metric_line(position: int, name: Seq<char>, point: DataPointView) -> Seq<
    char,
> {
    "   ["@ + spec_pad_left(spec_decimal(position as nat), 2) + "] Metric: "@ + spec_pad_right(
        name,
        35,
    ) + " | Value: "@ + spec_pad_left(spec_signed_decimal(point.value as int), 12) + " | Time: "@
        + spec_decimal(point.time_unix_nano as nat) + "ns"@
}

/// The line of a data point's attributes.
pub open spec fn spec_attributes_line(attributes: Seq<AttributeView>) -> Seq<char> {
    "       Attributes: ["@ + spec_attributes_text(attributes, attributes.len() as int) + "]"@
}

/// The lines of the `position`th gauge: of its first data point, if it has
/// one, the value and time and then the attributes, if it has any; the
/// description; and an empty line.
pub open spec fn spec_gauge_block(position: int, gauge: GaugeView) -> Seq<Seq<char>> {
    let tail = seq!["       Description: "@ + gauge.description, Seq::<char>::empty()];
    if gauge.data_points.len() == 0 {
        tail
    } else if gauge.data_points[0].attributes.len() == 0 {
        seq![spec_metric_line(position, gauge.name, gauge.data_points[0])] + tail
    } else {
        seq![
            spec_metric_line(position, gauge.name, gauge.data_points[0]),
            spec_attributes_line(gauge.data_points[0].attributes),
        ] + tail
    }
}

/// The lines of the first `k` gauges.
pub open spec fn spec_gauge_blocks(gauges: Seq<GaugeView>, k: int) -> Seq<Seq<char>>
    decreases k,
{
    if k <= 0 {
        Seq::<Seq<char>>::empty()
    } else {
        spec_gauge_blocks(gauges, k - 1) + spec_gauge_block(k, gauges[k - 1])
    }
}

/// The line that says how many entries of a kind are not listed; no line
/// where all are.
pub open spec fn spec_rest_line(count: int, kind: Seq<char>) -> Seq<Seq<char>> {
    if count > LISTED_AT_MOST {
        seq!["   ... and "@ + spec_decimal((count - LISTED_AT_MOST) as nat) + kind]
    } else {
        Seq::<Seq<char>>::empty()
    }
}

/// What the report begins with.
pub open spec fn spec_report_head(batch: BatchView, metrics: MetricsView) -> Seq<Seq<char>> {
    seq![
        " [Conversion Report] SAI Stats → OpenTelemetry Gauges"@,
        "   Conversion timestamp: "@ + spec_decimal(batch.observation_time_ns as nat),
        "   Input: "@ + spec_decimal(batch.samples.len()) + " SAI statistics"@,
        "   Output: "@ + spec_decimal(metrics.gauges.len()) + " OpenTelemetry gauges"@,
        Seq::<char>::empty(),
        "BEFORE - Original SAI Statistics:"@,
    ]
}

/// What stands between the samples and the gauges.
pub open spec fn spec_report_middle() -> Seq<Seq<char>> {
    seq![Seq::<char>::empty(), "AFTER - Converted OpenTelemetry Gauges:"@]
}

/// What the report ends with.
pub open spec fn spec_report_foot() -> Seq<Seq<char>> {
    seq![
        "Conversion completed successfully!"@,
        "═══════════════════════════════════════════════════════════════════"@,
        Seq::<char>::empty(),
    ]
}

/// The lines of the report on a batch and the gauges made of it.
pub open spec fn spec_conversion_report_lines(batch: BatchView, metrics: MetricsView) -> Seq<
    Seq<char>,
> {
    spec_report_head(batch, metrics) + spec_sample_lines(
        batch.samples,
        spec_listed(batch.samples.len() as int),
    ) + spec_rest_line(batch.samples.len() as int, " more SAI statistics"@) + spec_report_middle()
        + spec_gauge_blocks(metrics.gauges, spec_listed(metrics.gauges.len() as int))
        + spec_rest_line(metrics.gauges.len() as int, " more OpenTelemetry gauges"@)
        + spec_report_foot()
}

/// The line of the `position`th sample.
fn sample_line(position: usize, sample: &SAIStat) -> (line: String)
    ensures
        line@ == spec_sample_line(position as int, sample@),
{
    let mut line = String::from_str("   [");
    line.append(pad_left(decimal(position as u128).as_str(), 2).as_str());
    line.append("] Object: ");
    line.append(pad_right(sample.object_name.as_str(), 20).as_str());
    line.append(" | Type: ");
    line.append(pad_left(decimal(sample.type_id as u128).as_str(), 3).as_str());
    line.append(" | Stat: ");
    line.append(pad_left(decimal(sample.stat_id as u128).as_str(), 3).as_str());
    line.append(" | Counter: ");
    line.append(pad_left(decimal(sample.counter as u128).as_str(), 12).as_str());
    line
}

/// The attributes as `key=value`, with a comma and a space between two.
fn attributes_text(attributes: &Vec<OtelAttribute>) -> (text: String)
    ensures
        text@ == spec_attributes_text(
            attributes@.map_values(|a: OtelAttribute| a@),
            attributes.len() as int,
        ),
{
    let ghost views = attributes@.map_values(|a: OtelAttribute| a@);
    let mut text = empty_line();
    let mut k: usize = 0;
    while k < attributes.len()
        invariant
            k <= attributes.len(),
            views == attributes@.map_values(|a: OtelAttribute| a@),
            text@ == spec_attributes_text(views, k as int),
        decreases attributes.len() - k,
    {
        assert(views[k as int] == attributes[k as int]@);
        if k > 0 {
            text.append(", ");
        }
        text.append(attributes[k].key.as_str());
        text.append("=");
        text.append(attributes[k].value.as_str());
        k += 1;
        assert(text@ =~= spec_attributes_text(views, k as int));
    }
    text
}

/// The line of a gauge's data point.
fn metric_line(position: usize, name: &str, point: &OtelDataPoint) -> (line: String)
    ensures
        line@ == spec_metric_line(position as int, name@, point@),
{
    let mut line = String::from_str("   [");
    line.append(pad_left(decimal(position as u128).as_str(), 2).as_str());
    line.append("] Metric: ");
    line.append(pad_right(name, 35).as_str());
    line.append(" | Value: ");
    line.append(pad_left(signed_decimal(point.value).as_str(), 12).as_str());
    line.append(" | Time: ");
    line.append(decimal(point.time_unix_nano as u128).as_str());
    line.append("ns");
    line
}

/// Adds the lines of the `position`th gauge.
fn push_gauge_block(lines: &mut Vec<String>, position: usize, gauge: &OtelGauge)
    ensures
        spec_texts(final(lines)@) == spec_texts(old(lines)@) + spec_gauge_block(
            position as int,
            gauge@,
        ),
{
    let ghost before = spec_texts(lines@);
    if gauge.data_points.len() > 0 {
        let point = &gauge.data_points[0];
        assert(gauge@.data_points[0] == point@);
        push_line(lines, metric_line(position, gauge.name.as_str(), point));
        if point.attributes.len() > 0 {
            let mut line = String::from_str("       Attributes: [");
            line.append(attributes_text(&point.attributes).as_str());
            line.append("]");
            push_line(lines, line);
        }
    }
    let mut description = String::from_str("       Description: ");
    description.append(gauge.description.as_str());
    push_line(lines, description);
    push_line(lines, empty_line());
    assert(spec_texts(lines@) =~= before + spec_gauge_block(position as int, gauge@));
}

/// Adds the line that says how many entries are not listed, if any are.
fn push_rest_line(lines: &mut Vec<String>, count: usize, kind: &str)
    ensures
        spec_texts(final(lines)@) == spec_texts(old(lines)@) + spec_rest_line(count as int, kind@),
{
    let ghost before = spec_texts(lines@);
    if count > LISTED_AT_MOST {
        let mut line = labelled("   ... and ", (count - LISTED_AT_MOST) as u128);
        line.append(kind);
        push_line(lines, line);
    }
    assert(spec_texts(lines@) =~= before + spec_rest_line(count as int, kind@));
}

/// The report on a batch and the gauges made of it, as lines of text.
///
/// It lists the first ten samples and the first ten gauges, each with its
/// place counted from 1, and says of each kind how many more there are just
/// where there are more than ten. Of a gauge it shows the first data point;
/// one without a data point is listed by its description alone.
pub fn conversion_report_lines(batch: &SAIStats, metrics: &OtelMetrics) -> (lines: Vec<String>)
    ensures
        spec_texts(lines@) == spec_conversion_report_lines(batch@, metrics@),
{
    let ghost samples = spec_sample_views(batch.samples@);
    let ghost gauges = metrics.gauges@.map_values(|g: OtelGauge| g@);
    let mut lines: Vec<String> = Vec::new();
    assert(spec_texts(lines@) =~= Seq::<Seq<char>>::empty());
    push_line(
        &mut lines,
        String::from_str(" [Conversion Report] SAI Stats → OpenTelemetry Gauges"),
    );
    push_line(
        &mut lines,
        labelled("   Conversion timestamp: ", batch.observation_time_ns as u128),
    );
    let mut input = labelled("   Input: ", batch.samples.len() as u128);
    input.append(" SAI statistics");
    push_line(&mut lines, input);
    let mut output = labelled("   Output: ", metrics.gauges.len() as u128);
    output.append(" OpenTelemetry gauges");
    push_line(&mut lines, output);
    push_line(&mut lines, empty_line());
    push_line(&mut lines, String::from_str("BEFORE - Original SAI Statistics:"));
    let ghost head = spec_report_head(batch@, metrics@);
    assert(spec_texts(lines@) =~= head);

    let listed_samples: usize = if batch.samples.len() > LISTED_AT_MOST {
        LISTED_AT_MOST
    } else {
        batch.samples.len()
    };
    let mut i: usize = 0;
    assert(head + spec_sample_lines(samples, 0) =~= head);
    while i < listed_samples
        invariant
            i <= listed_samples <= batch.samples.len(),
            samples == spec_sample_views(batch.samples@),
            spec_texts(lines@) == head + spec_sample_lines(samples, i as int),
        decreases listed_samples - i,
    {
        assert(samples[i as int] == batch.samples[i as int]@);
        push_line(&mut lines, sample_line(i + 1, &batch.samples[i]));
        i += 1;
        assert(spec_texts(lines@) =~= head + spec_sample_lines(samples, i as int));
    }
    push_rest_line(&mut lines, batch.samples.len(), " more SAI statistics");
    push_line(&mut lines, empty_line());
    push_line(&mut lines, String::from_str("AFTER - Converted OpenTelemetry Gauges:"));
    let ghost upper = head + spec_sample_lines(samples, listed_samples as int) + spec_rest_line(
        batch.samples.len() as int,
        " more SAI statistics"@,
    ) + spec_report_middle();
    assert(spec_texts(lines@) =~= upper);

    let listed_gauges: usize = if metrics.gauges.len() > LISTED_AT_MOST {
        LISTED_AT_MOST
    } else {
        metrics.gauges.len()
    };
    let mut j: usize = 0;
    assert(upper + spec_gauge_blocks(gauges, 0) =~= upper);
    while j < listed_gauges
        invariant
            j <= listed_gauges <= metrics.gauges.len(),
            gauges == metrics.gauges@.map_values(|g: OtelGauge| g@),
            spec_texts(lines@) == upper + spec_gauge_blocks(gauges, j as int),
        decreases listed_gauges - j,
    {
        assert(gauges[j as int] == metrics.gauges[j as int]@);
        push_gauge_block(&mut lines, j + 1, &metrics.gauges[j]);
        j += 1;
        assert(spec_texts(lines@) =~= upper + spec_gauge_blocks(gauges, j as int));
    }
    push_rest_line(&mut lines, metrics.gauges.len(), " more OpenTelemetry gauges");
    push_line(&mut lines, String::from_str("Conversion completed successfully!"));
    push_line(
        &mut lines,
        String::from_str("═══════════════════════════════════════════════════════════════════"),
    );
    push_line(&mut lines, empty_line());
    assert(spec_texts(lines@) =~= spec_conversion_report_lines(batch@, metrics@));
    lines
}

} // verus!
