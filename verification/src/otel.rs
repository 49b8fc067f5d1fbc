//! Sample batches as OpenTelemetry gauges: one gauge for each sample, with
//! one data point.

use vstd::prelude::*;
use vstd::string::StringExecFns;
use crate::counts::{bump, spec_bump};
use crate::sai::{spec_sample_views, BatchView, SAIStat, SAIStats, SampleView};
use crate::text::{decimal, spec_decimal};

verus! {

/// The service that the metrics are reported for.
pub const SERVICE_NAME: &'static str = "counter-sync";

/// The instrumentation scope of the metrics.
pub const SCOPE_NAME: &'static str = "countersyncd";

/// The version of the instrumentation scope.
pub const SCOPE_VERSION: &'static str = "1.0";

/// The unit of every gauge: a count.
pub const GAUGE_UNIT: &'static str = "1";

/// An attribute of a data point.
#[derive(Debug, PartialEq, Eq)]
pub struct OtelAttribute {
    pub key: String,
    pub value: String,
}

/// A data point of a gauge.
#[derive(Debug, PartialEq, Eq)]
pub struct OtelDataPoint {
    pub attributes: Vec<OtelAttribute>,
    pub time_unix_nano: u64,
    pub value: i64,
}

/// A gauge.
#[derive(Debug, PartialEq, Eq)]
pub struct OtelGauge {
    pub name: String,
    pub description: String,
    pub unit: String,
    pub data_points: Vec<OtelDataPoint>,
}

/// The gauges of one batch, with the resource and the scope they are
/// reported under.
#[derive(Debug, PartialEq, Eq)]
pub struct OtelMetrics {
    pub service_name: String,
    pub scope_name: String,
    pub scope_version: String,
    pub gauges: Vec<OtelGauge>,
}

/// What an attribute is, as a mathematical value.
pub struct AttributeView {
    pub key: Seq<char>,
    pub value: Seq<char>,
}

/// What a data point is, as a mathematical value.
pub struct DataPointView {
    pub attributes: Seq<AttributeView>,
    pub time_unix_nano: u64,
    pub value: i64,
}

/// What a gauge is, as a mathematical value.
pub struct GaugeView {
    pub name: Seq<char>,
    pub description: Seq<char>,
    pub unit: Seq<char>,
    pub data_points: Seq<DataPointView>,
}

/// What the gauges of a batch are, as a mathematical value.
pub struct MetricsView {
    pub service_name: Seq<char>,
    pub scope_name: Seq<char>,
    pub scope_version: Seq<char>,
    pub gauges: Seq<GaugeView>,
}

impl View for OtelAttribute {
    type V = AttributeView;

    open spec fn view(&self) -> AttributeView {
        AttributeView { key: self.key@, value: self.value@ }
    }
}

impl View for OtelDataPoint {
    type V = DataPointView;

    open spec fn view(&self) -> DataPointView {
        DataPointView {
            attributes: self.attributes@.map_values(|a: OtelAttribute| a@),
            time_unix_nano: self.time_unix_nano,
            value: self.value,
        }
    }
}

impl View for OtelGauge {
    type V = GaugeView;

    open spec fn view(&self) -> GaugeView {
        GaugeView {
            name: self.name@,
            description: self.description@,
            unit: self.unit@,
            data_points: self.data_points@.map_values(|p: OtelDataPoint| p@),
        }
    }
}

impl View for OtelMetrics {
    type V = MetricsView;

    open spec fn view(&self) -> MetricsView {
        MetricsView {
            service_name: self.service_name@,
            scope_name: self.scope_name@,
            scope_version: self.scope_version@,
            gauges: self.gauges@.map_values(|g: OtelGauge| g@),
        }
    }
}

/// A counter as a signed number of 64 bits: itself up to `i64::MAX`, and
/// from there on wrapped round into the negative numbers.
pub open spec fn spec_signed(counter: u64) -> i64 {
    if counter <= i64::MAX {
        counter as i64
    } else {
        (counter - 0x1_0000_0000_0000_0000) as i64
    }
}

/// A counter as a signed number of 64 bits.
pub fn signed(counter: u64) -> (value: i64)
    ensures
        value == spec_signed(counter),
{
    if counter <= 0x7FFF_FFFF_FFFF_FFFF {
        counter as i64
    } else {
        let above: u64 = counter - 0x8000_0000_0000_0000;
        i64::MIN + above as i64
    }
}

/// The name of the gauge of a counter class of an object class.
pub open spec fn spec_gauge_name(type_id: u32, stat_id: u32) -> Seq<char> {
    "sai_counter_type_"@ + spec_decimal(type_id as nat) + "_stat_"@ + spec_decimal(stat_id as nat)
}

/// The description of the gauge of a sample.
pub open spec fn spec_gauge_description(sample: SampleView) -> Seq<char> {
    "SAI counter for object "@ + sample.object_name + " (type:"@ + spec_decimal(
        sample.type_id as nat,
    ) + ", stat:"@ + spec_decimal(sample.stat_id as nat) + ")"@
}

/// The attributes of the data point of a sample: the object's name and the
/// two ids.
pub open spec fn spec_attributes(sample: SampleView) -> Seq<AttributeView> {
    seq![
        AttributeView { key: "object_name"@, value: sample.object_name },
        AttributeView { key: "sai_type_id"@, value: spec_decimal(sample.type_id as nat) },
        AttributeView { key: "sai_stat_id"@, value: spec_decimal(sample.stat_id as nat) },
    ]
}

/// The data point of a sample observed at `time`.
pub open spec fn spec_data_point(sample: SampleView, time: u64) -> DataPointView {
    DataPointView {
        attributes: spec_attributes(sample),
        time_unix_nano: time,
        value: spec_signed(sample.counter),
    }
}

/// The gauge of a sample observed at `time`.
pub open spec fn spec_gauge(sample: SampleView, time: u64) -> GaugeView {
    GaugeView {
        name: spec_gauge_name(sample.type_id, sample.stat_id),
        description: spec_gauge_description(sample),
        unit: GAUGE_UNIT@,
        data_points: seq![spec_data_point(sample, time)],
    }
}

/// The gauges of a batch: one for each sample, in the order of the
/// samples, each with the batch's time.
pub open spec fn spec_metrics(batch: BatchView) -> MetricsView {
    MetricsView {
        service_name: SERVICE_NAME@,
        scope_name: SCOPE_NAME@,
        scope_version: SCOPE_VERSION@,
        gauges: Seq::new(
            batch.samples.len(),
            |i: int| spec_gauge(batch.samples[i], batch.observation_time_ns),
        ),
    }
}

impl OtelAttribute {
    /// An attribute.
    pub fn new(key: &str, value: &str) -> (attribute: Self)
        ensures
            attribute@ == (AttributeView { key: key@, value: value@ }),
    {
        OtelAttribute { key: key.to_owned(), value: value.to_owned() }
    }
}

impl OtelDataPoint {
    /// The data point of a sample observed at `time`.
    pub fn from_sai_stat(sample: &SAIStat, time: u64) -> (point: Self)
        ensures
            point@ == spec_data_point(sample@, time),
    {
        let type_text = decimal(sample.type_id as u128);
        let stat_text = decimal(sample.stat_id as u128);
        let mut attributes: Vec<OtelAttribute> = Vec::new();
        attributes.push(OtelAttribute::new("object_name", sample.object_name.as_str()));
        attributes.push(OtelAttribute::new("sai_type_id", type_text.as_str()));
        attributes.push(OtelAttribute::new("sai_stat_id", stat_text.as_str()));
        let point = OtelDataPoint {
            attributes,
            time_unix_nano: time,
            value: signed(sample.counter),
        };
        assert(point@.attributes =~= spec_attributes(sample@));
        point
    }
}

impl OtelGauge {
    /// The gauge of a sample observed at `time`.
    pub fn from_sai_stat(sample: &SAIStat, time: u64) -> (gauge: Self)
        ensures
            gauge@ == spec_gauge(sample@, time),
    {
        let type_text = decimal(sample.type_id as u128);
        let stat_text = decimal(sample.stat_id as u128);
        let mut name = String::from_str("sai_counter_type_");
        name.append(type_text.as_str());
        name.append("_stat_");
        name.append(stat_text.as_str());
        let mut description = String::from_str("SAI counter for object ");
        description.append(sample.object_name.as_str());
        description.append(" (type:");
        description.append(type_text.as_str());
        description.append(", stat:");
        description.append(stat_text.as_str());
        description.append(")");
        let mut data_points: Vec<OtelDataPoint> = Vec::new();
        data_points.push(OtelDataPoint::from_sai_stat(sample, time));
        let gauge = OtelGauge {
            name,
            description,
            unit: String::from_str(GAUGE_UNIT),
            data_points,
        };
        assert(gauge@.data_points =~= seq![spec_data_point(sample@, time)]);
        gauge
    }

    /// The gauges of a batch, one for each sample.
    pub fn from_sai_stats(batch: &SAIStats) -> (gauges: Vec<Self>)
        ensures
            gauges@.map_values(|g: OtelGauge| g@) == spec_metrics(batch@).gauges,
    {
        let ghost wanted = spec_metrics(batch@).gauges;
        let mut gauges: Vec<OtelGauge> = Vec::new();
        let mut i: usize = 0;
        while i < batch.samples.len()
            invariant
                i <= batch.samples.len(),
                gauges.len() == i,
                wanted == spec_metrics(batch@).gauges,
                gauges@.map_values(|g: OtelGauge| g@) == wanted.subrange(0, i as int),
            decreases batch.samples.len() - i,
        {
            assert(spec_sample_views(batch.samples@)[i as int] == batch.samples[i as int]@);
            let gauge = OtelGauge::from_sai_stat(&batch.samples[i], batch.observation_time_ns);
            gauges.push(gauge);
            i += 1;
            assert(gauges@.map_values(|g: OtelGauge| g@) =~= wanted.subrange(0, i as int));
        }
        assert(wanted.subrange(0, i as int) =~= wanted);
        gauges
    }
}

impl OtelMetrics {
    /// The gauges of a batch, under the resource and scope of this daemon.
    pub fn from_sai_stats(batch: &SAIStats) -> (metrics: Self)
        ensures
            metrics@ == spec_metrics(batch@),
    {
        OtelMetrics {
            service_name: String::from_str(SERVICE_NAME),
            scope_name: String::from_str(SCOPE_NAME),
            scope_version: String::from_str(SCOPE_VERSION),
            gauges: OtelGauge::from_sai_stats(batch),
        }
    }

    /// Number of gauges.
    pub fn len(&self) -> (n: usize)
        ensures
            n == self@.gauges.len(),
    {
        self.gauges.len()
    }

    /// Whether there is no gauge; then nothing is exported.
    pub fn is_empty(&self) -> (empty: bool)
        ensures
            empty == (self@.gauges.len() == 0),
    {
        self.gauges.len() == 0
    }
}

/// Says whether the gauges of a batch are to be exported: a batch without
/// samples gives no gauge, and then nothing is sent to the collector.
pub fn export_due(metrics: &OtelMetrics) -> (due: bool)
    ensures
        due == (metrics@.gauges.len() > 0),
{
    metrics.gauges.len() > 0
}

/// What the exporter has counted since it was made. Each count stops at
/// `u64::MAX`.
#[derive(Debug, Clone, Copy, PartialEq, Eq, Structural)]
pub struct ExportStats {
    /// Batches taken in.
    pub messages_received: u64,
    /// Exports that the collector acknowledged.
    pub exports_performed: u64,
    /// Exports that failed; none of them is tried again.
    pub export_failures: u64,
    /// Batches printed.
    pub console_reports: u64,
}

impl ExportStats {
    /// Nothing counted.
    pub fn new() -> (stats: Self)
        ensures
            stats == (ExportStats {
                messages_received: 0,
                exports_performed: 0,
                export_failures: 0,
                console_reports: 0,
            }),
    {
        ExportStats {
            messages_received: 0,
            exports_performed: 0,
            export_failures: 0,
            console_reports: 0,
        }
    }

    /// Counts a batch taken in.
    pub fn on_message(&mut self)
        ensures
            *final(self) == (ExportStats {
                messages_received: spec_bump(old(self).messages_received),
                ..*old(self)
            }),
    {
        self.messages_received = bump(self.messages_received);
    }

    /// Counts a batch printed.
    pub fn on_console_report(&mut self)
        ensures
            *final(self) == (ExportStats {
                console_reports: spec_bump(old(self).console_reports),
                ..*old(self)
            }),
    {
        self.console_reports = bump(self.console_reports);
    }

    /// Counts an export by how it ended.
    pub fn on_export(&mut self, acknowledged: bool)
        ensures
            acknowledged ==> *final(self) == (ExportStats {
                exports_performed: spec_bump(old(self).exports_performed),
                ..*old(self)
            }),
            !acknowledged ==> *final(self) == (ExportStats {
                export_failures: spec_bump(old(self).export_failures),
                ..*old(self)
            }),
    {
        if acknowledged {
            self.exports_performed = bump(self.exports_performed);
        } else {
            self.export_failures = bump(self.export_failures);
        }
    }
}

} // verus!
