//! The console reporter: it keeps the latest value of every counter and, on
//! each tick of its timer, gives a report of what it has and forgets the
//! message counts of the period that ended.

use vstd::prelude::*;
use crate::counters::{
    lemma_records_keep_sorted,
    lemma_reset_period,
    record_sample,
    spec_entry_views,
    spec_record_samples,
    spec_reset_period,
    spec_sorted,
    CounterEntry,
    EntryView,
};
use crate::counts::{bump, spec_bump};
use crate::sai::{spec_sample_views, BatchView, SAIStats};
use crate::text::spec_texts;

verus! {

broadcast use {vstd::set::group_set_axioms, vstd::seq_lib::seq_to_set_is_finite};

/// Where the lines of a report go.
pub trait OutputWriter: Send + Sync {
    /// Takes one line, without its line end.
    fn write_line(&mut self, line: &str);
}

/// A writer that keeps the lines it was given.
pub struct TestWriter {
    pub lines: Vec<String>,
}

impl TestWriter {
    /// A writer that has not been given a line yet.
    pub fn new() -> (writer: Self)
        ensures
            writer.lines@ == Seq::<String>::empty(),
    {
        TestWriter { lines: Vec::new() }
    }

    /// The lines given so far, the first one first.
    pub fn get_output(&self) -> (lines: &[String])
        ensures
            lines@ == self.lines@,
    {
        self.lines.as_slice()
    }
}

impl OutputWriter for TestWriter {
    fn write_line(&mut self, line: &str)
        ensures
            spec_texts(final(self).lines@) == spec_texts(old(self).lines@).push(line@),
    {
        let ghost before = spec_texts(self.lines@);
        let owned: String = line.to_owned();
        self.lines.push(owned);
        assert(spec_texts(self.lines@) =~= before.push(line@));
    }
}

/// How the reporter reports.
#[derive(Debug, Clone, Copy, PartialEq, Eq)]
pub struct StatsReporterConfig {
    /// Time between two reports, in milliseconds.
    pub interval_ms: u64,
    /// Whether a report lists the counters or sums them up.
    pub detailed: bool,
    /// How many counters a report lists at most; `None` for all.
    pub max_stats_per_report: Option<usize>,
}

impl Default for StatsReporterConfig {
    /// A detailed report of all counters every ten seconds.
    fn default() -> (config: Self)
        ensures
            config.interval_ms == 10_000,
            config.detailed,
            config.max_stats_per_report is None,
    {
        StatsReporterConfig { interval_ms: 10_000, detailed: true, max_stats_per_report: None }
    }
}

/// The limit on the lines of a report that a count from the command line
/// stands for: zero means no limit.
pub fn report_limit(max_stats_per_report: u32) -> (limit: Option<usize>)
    ensures
        max_stats_per_report == 0 ==> limit is None,
        max_stats_per_report != 0 ==> limit == Some(max_stats_per_report as usize),
{
    if max_stats_per_report == 0 {
        None
    } else {
        Some(max_stats_per_report as usize)
    }
}

/// What a report says below its head.
#[derive(Debug, PartialEq, Eq)]
pub enum ReportBody {
    /// No counter has been seen yet.
    NoData,
    /// The counters in the order of their keys, as many as the limit
    /// allows, and how many more there are.
    Detailed { rows: Vec<CounterEntry>, more: usize },
    /// The counters summed up.
    Summary {
        /// Sum of the latest values of all counters.
        total_counter_value: u128,
        /// Number of different type ids among the counters.
        unique_types: usize,
        /// Number of different object names among the counters.
        unique_objects: usize,
        /// Samples that came in since the last report.
        messages_in_period: u128,
    },
}

/// A report.
#[derive(Debug, PartialEq, Eq)]
pub struct Report {
    /// Which report this is, the first one being 1.
    pub number: u64,
    /// Number of counters in the table.
    pub unique_counters: usize,
    /// Batches taken in since the reporter was made.
    pub total_messages_received: u64,
    pub body: ReportBody,
}

/// What the body of a report is, as a mathematical value.
pub enum ReportBodyView {
    NoData,
    Detailed { rows: Seq<EntryView>, more: int },
    Summary {
        total_counter_value: int,
        unique_types: int,
        unique_objects: int,
        messages_in_period: int,
    },
}

/// What a report is, as a mathematical value.
pub struct ReportView {
    pub number: u64,
    pub unique_counters: int,
    pub total_messages_received: u64,
    pub body: ReportBodyView,
}

impl View for ReportBody {
    type V = ReportBodyView;

    open spec fn view(&self) -> ReportBodyView {
        match *self {
            ReportBody::NoData => ReportBodyView::NoData,
            ReportBody::Detailed { rows, more } => ReportBodyView::Detailed {
                rows: spec_entry_views(rows@),
                more: more as int,
            },
            ReportBody::Summary {
                total_counter_value,
                unique_types,
                unique_objects,
                messages_in_period,
            } => ReportBodyView::Summary {
                total_counter_value: total_counter_value as int,
                unique_types: unique_types as int,
                unique_objects: unique_objects as int,
                messages_in_period: messages_in_period as int,
            },
        }
    }
}

impl View for Report {
    type V = ReportView;

    open spec fn view(&self) -> ReportView {
        ReportView {
            number: self.number,
            unique_counters: self.unique_counters as int,
            total_messages_received: self.total_messages_received,
            body: self.body@,
        }
    }
}

/// Sum of the latest values of the first `k` counters.
pub open spec fn spec_counter_sum(entries: Seq<EntryView>, k: int) -> int
    decreases k,
{
    if k <= 0 {
        0
    } else {
        spec_counter_sum(entries, k - 1) + entries[k - 1].info.counter
    }
}

/// Sum of the messages of the period of the first `k` counters.
pub open spec fn spec_period_sum(entries: Seq<EntryView>, k: int) -> int
    decreases k,
{
    if k <= 0 {
        0
    } else {
        spec_period_sum(entries, k - 1) + entries[k - 1].messages_in_period
    }
}

/// The type ids of the counters, in table order.
pub open spec fn spec_type_ids(entries: Seq<EntryView>) -> Seq<u32> {
    entries.map_values(|e: EntryView| e.key.type_id)
}

/// The object names of the counters, in table order.
pub open spec fn spec_object_names(entries: Seq<EntryView>) -> Seq<Seq<char>> {
    entries.map_values(|e: EntryView| e.key.object_name)
}

/// How many counters a report lists: all, or as many as the limit allows.
pub open spec fn spec_shown(count: int, limit: Option<usize>) -> int {
    match limit {
        Some(max) => if max < count {
            max as int
        } else {
            count
        },
        None => count,
    }
}

/// The body of the report on a table.
pub open spec fn spec_report_body(entries: Seq<EntryView>, config: StatsReporterConfig)
    -> ReportBodyView {
    if entries.len() == 0 {
        ReportBodyView::NoData
    } else if config.detailed {
        let shown = spec_shown(entries.len() as int, config.max_stats_per_report);
        ReportBodyView::Detailed { rows: entries.subrange(0, shown), more: entries.len() - shown }
    } else {
        ReportBodyView::Summary {
            total_counter_value: spec_counter_sum(entries, entries.len() as int),
            unique_types: spec_type_ids(entries).to_set().len() as int,
            unique_objects: spec_object_names(entries).to_set().len() as int,
            messages_in_period: spec_period_sum(entries, entries.len() as int),
        }
    }
}

/// A detailed report lists the counters in the order of their keys, each
/// once, from the first on: by object name, then type id, then stat id.
pub proof fn lemma_rows_in_key_order(entries: Seq<EntryView>, config: StatsReporterConfig)
    requires
        spec_sorted(entries),
    ensures
        spec_report_body(entries, config) matches ReportBodyView::Detailed { rows, more } ==> {
            &&& spec_sorted(rows)
            &&& rows.len() + more == entries.len()
            &&& rows == entries.subrange(0, rows.len() as int)
            &&& config.max_stats_per_report matches Some(max) ==> rows.len() <= max
            &&& more > 0 ==> config.max_stats_per_report == Some(rows.len() as usize)
        },
{
    if entries.len() > 0 && config.detailed {
        let shown = spec_shown(entries.len() as int, config.max_stats_per_report);
        let rows = entries.subrange(0, shown);
        assert forall|i: int, j: int| 0 <= i < j < rows.len() implies crate::counters::spec_key_order(
            (#[trigger] rows[i]).key,
            (#[trigger] rows[j]).key,
        ) == crate::order::Order::Less by {
            assert(rows[i] == entries[i] && rows[j] == entries[j]);
        }
    }
}

/// Sum of the latest values of all counters.
fn counter_sum(entries: &Vec<CounterEntry>) -> (total: u128)
    ensures
        total == spec_counter_sum(spec_entry_views(entries@), entries.len() as int),
{
    let ghost views = spec_entry_views(entries@);
    let mut total: u128 = 0;
    let mut k: usize = 0;
    while k < entries.len()
        invariant
            k <= entries.len(),
            views == spec_entry_views(entries@),
            total == spec_counter_sum(views, k as int),
            total <= k * 0xFFFF_FFFF_FFFF_FFFF,
        decreases entries.len() - k,
    {
        total = total + entries[k].info.counter as u128;
        k += 1;
    }
    total
}

/// Sum of the messages of the period of all counters.
fn period_sum(entries: &Vec<CounterEntry>) -> (total: u128)
    ensures
        total == spec_period_sum(spec_entry_views(entries@), entries.len() as int),
{
    let ghost views = spec_entry_views(entries@);
    let mut total: u128 = 0;
    let mut k: usize = 0;
    while k < entries.len()
        invariant
            k <= entries.len(),
            views == spec_entry_views(entries@),
            total == spec_period_sum(views, k as int),
            total <= k * 0xFFFF_FFFF_FFFF_FFFF,
        decreases entries.len() - k,
    {
        total = total + entries[k].messages_in_period as u128;
        k += 1;
    }
    total
}

/// Number of different type ids among the counters.
fn unique_types(entries: &Vec<CounterEntry>) -> (n: usize)
    ensures
        n == spec_type_ids(spec_entry_views(entries@)).to_set().len(),
{
    let ghost ids = spec_type_ids(spec_entry_views(entries@));
    let mut n: usize = 0;
    let mut i: usize = 0;
    assert(ids.subrange(0, 0).to_set() =~= Set::<u32>::empty());
    while i < entries.len()
        invariant
            i <= entries.len(),
            ids == spec_type_ids(spec_entry_views(entries@)),
            n == ids.subrange(0, i as int).to_set().len(),
            n <= i,
        decreases entries.len() - i,
    {
        let id = entries[i].key.type_id;
        let mut seen = false;
        let mut j: usize = 0;
        while j < i
            invariant
                j <= i < entries.len(),
                ids == spec_type_ids(spec_entry_views(entries@)),
                id == ids[i as int],
                seen <==> exists|w: int| 0 <= w < j && ids[w] == id,
            decreases i - j,
        {
            assert(ids[j as int] == entries[j as int].key.type_id);
            if entries[j].key.type_id == id {
                seen = true;
            }
            j += 1;
        }
        proof {
            let front = ids.subrange(0, i as int);
            assert(ids.subrange(0, i + 1) =~= front.push(id));
            front.lemma_push_to_set_commute(id);
            if seen {
                let w = choose|w: int| 0 <= w < i && ids[w] == id;
                assert(front[w] == id);
                assert(front.to_set().contains(id));
            } else {
                if front.to_set().contains(id) {
                    let w = choose|w: int| 0 <= w < front.len() && front[w] == id;
                    assert(ids[w] == id);
                }
            }
        }
        if !seen {
            n += 1;
        }
        i += 1;
    }
    assert(ids.subrange(0, i as int) =~= ids);
    n
}

/// Number of different object names among the counters.
fn unique_objects(entries: &Vec<CounterEntry>) -> (n: usize)
    ensures
        n == spec_object_names(spec_entry_views(entries@)).to_set().len(),
{
    let ghost names = spec_object_names(spec_entry_views(entries@));
    let mut n: usize = 0;
    let mut i: usize = 0;
    assert(names.subrange(0, 0).to_set() =~= Set::<Seq<char>>::empty());
    while i < entries.len()
        invariant
            i <= entries.len(),
            names == spec_object_names(spec_entry_views(entries@)),
            n == names.subrange(0, i as int).to_set().len(),
            n <= i,
        decreases entries.len() - i,
    {
        let ghost name = names[i as int];
        let mut seen = false;
        let mut j: usize = 0;
        while j < i
            invariant
                j <= i < entries.len(),
                names == spec_object_names(spec_entry_views(entries@)),
                name == names[i as int],
                seen <==> exists|w: int| 0 <= w < j && names[w] == name,
            decreases i - j,
        {
            assert(names[j as int] == entries[j as int].key.object_name@);
            assert(names[i as int] == entries[i as int].key.object_name@);
            if entries[j].key.object_name == entries[i].key.object_name {
                seen = true;
            }
            j += 1;
        }
        proof {
            let front = names.subrange(0, i as int);
            assert(names.subrange(0, i + 1) =~= front.push(name));
            front.lemma_push_to_set_commute(name);
            if seen {
                let w = choose|w: int| 0 <= w < i && names[w] == name;
                assert(front[w] == name);
                assert(front.to_set().contains(name));
            } else {
                if front.to_set().contains(name) {
                    let w = choose|w: int| 0 <= w < front.len() && front[w] == name;
                    assert(names[w] == name);
                }
            }
        }
        if !seen {
            n += 1;
        }
        i += 1;
    }
    assert(names.subrange(0, i as int) =~= names);
    n
}

/// The body of the report on a table.
pub fn report_body(entries: &Vec<CounterEntry>, config: &StatsReporterConfig) -> (body: ReportBody)
    ensures
        body@ == spec_report_body(spec_entry_views(entries@), *config),
{
    let ghost views = spec_entry_views(entries@);
    if entries.len() == 0 {
        ReportBody::NoData
    } else if config.detailed {
        let shown: usize = match config.max_stats_per_report {
            Some(max) => if max < entries.len() {
                max
            } else {
                entries.len()
            },
            None => entries.len(),
        };
        let mut rows: Vec<CounterEntry> = Vec::new();
        let mut i: usize = 0;
        while i < shown
            invariant
                i <= shown <= entries.len(),
                views == spec_entry_views(entries@),
                rows.len() == i,
                spec_entry_views(rows@) == views.subrange(0, i as int),
            decreases shown - i,
        {
            rows.push(entries[i].clone());
            i += 1;
            assert(spec_entry_views(rows@) =~= views.subrange(0, i as int));
        }
        ReportBody::Detailed { rows, more: entries.len() - shown }
    } else {
        ReportBody::Summary {
            total_counter_value: counter_sum(entries),
            unique_types: unique_types(entries),
            unique_objects: unique_objects(entries),
            messages_in_period: period_sum(entries),
        }
    }
}

/// What the reporter holds, as a mathematical value.
pub struct ReporterView {
    /// The table, in the order of the keys.
    pub counters: Seq<EntryView>,
    /// Batches taken in; stops at `u64::MAX`.
    pub total_messages_received: u64,
    /// Reports given; stops at `u64::MAX`.
    pub reports_generated: u64,
}

/// The report on what the reporter holds.
pub open spec fn spec_report(state: ReporterView, config: StatsReporterConfig) -> ReportView {
    ReportView {
        number: spec_bump(state.reports_generated),
        unique_counters: state.counters.len() as int,
        total_messages_received: state.total_messages_received,
        body: spec_report_body(state.counters, config),
    }
}

/// What the reporter holds after it gave a report: the period starts anew
/// and one more report is counted.
pub open spec fn spec_after_report(state: ReporterView) -> ReporterView {
    ReporterView {
        counters: spec_reset_period(state.counters),
        total_messages_received: state.total_messages_received,
        reports_generated: spec_bump(state.reports_generated),
    }
}

/// What the reporter holds after it took a batch in.
pub open spec fn spec_after_batch(state: ReporterView, batch: BatchView) -> ReporterView {
    ReporterView {
        counters: spec_record_samples(
            state.counters,
            batch.samples,
            batch.observation_time_ns,
            batch.samples.len() as int,
        ),
        total_messages_received: spec_bump(state.total_messages_received),
        reports_generated: state.reports_generated,
    }
}

/// What the owner of the reporter is to do next.
#[derive(Debug, PartialEq, Eq)]
pub enum ReporterAction {
    /// Wait for the next batch or tick.
    Continue,
    /// Write the report and go on.
    Write(Report),
    /// Write the report and leave the loop.
    WriteAndStop(Report),
}

/// What an action of the reporter is, as a mathematical value.
pub enum ReporterActionView {
    Continue,
    Write(ReportView),
    WriteAndStop(ReportView),
}

impl View for ReporterAction {
    type V = ReporterActionView;

    open spec fn view(&self) -> ReporterActionView {
        match *self {
            ReporterAction::Continue => ReporterActionView::Continue,
            ReporterAction::Write(report) => ReporterActionView::Write(report@),
            ReporterAction::WriteAndStop(report) => ReporterActionView::WriteAndStop(report@),
        }
    }
}

/// The state of the console reporter.
pub struct StatsReporter {
    config: StatsReporterConfig,
    counters: Vec<CounterEntry>,
    total_messages_received: u64,
    reports_generated: u64,
}

impl View for StatsReporter {
    type V = ReporterView;

    closed spec fn view(&self) -> ReporterView {
        ReporterView {
            counters: spec_entry_views(self.counters@),
            total_messages_received: self.total_messages_received,
            reports_generated: self.reports_generated,
        }
    }
}

impl StatsReporter {
    /// The configuration that the reporter was made with.
    pub closed spec fn spec_config(&self) -> StatsReporterConfig {
        self.config
    }

    /// Well-formedness: the table stands in the order of its keys, each key
    /// once. Every reporter that `new` made and the methods below changed is
    /// well-formed.
    pub open spec fn wf(&self) -> bool {
        spec_sorted(self@.counters)
    }

    /// A reporter that has seen nothing.
    pub fn new(config: StatsReporterConfig) -> (reporter: Self)
        ensures
            reporter.wf(),
            reporter.spec_config() == config,
            reporter@ == (ReporterView {
                counters: Seq::<EntryView>::empty(),
                total_messages_received: 0,
                reports_generated: 0,
            }),
    {
        let reporter = StatsReporter {
            config,
            counters: Vec::new(),
            total_messages_received: 0,
            reports_generated: 0,
        };
        assert(reporter@.counters =~= Seq::<EntryView>::empty());
        reporter
    }

    /// The configuration.
    pub fn config(&self) -> (config: StatsReporterConfig)
        ensures
            config == self.spec_config(),
    {
        self.config
    }

    /// The table, in the order of the keys.
    pub fn counters(&self) -> (counters: &Vec<CounterEntry>)
        ensures
            spec_entry_views(counters@) == self@.counters,
    {
        &self.counters
    }

    /// Batches taken in so far.
    pub fn total_messages_received(&self) -> (n: u64)
        ensures
            n == self@.total_messages_received,
    {
        self.total_messages_received
    }

    /// Reports given so far.
    pub fn reports_generated(&self) -> (n: u64)
        ensures
            n == self@.reports_generated,
    {
        self.reports_generated
    }

    /// Takes a batch in: each sample in turn becomes the latest value of its
    /// counter, observed at the batch's time, and counts as one message of
    /// the period. A counter that occurs twice in the batch keeps the later
    /// value and counts two messages.
    pub fn update_stats(&mut self, batch: &SAIStats)
        requires
            old(self).wf(),
        ensures
            final(self).wf(),
            final(self).spec_config() == old(self).spec_config(),
            final(self)@ == spec_after_batch(old(self)@, batch@),
    {
        self.total_messages_received = bump(self.total_messages_received);
        let ghost before = spec_entry_views(self.counters@);
        let ghost samples = spec_sample_views(batch.samples@);
        let mut k: usize = 0;
        while k < batch.samples.len()
            invariant
                k <= batch.samples.len(),
                samples == spec_sample_views(batch.samples@),
                spec_entry_views(self.counters@) == spec_record_samples(
                    before,
                    samples,
                    batch.observation_time_ns,
                    k as int,
                ),
                self.config == old(self).config,
                self.total_messages_received == spec_bump(old(self).total_messages_received),
                self.reports_generated == old(self).reports_generated,
            decreases batch.samples.len() - k,
        {
            record_sample(&mut self.counters, &batch.samples[k], batch.observation_time_ns);
            k += 1;
        }
        proof {
            lemma_records_keep_sorted(
                before,
                samples,
                batch.observation_time_ns,
                samples.len() as int,
            );
        }
    }

    /// Gives the report that is due and starts a new period: the report
    /// tells of the table as it stands, and after it no counter has a
    /// message of the period left.
    pub fn generate_report(&mut self) -> (report: Report)
        requires
            old(self).wf(),
        ensures
            final(self).wf(),
            final(self).spec_config() == old(self).spec_config(),
            report@ == spec_report(old(self)@, old(self).spec_config()),
            final(self)@ == spec_after_report(old(self)@),
            forall|i: int|
                0 <= i < final(self)@.counters.len() ==> (
                #[trigger] final(self)@.counters[i]).messages_in_period == 0,
    {
        self.reports_generated = bump(self.reports_generated);
        let report = Report {
            number: self.reports_generated,
            unique_counters: self.counters.len(),
            total_messages_received: self.total_messages_received,
            body: report_body(&self.counters, &self.config),
        };
        let ghost before = spec_entry_views(self.counters@);
        let mut i: usize = 0;
        while i < self.counters.len()
            invariant
                i <= self.counters.len(),
                self.counters.len() == before.len(),
                self.config == old(self).config,
                self.total_messages_received == old(self).total_messages_received,
                self.reports_generated == spec_bump(old(self).reports_generated),
                forall|w: int|
                    0 <= w < i ==> (#[trigger] spec_entry_views(self.counters@)[w])
                        == spec_reset_period(before)[w],
                forall|w: int|
                    i <= w < before.len() ==> (#[trigger] spec_entry_views(self.counters@)[w])
                        == before[w],
            decreases self.counters.len() - i,
        {
            let entry = CounterEntry {
                key: self.counters[i].key.clone(),
                info: self.counters[i].info,
                messages_in_period: 0,
            };
            let ghost views = spec_entry_views(self.counters@);
            assert(views[i as int] == before[i as int]);
            assert(entry@ == spec_reset_period(before)[i as int]);
            self.counters[i] = entry;
            assert(spec_entry_views(self.counters@) =~= views.update(i as int, entry@));
            assert forall|w: int| 0 <= w < i + 1 implies (#[trigger] spec_entry_views(
                self.counters@,
            )[w]) == spec_reset_period(before)[w] by {
                if w < i {
                    assert(views[w] == spec_reset_period(before)[w]);
                }
            }
            assert forall|w: int| i + 1 <= w < before.len() implies (#[trigger] spec_entry_views(
                self.counters@,
            )[w]) == before[w] by {
                assert(views[w] == before[w]);
            }
            i += 1;
        }
        proof {
            assert(spec_entry_views(self.counters@) =~= spec_reset_period(before));
            lemma_reset_period(before);
        }
        report
    }

    /// Takes a batch from the queue in, as `update_stats` does; nothing is
    /// to be written.
    pub fn on_batch(&mut self, batch: &SAIStats) -> (action: ReporterAction)
        requires
            old(self).wf(),
        ensures
            final(self).wf(),
            final(self).spec_config() == old(self).spec_config(),
            final(self)@ == spec_after_batch(old(self)@, batch@),
            action@ == ReporterActionView::Continue,
    {
        self.update_stats(batch);
        ReporterAction::Continue
    }

    /// Takes a tick of the timer in: the report that is due is to be
    /// written, and a new period starts.
    pub fn on_tick(&mut self) -> (action: ReporterAction)
        requires
            old(self).wf(),
        ensures
            final(self).wf(),
            final(self).spec_config() == old(self).spec_config(),
            final(self)@ == spec_after_report(old(self)@),
            action@ == ReporterActionView::Write(
                spec_report(old(self)@, old(self).spec_config()),
            ),
    {
        ReporterAction::Write(self.generate_report())
    }

    /// Takes in that the queue of batches has closed: a last report of what
    /// is held is to be written, and then the owner is to stop.
    pub fn on_queue_closed(&mut self) -> (action: ReporterAction)
        requires
            old(self).wf(),
        ensures
            final(self).wf(),
            final(self).spec_config() == old(self).spec_config(),
            final(self)@ == spec_after_report(old(self)@),
            action@ == ReporterActionView::WriteAndStop(
                spec_report(old(self)@, old(self).spec_config()),
            ),
    {
        ReporterAction::WriteAndStop(self.generate_report())
    }
}

} // verus!
