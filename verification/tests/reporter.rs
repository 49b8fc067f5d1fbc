use countersyncd::counters::{
    key_order, rank, record_sample, CounterEntry, CounterInfo, CounterKey,
};
use countersyncd::order::{bytes_order, name_order, Order};
use countersyncd::sai::{SAIStat, SAIStats};
use countersyncd::stats_reporter::{
    report_body, report_limit, OutputWriter, Report, ReportBody, ReporterAction, StatsReporter,
    StatsReporterConfig, TestWriter,
};

fn write_lines<W: OutputWriter>(writer: &mut W, lines: &Vec<String>) {
    for line in lines {
        writer.write_line(line);
    }
}

fn create_test_stats(observation_time: u64, stat_count: usize) -> SAIStats {
    let samples = (0..stat_count)
        .map(|i| SAIStat {
            object_name: format!("Ethernet{}", i),
            type_id: (i * 100) as u32,
            stat_id: (i * 10) as u32,
            counter: (i * 1000) as u64,
        })
        .collect();
    SAIStats {
        observation_time_ns: observation_time,
        samples,
    }
}

fn rates(report: &Report, interval_ms: u64, detailed: bool) -> Vec<String> {
    let seconds = interval_ms as f64 / 1000.0;
    report
        .rate_inputs()
        .iter()
        .map(|count| {
            let rate = *count as f64 / seconds;
            if detailed {
                format!("{:6.1}", rate)
            } else {
                format!("{:.1}", rate)
            }
        })
        .collect()
}

fn report_to(reporter: &mut StatsReporter, writer: &mut TestWriter) {
    let config = reporter.config();
    let report = reporter.generate_report();
    let rates = rates(&report, config.interval_ms, config.detailed);
    write_lines(writer, &report.lines(&rates));
}

fn entry(name: &str, type_id: u32, stat_id: u32, counter: u64, time: u64, n: u64) -> CounterEntry {
    CounterEntry {
        key: CounterKey::new(name.to_string(), type_id, stat_id),
        info: CounterInfo {
            counter,
            last_observation_time: time,
        },
        messages_in_period: n,
    }
}

#[test]
fn stats_reporter_test_stats_reporter_basic_functionality() {
    let mut writer = TestWriter::new();
    let config = StatsReporterConfig {
        interval_ms: 200,
        detailed: true,
        max_stats_per_report: Some(3),
    };
    let mut reporter = StatsReporter::new(config);
    reporter.update_stats(&create_test_stats(12345, 5));
    report_to(&mut reporter, &mut writer);
    reporter.update_stats(&create_test_stats(67890, 2));
    report_to(&mut reporter, &mut writer);
    assert_eq!(reporter.reports_generated(), 2);
    assert_eq!(reporter.total_messages_received(), 2);
}

#[test]
fn stats_reporter_test_stats_reporter_with_shared_writer() {
    let mut writer = TestWriter::new();
    let config = StatsReporterConfig {
        interval_ms: 200,
        detailed: true,
        max_stats_per_report: Some(3),
    };
    let mut reporter = StatsReporter::new(config);
    reporter.update_stats(&create_test_stats(12345, 5));
    report_to(&mut reporter, &mut writer);
    reporter.update_stats(&create_test_stats(67890, 2));
    report_to(&mut reporter, &mut writer);

    let output = writer.get_output();

    assert!(!output.is_empty(), "Should have captured some output");

    let has_report_header = output
        .iter()
        .any(|line| line.contains("SAI Counters Report"));
    assert!(has_report_header, "Should contain counters report header");

    let has_counter_count = output
        .iter()
        .any(|line| line.contains("Total Unique Counters: 5"));
    assert!(
        has_counter_count,
        "Should show correct unique counters count"
    );

    let has_detailed = output
        .iter()
        .any(|line| line.contains("Detailed Counters:"));
    assert!(has_detailed, "Should show detailed counters");

    let has_counter_entry = output.iter().any(|line| {
        line.contains("Object:") && line.contains("Type:") && line.contains("Msg/s:")
    });
    assert!(
        has_counter_entry,
        "Should show individual counter entries with message counts"
    );
}

#[test]
fn stats_reporter_test_stats_reporter_summary_mode() {
    let mut writer = TestWriter::new();
    let config = StatsReporterConfig {
        interval_ms: 100,
        detailed: false,
        max_stats_per_report: None,
    };
    let mut reporter = StatsReporter::new(config);
    reporter.update_stats(&create_test_stats(99999, 3));
    report_to(&mut reporter, &mut writer);
    report_to(&mut reporter, &mut writer);

    let output = writer.get_output();

    assert!(!output.is_empty(), "Should have captured some output");

    let has_summary_header = output.iter().any(|line| line.contains("📊 Summary:"));
    assert!(has_summary_header, "Should contain summary header");

    let has_total_counter = output
        .iter()
        .any(|line| line.contains("Total Counter Value: 3000"));
    assert!(has_total_counter, "Should show correct total counter value");

    let has_unique_types = output.iter().any(|line| line.contains("Unique Types: 3"));
    assert!(has_unique_types, "Should show correct unique types count");

    let has_unique_labels = output.iter().any(|line| line.contains("Unique Objects: 3"));
    assert!(has_unique_labels, "Should show correct unique objects count");

    let has_detailed = output
        .iter()
        .any(|line| line.contains("Detailed Counters:"));
    assert!(
        !has_detailed,
        "Should NOT show detailed counters in summary mode"
    );

    let has_messages_per_second = output
        .iter()
        .any(|line| line.contains("Messages per Second:"));
    assert!(
        has_messages_per_second,
        "Should show messages per second in summary mode"
    );
}

#[test]
fn stats_reporter_test_stats_reporter_no_data() {
    let mut writer = TestWriter::new();
    let config = StatsReporterConfig {
        interval_ms: 50,
        detailed: true,
        max_stats_per_report: None,
    };
    let mut reporter = StatsReporter::new(config);
    report_to(&mut reporter, &mut writer);
    report_to(&mut reporter, &mut writer);

    let output = writer.get_output();

    assert!(!output.is_empty(), "Should have captured some output");

    let has_no_data_msg = output
        .iter()
        .any(|line| line.contains("No statistics data available yet"));
    assert!(has_no_data_msg, "Should show 'no data available' message");

    let has_zero_messages = output
        .iter()
        .any(|line| line.contains("Total Messages Received: 0"));
    assert!(has_zero_messages, "Should show 0 total messages received");
}

#[test]
fn stats_reporter_test_stats_reporter_max_stats_limit() {
    let mut writer = TestWriter::new();
    let config = StatsReporterConfig {
        interval_ms: 500,
        detailed: true,
        max_stats_per_report: Some(2),
    };
    let mut reporter = StatsReporter::new(config);
    reporter.update_stats(&create_test_stats(55555, 5));
    report_to(&mut reporter, &mut writer);

    let output = writer.get_output();

    let mut in_detailed_section = false;
    let mut counter_entries = Vec::new();

    for line in output {
        if line.contains("📈 Detailed Counters:") {
            in_detailed_section = true;
            continue;
        }

        if in_detailed_section {
            if line.contains("] Object:") && line.contains("Type:") {
                counter_entries.push(line);
            } else if line.contains("📊") || line.trim().is_empty() {
                break;
            }
        }
    }

    assert_eq!(
        counter_entries.len(),
        2,
        "Should show exactly 2 counter entries due to limit"
    );

    let has_more_msg = output
        .iter()
        .any(|line| line.contains("and 3 more counters"));
    assert!(has_more_msg, "Should show 'more counters' message");

    let has_total_count = output
        .iter()
        .any(|line| line.contains("Total Unique Counters: 5"));
    assert!(
        has_total_count,
        "Should show correct total unique counters count"
    );
}

#[test]
fn the_lines_of_a_detailed_report() {
    let mut writer = TestWriter::new();
    let config = StatsReporterConfig {
        interval_ms: 10_000,
        detailed: true,
        max_stats_per_report: Some(2),
    };
    let mut reporter = StatsReporter::new(config);
    reporter.update_stats(&SAIStats {
        observation_time_ns: 1_700_000_000_000_000_000,
        samples: vec![
            SAIStat {
                object_name: "Ethernet4".to_string(),
                type_id: 1,
                stat_id: 2,
                counter: 1000,
            },
            SAIStat {
                object_name: "Ethernet0".to_string(),
                type_id: 24,
                stat_id: 65535,
                counter: 18_446_744_073_709_551_615,
            },
            SAIStat {
                object_name: "Queue_Ethernet0_5_with_a_long_name".to_string(),
                type_id: 5,
                stat_id: 0,
                counter: 0,
            },
        ],
    });
    for _ in 0..4 {
        reporter.update_stats(&SAIStats {
            observation_time_ns: 1_700_000_000_000_000_001,
            samples: vec![SAIStat {
                object_name: "Ethernet4".to_string(),
                type_id: 1,
                stat_id: 2,
                counter: 1001,
            }],
        });
    }
    report_to(&mut reporter, &mut writer);
    let expected = vec![
        "📊 [Report #1] SAI Counters Report".to_string(),
        "   Total Unique Counters: 3".to_string(),
        "   Total Messages Received: 5".to_string(),
        "   📈 Detailed Counters:".to_string(),
        format!(
            "      [{:3}] Object: {:15}, Type: {:10}, Stat: {:10}, Counter: {:15}, Msg/s: {:6.1}, LastTime: {}",
            1, "Ethernet0", 24, 65535, 18_446_744_073_709_551_615u64, 0.1, 1_700_000_000_000_000_000u64
        ),
        format!(
            "      [{:3}] Object: {:15}, Type: {:10}, Stat: {:10}, Counter: {:15}, Msg/s: {:6.1}, LastTime: {}",
            2, "Ethernet4", 1, 2, 1001, 0.5, 1_700_000_000_000_000_001u64
        ),
        "      ... and 1 more counters (use max_stats_per_report: None to show all)".to_string(),
        "".to_string(),
    ];
    assert_eq!(writer.get_output(), expected.as_slice());
    assert_eq!(
        writer.lines[4],
        "      [  1] Object: Ethernet0      , Type:         24, Stat:      65535, Counter: 18446744073709551615, Msg/s:    0.1, LastTime: 1700000000000000000"
    );
}

#[test]
fn the_lines_of_a_summary() {
    let mut writer = TestWriter::new();
    let config = StatsReporterConfig {
        interval_ms: 2_000,
        detailed: false,
        max_stats_per_report: Some(1),
    };
    let mut reporter = StatsReporter::new(config);
    reporter.update_stats(&SAIStats {
        observation_time_ns: 5,
        samples: vec![
            SAIStat {
                object_name: "a".to_string(),
                type_id: 1,
                stat_id: 1,
                counter: u64::MAX,
            },
            SAIStat {
                object_name: "a".to_string(),
                type_id: 1,
                stat_id: 2,
                counter: u64::MAX,
            },
            SAIStat {
                object_name: "b".to_string(),
                type_id: 2,
                stat_id: 1,
                counter: 2,
            },
            SAIStat {
                object_name: "c".to_string(),
                type_id: 1,
                stat_id: 1,
                counter: 0,
            },
            SAIStat {
                object_name: "c".to_string(),
                type_id: 1,
                stat_id: 1,
                counter: 7,
            },
        ],
    });
    report_to(&mut reporter, &mut writer);
    report_to(&mut reporter, &mut writer);
    let expected = vec![
        "📊 [Report #1] SAI Counters Report",
        "   Total Unique Counters: 4",
        "   Total Messages Received: 1",
        "   📊 Summary:",
        "      Total Counter Value: 36893488147419103239",
        "      Unique Types: 2",
        "      Unique Objects: 3",
        "      Messages per Second: 2.5",
        "",
        "📊 [Report #2] SAI Counters Report",
        "   Total Unique Counters: 4",
        "   Total Messages Received: 1",
        "   📊 Summary:",
        "      Total Counter Value: 36893488147419103239",
        "      Unique Types: 2",
        "      Unique Objects: 3",
        "      Messages per Second: 0.0",
        "",
    ];
    assert_eq!(writer.lines, expected);
}

#[test]
fn the_lines_of_a_report_without_data() {
    let mut writer = TestWriter::new();
    let mut reporter = StatsReporter::new(StatsReporterConfig::default());
    report_to(&mut reporter, &mut writer);
    assert_eq!(
        writer.lines,
        vec![
            "📊 [Report #1] No statistics data available yet",
            "   Total Messages Received: 0",
            "",
        ]
    );
}

#[test]
fn a_rate_that_is_not_handed_in_is_left_empty() {
    let mut reporter = StatsReporter::new(StatsReporterConfig::default());
    reporter.update_stats(&create_test_stats(1, 1));
    let report = reporter.generate_report();
    assert_eq!(report.rate_inputs(), vec![1]);
    let lines = report.lines(&vec![]);
    assert_eq!(
        lines[4],
        "      [  1] Object: Ethernet0      , Type:          0, Stat:          0, Counter:               0, Msg/s: , LastTime: 1"
    );
}

#[test]
fn period_counts_are_zero_after_a_report() {
    let mut reporter = StatsReporter::new(StatsReporterConfig::default());
    reporter.update_stats(&create_test_stats(1, 4));
    reporter.update_stats(&create_test_stats(2, 2));
    assert_eq!(
        reporter
            .counters()
            .iter()
            .map(|e| e.messages_in_period)
            .collect::<Vec<u64>>(),
        vec![2, 2, 1, 1]
    );
    let before: Vec<(CounterKey, CounterInfo)> = reporter
        .counters()
        .iter()
        .map(|e| (e.key.clone(), e.info))
        .collect();
    let report = reporter.generate_report();
    assert_eq!(report.rate_inputs(), vec![2, 2, 1, 1]);
    assert!(reporter
        .counters()
        .iter()
        .all(|e| e.messages_in_period == 0));
    let after: Vec<(CounterKey, CounterInfo)> = reporter
        .counters()
        .iter()
        .map(|e| (e.key.clone(), e.info))
        .collect();
    assert_eq!(before, after);
    let report = reporter.generate_report();
    assert_eq!(report.number, 2);
    assert_eq!(report.rate_inputs(), vec![0, 0, 0, 0]);
    reporter.update_stats(&create_test_stats(3, 1));
    assert_eq!(
        reporter
            .counters()
            .iter()
            .map(|e| e.messages_in_period)
            .collect::<Vec<u64>>(),
        vec![1, 0, 0, 0]
    );
}

#[test]
fn the_latest_value_of_a_counter_is_kept() {
    let mut reporter = StatsReporter::new(StatsReporterConfig::default());
    reporter.update_stats(&create_test_stats(12345, 5));
    reporter.update_stats(&SAIStats {
        observation_time_ns: 67890,
        samples: vec![SAIStat {
            object_name: "Ethernet1".to_string(),
            type_id: 100,
            stat_id: 10,
            counter: 42,
        }],
    });
    assert_eq!(reporter.counters().len(), 5);
    assert_eq!(
        reporter.counters()[1],
        entry("Ethernet1", 100, 10, 42, 67890, 2)
    );
    assert_eq!(
        reporter.counters()[0],
        entry("Ethernet0", 0, 0, 0, 12345, 1)
    );
    assert_eq!(reporter.total_messages_received(), 2);
    assert_eq!(reporter.reports_generated(), 0);
}

#[test]
fn counters_are_listed_by_name_then_type_then_stat() {
    let mut reporter = StatsReporter::new(StatsReporterConfig::default());
    let keys = [
        ("b", 1, 1),
        ("a", 2, 2),
        ("a", 2, 1),
        ("ab", 0, 0),
        ("a", 1, 9),
        ("B", 7, 7),
        ("", 5, 5),
        ("é", 0, 0),
        ("z", 0, 0),
        ("a", 10, 0),
    ];
    reporter.update_stats(&SAIStats {
        observation_time_ns: 1,
        samples: keys
            .iter()
            .map(|(name, type_id, stat_id)| SAIStat {
                object_name: name.to_string(),
                type_id: *type_id,
                stat_id: *stat_id,
                counter: 0,
            })
            .collect(),
    });
    let listed: Vec<(String, u32, u32)> = reporter
        .counters()
        .iter()
        .map(|e| (e.key.object_name.clone(), e.key.type_id, e.key.stat_id))
        .collect();
    let mut sorted: Vec<(String, u32, u32)> = keys
        .iter()
        .map(|(n, t, s)| (n.to_string(), *t, *s))
        .collect();
    sorted.sort_by(|a, b| {
        a.0.cmp(&b.0)
            .then_with(|| a.1.cmp(&b.1))
            .then_with(|| a.2.cmp(&b.2))
    });
    assert_eq!(listed, sorted);
}

#[test]
fn names_are_ordered_as_their_bytes_are() {
    assert_eq!(name_order("a", "b"), Order::Less);
    assert_eq!(name_order("b", "a"), Order::Greater);
    assert_eq!(name_order("a", "a"), Order::Equal);
    assert_eq!(name_order("", ""), Order::Equal);
    assert_eq!(name_order("", "a"), Order::Less);
    assert_eq!(name_order("ab", "a"), Order::Greater);
    assert_eq!(name_order("Ethernet10", "Ethernet2"), Order::Less);
    assert_eq!(name_order("Z", "a"), Order::Less);
    assert_eq!(name_order("z", "é"), Order::Less);
    assert_eq!(bytes_order(&[1, 2, 3], &[1, 2, 4]), Order::Less);
    assert_eq!(bytes_order(&[0xFF], &[0x00, 0x01]), Order::Greater);
    let a = CounterKey::new("x".to_string(), 1, 2);
    let b = CounterKey::new("x".to_string(), 1, 3);
    let c = CounterKey::new("x".to_string(), 2, 0);
    assert_eq!(key_order(&a, &b), Order::Less);
    assert_eq!(key_order(&b, &c), Order::Less);
    assert_eq!(key_order(&c, &a), Order::Greater);
    assert_eq!(key_order(&b, &b.clone()), Order::Equal);
}

#[test]
fn rank_says_where_a_key_stands() {
    let mut table: Vec<CounterEntry> = Vec::new();
    for name in ["d", "b", "f"] {
        record_sample(
            &mut table,
            &SAIStat {
                object_name: name.to_string(),
                type_id: 1,
                stat_id: 1,
                counter: 1,
            },
            9,
        );
    }
    assert_eq!(rank(&table, &CounterKey::new("a".to_string(), 1, 1)), (0, false));
    assert_eq!(rank(&table, &CounterKey::new("b".to_string(), 1, 1)), (0, true));
    assert_eq!(rank(&table, &CounterKey::new("b".to_string(), 1, 2)), (1, false));
    assert_eq!(rank(&table, &CounterKey::new("d".to_string(), 1, 1)), (1, true));
    assert_eq!(rank(&table, &CounterKey::new("f".to_string(), 1, 1)), (2, true));
    assert_eq!(rank(&table, &CounterKey::new("g".to_string(), 0, 0)), (3, false));
    assert_eq!(table[1], entry("d", 1, 1, 1, 9, 1));
    assert_eq!(table[1].clone(), table[1]);
}

#[test]
fn the_body_of_a_report_follows_the_configuration() {
    let table = vec![
        entry("a", 1, 1, 10, 1, 3),
        entry("b", 1, 1, 20, 1, 0),
        entry("c", 2, 1, 30, 1, 4),
    ];
    let detailed = |max| StatsReporterConfig {
        interval_ms: 1000,
        detailed: true,
        max_stats_per_report: max,
    };
    assert_eq!(
        report_body(&table, &detailed(None)),
        ReportBody::Detailed {
            rows: table.clone(),
            more: 0
        }
    );
    assert_eq!(
        report_body(&table, &detailed(Some(3))),
        ReportBody::Detailed {
            rows: table.clone(),
            more: 0
        }
    );
    assert_eq!(
        report_body(&table, &detailed(Some(7))),
        ReportBody::Detailed {
            rows: table.clone(),
            more: 0
        }
    );
    assert_eq!(
        report_body(&table, &detailed(Some(1))),
        ReportBody::Detailed {
            rows: table[..1].to_vec(),
            more: 2
        }
    );
    assert_eq!(
        report_body(&table, &detailed(Some(0))),
        ReportBody::Detailed {
            rows: vec![],
            more: 3
        }
    );
    assert_eq!(
        report_body(
            &table,
            &StatsReporterConfig {
                interval_ms: 1000,
                detailed: false,
                max_stats_per_report: Some(1),
            }
        ),
        ReportBody::Summary {
            total_counter_value: 60,
            unique_types: 2,
            unique_objects: 3,
            messages_in_period: 7,
        }
    );
    assert_eq!(report_body(&vec![], &detailed(None)), ReportBody::NoData);
}

#[test]
fn the_default_is_a_detailed_report_every_ten_seconds() {
    let config = StatsReporterConfig::default();
    assert_eq!(config.interval_ms, 10_000);
    assert!(config.detailed);
    assert_eq!(config.max_stats_per_report, None);
    let reporter = StatsReporter::new(config);
    assert_eq!(reporter.config(), config);
}

#[test]
fn a_limit_of_zero_is_no_limit() {
    assert_eq!(report_limit(0), None);
    assert_eq!(report_limit(1), Some(1));
    assert_eq!(report_limit(20), Some(20));
    assert_eq!(report_limit(u32::MAX), Some(u32::MAX as usize));
}

#[test]
fn the_test_writer_keeps_its_lines() {
    let mut writer = TestWriter::new();
    assert!(writer.get_output().is_empty());
    writer.write_line("first");
    writer.write_line("");
    writer.write_line("third");
    assert_eq!(writer.get_output(), ["first", "", "third"]);
    write_lines(&mut writer, &vec!["4".to_string(), "5".to_string()]);
    assert_eq!(writer.lines, vec!["first", "", "third", "4", "5"]);
}

struct CountingWriter {
    lines: usize,
    characters: usize,
}

impl OutputWriter for CountingWriter {
    fn write_line(&mut self, line: &str) {
        self.lines += 1;
        self.characters += line.chars().count();
    }
}

#[test]
fn any_writer_gets_every_line_once() {
    let mut writer = CountingWriter {
        lines: 0,
        characters: 0,
    };
    write_lines(
        &mut writer,
        &vec!["ab".to_string(), "".to_string(), "cdé".to_string()],
    );
    assert_eq!(writer.lines, 3);
    assert_eq!(writer.characters, 5);
}

#[test]
fn a_closed_queue_asks_for_a_last_report() {
    let config = StatsReporterConfig {
        interval_ms: 1000,
        detailed: true,
        max_stats_per_report: None,
    };
    let mut reporter = StatsReporter::new(config);
    assert_eq!(
        reporter.on_batch(&create_test_stats(7, 2)),
        ReporterAction::Continue
    );
    assert_eq!(reporter.total_messages_received(), 1);
    let rows = vec![
        entry("Ethernet0", 0, 0, 0, 7, 1),
        entry("Ethernet1", 100, 10, 1000, 7, 1),
    ];
    assert_eq!(
        reporter.on_tick(),
        ReporterAction::Write(Report {
            number: 1,
            unique_counters: 2,
            total_messages_received: 1,
            body: ReportBody::Detailed {
                rows: rows.clone(),
                more: 0
            },
        })
    );
    assert_eq!(
        reporter.on_batch(&create_test_stats(8, 1)),
        ReporterAction::Continue
    );
    assert_eq!(
        reporter.on_queue_closed(),
        ReporterAction::WriteAndStop(Report {
            number: 2,
            unique_counters: 2,
            total_messages_received: 2,
            body: ReportBody::Detailed {
                rows: vec![
                    entry("Ethernet0", 0, 0, 0, 8, 1),
                    entry("Ethernet1", 100, 10, 1000, 7, 0),
                ],
                more: 0
            },
        })
    );
    assert_eq!(reporter.reports_generated(), 2);
    assert!(reporter
        .counters()
        .iter()
        .all(|e| e.messages_in_period == 0));
}

#[test]
fn a_queue_that_closes_at_once_gets_a_report_without_data() {
    let mut reporter = StatsReporter::new(StatsReporterConfig::default());
    assert_eq!(
        reporter.on_queue_closed(),
        ReporterAction::WriteAndStop(Report {
            number: 1,
            unique_counters: 0,
            total_messages_received: 0,
            body: ReportBody::NoData,
        })
    );
}
