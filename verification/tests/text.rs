use countersyncd::counters::{CounterEntry, CounterInfo, CounterKey};
use countersyncd::counts::{add_counts, bump};
use countersyncd::report_text::{detail_line, pad_left, pad_right};

#[test]
fn texts_are_padded_to_their_width() {
    assert_eq!(pad_left("7", 3), "  7");
    assert_eq!(pad_left("123", 3), "123");
    assert_eq!(pad_left("1234", 3), "1234");
    assert_eq!(pad_left("", 2), "  ");
    assert_eq!(pad_left("x", 0), "x");
    assert_eq!(pad_right("Ethernet0", 15), "Ethernet0      ");
    assert_eq!(pad_right("abc", 3), "abc");
    assert_eq!(pad_right("abcd", 3), "abcd");
    assert_eq!(pad_right("", 0), "");
    assert_eq!(pad_right("é", 3), "é  ");
    assert_eq!(pad_left("é", 3), format!("{:>3}", "é"));
    for width in 0usize..20 {
        assert_eq!(pad_left("12345", width), format!("{:width$}", 12345, width = width));
        assert_eq!(
            pad_right("Queue", width),
            format!("{:width$}", "Queue", width = width)
        );
    }
}

#[test]
fn a_detail_line_is_laid_out_in_columns() {
    let entry = CounterEntry {
        key: CounterKey::new("Ethernet12".to_string(), 1, 34),
        info: CounterInfo {
            counter: 5678,
            last_observation_time: 99,
        },
        messages_in_period: 3,
    };
    assert_eq!(
        detail_line(12, &entry, "   0.3"),
        format!(
            "      [{:3}] Object: {:15}, Type: {:10}, Stat: {:10}, Counter: {:15}, Msg/s: {:6.1}, LastTime: {}",
            12, "Ethernet12", 1, 34, 5678, 0.3, 99
        )
    );
    assert_eq!(
        detail_line(1000, &entry, "x"),
        "      [1000] Object: Ethernet12     , Type:          1, Stat:         34, Counter:            5678, Msg/s: x, LastTime: 99"
    );
}

#[test]
fn counts_stop_at_the_top() {
    assert_eq!(bump(0), 1);
    assert_eq!(bump(41), 42);
    assert_eq!(bump(u64::MAX - 1), u64::MAX);
    assert_eq!(bump(u64::MAX), u64::MAX);
    assert_eq!(add_counts(2, 3), 5);
    assert_eq!(add_counts(0, 0), 0);
    assert_eq!(add_counts(u64::MAX, 0), u64::MAX);
    assert_eq!(add_counts(u64::MAX - 5, 5), u64::MAX);
    assert_eq!(add_counts(u64::MAX - 5, 6), u64::MAX);
    assert_eq!(add_counts(u64::MAX, u64::MAX), u64::MAX);
}
