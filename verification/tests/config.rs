use countersyncd::config::{
    family_group_from_contents, family_group_or_defaults, get_genl_family_group,
    log_format_or_default, log_level_or_default, parse_log_format, parse_log_level,
    same_ignoring_case, ConfigError, LogFormat, LogLevel, OtelActorConfig,
};
use countersyncd::nesting::{within_nesting_limit, MAX_NESTING};

const CONSTANTS: &str = "constants:\n  high_frequency_telemetry:\n    genl_family: \"sonic_stel\"\n    genl_multicast_group: \"ipfix\"\n";

#[test]
fn test_family_group_parse() {
    let (family, group) = get_genl_family_group(Some(CONSTANTS)).unwrap();
    assert_eq!(family, "sonic_stel");
    assert_eq!(group, "ipfix");
}

#[test]
fn test_family_group_defaults_when_file_missing() {
    let (family, group) = get_genl_family_group(None).unwrap();
    assert_eq!(family, "sonic_stel");
    assert_eq!(group, "ipfix");
}

#[test]
fn test_family_group_from_valid_file() {
    let (family, group) = get_genl_family_group(Some(CONSTANTS)).unwrap();
    assert_eq!(family, "sonic_stel");
    assert_eq!(group, "ipfix");
}

#[test]
fn test_get_genl_family_group() {
    let result = family_group_from_contents(Some(CONSTANTS));
    assert!(result.is_ok());
    let (family, group) = result.unwrap();
    assert!(!family.is_empty());
    assert!(!group.is_empty());
}

#[test]
fn test_get_genl_family_group_from_path() {
    let result = family_group_from_contents(None);
    assert!(result.is_err());
    assert!(result
        .unwrap_err()
        .describe()
        .contains("Failed to open constants file"));
}

#[test]
fn test_get_genl_family_group_from_test_file() {
    let result = family_group_from_contents(Some(CONSTANTS));
    assert!(result.is_ok());
    let (family, group) = result.unwrap();
    assert!(!family.is_empty());
    assert!(!group.is_empty());
}

#[test]
fn test_get_genl_family_group_defaults() {
    let result = family_group_from_contents(None);
    assert!(result.is_err());
    let (family, group) = get_genl_family_group(None).unwrap();
    assert_eq!(family, "sonic_stel");
    assert_eq!(group, "ipfix");
}

#[test]
fn family_and_group_are_read_from_the_first_document() {
    let text = "constants:\n  high_frequency_telemetry:\n    genl_family: my_family\n    genl_multicast_group: my_group\n---\nconstants:\n  high_frequency_telemetry:\n    genl_family: other\n";
    let (family, group) = get_genl_family_group(Some(text)).unwrap();
    assert_eq!(family, "my_family");
    assert_eq!(group, "my_group");
}

#[test]
fn a_missing_key_takes_its_default() {
    let text = "constants:\n  high_frequency_telemetry:\n    genl_family: my_family\n";
    let (family, group) = get_genl_family_group(Some(text)).unwrap();
    assert_eq!(family, "my_family");
    assert_eq!(group, "ipfix");

    let text = "constants:\n  other_section:\n    genl_family: my_family\n";
    let (family, group) = get_genl_family_group(Some(text)).unwrap();
    assert_eq!(family, "sonic_stel");
    assert_eq!(group, "ipfix");
}

#[test]
fn a_value_that_is_no_string_takes_its_default() {
    let text = "constants:\n  high_frequency_telemetry:\n    genl_family: 17\n    genl_multicast_group: [a, b]\n";
    let (family, group) = get_genl_family_group(Some(text)).unwrap();
    assert_eq!(family, "sonic_stel");
    assert_eq!(group, "ipfix");
}

#[test]
fn malformed_yaml_is_an_error() {
    let text = "constants: [unclosed\n  high: \"";
    assert_eq!(
        family_group_from_contents(Some(text)),
        Err(ConfigError::MalformedYaml)
    );
    assert_eq!(
        get_genl_family_group(Some(text)),
        Err(ConfigError::MalformedYaml)
    );
}

#[test]
fn an_empty_file_gives_the_defaults() {
    assert_eq!(
        family_group_from_contents(Some("")),
        Err(ConfigError::EmptyDocument)
    );
    let (family, group) = get_genl_family_group(Some("")).unwrap();
    assert_eq!(family, "sonic_stel");
    assert_eq!(group, "ipfix");
}

#[test]
fn each_error_has_its_words() {
    assert_eq!(
        ConfigError::Unreadable.describe(),
        "Failed to open constants file"
    );
    assert_eq!(
        ConfigError::TooDeeplyNested.describe(),
        "Constants file is nested too deeply"
    );
    assert_eq!(
        ConfigError::MalformedYaml.describe(),
        "Failed to parse YAML in constants file"
    );
    assert_eq!(
        ConfigError::EmptyDocument.describe(),
        "Empty YAML document in constants file"
    );
}

#[test]
fn defaults_stand_in_for_missing_names() {
    assert_eq!(
        family_group_or_defaults(None, None),
        ("sonic_stel".to_string(), "ipfix".to_string())
    );
    assert_eq!(
        family_group_or_defaults(Some("f".to_string()), None),
        ("f".to_string(), "ipfix".to_string())
    );
    assert_eq!(
        family_group_or_defaults(None, Some("g".to_string())),
        ("sonic_stel".to_string(), "g".to_string())
    );
    assert_eq!(
        family_group_or_defaults(Some("f".to_string()), Some("g".to_string())),
        ("f".to_string(), "g".to_string())
    );
}

#[test]
fn log_levels_are_read_whatever_their_case() {
    assert_eq!(parse_log_level("trace"), Some(LogLevel::Trace));
    assert_eq!(parse_log_level("DEBUG"), Some(LogLevel::Debug));
    assert_eq!(parse_log_level("Info"), Some(LogLevel::Info));
    assert_eq!(parse_log_level("wArN"), Some(LogLevel::Warn));
    assert_eq!(parse_log_level("error"), Some(LogLevel::Error));
    assert_eq!(parse_log_level("verbose"), None);
    assert_eq!(parse_log_level(""), None);
    assert_eq!(parse_log_level("inf"), None);
    assert_eq!(parse_log_level("infos"), None);
    assert_eq!(log_level_or_default("verbose"), LogLevel::Info);
    assert_eq!(log_level_or_default("error"), LogLevel::Error);
}

#[test]
fn log_formats_are_read_whatever_their_case() {
    assert_eq!(parse_log_format("simple"), Some(LogFormat::Simple));
    assert_eq!(parse_log_format("FULL"), Some(LogFormat::Full));
    assert_eq!(parse_log_format("json"), None);
    assert_eq!(log_format_or_default("json"), LogFormat::Full);
    assert_eq!(log_format_or_default("Simple"), LogFormat::Simple);
}

#[test]
fn only_ascii_letters_lose_their_case() {
    assert!(same_ignoring_case("AbC", "aBc"));
    assert!(!same_ignoring_case("abc", "abd"));
    assert!(!same_ignoring_case("abc", "abcd"));
    assert!(!same_ignoring_case("[", "{"));
    assert!(!same_ignoring_case("@", "`"));
    assert!(!same_ignoring_case("É", "é"));
    assert!(same_ignoring_case("", ""));
}

#[test]
fn the_exporter_defaults_to_the_local_collector() {
    let config = OtelActorConfig::default();
    assert!(config.print_to_console);
    assert_eq!(config.collector_endpoint, "http://localhost:4317");
    assert_eq!(config.clone(), config);
}

fn defaults() -> Result<(String, String), ConfigError> {
    Ok(("sonic_stel".to_string(), "ipfix".to_string()))
}

fn stair(unit: &str, levels: usize, last: &str) -> String {
    let mut text = String::new();
    for i in 0..levels {
        text.push_str(&" ".repeat(i));
        text.push_str(unit);
        text.push('\n');
    }
    text.push_str(&" ".repeat(levels));
    text.push_str(last);
    text.push('\n');
    text
}

#[test]
fn a_long_constants_file_is_read() {
    let mut text = String::new();
    for i in 0..2000 {
        text.push_str("# a comment that says nothing of the constants below\n");
        text.push_str(&format!("other_section_{}:\n", i));
        text.push_str(&format!("  some_key: \"some value {}\"\n", i));
        text.push_str("  some_list:\n    - one\n    - two\n");
    }
    text.push_str("constants:\n  high_frequency_telemetry:\n");
    text.push_str("    genl_family: long_family\n    genl_multicast_group: long_group\n");
    for i in 0..2000 {
        text.push_str(&format!("trailing_{}: {}\n", i, "x".repeat(300)));
    }
    assert!(text.len() > 700_000);
    assert!(within_nesting_limit(text.as_bytes()));
    assert_eq!(
        get_genl_family_group(Some(&text)),
        Ok(("long_family".to_string(), "long_group".to_string()))
    );
    assert_eq!(
        family_group_from_contents(Some(&text)),
        Ok(("long_family".to_string(), "long_group".to_string()))
    );
}

#[test]
fn the_nesting_bound_goes_by_columns_openers_and_aliases() {
    assert_eq!(MAX_NESTING, 400);
    assert!(within_nesting_limit(b""));
    assert!(within_nesting_limit(CONSTANTS.as_bytes()));
    assert!(within_nesting_limit("x".repeat(100_000).as_bytes()));

    for indicator in ["-", "?", ":"] {
        let at_199 = format!("{}{}", " ".repeat(199), indicator);
        let at_200 = format!("{}{}", " ".repeat(200), indicator);
        assert!(within_nesting_limit(at_199.as_bytes()));
        assert!(!within_nesting_limit(at_200.as_bytes()));
        let second_line = format!("{}\n{}", "x".repeat(5000), at_199);
        assert!(within_nesting_limit(second_line.as_bytes()));
        let carriage_return = format!("{}\r{}", " ".repeat(100), at_199);
        assert!(!within_nesting_limit(carriage_return.as_bytes()));
    }
    let other = format!("{}#,&!|>'\"%@`]}}", " ".repeat(5000));
    assert!(within_nesting_limit(other.as_bytes()));

    assert!(within_nesting_limit("[".repeat(200).as_bytes()));
    assert!(!within_nesting_limit("[".repeat(201).as_bytes()));
    assert!(within_nesting_limit("{\n".repeat(200).as_bytes()));
    assert!(!within_nesting_limit("{\n".repeat(201).as_bytes()));
    assert!(within_nesting_limit(
        format!("{}-{}", " ".repeat(99), "[\n".repeat(100)).as_bytes()
    ));
    assert!(!within_nesting_limit(
        format!("{}-{}", " ".repeat(99), "[\n".repeat(101)).as_bytes()
    ));

    assert!(within_nesting_limit("*".repeat(100_000).as_bytes()));
    assert!(within_nesting_limit(format!("{}-*", " ".repeat(99)).as_bytes()));
    assert!(!within_nesting_limit(format!("{}-*", " ".repeat(100)).as_bytes()));
    assert!(within_nesting_limit(format!("-{}", "*".repeat(199)).as_bytes()));
    assert!(!within_nesting_limit(format!("-{}", "*".repeat(200)).as_bytes()));
    assert!(within_nesting_limit(format!("[{}", "*".repeat(199)).as_bytes()));
    assert!(!within_nesting_limit(format!("[{}", "*".repeat(200)).as_bytes()));
}

#[test]
fn the_deepest_texts_within_the_limit_are_parsed() {
    let sequences = stair("-", 198, "- a");
    assert!(within_nesting_limit(sequences.as_bytes()));
    assert_eq!(get_genl_family_group(Some(&sequences)), defaults());

    let mappings = stair("a:", 197, "a: 1");
    assert!(within_nesting_limit(mappings.as_bytes()));
    assert_eq!(get_genl_family_group(Some(&mappings)), defaults());

    let keys = stair("?", 198, "? a");
    assert!(within_nesting_limit(keys.as_bytes()));
    assert_eq!(get_genl_family_group(Some(&keys)), defaults());

    let mut one_line = "- ".repeat(100);
    one_line.push('a');
    assert!(within_nesting_limit(one_line.as_bytes()));
    assert_eq!(get_genl_family_group(Some(&one_line)), defaults());

    let mut unindented = String::new();
    for i in 0..99 {
        if i == 0 {
            unindented.push_str("a:\n");
        } else {
            unindented.push_str(&" ".repeat(2 * (i - 1)));
            unindented.push_str("- a:\n");
        }
    }
    assert!(within_nesting_limit(unindented.as_bytes()));
    assert_eq!(get_genl_family_group(Some(&unindented)), defaults());

    let mut flow = "[\n".repeat(200);
    flow.push_str(&"]".repeat(200));
    assert!(within_nesting_limit(flow.as_bytes()));
    assert_eq!(get_genl_family_group(Some(&flow)), defaults());

    let mut pairs = "[a:\n".repeat(197);
    pairs.push('b');
    pairs.push_str(&"]".repeat(197));
    assert!(within_nesting_limit(pairs.as_bytes()));
    assert_eq!(get_genl_family_group(Some(&pairs)), defaults());

    let mut braces = "{a:\n".repeat(197);
    braces.push('b');
    braces.push_str(&"}".repeat(197));
    assert!(within_nesting_limit(braces.as_bytes()));
    assert_eq!(get_genl_family_group(Some(&braces)), defaults());

    let mut mixed = stair("-", 98, "-");
    mixed.push_str(&" ".repeat(98));
    mixed.push_str(&"[\n".repeat(100));
    mixed.push_str(&"]".repeat(100));
    assert!(within_nesting_limit(mixed.as_bytes()));
    assert_eq!(get_genl_family_group(Some(&mixed)), defaults());

    let mut chain = String::from("- &a0 [x]\n");
    for i in 1..13 {
        chain.push_str(&format!("- &a{} [*a{}]\n", i, i - 1));
    }
    assert!(within_nesting_limit(chain.as_bytes()));
    assert_eq!(get_genl_family_group(Some(&chain)), defaults());

    let mut copied = String::from("- &deep\n");
    copied.push_str(&stair(" -", 47, " - a"));
    copied.push_str("- &one\n  - *deep\n- &two\n  - *one\n- &three\n  - *two\n");
    assert!(within_nesting_limit(copied.as_bytes()));
    assert_eq!(get_genl_family_group(Some(&copied)), defaults());

    let unclosed = "[\n".repeat(200);
    assert_eq!(
        get_genl_family_group(Some(&unclosed)),
        Err(ConfigError::MalformedYaml)
    );
}

#[test]
fn a_text_nested_too_deeply_is_refused_unparsed() {
    let texts = [
        "- ".repeat(20_000),
        "? ".repeat(20_000),
        stair("-", 1000, "- a"),
        stair("a:", 1000, "a: 1"),
        "[".repeat(10_000),
        "{a: ".repeat(10_000),
        {
            let mut chain = String::from("- &a0 [x]\n");
            for i in 1..3000 {
                chain.push_str(&format!("- &a{} [*a{}]\n", i, i - 1));
            }
            chain
        },
        format!("{}\nnote: {}- see above\n", CONSTANTS, " ".repeat(250)),
    ];
    for text in texts {
        assert!(!within_nesting_limit(text.as_bytes()));
        assert_eq!(
            family_group_from_contents(Some(&text)),
            Err(ConfigError::TooDeeplyNested)
        );
        assert_eq!(
            get_genl_family_group(Some(&text)),
            Err(ConfigError::TooDeeplyNested)
        );
    }
}
