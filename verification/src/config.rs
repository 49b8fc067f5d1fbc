//! What the daemon is configured with: the generic-netlink family and group
//! from the constants file, the logging options, and the exporter's
//! options.

use std::ops::Index;
use vstd::prelude::*;
use vstd::string::StringSliceAdditionalSpecFns;
use vstd::utf8::encode_utf8;
use yaml_rust::{ScanError, Yaml, YamlLoader};
use crate::nesting::{spec_within_nesting_limit, within_nesting_limit};

verus! {

/// A node of a YAML document, as `yaml_rust` holds it.
#[verifier::external_type_specification]
#[verifier::external_body]
pub struct ExYaml(Yaml);

/// The error of `yaml_rust` for a text that is no YAML.
#[verifier::external_type_specification]
#[verifier::external_body]
pub struct ExScanError(ScanError);

/// The documents that `YamlLoader::load_from_str` reads from a text; `None`
/// where it gives an error.
pub uninterp spec fn yaml_documents(source: Seq<char>) -> Option<Seq<Yaml>>;

/// The node that indexing a node with a string key gives.
pub uninterp spec fn yaml_child(node: Yaml, key: Seq<char>) -> Yaml;

/// The string that `Yaml::as_str` gives for a node; `None` where it gives
/// none.
pub uninterp spec fn yaml_text(node: Yaml) -> Option<Seq<char>>;

/// Calls `YamlLoader::load_from_str`. Claimed: on a text whose nesting
/// bound is within the limit the call returns, and its outcome depends on
/// the text alone; it is named `yaml_documents`. Other texts are left out:
/// the parser calls itself once for each level of nesting, and what it
/// builds is copied and dropped level by level, so that a text nested deep
/// enough ends the process.
#[verifier::external_body]
fn load_documents(source: &str) -> (r: Result<Vec<Yaml>, ScanError>)
    requires
        spec_within_nesting_limit(source.spec_bytes()),
    ensures
        match r {
            Ok(docs) => yaml_documents(source@) == Some(docs@),
            Err(_) => yaml_documents(source@) is None,
        },
{
    YamlLoader::load_from_str(source)
}

/// Calls `index` of `Index<&str>` for `yaml_rust::Yaml`. Claimed: the node
/// that comes back depends on the node and the key alone; it is named
/// `yaml_child`.
#[verifier::external_body]
fn child<'a>(node: &'a Yaml, key: &str) -> (found: &'a Yaml)
    ensures
        *found == yaml_child(*node, key@),
{
    <Yaml as Index<&str>>::index(node, key)
}

/// Calls `yaml_rust::Yaml::as_str` and copies the string. Claimed: whether
/// a string comes back and which depends on the node alone; it is named
/// `yaml_text`.
#[verifier::external_body]
fn text_of(node: &Yaml) -> (text: Option<String>)
    ensures
        match text {
            Some(s) => yaml_text(*node) == Some(s@),
            None => yaml_text(*node) is None,
        },
{
    match Yaml::as_str(node) {
        Some(s) => Some(s.to_owned()),
        None => None,
    }
}

/// The family that is used where the constants name none.
pub const DEFAULT_FAMILY: &'static str = "sonic_stel";

/// The multicast group that is used where the constants name none.
pub const DEFAULT_GROUP: &'static str = "ipfix";

/// Why the constants give no family and group.
#[derive(Debug, Clone, Copy, PartialEq, Eq, Structural)]
pub enum ConfigError {
    /// The constants file could not be opened or read.
    Unreadable,
    /// The constants file may be nested deeper than the parser is trusted
    /// with.
    TooDeeplyNested,
    /// The constants file is no YAML.
    MalformedYaml,
    /// The constants file holds no document.
    EmptyDocument,
}

impl ConfigError {
    /// The error in words.
    pub fn describe(&self) -> (text: String)
        ensures
            text@ == match *self {
                ConfigError::Unreadable => "Failed to open constants file"@,
                ConfigError::TooDeeplyNested => "Constants file is nested too deeply"@,
                ConfigError::MalformedYaml => "Failed to parse YAML in constants file"@,
                ConfigError::EmptyDocument => "Empty YAML document in constants file"@,
            },
    {
        match self {
            ConfigError::Unreadable => "Failed to open constants file".to_owned(),
            ConfigError::TooDeeplyNested => "Constants file is nested too deeply".to_owned(),
            ConfigError::MalformedYaml => "Failed to parse YAML in constants file".to_owned(),
            ConfigError::EmptyDocument => "Empty YAML document in constants file".to_owned(),
        }
    }
}

/// A name from the constants, or the default where there is none.
pub open spec fn spec_or_default(found: Option<Seq<char>>, default: Seq<char>) -> Seq<char> {
    match found {
        Some(name) => name,
        None => default,
    }
}

/// Family and group as the constants name them, each with its default
/// where the constants do not name it.
pub fn family_group_or_defaults(family: Option<String>, group: Option<String>) -> (names: (
    String,
    String,
))
    ensures
        names.0@ == spec_or_default(
            match family {
                Some(s) => Some(s@),
                None => None,
            },
            DEFAULT_FAMILY@,
        ),
        names.1@ == spec_or_default(
            match group {
                Some(s) => Some(s@),
                None => None,
            },
            DEFAULT_GROUP@,
        ),
{
    let family = match family {
        Some(name) => name,
        None => DEFAULT_FAMILY.to_owned(),
    };
    let group = match group {
        Some(name) => name,
        None => DEFAULT_GROUP.to_owned(),
    };
    (family, group)
}

/// The node `constants.high_frequency_telemetry.<key>` of a document.
pub open spec fn spec_telemetry_node(document: Yaml, key: Seq<char>) -> Yaml {
    yaml_child(yaml_child(yaml_child(document, "constants"@), "high_frequency_telemetry"@), key)
}

/// What the text of a constants file gives: an error where it is no YAML or
/// holds no document; else of its first document the strings at
/// `constants.high_frequency_telemetry.genl_family` and
/// `constants.high_frequency_telemetry.genl_multicast_group`, each with its
/// default where no string stands there.
pub open spec fn spec_family_group_of(text: Seq<char>) -> Result<
    (Seq<char>, Seq<char>),
    ConfigError,
> {
    match yaml_documents(text) {
        None => Err(ConfigError::MalformedYaml),
        Some(documents) => if documents.len() == 0 {
            Err(ConfigError::EmptyDocument)
        } else {
            Ok(
                (
                    spec_or_default(
                        yaml_text(spec_telemetry_node(documents[0], "genl_family"@)),
                        DEFAULT_FAMILY@,
                    ),
                    spec_or_default(
                        yaml_text(spec_telemetry_node(documents[0], "genl_multicast_group"@)),
                        DEFAULT_GROUP@,
                    ),
                ),
            )
        },
    }
}

/// What `family_group_from_contents` returns. `None` stands for a file
/// that could not be read. A text of any length is parsed, unless the
/// nesting bound of its UTF-8 form is over the limit: that one is refused
/// unparsed.
pub open spec fn spec_family_group_from_contents(contents: Option<Seq<char>>) -> Result<
    (Seq<char>, Seq<char>),
    ConfigError,
> {
    match contents {
        None => Err(ConfigError::Unreadable),
        Some(text) => if !spec_within_nesting_limit(encode_utf8(text)) {
            Err(ConfigError::TooDeeplyNested)
        } else {
            spec_family_group_of(text)
        },
    }
}

/// What `get_genl_family_group` returns: the defaults where the file could
/// not be read or holds no document, an error where it is no YAML or its
/// nesting bound is over the limit.
pub open spec fn spec_get_genl_family_group(contents: Option<Seq<char>>) -> Result<
    (Seq<char>, Seq<char>),
    ConfigError,
> {
    match spec_family_group_from_contents(contents) {
        Ok(names) => Ok(names),
        Err(ConfigError::Unreadable) => Ok((DEFAULT_FAMILY@, DEFAULT_GROUP@)),
        Err(ConfigError::EmptyDocument) => Ok((DEFAULT_FAMILY@, DEFAULT_GROUP@)),
        Err(e) => Err(e),
    }
}

/// The views of a result of names.
pub open spec fn spec_names_view(r: Result<(String, String), ConfigError>) -> Result<
    (Seq<char>, Seq<char>),
    ConfigError,
> {
    match r {
        Ok(names) => Ok((names.0@, names.1@)),
        Err(e) => Err(e),
    }
}

/// Reads family and group from the contents of the constants file, or says
/// why it cannot. `None` stands for a file that could not be opened or
/// read. A text whose nesting bound is over the limit is refused without
/// being parsed; the length of a text is no ground to refuse it.
pub fn family_group_from_contents(contents: Option<&str>) -> (r: Result<
    (String, String),
    ConfigError,
>)
    ensures
        spec_names_view(r) == spec_family_group_from_contents(
            match contents {
                Some(text) => Some(text@),
                None => None,
            },
        ),
{
    let text = match contents {
        Some(text) => text,
        None => {
            return Err(ConfigError::Unreadable);
        },
    };
    if !within_nesting_limit(text.as_bytes()) {
        return Err(ConfigError::TooDeeplyNested);
    }
    let documents = match load_documents(text) {
        Ok(documents) => documents,
        Err(_) => {
            return Err(ConfigError::MalformedYaml);
        },
    };
    if documents.len() == 0 {
        return Err(ConfigError::EmptyDocument);
    }
    let section = child(child(&documents[0], "constants"), "high_frequency_telemetry");
    let family = text_of(child(section, "genl_family"));
    let group = text_of(child(section, "genl_multicast_group"));
    Ok(family_group_or_defaults(family, group))
}

/// The generic-netlink family and multicast group to receive on.
///
/// `contents` is the text of the constants file, `None` where the file
/// could not be opened or read. Without a file, and with one that holds no
/// document, the defaults are used; a name that the first document lacks is
/// replaced by its default. A file that is no YAML is an error, which is
/// fatal to the daemon, and so is one whose nesting bound is over the
/// limit.
pub fn get_genl_family_group(contents: Option<&str>) -> (r: Result<(String, String), ConfigError>)
    ensures
        spec_names_view(r) == spec_get_genl_family_group(
            match contents {
                Some(text) => Some(text@),
                None => None,
            },
        ),
        contents is None ==> r is Ok,
{
    match family_group_from_contents(contents) {
        Ok(names) => Ok(names),
        Err(ConfigError::Unreadable) => Ok((DEFAULT_FAMILY.to_owned(), DEFAULT_GROUP.to_owned())),
        Err(ConfigError::EmptyDocument) => Ok(
            (DEFAULT_FAMILY.to_owned(), DEFAULT_GROUP.to_owned()),
        ),
        Err(e) => Err(e),
    }
}

/// How much is logged.
#[derive(Debug, Clone, Copy, PartialEq, Eq, Structural)]
pub enum LogLevel {
    Trace,
    Debug,
    Info,
    Warn,
    Error,
}

/// How a log line looks.
#[derive(Debug, Clone, Copy, PartialEq, Eq, Structural)]
pub enum LogFormat {
    /// Level and message.
    Simple,
    /// Time, file, line, level and message.
    Full,
}

/// An upper-case ASCII letter as lower case, any other byte as it is.
pub open spec fn spec_lower(b: u8) -> u8 {
    if 0x41 <= b <= 0x5A {
        (b + 0x20) as u8
    } else {
        b
    }
}

/// Whether two byte strings are the same but for the case of ASCII
/// letters.
pub open spec fn spec_same_ignoring_case(a: Seq<u8>, b: Seq<u8>) -> bool {
    a.len() == b.len() && forall|i: int| 0 <= i < a.len() ==> spec_lower(a[i]) == spec_lower(b[i])
}

/// Whether two strings are the same but for the case of ASCII letters.
pub fn same_ignoring_case(a: &str, b: &str) -> (same: bool)
    ensures
        same == spec_same_ignoring_case(a.spec_bytes(), b.spec_bytes()),
{
    let x = a.as_bytes();
    let y = b.as_bytes();
    if x.len() != y.len() {
        return false;
    }
    let mut i: usize = 0;
    while i < x.len()
        invariant
            i <= x.len(),
            x.len() == y.len(),
            x@ == a.spec_bytes(),
            y@ == b.spec_bytes(),
            forall|w: int| 0 <= w < i ==> spec_lower(x@[w]) == spec_lower(y@[w]),
        decreases x.len() - i,
    {
        let p: u8 = if 0x41 <= x[i] && x[i] <= 0x5A {
            x[i] + 0x20
        } else {
            x[i]
        };
        let q: u8 = if 0x41 <= y[i] && y[i] <= 0x5A {
            y[i] + 0x20
        } else {
            y[i]
        };
        if p != q {
            assert(spec_lower(x@[i as int]) != spec_lower(y@[i as int]));
            return false;
        }
        i += 1;
    }
    true
}

/// The level that a word names, the case of its letters set aside.
pub open spec fn spec_log_level(word: Seq<u8>) -> Option<LogLevel> {
    if spec_same_ignoring_case(word, "trace".spec_bytes()) {
        Some(LogLevel::Trace)
    } else if spec_same_ignoring_case(word, "debug".spec_bytes()) {
        Some(LogLevel::Debug)
    } else if spec_same_ignoring_case(word, "info".spec_bytes()) {
        Some(LogLevel::Info)
    } else if spec_same_ignoring_case(word, "warn".spec_bytes()) {
        Some(LogLevel::Warn)
    } else if spec_same_ignoring_case(word, "error".spec_bytes()) {
        Some(LogLevel::Error)
    } else {
        None
    }
}

/// The format that a word names, the case of its letters set aside.
pub open spec fn spec_log_format(word: Seq<u8>) -> Option<LogFormat> {
    if spec_same_ignoring_case(word, "simple".spec_bytes()) {
        Some(LogFormat::Simple)
    } else if spec_same_ignoring_case(word, "full".spec_bytes()) {
        Some(LogFormat::Full)
    } else {
        None
    }
}

/// Reads a log level; `None` for a word that names none.
pub fn parse_log_level(word: &str) -> (level: Option<LogLevel>)
    ensures
        level == spec_log_level(word.spec_bytes()),
{
    if same_ignoring_case(word, "trace") {
        Some(LogLevel::Trace)
    } else if same_ignoring_case(word, "debug") {
        Some(LogLevel::Debug)
    } else if same_ignoring_case(word, "info") {
        Some(LogLevel::Info)
    } else if same_ignoring_case(word, "warn") {
        Some(LogLevel::Warn)
    } else if same_ignoring_case(word, "error") {
        Some(LogLevel::Error)
    } else {
        None
    }
}

/// Reads a log format; `None` for a word that names none.
pub fn parse_log_format(word: &str) -> (format: Option<LogFormat>)
    ensures
        format == spec_log_format(word.spec_bytes()),
{
    if same_ignoring_case(word, "simple") {
        Some(LogFormat::Simple)
    } else if same_ignoring_case(word, "full") {
        Some(LogFormat::Full)
    } else {
        None
    }
}

/// The level to log at: the one that the word names, `Info` where it names
/// none.
pub fn log_level_or_default(word: &str) -> (level: LogLevel)
    ensures
        level == match spec_log_level(word.spec_bytes()) {
            Some(level) => level,
            None => LogLevel::Info,
        },
{
    match parse_log_level(word) {
        Some(level) => level,
        None => LogLevel::Info,
    }
}

/// The format to log in: the one that the word names, `Full` where it
/// names none.
pub fn log_format_or_default(word: &str) -> (format: LogFormat)
    ensures
        format == match spec_log_format(word.spec_bytes()) {
            Some(format) => format,
            None => LogFormat::Full,
        },
{
    match parse_log_format(word) {
        Some(format) => format,
        None => LogFormat::Full,
    }
}

/// Places in the queue of payloads from the data socket to the decoder,
/// unless the command line says otherwise.
pub const DEFAULT_PAYLOAD_QUEUE_CAPACITY: usize = 1024;

/// Places in the queue of sample batches from the decoder on, unless the
/// command line says otherwise.
pub const DEFAULT_BATCH_QUEUE_CAPACITY: usize = 1024;

/// Places in the queue of template messages to the decoder.
pub const TEMPLATE_QUEUE_CAPACITY: usize = 10;

/// Places in the queue of commands to the data socket's owner.
pub const COMMAND_QUEUE_CAPACITY: usize = 10;

/// How the exporter works.
#[derive(Debug, PartialEq, Eq)]
pub struct OtelActorConfig {
    /// Whether every export is also printed.
    pub print_to_console: bool,
    /// Where the collector listens.
    pub collector_endpoint: String,
}

impl Default for OtelActorConfig {
    /// Printing on, the collector on this machine at its usual port.
    fn default() -> (config: Self)
        ensures
            config.print_to_console,
            config.collector_endpoint@ == "http://localhost:4317"@,
    {
        OtelActorConfig {
            print_to_console: true,
            collector_endpoint: "http://localhost:4317".to_owned(),
        }
    }
}

impl Clone for OtelActorConfig {
    fn clone(&self) -> (out: Self)
        ensures
            out.print_to_console == self.print_to_console,
            out.collector_endpoint@ == self.collector_endpoint@,
    {
        OtelActorConfig {
            print_to_console: self.print_to_console,
            collector_endpoint: self.collector_endpoint.clone(),
        }
    }
}

} // verus!
