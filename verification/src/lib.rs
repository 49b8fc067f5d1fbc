//! Counter-telemetry pipeline core: netlink framing, IPFIX decoding against
//! published templates, and conversion of decoded samples for export.

pub mod bytes;
pub mod config;
pub mod connect;
pub mod conversion_report;
pub mod control_netlink;
pub mod counters;
pub mod counts;
pub mod data_netlink;
pub mod decoder;
pub mod decoder_lemmas;
pub mod frame;
pub mod ipfix;
pub mod nesting;
pub mod order;
pub mod otel;
pub mod report_text;
pub mod sai;
pub mod stats_reporter;
pub mod store;
pub mod template;
pub mod text;
