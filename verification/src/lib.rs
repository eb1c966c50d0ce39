//! Builder-style configuration for a process-wide structured logging sink.
//!
//! A `TracingConfig` value accumulates options through chained setters,
//! validating enum-like string options eagerly.  The host application then
//! hands the finished configuration to its startup code, which installs the
//! global sink and keeps the returned guard alive for as long as records are
//! to be written.

use vstd::prelude::*;

mod config;
mod filter;
mod offset;
mod strcmp;

pub use config::ConfigView;
pub use config::OutputFormat;
pub use config::Rotation;
pub use config::TracingConfig;
pub use config::default_view;
pub use config::format_of;
pub use config::is_format_token;
pub use config::is_rotation_token;
pub use config::lemma_format_rejects_unknown;
pub use config::lemma_format_tokens;
pub use config::lemma_rolling_rejects_unknown;
pub use config::lemma_rotation_tokens;
pub use config::parse_format;
pub use config::parse_rotation;
pub use config::rotation_of;
pub use filter::directives_space_free;
pub use filter::effective_filter;
pub use filter::filter_well_formed;
pub use filter::is_space_char;
pub use filter::normalize_filter;
pub use filter::strip_directive_space;
pub use offset::formatter_offset_seconds;
pub use offset::local_offset_seconds;
pub use offset::offset_for_formatter;
pub use offset::resolve_utc_offset;
pub use strcmp::str_eq;

verus! {

/// Builds a default configuration, the start of a setter chain.
pub fn build() -> (r: TracingConfig)
    ensures
        r@ == default_view(),
        r@.wf(),
{
    TracingConfig::default()
}

} // verus!
