use clia_tracing_config::build;
use clia_tracing_config::effective_filter;
use clia_tracing_config::parse_format;
use clia_tracing_config::parse_rotation;
use clia_tracing_config::str_eq;
use clia_tracing_config::OutputFormat;
use clia_tracing_config::Rotation;
use clia_tracing_config::TracingConfig;

#[test]
fn default_values() {
    let c = build();
    assert_eq!(c.filter_level, "info");
    assert!(c.with_ansi);
    assert!(!c.to_stdout);
    assert_eq!(c.directory, "./logs");
    assert_eq!(c.file_name, "my-service.log");
    assert_eq!(c.rolling, Rotation::Daily);
    assert_eq!(c.format, OutputFormat::Pretty);
    assert!(c.with_level);
    assert!(c.with_target);
    assert!(c.with_thread_ids);
    assert!(c.with_thread_names);
    assert!(c.with_source_location);
}

#[test]
fn default_trait_matches_build() {
    let c = TracingConfig::default();
    assert_eq!(c.filter_level, "info");
    assert_eq!(c.rolling, Rotation::Daily);
    assert_eq!(c.format, OutputFormat::Pretty);
}

#[test]
fn rotation_tokens_accepted() {
    assert_eq!(parse_rotation("minutely"), Some(Rotation::Minutely));
    assert_eq!(parse_rotation("hourly"), Some(Rotation::Hourly));
    assert_eq!(parse_rotation("daily"), Some(Rotation::Daily));
    assert_eq!(parse_rotation("never"), Some(Rotation::Never));
}

#[test]
fn rotation_tokens_distinct() {
    let policies = [
        parse_rotation("minutely").unwrap(),
        parse_rotation("hourly").unwrap(),
        parse_rotation("daily").unwrap(),
        parse_rotation("never").unwrap(),
    ];
    for i in 0..policies.len() {
        for j in 0..policies.len() {
            if i != j {
                assert_ne!(policies[i], policies[j]);
            }
        }
    }
}

#[test]
fn rotation_other_tokens_rejected() {
    assert_eq!(parse_rotation("weekly"), None);
    assert_eq!(parse_rotation("Daily"), None);
    assert_eq!(parse_rotation(""), None);
    assert_eq!(parse_rotation("daily "), None);
}

#[test]
fn format_tokens_accepted() {
    assert_eq!(parse_format("pretty"), Some(OutputFormat::Pretty));
    assert_eq!(parse_format("compact"), Some(OutputFormat::Compact));
    assert_eq!(parse_format("json"), Some(OutputFormat::Json));
    assert_eq!(parse_format("full"), Some(OutputFormat::Full));
}

#[test]
fn format_other_tokens_rejected() {
    assert_eq!(parse_format("yaml"), None);
    assert_eq!(parse_format("Pretty"), None);
    assert_eq!(parse_format(""), None);
    assert_eq!(parse_format(" json"), None);
}

#[test]
fn rolling_setter_stores_each_policy() {
    assert_eq!(build().rolling("minutely").rolling, Rotation::Minutely);
    assert_eq!(build().rolling("hourly").rolling, Rotation::Hourly);
    assert_eq!(build().rolling("daily").rolling, Rotation::Daily);
    assert_eq!(build().rolling("never").rolling, Rotation::Never);
}

#[test]
fn format_setter_stores_each_style() {
    assert_eq!(build().format("pretty").format, OutputFormat::Pretty);
    assert_eq!(build().format("compact").format, OutputFormat::Compact);
    assert_eq!(build().format("json").format, OutputFormat::Json);
    assert_eq!(build().format("full").format, OutputFormat::Full);
}

#[test]
fn stdout_flag_stored() {
    let c = build().to_stdout(true);
    assert!(c.to_stdout);
    let c = c.to_stdout(false);
    assert!(!c.to_stdout);
}

#[test]
fn inclusion_flags_independent() {
    let c = build().with_level(false);
    assert!(!c.with_level);
    assert!(c.with_target && c.with_thread_ids && c.with_thread_names && c.with_source_location);

    let c = build().with_target(false);
    assert!(!c.with_target);
    assert!(c.with_level && c.with_thread_ids && c.with_thread_names && c.with_source_location);

    let c = build().with_thread_ids(false);
    assert!(!c.with_thread_ids);
    assert!(c.with_level && c.with_target && c.with_thread_names && c.with_source_location);

    let c = build().with_thread_names(false);
    assert!(!c.with_thread_names);
    assert!(c.with_level && c.with_target && c.with_thread_ids && c.with_source_location);

    let c = build().with_source_location(false);
    assert!(!c.with_source_location);
    assert!(c.with_level && c.with_target && c.with_thread_ids && c.with_thread_names);
}

#[test]
fn ansi_flag_stored() {
    assert!(!build().with_ansi(false).with_ansi);
    assert!(build().with_ansi(true).with_ansi);
}

#[test]
fn filter_level_stored_verbatim() {
    let c = build().filter_level("mycrate=trace");
    assert_eq!(c.filter_level, "mycrate=trace");
}

#[test]
fn directory_and_file_name_stored() {
    let c = build().directory("/tmp/applogs").file_name("svc.log");
    assert_eq!(c.directory, "/tmp/applogs");
    assert_eq!(c.file_name, "svc.log");
}

#[test]
fn env_override_takes_precedence() {
    let r = effective_filter(Some("debug,hyper=warn"), "info");
    assert_eq!(r, "debug,hyper=warn");
}

#[test]
fn configured_filter_governs_without_override() {
    let r = effective_filter(None, "mycrate=trace");
    assert_eq!(r, "mycrate=trace");
}

#[test]
fn malformed_override_is_ignored() {
    let r = effective_filter(Some("app=notalevel"), "info");
    assert_eq!(r, "info");
}

#[test]
fn scoped_override_accepted() {
    let r = effective_filter(Some("mycrate=trace,hyper=warn"), "info");
    assert_eq!(r, "mycrate=trace,hyper=warn");
}

#[test]
fn leading_space_override_normalized() {
    let r = effective_filter(Some("  info"), "warn");
    assert_eq!(r, "info");
}

#[test]
fn space_after_comma_normalized() {
    let r = effective_filter(Some("mycrate=trace, hyper=warn"), "info");
    assert_eq!(r, "mycrate=trace,hyper=warn");
}

#[test]
fn multibyte_after_space_is_safe() {
    let r = effective_filter(Some(" \u{e9}=info"), "warn");
    assert_eq!(r, "\u{e9}=info");
}

#[test]
fn empty_override_governs() {
    let r = effective_filter(Some(""), "info");
    assert_eq!(r, "");
}

#[test]
fn normalize_filter_strips_directive_leads() {
    let r = clia_tracing_config::normalize_filter("  a=info,\tb=debug, c=warn");
    assert_eq!(r, "a=info,b=debug,c=warn");
}

#[test]
fn normalize_filter_keeps_inner_text() {
    let r = clia_tracing_config::normalize_filter("a=info ,b");
    assert_eq!(r, "a=info ,b");
}

#[test]
fn str_eq_behaviour() {
    assert!(str_eq("daily", "daily"));
    assert!(!str_eq("daily", "never"));
    assert!(!str_eq("daily", "dailyX"));
    assert!(str_eq("", ""));
    assert!(!str_eq("", "a"));
}

#[test]
fn scenario_chain() {
    let c = build()
        .filter_level("info")
        .with_ansi(true)
        .to_stdout(false)
        .directory("./logs")
        .file_name("my-service.log")
        .rolling("daily")
        .format("pretty");
    assert_eq!(c.filter_level, "info");
    assert!(c.with_ansi);
    assert!(!c.to_stdout);
    assert_eq!(c.directory, "./logs");
    assert_eq!(c.file_name, "my-service.log");
    assert_eq!(c.rolling, Rotation::Daily);
    assert_eq!(c.format, OutputFormat::Pretty);
}
