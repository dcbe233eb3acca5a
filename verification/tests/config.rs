use compass::analyzer::Severity;
use compass::config::{AnalyzerConfig, RuleConfig};

fn entry(name: &str, severity: &str, enabled: bool, language: Option<&str>) -> RuleConfig {
    RuleConfig {
        name: name.to_string(),
        query: format!("({name}) @node"),
        severity: severity.to_string(),
        message: format!("message of {name}"),
        suggestion: Some(format!("suggestion of {name}")),
        weight: 1_500,
        enabled,
        language: language.map(|l| l.to_string()),
    }
}

#[test]
fn severity_labels_in_lower_case() {
    assert_eq!(Severity::from_label("error"), Severity::Error);
    assert_eq!(Severity::from_label("warning"), Severity::Warning);
    assert_eq!(Severity::from_label("info"), Severity::Info);
    assert_eq!(Severity::from_label("style"), Severity::Style);
    assert_eq!(Severity::from_label("Error"), Severity::Info);
    assert_eq!(Severity::from_label(""), Severity::Info);
    assert_eq!(Severity::from_label("errors"), Severity::Info);
    assert_eq!(Severity::from_label("fatal"), Severity::Info);
}

#[test]
fn severity_labels_in_any_case() {
    assert_eq!(Severity::parse("error"), Severity::Error);
    assert_eq!(Severity::parse("ERROR"), Severity::Error);
    assert_eq!(Severity::parse("Warning"), Severity::Warning);
    assert_eq!(Severity::parse("wArNiNg"), Severity::Warning);
    assert_eq!(Severity::parse("INFO"), Severity::Info);
    assert_eq!(Severity::parse("Style"), Severity::Style);
    assert_eq!(Severity::parse("critical"), Severity::Info);
    assert_eq!(Severity::parse(" error"), Severity::Info);
}

#[test]
fn a_rule_applies_when_enabled_and_for_the_language() {
    assert!(entry("a", "info", true, None).applies_to("rust"));
    assert!(entry("a", "info", true, Some("rust")).applies_to("rust"));
    assert!(entry("a", "info", true, Some("Rust")).applies_to("rust"));
    assert!(entry("a", "info", true, Some("RUST")).applies_to("rust"));
    assert!(!entry("a", "info", true, Some("go")).applies_to("rust"));
    assert!(!entry("a", "info", false, None).applies_to("rust"));
    assert!(!entry("a", "info", false, Some("rust")).applies_to("rust"));
}

#[test]
fn a_configured_rule_becomes_a_rule() {
    let rule = entry("unwrap", "WARNING", true, Some("rust")).to_rule();
    assert_eq!(rule.name, "unwrap");
    assert_eq!(rule.query, "(unwrap) @node");
    assert_eq!(rule.severity, Severity::Warning);
    assert_eq!(rule.message_template, "message of unwrap");
    assert_eq!(rule.suggestion, Some(String::from("suggestion of unwrap")));
    assert_eq!(rule.weight_multiplier, 1_500);
    assert_eq!(rule.score_impact(), -22_500);
    let plain = entry("other", "nonsense", true, None).to_rule();
    assert_eq!(plain.severity, Severity::Info);
}

#[test]
fn an_analyzer_gets_the_enabled_rules_of_its_language() {
    let config = AnalyzerConfig {
        rules: vec![
            entry("for_all", "error", true, None),
            entry("disabled", "error", false, None),
            entry("rust_only", "style", true, Some("Rust")),
            entry("go_only", "warning", true, Some("go")),
            entry("rust_disabled", "warning", false, Some("rust")),
            entry("rust_again", "Info", true, Some("RUST")),
        ],
    };
    let rust = config.to_analyzer_for_language("rust");
    let names: Vec<&str> = rust.rules().iter().map(|r| r.name.as_str()).collect();
    assert_eq!(names, vec!["for_all", "rust_only", "rust_again"]);
    let severities: Vec<Severity> = rust.rules().iter().map(|r| r.severity).collect();
    assert_eq!(severities, vec![Severity::Error, Severity::Style, Severity::Info]);
    let upper = config.to_analyzer_for_language("RUST");
    assert_eq!(upper.rules().len(), 3);
    let go = config.to_analyzer_for_language("Go");
    let names: Vec<&str> = go.rules().iter().map(|r| r.name.as_str()).collect();
    assert_eq!(names, vec!["for_all", "go_only"]);
    let java = config.to_analyzer_for_language("java");
    let names: Vec<&str> = java.rules().iter().map(|r| r.name.as_str()).collect();
    assert_eq!(names, vec!["for_all"]);
    assert!(java.has_rules());
}

#[test]
fn an_analyzer_without_enabled_rules_has_none() {
    let config = AnalyzerConfig {
        rules: vec![entry("a", "error", false, None), entry("b", "error", true, Some("zig"))],
    };
    assert!(!config.to_analyzer_for_language("rust").has_rules());
    assert!(config.to_analyzer_for_language("zig").has_rules());
    let empty = AnalyzerConfig { rules: Vec::new() };
    assert!(!empty.to_analyzer_for_language("rust").has_rules());
}
