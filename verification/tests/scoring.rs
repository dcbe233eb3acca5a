use compass::analyzer::{AnalysisResult, CodeAnalyzer, Rating, ScoreBreakdown, Severity};
use compass::scoring::{leniency_for, round_to_tenths, size_factor_for, tally};

fn issue(severity: Severity, score_impact: i64) -> AnalysisResult {
    AnalysisResult {
        rule_name: String::from("rule"),
        severity,
        message: String::from("message"),
        line: 1,
        column: 1,
        text: String::new(),
        suggestion: None,
        score_impact,
    }
}

fn issues(severity: Severity, score_impact: i64, count: usize) -> Vec<AnalysisResult> {
    (0..count).map(|_| issue(severity, score_impact)).collect()
}

fn counts(errors: usize, warnings: usize, info_issues: usize) -> ScoreBreakdown {
    ScoreBreakdown {
        errors,
        warnings,
        info_issues,
        style_issues: 0,
        error_deduction: 0,
        warning_deduction: 0,
        info_deduction: 0,
        style_deduction: 0,
        size_bonus: 0,
    }
}

#[test]
fn no_issues_score_ten() {
    let score = CodeAnalyzer::new().score_for_line_count(&[], 100);
    assert_eq!(score.overall_score, 100_000);
    assert_eq!(score.max_score, 100_000);
    assert_eq!(score.total_issues, 0);
    assert_eq!(score.rating, "Excellent");
    assert_eq!(score.summary, "Excellent code quality with minimal issues");
    assert_eq!(score.breakdown, counts(0, 0, 0));
}

#[test]
fn one_error_scores_seven() {
    let found = issues(Severity::Error, -30_000, 1);
    let score = CodeAnalyzer::new().score_for_line_count(&found, 100);
    assert_eq!(score.breakdown.error_deduction, 30_000);
    assert_eq!(score.breakdown.errors, 1);
    assert_eq!(size_factor_for(100), 1_000);
    assert_eq!(score.overall_score, 70_000);
    assert_eq!(score.rating, "Fair");
    assert_eq!(score.summary, "Code has 1 critical errors that need immediate attention");
}

#[test]
fn six_warnings_score_one() {
    let found = issues(Severity::Warning, -15_000, 6);
    let score = CodeAnalyzer::new().score_for_line_count(&found, 100);
    assert_eq!(score.breakdown.warning_deduction, 90_000);
    assert_eq!(score.breakdown.warnings, 6);
    assert_eq!(score.breakdown.errors, 0);
    assert_eq!(score.overall_score, 10_000);
    assert_eq!(score.rating, "Critical");
    assert_eq!(score.summary, "Multiple warnings detected - consider addressing them");
}

#[test]
fn five_style_issues_in_a_long_file() {
    let found = issues(Severity::Style, -2_000, 5);
    let score = CodeAnalyzer::new().score_for_line_count(&found, 1_200);
    assert_eq!(score.breakdown.style_deduction, 10_000);
    assert_eq!(leniency_for(1_200), 300);
    assert_eq!(score.breakdown.size_bonus, 3_000);
    assert_eq!(size_factor_for(1_200), 1_300);
    assert_eq!(score.overall_score, 92_000);
    assert_eq!(score.rating, "Excellent");
}

#[test]
fn score_stays_within_zero_and_ten() {
    let analyzer = CodeAnalyzer::new();
    let heavy = issues(Severity::Error, i64::MIN, 50);
    for line_count in [0usize, 10, 49, 50, 200, 201, 500, 5_000, usize::MAX] {
        let score = analyzer.score_for_line_count(&heavy, line_count);
        assert_eq!(score.overall_score, 0);
        assert_eq!(score.rating, "Critical");
        let none = analyzer.score_for_line_count(&[], line_count);
        assert_eq!(none.overall_score, 100_000);
    }
}

#[test]
fn counts_add_up_to_the_number_of_issues() {
    let mut found = issues(Severity::Error, -30_000, 2);
    found.extend(issues(Severity::Warning, -15_000, 3));
    found.extend(issues(Severity::Info, -4_000, 4));
    found.extend(issues(Severity::Style, -2_000, 5));
    let score = CodeAnalyzer::new().score_for_line_count(&found, 100);
    assert_eq!(score.total_issues, 14);
    assert_eq!(score.total_issues, found.len());
    let breakdown = score.breakdown;
    assert_eq!(
        breakdown.errors + breakdown.warnings + breakdown.info_issues + breakdown.style_issues,
        14
    );
    assert_eq!(breakdown.errors, 2);
    assert_eq!(breakdown.warnings, 3);
    assert_eq!(breakdown.info_issues, 4);
    assert_eq!(breakdown.style_issues, 5);
    assert_eq!(breakdown.error_deduction, 60_000);
    assert_eq!(breakdown.warning_deduction, 45_000);
    assert_eq!(breakdown.info_deduction, 16_000);
    assert_eq!(breakdown.style_deduction, 10_000);
    assert_eq!(score.overall_score, 0);
}

#[test]
fn tally_takes_the_magnitude_of_an_impact() {
    let found = vec![
        issue(Severity::Info, 4_000),
        issue(Severity::Info, -4_000),
        issue(Severity::Style, i64::MIN),
    ];
    let breakdown = tally(&found);
    assert_eq!(breakdown.info_issues, 2);
    assert_eq!(breakdown.info_deduction, 8_000);
    assert_eq!(breakdown.style_deduction, 1u128 << 63);
    assert_eq!(breakdown.size_bonus, 0);
}

#[test]
fn adding_an_issue_never_raises_the_score() {
    let analyzer = CodeAnalyzer::new();
    let extra = [
        issue(Severity::Error, -30_000),
        issue(Severity::Warning, -15_000),
        issue(Severity::Info, -4_000),
        issue(Severity::Style, -2_000),
        issue(Severity::Style, 0),
        issue(Severity::Info, 700),
    ];
    for line_count in [10usize, 100, 350, 2_000] {
        let mut found: Vec<AnalysisResult> = Vec::new();
        let mut last = analyzer.score_for_line_count(&found, line_count).overall_score;
        for round in 0..6 {
            for (position, added) in extra.iter().enumerate() {
                let at = (position + round) % (found.len() + 1);
                found.insert(at, added.clone());
                let next = analyzer.score_for_line_count(&found, line_count).overall_score;
                assert!(next <= last);
                last = next;
            }
        }
    }
}

#[test]
fn leniency_grows_with_length_up_to_its_cap() {
    assert_eq!(leniency_for(0), 0);
    assert_eq!(leniency_for(200), 0);
    assert_eq!(leniency_for(201), 1);
    assert_eq!(leniency_for(350), 150);
    assert_eq!(leniency_for(499), 299);
    assert_eq!(leniency_for(500), 300);
    assert_eq!(leniency_for(501), 300);
    assert_eq!(leniency_for(usize::MAX), 300);
}

#[test]
fn size_factor_by_line_count() {
    assert_eq!(size_factor_for(0), 900);
    assert_eq!(size_factor_for(49), 900);
    assert_eq!(size_factor_for(50), 1_000);
    assert_eq!(size_factor_for(200), 1_000);
    assert_eq!(size_factor_for(201), 1_001);
    assert_eq!(size_factor_for(450), 1_250);
    assert_eq!(size_factor_for(1_000_000), 1_300);
}

#[test]
fn size_bonus_only_for_long_files() {
    let analyzer = CodeAnalyzer::new();
    let mut found = issues(Severity::Info, -4_000, 3);
    found.extend(issues(Severity::Style, -2_000, 2));
    found.extend(issues(Severity::Error, -30_000, 1));
    for line_count in [0usize, 49, 50, 199, 200] {
        assert_eq!(analyzer.score_for_line_count(&found, line_count).breakdown.size_bonus, 0);
    }
    // 0.001 of 1.6 points, 0.25 of 1.6 points, 0.3 of 1.6 points
    assert_eq!(analyzer.score_for_line_count(&found, 201).breakdown.size_bonus, 16);
    assert_eq!(analyzer.score_for_line_count(&found, 450).breakdown.size_bonus, 4_000);
    assert_eq!(analyzer.score_for_line_count(&found, 9_999).breakdown.size_bonus, 4_800);
}

#[test]
fn size_bonus_is_rounded_down() {
    let found = issues(Severity::Style, -3, 1);
    let score = CodeAnalyzer::new().score_for_line_count(&found, 500);
    // 0.3 of 3 units is 0.9 units
    assert_eq!(score.breakdown.size_bonus, 0);
    let found = issues(Severity::Style, -3_334, 1);
    let score = CodeAnalyzer::new().score_for_line_count(&found, 500);
    assert_eq!(score.breakdown.size_bonus, 1_000);
}

#[test]
fn short_files_are_held_to_a_stricter_standard() {
    let found = issues(Severity::Warning, -15_000, 1);
    let analyzer = CodeAnalyzer::new();
    // 10 - 1.5 / 0.9 = 8.33..
    let short = analyzer.score_for_line_count(&found, 10);
    assert_eq!(short.overall_score, 83_000);
    assert_eq!(short.rating, "Good");
    assert_eq!(short.summary, "Good code quality with room for minor improvements");
    // 10 - 1.5 = 8.5
    let medium = analyzer.score_for_line_count(&found, 100);
    assert_eq!(medium.overall_score, 85_000);
    // 10 - 1.5 / 1.3 = 8.846..
    let long = analyzer.score_for_line_count(&found, 800);
    assert_eq!(long.overall_score, 88_000);
}

#[test]
fn rounding_to_the_nearest_tenth() {
    // 10 - 0.25 = 9.75, a half rounds up
    assert_eq!(round_to_tenths(2_500, 1_000), 98);
    // 10 - 0.2499 = 9.7501
    assert_eq!(round_to_tenths(2_499, 1_000), 98);
    // 10 - 0.2501 = 9.7499
    assert_eq!(round_to_tenths(2_501, 1_000), 97);
    assert_eq!(round_to_tenths(0, 900), 100);
    assert_eq!(round_to_tenths(499, 1_000), 100);
    assert_eq!(round_to_tenths(500, 1_000), 100);
    assert_eq!(round_to_tenths(501, 1_000), 99);
    // 10 - 9.96 = 0.04
    assert_eq!(round_to_tenths(99_600, 1_000), 0);
    // 10 - 9.95 = 0.05
    assert_eq!(round_to_tenths(99_500, 1_000), 1);
    assert_eq!(round_to_tenths(100_000, 1_000), 0);
    assert_eq!(round_to_tenths(130_000, 1_300), 0);
    assert_eq!(round_to_tenths(129_999, 1_300), 0);
    assert_eq!(round_to_tenths(u128::MAX, 1_300), 0);
    // 10 - 1 / 1.3 = 9.2307..
    assert_eq!(round_to_tenths(10_000, 1_300), 92);
}

#[test]
fn rating_bands() {
    assert_eq!(Rating::from_score(100_000), Rating::Excellent);
    assert_eq!(Rating::from_score(90_000), Rating::Excellent);
    assert_eq!(Rating::from_score(89_000), Rating::Good);
    assert_eq!(Rating::from_score(75_000), Rating::Good);
    assert_eq!(Rating::from_score(74_000), Rating::Fair);
    assert_eq!(Rating::from_score(60_000), Rating::Fair);
    assert_eq!(Rating::from_score(59_000), Rating::Poor);
    assert_eq!(Rating::from_score(40_000), Rating::Poor);
    assert_eq!(Rating::from_score(39_000), Rating::Critical);
    assert_eq!(Rating::from_score(0), Rating::Critical);
}

#[test]
fn every_tenth_has_the_rating_of_its_band() {
    let bands = [
        (Rating::Excellent, 90_000u64, 100_000u64),
        (Rating::Good, 75_000, 89_000),
        (Rating::Fair, 60_000, 74_000),
        (Rating::Poor, 40_000, 59_000),
        (Rating::Critical, 0, 39_000),
    ];
    for tenths in 0..=100u64 {
        let score = tenths * 1_000;
        let holding: Vec<Rating> = bands
            .iter()
            .filter(|band| band.1 <= score && score <= band.2)
            .map(|band| band.0)
            .collect();
        assert_eq!(holding, vec![Rating::from_score(score)]);
    }
}

#[test]
fn scores_outside_every_band_are_critical() {
    assert_eq!(Rating::from_score(89_500), Rating::Critical);
    assert_eq!(Rating::from_score(74_001), Rating::Critical);
    assert_eq!(Rating::from_score(59_999), Rating::Critical);
    assert_eq!(Rating::from_score(100_001), Rating::Critical);
    assert_eq!(Rating::from_score(u64::MAX), Rating::Critical);
}

#[test]
fn rating_labels() {
    assert_eq!(Rating::Excellent.label(), "Excellent");
    assert_eq!(Rating::Good.label(), "Good");
    assert_eq!(Rating::Fair.label(), "Fair");
    assert_eq!(Rating::Poor.label(), "Poor");
    assert_eq!(Rating::Critical.label(), "Critical");
}

#[test]
fn summary_goes_by_the_first_condition_that_holds() {
    let analyzer = CodeAnalyzer::new();
    let summary = |score: u64, breakdown: ScoreBreakdown| {
        analyzer.get_rating_and_summary(score, &breakdown).1
    };
    assert_eq!(
        summary(100_000, counts(12, 9, 40)),
        "Code has 12 critical errors that need immediate attention"
    );
    assert_eq!(
        summary(100_000, counts(0, 6, 40)),
        "Multiple warnings detected - consider addressing them"
    );
    assert_eq!(
        summary(100_000, counts(0, 5, 11)),
        "Many minor issues found - good opportunity for cleanup"
    );
    assert_eq!(summary(90_000, counts(0, 5, 10)), "Excellent code quality with minimal issues");
    assert_eq!(
        summary(89_000, counts(0, 5, 10)),
        "Good code quality with room for minor improvements"
    );
    assert_eq!(
        summary(75_000, counts(0, 0, 0)),
        "Good code quality with room for minor improvements"
    );
    assert_eq!(summary(74_000, counts(0, 0, 0)), "Code needs improvement in several areas");
    assert_eq!(summary(0, counts(0, 0, 0)), "Code needs improvement in several areas");
}

#[test]
fn summary_and_rating_can_disagree() {
    let analyzer = CodeAnalyzer::new();
    let found = issues(Severity::Error, -1_000, 1);
    let score = analyzer.score_for_line_count(&found, 100);
    assert_eq!(score.overall_score, 99_000);
    assert_eq!(score.rating, "Excellent");
    assert_eq!(score.summary, "Code has 1 critical errors that need immediate attention");
}

#[test]
fn calculate_score_counts_the_lines_of_the_text() {
    let analyzer = CodeAnalyzer::new();
    let found = issues(Severity::Warning, -15_000, 1);
    let short = "fn main() {}\n".repeat(49);
    let medium = "fn main() {}\n".repeat(50);
    let long = "fn main() {}\n".repeat(800);
    assert_eq!(analyzer.calculate_score(&found, &short).overall_score, 83_000);
    assert_eq!(analyzer.calculate_score(&found, &medium).overall_score, 85_000);
    assert_eq!(analyzer.calculate_score(&found, &long).overall_score, 88_000);
    assert_eq!(analyzer.calculate_score(&found, "").overall_score, 83_000);
}

#[test]
fn equal_inputs_give_equal_scores() {
    let analyzer = CodeAnalyzer::new();
    let mut found = issues(Severity::Info, -4_000, 11);
    found.extend(issues(Severity::Style, -2_000, 3));
    let first = analyzer.score_for_line_count(&found, 321);
    let second = analyzer.score_for_line_count(&found.clone(), 321);
    assert_eq!(first.overall_score, second.overall_score);
    assert_eq!(first.breakdown, second.breakdown);
    assert_eq!(first.rating, second.rating);
    assert_eq!(first.summary, second.summary);
    assert_eq!(first.total_issues, second.total_issues);
    assert_eq!(first.summary, "Many minor issues found - good opportunity for cleanup");
    // 5.0 points over 1.121
    assert_eq!(first.overall_score, 55_000);
    assert_eq!(first.breakdown.size_bonus, 6_050);
}
