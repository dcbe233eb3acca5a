use vstd::prelude::*;

verus! {

/// Number of score units in one score point. Every score amount in this
/// crate (impacts, deductions, bonuses, scores) counts these units.
pub const SCORE_UNIT: u64 = 10_000;

/// The weight multiplier that stands for 1.0; weights count thousandths.
pub const WEIGHT_ONE: u32 = 1_000;

/// The score of a file without issues: ten points.
pub const MAX_SCORE: u64 = 100_000;

/// How serious an issue is. Each level has a fixed base deduction.
#[derive(Debug, Clone, Copy, PartialEq, Eq, Structural)]
pub enum Severity {
    Error,
    Warning,
    Info,
    Style,
}

impl Severity {
    /// Base deduction of this level as a magnitude, in tenths of a point:
    /// 3.0, 1.5, 0.4 and 0.2 points.
    pub open spec fn magnitude_tenths(self) -> int {
        match self {
            Severity::Error => 30,
            Severity::Warning => 15,
            Severity::Info => 4,
            Severity::Style => 2,
        }
    }

    /// Base score impact of this level in score units; never positive.
    pub open spec fn base_impact(self) -> int {
        -(self.magnitude_tenths() * 1_000)
    }

    /// The impact on the score of one issue of this level at weight 1.0,
    /// in score units: -3.0, -1.5, -0.4 or -0.2 points.
    pub fn base_score_impact(&self) -> (impact: i64)
        ensures
            impact == self.base_impact(),
    {
        match self {
            Severity::Error => -30_000,
            Severity::Warning => -15_000,
            Severity::Info => -4_000,
            Severity::Style => -2_000,
        }
    }
}

/// A pattern rule: what to look for, how serious a match is and what to say
/// about it.
#[derive(Debug, Clone)]
pub struct AnalysisRule {
    pub name: String,
    /// The pattern, in the query language of the syntax-tree engine.
    pub query: String,
    pub severity: Severity,
    pub message_template: String,
    pub suggestion: Option<String>,
    /// Multiplier of the severity's base deduction, in thousandths.
    pub weight_multiplier: u32,
}

impl AnalysisRule {
    /// A rule of weight 1.0.
    pub fn new(
        name: String,
        query: String,
        severity: Severity,
        message: String,
        suggestion: Option<String>,
    ) -> (rule: Self)
        ensures
            rule.name == name,
            rule.query == query,
            rule.severity == severity,
            rule.message_template == message,
            rule.suggestion == suggestion,
            rule.weight_multiplier == WEIGHT_ONE,
    {
        AnalysisRule {
            name,
            query,
            severity,
            message_template: message,
            suggestion,
            weight_multiplier: WEIGHT_ONE,
        }
    }

    /// The same rule with another weight, given in thousandths.
    pub fn with_weight(self, weight: u32) -> (rule: Self)
        ensures
            rule.name == self.name,
            rule.query == self.query,
            rule.severity == self.severity,
            rule.message_template == self.message_template,
            rule.suggestion == self.suggestion,
            rule.weight_multiplier == weight,
    {
        let mut rule = self;
        rule.weight_multiplier = weight;
        rule
    }

    /// The score impact of every issue of this rule: the severity's
    /// magnitude in tenths of a point times the weight in thousandths,
    /// negated. Tenths times thousandths are score units.
    pub open spec fn impact(self) -> int {
        -(self.severity.magnitude_tenths() * self.weight_multiplier)
    }

    /// Computes [`AnalysisRule::impact`].
    pub fn score_impact(&self) -> (impact: i64)
        ensures
            impact == self.impact(),
            impact <= 0,
            impact * WEIGHT_ONE == self.severity.base_impact() * self.weight_multiplier,
    {
        let tenths: i64 = -(self.severity.base_score_impact() / 1_000);
        assert(tenths == self.severity.magnitude_tenths());
        assert(0 <= tenths * self.weight_multiplier <= 30 * 0xffff_ffff) by (nonlinear_arith)
            requires
                0 <= tenths <= 30,
                0 <= self.weight_multiplier <= 0xffff_ffff,
        ;
        let impact: i64 = -(tenths * (self.weight_multiplier as i64));
        assert(impact * 1_000 == -(tenths * 1_000) * self.weight_multiplier) by (nonlinear_arith)
            requires
                impact == -(tenths * self.weight_multiplier),
        ;
        impact
    }
}

/// A node that a rule's pattern captured, as the syntax-tree engine reports
/// it.
#[derive(Debug, Clone)]
pub struct Capture {
    /// Row of the node's start, counted from 0.
    pub row: usize,
    /// Column of the node's start, counted from 0.
    pub column: usize,
    /// The source text under the node, if it is valid UTF-8.
    pub text: Option<String>,
}

/// What a capture holds, with its text as a sequence of characters.
pub struct CapturedNode {
    pub row: nat,
    pub column: nat,
    pub text: Option<Seq<char>>,
}

impl View for Capture {
    type V = CapturedNode;

    open spec fn view(&self) -> CapturedNode {
        CapturedNode {
            row: self.row as nat,
            column: self.column as nat,
            text: match self.text {
                Some(text) => Some(text@),
                None => None,
            },
        }
    }
}

/// One reported occurrence of a rule's pattern in the analysed text.
#[derive(Debug, Clone)]
pub struct AnalysisResult {
    pub rule_name: String,
    pub severity: Severity,
    /// The rule's message template, as it stands.
    pub message: String,
    /// Line of the captured node, counted from 1.
    pub line: usize,
    /// Column of the captured node, counted from 1.
    pub column: usize,
    /// The source text under the captured node.
    pub text: String,
    pub suggestion: Option<String>,
    /// What the issue takes from the score, in score units; never positive
    /// for an issue that a rule produced.
    pub score_impact: i64,
}

/// What an issue holds, with its texts as sequences of characters.
pub struct IssueView {
    pub rule_name: Seq<char>,
    pub severity: Severity,
    pub message: Seq<char>,
    pub line: nat,
    pub column: nat,
    pub text: Seq<char>,
    pub suggestion: Option<Seq<char>>,
    pub score_impact: int,
}

impl View for AnalysisResult {
    type V = IssueView;

    open spec fn view(&self) -> IssueView {
        IssueView {
            rule_name: self.rule_name@,
            severity: self.severity,
            message: self.message@,
            line: self.line as nat,
            column: self.column as nat,
            text: self.text@,
            suggestion: match self.suggestion {
                Some(text) => Some(text@),
                None => None,
            },
            score_impact: self.score_impact as int,
        }
    }
}

/// The issue that `rule` raises for `capture`: the rule's name, severity,
/// message and suggestion, the capture's position counted from 1, its text
/// (empty where it is not valid UTF-8), and the rule's impact.
pub open spec fn issue_for(rule: AnalysisRule, capture: CapturedNode) -> IssueView {
    IssueView {
        rule_name: rule.name@,
        severity: rule.severity,
        message: rule.message_template@,
        line: (capture.row + 1) as nat,
        column: (capture.column + 1) as nat,
        text: match capture.text {
            Some(text) => text,
            None => Seq::empty(),
        },
        suggestion: match rule.suggestion {
            Some(text) => Some(text@),
            None => None,
        },
        score_impact: rule.impact(),
    }
}

impl AnalysisResult {
    /// Builds the issue that `rule` raises for `capture`.
    pub fn from_capture(rule: &AnalysisRule, capture: &Capture) -> (issue: Self)
        requires
            capture.row < usize::MAX,
            capture.column < usize::MAX,
        ensures
            issue@ == issue_for(*rule, capture@),
    {
        let text = match &capture.text {
            Some(text) => text.clone(),
            None => String::new(),
        };
        AnalysisResult {
            rule_name: rule.name.clone(),
            severity: rule.severity,
            message: rule.message_template.clone(),
            line: capture.row + 1,
            column: capture.column + 1,
            text,
            suggestion: rule.suggestion.clone(),
            score_impact: rule.score_impact(),
        }
    }
}

/// The issues of a list as plain values.
pub open spec fn issue_views(issues: Seq<AnalysisResult>) -> Seq<IssueView> {
    issues.map_values(|issue: AnalysisResult| issue@)
}

/// Issue counts and deduction sums per severity, in score units.
#[derive(Debug, Clone, Copy, PartialEq, Eq, Structural)]
pub struct ScoreBreakdown {
    pub errors: usize,
    pub warnings: usize,
    pub info_issues: usize,
    pub style_issues: usize,
    pub error_deduction: u128,
    pub warning_deduction: u128,
    pub info_deduction: u128,
    pub style_deduction: u128,
    /// The part of the low-severity deductions that a large file is let
    /// off, rounded down to a whole score unit.
    pub size_bonus: u128,
}

/// The outcome of scoring one file.
#[derive(Debug, Clone)]
pub struct CodeScore {
    /// Between 0 and `MAX_SCORE`, a whole number of tenths of a point.
    pub overall_score: u64,
    pub max_score: u64,
    pub total_issues: usize,
    pub breakdown: ScoreBreakdown,
    pub rating: String,
    pub summary: String,
}

/// The qualitative label of a score. Each label covers a band of scores,
/// given in score units by [`Rating::lowest`] and [`Rating::highest`].
#[derive(Debug, Clone, Copy, PartialEq, Eq, Structural)]
pub enum Rating {
    Excellent,
    Good,
    Fair,
    Poor,
    Critical,
}

impl Rating {
    /// The lowest score of this rating's band.
    pub open spec fn lowest(self) -> nat {
        match self {
            Rating::Excellent => 90_000,
            Rating::Good => 75_000,
            Rating::Fair => 60_000,
            Rating::Poor => 40_000,
            Rating::Critical => 0,
        }
    }

    /// The highest score of this rating's band.
    pub open spec fn highest(self) -> nat {
        match self {
            Rating::Excellent => 100_000,
            Rating::Good => 89_000,
            Rating::Fair => 74_000,
            Rating::Poor => 59_000,
            Rating::Critical => 39_000,
        }
    }

    /// The rating of a score: the band that holds it, and `Critical` for
    /// any score that no band holds.
    pub open spec fn of_score(score: nat) -> Rating {
        if Rating::Excellent.lowest() <= score <= Rating::Excellent.highest() {
            Rating::Excellent
        } else if Rating::Good.lowest() <= score <= Rating::Good.highest() {
            Rating::Good
        } else if Rating::Fair.lowest() <= score <= Rating::Fair.highest() {
            Rating::Fair
        } else if Rating::Poor.lowest() <= score <= Rating::Poor.highest() {
            Rating::Poor
        } else {
            Rating::Critical
        }
    }

    /// The rating's name.
    pub open spec fn label_text(self) -> Seq<char> {
        match self {
            Rating::Excellent => "Excellent"@,
            Rating::Good => "Good"@,
            Rating::Fair => "Fair"@,
            Rating::Poor => "Poor"@,
            Rating::Critical => "Critical"@,
        }
    }

    /// Selects the rating of a score given in score units.
    pub fn from_score(score: u64) -> (rating: Rating)
        ensures
            rating == Rating::of_score(score as nat),
    {
        if 90_000 <= score && score <= 100_000 {
            Rating::Excellent
        } else if 75_000 <= score && score <= 89_000 {
            Rating::Good
        } else if 60_000 <= score && score <= 74_000 {
            Rating::Fair
        } else if 40_000 <= score && score <= 59_000 {
            Rating::Poor
        } else {
            Rating::Critical
        }
    }

    /// The rating's name.
    pub fn label(&self) -> (text: &'static str)
        ensures
            text@ == self.label_text(),
    {
        match self {
            Rating::Excellent => "Excellent",
            Rating::Good => "Good",
            Rating::Fair => "Fair",
            Rating::Poor => "Poor",
            Rating::Critical => "Critical",
        }
    }
}

/// An ordered set of rules, applied to one file at a time.
pub struct CodeAnalyzer {
    rules: Vec<AnalysisRule>,
}

impl View for CodeAnalyzer {
    type V = Seq<AnalysisRule>;

    /// The rules, in the order in which they were added.
    closed spec fn view(&self) -> Seq<AnalysisRule> {
        self.rules@
    }
}

impl CodeAnalyzer {
    /// An analyzer without rules.
    pub fn new() -> (analyzer: Self)
        ensures
            analyzer@ == Seq::<AnalysisRule>::empty(),
    {
        CodeAnalyzer { rules: Vec::new() }
    }

    /// Adds `rule` behind the rules that are there.
    pub fn add_rule(&mut self, rule: AnalysisRule)
        ensures
            final(self)@ == old(self)@.push(rule),
    {
        self.rules.push(rule);
    }

    /// Whether the analyzer has at least one rule.
    pub fn has_rules(&self) -> (some: bool)
        ensures
            some == (self@.len() > 0),
    {
        self.rules.len() > 0
    }

    /// The rules, in the order in which they were added.
    pub fn rules(&self) -> (rules: &[AnalysisRule])
        ensures
            rules@ == self@,
    {
        self.rules.as_slice()
    }
}

} // verus!
