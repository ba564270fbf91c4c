//! The rules by which log files are told apart by name, in words, and what a scan
//! by those rules found.

use vstd::prelude::*;
use crate::text::{chars_of, decimal, decimal_text, string_of};

verus! {

/// What a rule looks at.
#[derive(Clone, Copy, Debug, PartialEq, Eq, Structural)]
pub enum LogNameMatcherTarget {
    /// The name of the file.
    FileName,
    /// Its path below the root.
    RelativePath,
}

/// How a rule compares.
#[derive(Clone, Copy, Debug, PartialEq, Eq, Structural)]
pub enum LogNameMatcherMode {
    /// The whole text.
    Exact,
    /// Its beginning.
    Prefix,
    /// Its end.
    Suffix,
    /// Any part.
    Contains,
    /// A regular expression.
    Regex,
}

/// The name of a rule's target.
pub open spec fn target_text(target: LogNameMatcherTarget) -> Seq<char> {
    match target {
        LogNameMatcherTarget::FileName => "文件名"@,
        LogNameMatcherTarget::RelativePath => "相对路径"@,
    }
}

/// Names a rule's target.
pub fn matcher_target_label(target: LogNameMatcherTarget) -> (result: &'static str)
    ensures
        result@ == target_text(target),
{
    match target {
        LogNameMatcherTarget::FileName => "文件名",
        LogNameMatcherTarget::RelativePath => "相对路径",
    }
}

/// The name of a way to compare.
pub open spec fn mode_text(mode: LogNameMatcherMode) -> Seq<char> {
    match mode {
        LogNameMatcherMode::Exact => "完全相等"@,
        LogNameMatcherMode::Prefix => "前缀"@,
        LogNameMatcherMode::Suffix => "后缀"@,
        LogNameMatcherMode::Contains => "包含"@,
        LogNameMatcherMode::Regex => "正则"@,
    }
}

/// Names a way to compare.
pub fn matcher_mode_label(mode: LogNameMatcherMode) -> (result: &'static str)
    ensures
        result@ == mode_text(mode),
{
    match mode {
        LogNameMatcherMode::Exact => "完全相等",
        LogNameMatcherMode::Prefix => "前缀",
        LogNameMatcherMode::Suffix => "后缀",
        LogNameMatcherMode::Contains => "包含",
        LogNameMatcherMode::Regex => "正则",
    }
}

/// The other target.
pub open spec fn other_target(target: LogNameMatcherTarget) -> LogNameMatcherTarget {
    match target {
        LogNameMatcherTarget::FileName => LogNameMatcherTarget::RelativePath,
        LogNameMatcherTarget::RelativePath => LogNameMatcherTarget::FileName,
    }
}

/// Switches to the other target.
pub fn next_matcher_target(target: LogNameMatcherTarget) -> (result: LogNameMatcherTarget)
    ensures
        result == other_target(target),
{
    match target {
        LogNameMatcherTarget::FileName => LogNameMatcherTarget::RelativePath,
        LogNameMatcherTarget::RelativePath => LogNameMatcherTarget::FileName,
    }
}

/// The way to compare that comes next.
pub open spec fn following_mode(mode: LogNameMatcherMode) -> LogNameMatcherMode {
    match mode {
        LogNameMatcherMode::Exact => LogNameMatcherMode::Prefix,
        LogNameMatcherMode::Prefix => LogNameMatcherMode::Suffix,
        LogNameMatcherMode::Suffix => LogNameMatcherMode::Contains,
        LogNameMatcherMode::Contains => LogNameMatcherMode::Regex,
        LogNameMatcherMode::Regex => LogNameMatcherMode::Exact,
    }
}

/// Goes on to the next way to compare.
pub fn next_matcher_mode(mode: LogNameMatcherMode) -> (result: LogNameMatcherMode)
    ensures
        result == following_mode(mode),
{
    match mode {
        LogNameMatcherMode::Exact => LogNameMatcherMode::Prefix,
        LogNameMatcherMode::Prefix => LogNameMatcherMode::Suffix,
        LogNameMatcherMode::Suffix => LogNameMatcherMode::Contains,
        LogNameMatcherMode::Contains => LogNameMatcherMode::Regex,
        LogNameMatcherMode::Regex => LogNameMatcherMode::Exact,
    }
}

/// A way to compare, some steps on.
pub open spec fn mode_after(mode: LogNameMatcherMode, steps: nat) -> LogNameMatcherMode
    decreases steps,
{
    if steps == 0 {
        mode
    } else {
        following_mode(mode_after(mode, (steps - 1) as nat))
    }
}

/// Every way to compare is reached from every other in fewer than five steps, and
/// the fifth step leads back.
pub proof fn law_modes_go_round(from: LogNameMatcherMode, to: LogNameMatcherMode)
    ensures
        exists|steps: nat| steps < 5 && #[trigger] mode_after(from, steps) == to,
        mode_after(from, 5) == from,
{
    reveal_with_fuel(mode_after, 6);
    assert(mode_after(from, 0) == to || mode_after(from, 1) == to || mode_after(from, 2) == to
        || mode_after(from, 3) == to || mode_after(from, 4) == to);
}

// ---------------------------------------------------------------------------
// Patterns on one line
// ---------------------------------------------------------------------------

/// The most characters of a pattern that are shown.
pub const PATTERN_DISPLAY_CHARS: usize = 120;

/// A character of a pattern on one line.
pub open spec fn escaped_char(character: char) -> Seq<char> {
    if character == '\r' {
        seq!['\\', 'r']
    } else if character == '\n' {
        seq!['\\', 'n']
    } else if character == '\t' {
        seq!['\\', 't']
    } else {
        seq![character]
    }
}

/// A pattern on one line.
pub open spec fn escaped(pattern: Seq<char>) -> Seq<char>
    decreases pattern.len(),
{
    if pattern.len() == 0 {
        Seq::empty()
    } else {
        escaped(pattern.drop_last()) + escaped_char(pattern.last())
    }
}

/// A pattern on one line, cut where it is long.
pub open spec fn compact_pattern(pattern: Seq<char>) -> Seq<char> {
    let line = escaped(pattern);
    if line.len() > PATTERN_DISPLAY_CHARS {
        line.take(PATTERN_DISPLAY_CHARS as int) + seq!['…']
    } else {
        line
    }
}

/// Writes a pattern on one line and cuts it where it is long.
pub fn compact_matcher_pattern(pattern: &str) -> (result: String)
    ensures
        result@ == compact_pattern(pattern@),
{
    let characters = chars_of(pattern);
    let mut line: Vec<char> = Vec::new();
    let mut i: usize = 0;
    while i < characters.len()
        invariant
            i <= characters@.len(),
            characters@ == pattern@,
            line@ == escaped(pattern@.take(i as int)),
        decreases characters@.len() - i,
    {
        proof {
            assert(pattern@.take(i + 1).drop_last() =~= pattern@.take(i as int));
        }
        let character = characters[i];
        if character == '\r' {
            line.push('\\');
            line.push('r');
        } else if character == '\n' {
            line.push('\\');
            line.push('n');
        } else if character == '\t' {
            line.push('\\');
            line.push('t');
        } else {
            line.push(character);
        }
        proof {
            assert(line@ =~= escaped(pattern@.take(i as int)) + escaped_char(character));
        }
        i += 1;
    }
    proof {
        assert(pattern@.take(i as int) =~= pattern@);
    }
    if line.len() > PATTERN_DISPLAY_CHARS {
        line.truncate(PATTERN_DISPLAY_CHARS);
        line.push('…');
    }
    string_of(line.as_slice())
}

/// Whether a character would begin another line or column.
pub open spec fn breaks_layout(character: char) -> bool {
    character == '\r' || character == '\n' || character == '\t'
}

proof fn lemma_escaped_stays_on_line(pattern: Seq<char>, at: int)
    requires
        0 <= at < escaped(pattern).len(),
    ensures
        !breaks_layout(escaped(pattern)[at]),
    decreases pattern.len(),
{
    if pattern.len() > 0 {
        let head = escaped(pattern.drop_last());
        if at < head.len() {
            lemma_escaped_stays_on_line(pattern.drop_last(), at);
        }
    }
}

/// A pattern is shown on one line, with no tab in it, and with at most one
/// character more than the limit.
pub proof fn law_shown_pattern_stays_on_line(pattern: Seq<char>)
    ensures
        compact_pattern(pattern).len() <= PATTERN_DISPLAY_CHARS + 1,
        forall|at: int|
            0 <= at < compact_pattern(pattern).len() ==> !breaks_layout(
                #[trigger] compact_pattern(pattern)[at],
            ),
{
    assert forall|at: int| 0 <= at < compact_pattern(pattern).len() implies !breaks_layout(
        #[trigger] compact_pattern(pattern)[at],
    ) by {
        if at < escaped(pattern).len() {
            lemma_escaped_stays_on_line(pattern, at);
        }
    }
}

// ---------------------------------------------------------------------------
// What a scan found
// ---------------------------------------------------------------------------

/// What one rule found.
#[derive(Debug, PartialEq, Eq)]
pub struct AgentLogRuleMatchSummary {
    /// What it looks at.
    pub target: LogNameMatcherTarget,
    /// How it compares.
    pub mode: LogNameMatcherMode,
    /// Whether upper and lower case differ.
    pub case_sensitive: bool,
    /// What it looks for.
    pub pattern: String,
    /// How many files it found.
    pub matched_file_count: usize,
}

/// What the rules of one log type found.
#[derive(Debug, PartialEq, Eq)]
pub struct AgentLogProfileMatchSummary {
    /// The name of the log type.
    pub profile_name: String,
    /// Its priority.
    pub priority: u16,
    /// How many files its rules found.
    pub matched_file_count: usize,
    /// How many files were taken for this type.
    pub selected_file_count: usize,
    /// What each rule found.
    pub rules: Vec<AgentLogRuleMatchSummary>,
}

/// The line on one rule, behind a line break.
pub open spec fn rule_line(rule: AgentLogRuleMatchSummary, index: int) -> Seq<char> {
    seq!['\n'] + "  规则 "@ + decimal_text((index + 1) as nat) + " · "@ + target_text(rule.target)
        + " · "@ + mode_text(rule.mode) + " · "@ + (if rule.case_sensitive {
        "区分大小写"@
    } else {
        "忽略大小写"@
    }) + " · “"@ + compact_pattern(rule.pattern@) + "”：命中 "@ + decimal_text(
        rule.matched_file_count as nat,
    ) + " 个文件"@
}

/// The lines on some rules, each behind a line break.
pub open spec fn rule_lines(rules: Seq<AgentLogRuleMatchSummary>) -> Seq<char>
    decreases rules.len(),
{
    if rules.len() == 0 {
        Seq::empty()
    } else {
        rule_lines(rules.drop_last()) + rule_line(rules.last(), rules.len() - 1)
    }
}

/// The lines on one log type, each behind a line break.
pub open spec fn profile_lines(summary: AgentLogProfileMatchSummary) -> Seq<char> {
    seq!['\n'] + summary.profile_name@ + "（优先级 "@ + decimal_text(summary.priority as nat)
        + "）：规则命中 "@ + decimal_text(summary.matched_file_count as nat)
        + " 个文件，最终采用 "@ + decimal_text(summary.selected_file_count as nat) + " 个文件"@
        + rule_lines(summary.rules@)
}

/// The lines on some log types, each behind a line break.
pub open spec fn all_profile_lines(summaries: Seq<AgentLogProfileMatchSummary>) -> Seq<char>
    decreases summaries.len(),
{
    if summaries.len() == 0 {
        Seq::empty()
    } else {
        all_profile_lines(summaries.drop_last()) + profile_lines(summaries.last())
    }
}

/// What a scan found, in words.
pub open spec fn scan_summary(
    source_count: usize,
    profile_count: usize,
    summaries: Seq<AgentLogProfileMatchSummary>,
) -> Seq<char> {
    let head = "工作区清单已固化，共 "@ + decimal_text(source_count as nat)
        + " 个日志文件，匹配 "@ + decimal_text(profile_count as nat)
        + " 种日志类型说明；模型可调用 list_loaded_sources、read_file 和受控 bash 在工作目录内取证。"@;
    if summaries.len() == 0 {
        head + seq!['\n'] + "当前没有已启用的日志类型匹配规则。"@
    } else {
        head + seq!['\n'] + "规则命中统计（同一文件可以命中多条规则）："@
            + all_profile_lines(summaries)
    }
}

fn push_rule_line(text: &mut String, rule: &AgentLogRuleMatchSummary, index: usize)
    requires
        index < usize::MAX,
    ensures
        final(text)@ == old(text)@ + rule_line(*rule, index as int),
{
    text.push('\n');
    text.push_str("  规则 ");
    text.push_str(decimal((index + 1) as u64).as_str());
    text.push_str(" · ");
    text.push_str(matcher_target_label(rule.target));
    text.push_str(" · ");
    text.push_str(matcher_mode_label(rule.mode));
    text.push_str(" · ");
    text.push_str(
        if rule.case_sensitive {
            "区分大小写"
        } else {
            "忽略大小写"
        },
    );
    text.push_str(" · “");
    text.push_str(compact_matcher_pattern(rule.pattern.as_str()).as_str());
    text.push_str("”：命中 ");
    text.push_str(decimal(rule.matched_file_count as u64).as_str());
    text.push_str(" 个文件");
    proof {
        assert(text@ =~= old(text)@ + rule_line(*rule, index as int));
    }
}

fn push_profile_lines(text: &mut String, summary: &AgentLogProfileMatchSummary)
    ensures
        final(text)@ == old(text)@ + profile_lines(*summary),
{
    text.push('\n');
    text.push_str(summary.profile_name.as_str());
    text.push_str("（优先级 ");
    text.push_str(decimal(summary.priority as u64).as_str());
    text.push_str("）：规则命中 ");
    text.push_str(decimal(summary.matched_file_count as u64).as_str());
    text.push_str(" 个文件，最终采用 ");
    text.push_str(decimal(summary.selected_file_count as u64).as_str());
    text.push_str(" 个文件");
    let ghost head = text@;
    let ghost rules = summary.rules@;
    let mut i: usize = 0;
    proof {
        assert(rules.take(0) =~= Seq::empty());
        assert(head =~= head + rule_lines(rules.take(0)));
    }
    while i < summary.rules.len()
        invariant
            i <= summary.rules@.len(),
            rules == summary.rules@,
            text@ == head + rule_lines(rules.take(i as int)),
        decreases summary.rules@.len() - i,
    {
        proof {
            assert(rules.take(i + 1).drop_last() =~= rules.take(i as int));
        }
        push_rule_line(text, &summary.rules[i], i);
        proof {
            assert(text@ =~= head + rule_lines(rules.take(i + 1)));
        }
        i += 1;
    }
    proof {
        assert(rules.take(i as int) =~= rules);
        assert(text@ =~= old(text)@ + profile_lines(*summary));
    }
}

/// Says what a scan found.
pub fn format_source_scan_summary(
    source_count: usize,
    profile_count: usize,
    match_summaries: &Vec<AgentLogProfileMatchSummary>,
) -> (result: String)
    ensures
        result@ == scan_summary(source_count, profile_count, match_summaries@),
{
    let mut text = "工作区清单已固化，共 ".to_owned();
    text.push_str(decimal(source_count as u64).as_str());
    text.push_str(" 个日志文件，匹配 ");
    text.push_str(decimal(profile_count as u64).as_str());
    text.push_str(
        " 种日志类型说明；模型可调用 list_loaded_sources、read_file 和受控 bash 在工作目录内取证。",
    );
    text.push('\n');
    if match_summaries.len() == 0 {
        text.push_str("当前没有已启用的日志类型匹配规则。");
        proof {
            assert(text@ =~= scan_summary(source_count, profile_count, match_summaries@));
        }
        return text;
    }
    text.push_str("规则命中统计（同一文件可以命中多条规则）：");
    let ghost head = text@;
    let ghost summaries = match_summaries@;
    let mut i: usize = 0;
    proof {
        assert(summaries.take(0) =~= Seq::empty());
        assert(head =~= head + all_profile_lines(summaries.take(0)));
    }
    while i < match_summaries.len()
        invariant
            i <= match_summaries@.len(),
            summaries == match_summaries@,
            text@ == head + all_profile_lines(summaries.take(i as int)),
        decreases match_summaries@.len() - i,
    {
        proof {
            assert(summaries.take(i + 1).drop_last() =~= summaries.take(i as int));
        }
        push_profile_lines(&mut text, &match_summaries[i]);
        proof {
            assert(text@ =~= head + all_profile_lines(summaries.take(i + 1)));
        }
        i += 1;
    }
    proof {
        assert(summaries.take(i as int) =~= summaries);
        assert(text@ =~= scan_summary(source_count, profile_count, match_summaries@));
    }
    text
}

} // verus!
