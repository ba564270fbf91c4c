//! How durations, token counts and amounts of data are written.

use vstd::prelude::*;
use crate::agent::AgentBudgetSnapshot;
use crate::text::{decimal, decimal_text};
use crate::theme::ThemeColor;

verus! {

// ---------------------------------------------------------------------------
// Durations
// ---------------------------------------------------------------------------

/// A duration in words: hours, minutes and seconds, from the first that counts.
pub open spec fn duration_text(seconds: u64) -> Seq<char> {
    if seconds == 0 {
        "< 1 秒"@
    } else if seconds < 60 {
        decimal_text(seconds as nat) + " 秒"@
    } else if seconds < 3_600 {
        decimal_text(seconds as nat / 60) + " 分 "@ + decimal_text(seconds as nat % 60) + " 秒"@
    } else {
        decimal_text(seconds as nat / 3_600) + " 小时 "@ + decimal_text(
            seconds as nat % 3_600 / 60,
        ) + " 分 "@ + decimal_text(seconds as nat % 60) + " 秒"@
    }
}

/// Writes a duration.
pub fn format_stage_duration(seconds: u64) -> (result: String)
    ensures
        result@ == duration_text(seconds),
{
    if seconds == 0 {
        return "< 1 秒".to_owned();
    }
    let mut result = String::new();
    if seconds >= 3_600 {
        let hours = decimal(seconds / 3_600);
        result.push_str(hours.as_str());
        result.push_str(" 小时 ");
    }
    if seconds >= 60 {
        let minutes = decimal(seconds % 3_600 / 60);
        result.push_str(minutes.as_str());
        result.push_str(" 分 ");
    }
    let rest = decimal(seconds % 60);
    result.push_str(rest.as_str());
    result.push_str(" 秒");
    proof {
        assert(result@ =~= duration_text(seconds));
    }
    result
}

/// Writes how long an analysis took, from the scan of its sources on.
pub fn format_analysis_duration(seconds: u64) -> (result: String)
    ensures
        result@ == duration_text(seconds),
{
    format_stage_duration(seconds)
}

// ---------------------------------------------------------------------------
// Scales
// ---------------------------------------------------------------------------

/// The scale in which a token count is written.
#[derive(Clone, Copy, Debug, PartialEq, Eq, Structural)]
pub enum TokenScale {
    /// As it is.
    Units,
    /// In thousands.
    Thousands,
    /// In millions.
    Millions,
}

/// The scale of a token count.
pub open spec fn scale_of_tokens(tokens: u64) -> TokenScale {
    if tokens >= 1_000_000 {
        TokenScale::Millions
    } else if tokens >= 1_000 {
        TokenScale::Thousands
    } else {
        TokenScale::Units
    }
}

/// The scale of a token count.
pub fn token_scale(tokens: u64) -> (result: TokenScale)
    ensures
        result == scale_of_tokens(tokens),
{
    if tokens >= 1_000_000 {
        TokenScale::Millions
    } else if tokens >= 1_000 {
        TokenScale::Thousands
    } else {
        TokenScale::Units
    }
}

/// A token count in short. `scaled` is the count in its scale.
pub open spec fn short_tokens(tokens: u64, scaled: Seq<char>) -> Seq<char> {
    match scale_of_tokens(tokens) {
        TokenScale::Units => decimal_text(tokens as nat),
        TokenScale::Thousands => scaled + "K"@,
        TokenScale::Millions => scaled + "M"@,
    }
}

/// Writes a token count in short. `scaled` is the count in its scale, with one
/// digit behind the point.
pub fn compact_tokens(tokens: u64, scaled: &str) -> (result: String)
    ensures
        result@ == short_tokens(tokens, scaled@),
{
    match token_scale(tokens) {
        TokenScale::Units => decimal(tokens),
        TokenScale::Thousands => {
            let mut result = scaled.to_owned();
            result.push_str("K");
            result
        },
        TokenScale::Millions => {
            let mut result = scaled.to_owned();
            result.push_str("M");
            result
        },
    }
}

/// The unit in which an amount of data is written.
#[derive(Clone, Copy, Debug, PartialEq, Eq, Structural)]
pub enum ByteScale {
    /// Kibibytes.
    Kibi,
    /// Mebibytes.
    Mebi,
    /// Gibibytes.
    Gibi,
}

/// The unit of an amount of data.
pub open spec fn scale_of_bytes(bytes: u64) -> ByteScale {
    if bytes >= 1_073_741_824 {
        ByteScale::Gibi
    } else if bytes >= 1_048_576 {
        ByteScale::Mebi
    } else {
        ByteScale::Kibi
    }
}

/// The unit of an amount of data.
pub fn byte_scale(bytes: u64) -> (result: ByteScale)
    ensures
        result == scale_of_bytes(bytes),
{
    if bytes >= 1_073_741_824 {
        ByteScale::Gibi
    } else if bytes >= 1_048_576 {
        ByteScale::Mebi
    } else {
        ByteScale::Kibi
    }
}

/// An amount of data with its unit. `scaled` is the amount in that unit.
pub open spec fn byte_text(bytes: u64, scaled: Seq<char>) -> Seq<char> {
    scaled + (match scale_of_bytes(bytes) {
        ByteScale::Kibi => " KiB"@,
        ByteScale::Mebi => " MiB"@,
        ByteScale::Gibi => " GiB"@,
    })
}

/// Writes an amount of data with its unit. `scaled` is the amount in that unit,
/// with one digit behind the point.
pub fn format_bytes(bytes: u64, scaled: &str) -> (result: String)
    ensures
        result@ == byte_text(bytes, scaled@),
{
    let mut result = scaled.to_owned();
    result.push_str(
        match byte_scale(bytes) {
            ByteScale::Kibi => " KiB",
            ByteScale::Mebi => " MiB",
            ByteScale::Gibi => " GiB",
        },
    );
    result
}

// ---------------------------------------------------------------------------
// The budget bar
// ---------------------------------------------------------------------------

/// A budget's counts and amounts in their scales, with one digit behind the point.
#[derive(Debug, PartialEq, Eq)]
pub struct ScaledBudget {
    /// All tokens.
    pub total_tokens: String,
    /// Tokens sent.
    pub input_tokens: String,
    /// Tokens written.
    pub output_tokens: String,
    /// Tokens thought.
    pub reasoning_tokens: String,
    /// Tokens of the last request.
    pub latest_input_tokens: String,
    /// The share of the context window that the last request took, in percent.
    pub context_percentage: String,
    /// The context window.
    pub context_window: String,
    /// Data read here.
    pub local_scan_bytes: String,
    /// Log text sent.
    pub raw_log_bytes: String,
}

/// Two lines of the budget bar.
#[derive(Debug, PartialEq, Eq)]
pub struct BudgetMetric {
    /// The first line.
    pub title: String,
    /// The second line.
    pub detail: String,
}

/// What the tokens of a budget are made of.
pub open spec fn token_breakdown(budget: AgentBudgetSnapshot, scaled: ScaledBudget) -> Seq<char> {
    let shared = "入 "@ + short_tokens(budget.input_tokens, scaled.input_tokens@) + " · 出 "@
        + short_tokens(budget.output_tokens, scaled.output_tokens@);
    if budget.reasoning_tokens > 0 {
        shared + " · 思考 "@ + short_tokens(budget.reasoning_tokens, scaled.reasoning_tokens@)
    } else {
        shared
    }
}

/// Writes what the tokens of a budget are made of: thoughts only where there were
/// any.
pub fn format_token_breakdown(budget: &AgentBudgetSnapshot, scaled: &ScaledBudget) -> (result:
    String)
    ensures
        result@ == token_breakdown(*budget, *scaled),
{
    let mut result = "入 ".to_owned();
    let input = compact_tokens(budget.input_tokens, scaled.input_tokens.as_str());
    result.push_str(input.as_str());
    result.push_str(" · 出 ");
    let output = compact_tokens(budget.output_tokens, scaled.output_tokens.as_str());
    result.push_str(output.as_str());
    if budget.reasoning_tokens > 0 {
        result.push_str(" · 思考 ");
        let thought = compact_tokens(budget.reasoning_tokens, scaled.reasoning_tokens.as_str());
        result.push_str(thought.as_str());
    }
    result
}

/// Writes how much of the context window the last request took: its share, and
/// its tokens beside those of the window. A window of unknown size has no share.
pub fn format_context_metric(
    budget: &AgentBudgetSnapshot,
    context_window_tokens: u64,
    scaled: &ScaledBudget,
) -> (result: BudgetMetric)
    ensures
        ({
            let capacity = short_tokens(context_window_tokens, scaled.context_window@);
            match budget.latest_input_tokens {
                None => result.title@ == "上下文 --"@ && result.detail@ == "-- / "@ + capacity,
                Some(input) => {
                    &&& result.title@ == "上下文 "@ + (if context_window_tokens == 0 {
                        "0.0"@
                    } else {
                        scaled.context_percentage@
                    }) + "%"@
                    &&& result.detail@ == short_tokens(input, scaled.latest_input_tokens@) + " / "@
                        + capacity
                },
            }
        }),
{
    let capacity = compact_tokens(context_window_tokens, scaled.context_window.as_str());
    match budget.latest_input_tokens {
        None => {
            let mut detail = "-- / ".to_owned();
            detail.push_str(capacity.as_str());
            BudgetMetric { title: "上下文 --".to_owned(), detail }
        },
        Some(input) => {
            let mut title = "上下文 ".to_owned();
            if context_window_tokens == 0 {
                title.push_str("0.0");
            } else {
                title.push_str(scaled.context_percentage.as_str());
            }
            title.push_str("%");
            let mut detail = compact_tokens(input, scaled.latest_input_tokens.as_str());
            detail.push_str(" / ");
            detail.push_str(capacity.as_str());
            BudgetMetric { title, detail }
        },
    }
}

/// The sum of two counts, but never more than the machine counts.
pub open spec fn saturated_sum(left: u64, right: u64) -> u64 {
    if left + right > u64::MAX {
        u64::MAX
    } else {
        (left + right) as u64
    }
}

/// Writes the lines of the budget bar: calls, tokens, context, data and time.
/// `status_label` names the session's status.
pub fn budget_bar(
    budget: &AgentBudgetSnapshot,
    context_window_tokens: u64,
    overall_elapsed_seconds: u64,
    status_label: &str,
    scaled: &ScaledBudget,
) -> (result: Vec<BudgetMetric>)
    ensures
        result@.len() == 5,
        result@[0].title@ == "调用 "@ + decimal_text(
            saturated_sum(budget.model_requests, budget.tool_calls) as nat,
        ),
        result@[0].detail@ == "模型 "@ + decimal_text(budget.model_requests as nat) + " · 工具 "@
            + decimal_text(budget.tool_calls as nat),
        result@[1].title@ == "Token "@ + short_tokens(budget.total_tokens, scaled.total_tokens@),
        result@[1].detail@ == token_breakdown(*budget, *scaled),
        ({
            let capacity = short_tokens(context_window_tokens, scaled.context_window@);
            match budget.latest_input_tokens {
                None => result@[2].title@ == "上下文 --"@ && result@[2].detail@ == "-- / "@
                    + capacity,
                Some(input) => {
                    &&& result@[2].title@ == "上下文 "@ + (if context_window_tokens == 0 {
                        "0.0"@
                    } else {
                        scaled.context_percentage@
                    }) + "%"@
                    &&& result@[2].detail@ == short_tokens(input, scaled.latest_input_tokens@)
                        + " / "@ + capacity
                },
            }
        }),
        result@[3].title@ == "数据读取"@,
        result@[3].detail@ == "扫描 "@ + byte_text(
            budget.local_scan_bytes,
            scaled.local_scan_bytes@,
        ) + " · 原文 "@ + byte_text(budget.raw_log_bytes, scaled.raw_log_bytes@),
        result@[4].title@ == "总耗时 "@ + duration_text(overall_elapsed_seconds),
        result@[4].detail@ == status_label@,
{
    let total_calls: u64 = budget.model_requests.saturating_add(budget.tool_calls);
    let mut calls_title = "调用 ".to_owned();
    let calls = decimal(total_calls);
    calls_title.push_str(calls.as_str());
    let mut calls_detail = "模型 ".to_owned();
    let requests = decimal(budget.model_requests);
    calls_detail.push_str(requests.as_str());
    calls_detail.push_str(" · 工具 ");
    let tools = decimal(budget.tool_calls);
    calls_detail.push_str(tools.as_str());
    let mut token_title = "Token ".to_owned();
    let total = compact_tokens(budget.total_tokens, scaled.total_tokens.as_str());
    token_title.push_str(total.as_str());
    let token_detail = format_token_breakdown(budget, scaled);
    let context = format_context_metric(budget, context_window_tokens, scaled);
    let mut data_detail = "扫描 ".to_owned();
    let scanned = format_bytes(budget.local_scan_bytes, scaled.local_scan_bytes.as_str());
    data_detail.push_str(scanned.as_str());
    data_detail.push_str(" · 原文 ");
    let raw = format_bytes(budget.raw_log_bytes, scaled.raw_log_bytes.as_str());
    data_detail.push_str(raw.as_str());
    let mut elapsed_title = "总耗时 ".to_owned();
    let elapsed = format_analysis_duration(overall_elapsed_seconds);
    elapsed_title.push_str(elapsed.as_str());
    let mut metrics: Vec<BudgetMetric> = Vec::new();
    metrics.push(BudgetMetric { title: calls_title, detail: calls_detail });
    metrics.push(BudgetMetric { title: token_title, detail: token_detail });
    metrics.push(context);
    metrics.push(BudgetMetric { title: "数据读取".to_owned(), detail: data_detail });
    metrics.push(BudgetMetric { title: elapsed_title, detail: status_label.to_owned() });
    metrics
}

// ---------------------------------------------------------------------------
// The assistant's usage line
// ---------------------------------------------------------------------------

/// The tokens that an answer took: the reported total, or the sum of its parts
/// where no total was reported.
pub open spec fn answer_tokens(budget: AgentBudgetSnapshot) -> u64 {
    if budget.total_tokens == 0 {
        saturated_sum(budget.input_tokens, budget.output_tokens)
    } else {
        budget.total_tokens
    }
}

/// The tokens that an answer took.
pub fn total_answer_tokens(budget: &AgentBudgetSnapshot) -> (result: u64)
    ensures
        result == answer_tokens(*budget),
{
    if budget.total_tokens == 0 {
        budget.input_tokens.saturating_add(budget.output_tokens)
    } else {
        budget.total_tokens
    }
}

/// The assistant's usage line: the last error, or tokens and context.
pub open spec fn usage_text(
    budget: AgentBudgetSnapshot,
    context_window: u64,
    error: Option<Seq<char>>,
    scaled_total: Seq<char>,
    scaled_input: Seq<char>,
    percentage: Seq<char>,
) -> Seq<char> {
    match error {
        Some(message) => message,
        None => "Token "@ + short_tokens(answer_tokens(budget), scaled_total) + " · "@ + (
        match budget.latest_input_tokens {
            None => "上下文 --"@,
            Some(input) => if context_window == 0 {
                "上下文 "@ + short_tokens(input, scaled_input)
            } else {
                "上下文 "@ + percentage + "%"@
            },
        }),
    }
}

/// The colour of the assistant's usage line: what went wrong stands out.
pub fn usage_color(error: &Option<String>) -> (result: ThemeColor)
    ensures
        result == (if error is Some {
            ThemeColor::Error
        } else {
            ThemeColor::ForegroundMuted
        }),
{
    if error.is_some() {
        ThemeColor::Error
    } else {
        ThemeColor::ForegroundMuted
    }
}

/// Writes the assistant's usage line. `scaled_total` and `scaled_input` are the
/// tokens of the answer and of its last request in their scales, `percentage` the
/// share of the context window that the request took.
pub fn assistant_usage(
    budget: &AgentBudgetSnapshot,
    context_window: u64,
    error: &Option<String>,
    scaled_total: &str,
    scaled_input: &str,
    percentage: &str,
) -> (result: String)
    ensures
        result@ == usage_text(
            *budget,
            context_window,
            crate::keystroke::optional_text(*error),
            scaled_total@,
            scaled_input@,
            percentage@,
        ),
{
    match error {
        Some(message) => message.clone(),
        None => {
            let mut result = "Token ".to_owned();
            let total = compact_tokens(total_answer_tokens(budget), scaled_total);
            result.push_str(total.as_str());
            result.push_str(" · ");
            let mut context = "上下文 ".to_owned();
            match budget.latest_input_tokens {
                None => {
                    context = "上下文 --".to_owned();
                },
                Some(input) => {
                    if context_window == 0 {
                        let tokens = compact_tokens(input, scaled_input);
                        context.push_str(tokens.as_str());
                    } else {
                        context.push_str(percentage);
                        context.push_str("%");
                    }
                },
            }
            result.push_str(context.as_str());
            result
        },
    }
}

} // verus!
