//! The stream of an analysis: its rows, its figures and its times.

use std::collections::HashSet;

use argus_ui::agent::{
    approval_card_appearance, AgentBudgetSnapshot, AgentSessionStatus, AgentTraceEntry,
    AgentTraceKind, BashApprovalCard, BashApprovalStatus,
};
use argus_ui::agent_stream::{
    build_agent_stream_items, changed_stream_item_ranges, AgentStreamItem, RowSplice,
};
use argus_ui::clock::{moment_number, TraceTime};
use argus_ui::metrics::{
    budget_bar, byte_scale, compact_tokens, format_analysis_duration, format_bytes,
    format_context_metric, format_stage_duration, token_scale, usage_color, ByteScale, ScaledBudget,
    TokenScale,
};
use argus_ui::theme::ThemeColor;

fn at(seconds: i64) -> TraceTime {
    TraceTime { seconds, nanos: 0 }
}

fn trace(kind: AgentTraceKind, title: &str, detail: &str, seconds: i64) -> AgentTraceEntry {
    AgentTraceEntry::new(kind, title, detail, at(seconds))
}

fn trace_row(content_bytes: usize) -> AgentStreamItem {
    AgentStreamItem::Trace { trace_index: 0, trace_id: 1, content_bytes, is_active: true }
}

#[test]
fn changed_stream_items_only_replace_modified_range() {
    let previous = vec![AgentStreamItem::Question, trace_row(10), AgentStreamItem::Spacer];
    let mut next = vec![AgentStreamItem::Question, trace_row(10), AgentStreamItem::Spacer];
    next[1] = trace_row(18);
    assert_eq!(
        changed_stream_item_ranges(&previous, &next),
        vec![RowSplice { old_range: 1..2, new_count: 1 }]
    );

    next.push(AgentStreamItem::Spacer);
    assert_eq!(
        changed_stream_item_ranges(&previous, &next),
        vec![RowSplice { old_range: 1..2, new_count: 2 }]
    );
}

#[test]
fn model_request_traces_are_hidden_from_analysis_stream() {
    let traces = vec![
        trace(AgentTraceKind::Status, "分析中", "会话已启动", 1),
        trace(AgentTraceKind::Model, "模型请求 #1", "正在请求模型", 2),
        trace(AgentTraceKind::Reasoning, "思考过程", "正在分析证据", 3),
    ];
    let items = build_agent_stream_items(
        &traces,
        AgentSessionStatus::Investigating,
        &HashSet::new(),
        &Vec::new(),
    );
    assert!(items.iter().any(|item| matches!(item, AgentStreamItem::Trace { trace_index: 0, .. })));
    assert!(items.iter().any(|item| matches!(item, AgentStreamItem::Trace { trace_index: 2, .. })));
    assert!(!items.iter().any(|item| matches!(item, AgentStreamItem::Trace { trace_index: 1, .. })));
}

#[test]
fn equal_streams_need_no_measuring() {
    let rows = vec![AgentStreamItem::Question, AgentStreamItem::Spacer];
    let same = vec![AgentStreamItem::Question, AgentStreamItem::Spacer];
    assert_eq!(changed_stream_item_ranges(&rows, &same), vec![]);
}

#[test]
fn rows_that_differ_apart_are_measured_apart() {
    let previous = vec![trace_row(1), trace_row(2), trace_row(3)];
    let next = vec![trace_row(9), trace_row(2), trace_row(8)];
    assert_eq!(
        changed_stream_item_ranges(&previous, &next),
        vec![
            RowSplice { old_range: 0..1, new_count: 1 },
            RowSplice { old_range: 2..3, new_count: 1 },
        ]
    );
}

#[test]
fn tool_traces_in_a_row_become_one_group() {
    let traces = vec![
        trace(AgentTraceKind::Tool, "读取", "a", 1),
        trace(AgentTraceKind::Tool, "搜索", "bc", 2),
        trace(AgentTraceKind::Output, "输出", "d", 3),
    ];
    let items = build_agent_stream_items(
        &traces,
        AgentSessionStatus::Completed,
        &HashSet::new(),
        &Vec::new(),
    );
    assert_eq!(items.len(), 4);
    assert_eq!(items[0], AgentStreamItem::Question);
    assert_eq!(
        items[1],
        AgentStreamItem::ToolGroup {
            start: 0,
            end: 2,
            group_id: 1_000_000_000,
            content_bytes: 15,
            is_expanded: false,
            is_active: false,
        }
    );
    assert_eq!(items[3], AgentStreamItem::Spacer);
}

#[test]
fn cards_stand_where_their_time_puts_them() {
    let traces = vec![
        trace(AgentTraceKind::Status, "一", "", 10),
        trace(AgentTraceKind::Status, "二", "", 20),
    ];
    let cards = vec![
        BashApprovalCard::pending("r1".to_string(), "ls".to_string(), at(15)),
        BashApprovalCard::pending("r2".to_string(), "cat".to_string(), at(99)),
    ];
    let items = build_agent_stream_items(
        &traces,
        AgentSessionStatus::Completed,
        &HashSet::new(),
        &cards,
    );
    assert!(matches!(items[1], AgentStreamItem::Trace { trace_index: 0, .. }));
    assert_eq!(
        items[2],
        AgentStreamItem::BashApproval { approval_index: 0, status: BashApprovalStatus::Pending }
    );
    assert!(matches!(items[3], AgentStreamItem::Trace { trace_index: 1, .. }));
    assert!(matches!(items[4], AgentStreamItem::BashApproval { approval_index: 1, .. }));
    assert_eq!(items[5], AgentStreamItem::Spacer);
}

#[test]
fn an_expanded_group_is_known_by_its_first_moment() {
    let traces = vec![trace(AgentTraceKind::Tool, "读取", "a", 7)];
    let mut expanded = HashSet::new();
    expanded.insert(7_000_000_000i64);
    let items = build_agent_stream_items(
        &traces,
        AgentSessionStatus::Completed,
        &expanded,
        &Vec::new(),
    );
    assert!(matches!(items[1], AgentStreamItem::ToolGroup { is_expanded: true, .. }));
}

#[test]
fn moments_are_numbered_by_nanoseconds_while_they_fit() {
    assert_eq!(moment_number(TraceTime { seconds: 2, nanos: 5 }), 2_000_000_005);
    let far = TraceTime { seconds: 100_000_000_000, nanos: 7_000 };
    assert_eq!(moment_number(far), 100_000_000_000_000_007);
}

fn scaled(budget: &AgentBudgetSnapshot, context_window: u64) -> ScaledBudget {
    let tokens = |count: u64| match token_scale(count) {
        TokenScale::Units => format!("{count}"),
        TokenScale::Thousands => format!("{:.1}", count as f64 / 1_000.0),
        TokenScale::Millions => format!("{:.1}", count as f64 / 1_000_000.0),
    };
    let bytes = |count: u64| match byte_scale(count) {
        ByteScale::Kibi => format!("{:.1}", count as f64 / 1024.0),
        ByteScale::Mebi => format!("{:.1}", count as f64 / (1024.0 * 1024.0)),
        ByteScale::Gibi => format!("{:.1}", count as f64 / (1024.0 * 1024.0 * 1024.0)),
    };
    let latest = budget.latest_input_tokens.unwrap_or(0);
    ScaledBudget {
        total_tokens: tokens(budget.total_tokens),
        input_tokens: tokens(budget.input_tokens),
        output_tokens: tokens(budget.output_tokens),
        reasoning_tokens: tokens(budget.reasoning_tokens),
        latest_input_tokens: tokens(latest),
        context_percentage: format!("{:.1}", latest as f64 / context_window as f64 * 100.0),
        context_window: tokens(context_window),
        local_scan_bytes: bytes(budget.local_scan_bytes),
        raw_log_bytes: bytes(budget.raw_log_bytes),
    }
}

#[test]
fn context_metric_separates_percentage_and_capacity() {
    let budget =
        AgentBudgetSnapshot { latest_input_tokens: Some(16_000), ..AgentBudgetSnapshot::new() };
    let metric = format_context_metric(&budget, 128_000, &scaled(&budget, 128_000));
    assert_eq!(
        (metric.title, metric.detail),
        ("上下文 12.5%".to_string(), "16.0K / 128.0K".to_string())
    );
}

#[test]
fn a_context_of_unknown_size_has_no_share() {
    let unknown = AgentBudgetSnapshot::new();
    let metric = format_context_metric(&unknown, 0, &scaled(&unknown, 0));
    assert_eq!(metric.title, "上下文 --");
    assert_eq!(metric.detail, "-- / 0");
    let known = AgentBudgetSnapshot { latest_input_tokens: Some(7), ..unknown };
    assert_eq!(format_context_metric(&known, 0, &scaled(&known, 0)).title, "上下文 0.0%");
}

#[test]
fn analysis_duration_formats_compact_text() {
    assert_eq!(format_analysis_duration(0), "< 1 秒");
    assert_eq!(format_analysis_duration(7), "7 秒");
    assert_eq!(format_analysis_duration(61), "1 分 1 秒");
    assert_eq!(format_analysis_duration(3_661), "1 小时 1 分 1 秒");
}

#[test]
fn stage_durations_keep_their_units() {
    assert_eq!(format_stage_duration(59), "59 秒");
    assert_eq!(format_stage_duration(60), "1 分 0 秒");
}

#[test]
fn counts_and_amounts_change_their_unit_at_the_edge() {
    assert_eq!(token_scale(999), TokenScale::Units);
    assert_eq!(token_scale(1_000), TokenScale::Thousands);
    assert_eq!(token_scale(1_000_000), TokenScale::Millions);
    assert_eq!(compact_tokens(999, ""), "999");
    assert_eq!(compact_tokens(1_500, "1.5"), "1.5K");
    assert_eq!(byte_scale(1_048_575), ByteScale::Kibi);
    assert_eq!(byte_scale(1_048_576), ByteScale::Mebi);
    assert_eq!(byte_scale(1_073_741_824), ByteScale::Gibi);
    assert_eq!(format_bytes(512, "0.5"), "0.5 KiB");
    assert_eq!(format_bytes(3_145_728, "3.0"), "3.0 MiB");
}

#[test]
fn the_budget_bar_has_five_parts() {
    let budget = AgentBudgetSnapshot {
        model_requests: 2,
        tool_calls: 3,
        input_tokens: 1_500,
        output_tokens: 20,
        total_tokens: 1_520,
        ..AgentBudgetSnapshot::new()
    };
    let bar = budget_bar(&budget, 128_000, 61, "调查中", &scaled(&budget, 128_000));
    assert_eq!(bar.len(), 5);
    assert_eq!(bar[0].title, "调用 5");
    assert_eq!(bar[0].detail, "模型 2 · 工具 3");
    assert_eq!(bar[1].title, "Token 1.5K");
    assert_eq!(bar[1].detail, "入 1.5K · 出 20");
    assert_eq!(bar[4].title, "总耗时 1 分 1 秒");
    assert_eq!(bar[4].detail, "调查中");
}

#[test]
fn a_card_shows_its_command_and_the_answer() {
    let mut card = BashApprovalCard::pending("r1".to_string(), "rm -rf 日志".to_string(), at(1));
    let asked = approval_card_appearance(&card);
    assert_eq!(asked.element_id, "bash-approval-r1");
    assert_eq!(asked.command, "rm -rf 日志");
    assert!(asked.offers_decision);
    assert_eq!(asked.verdict, None);
    card.status = BashApprovalStatus::Approved;
    let agreed = approval_card_appearance(&card);
    assert_eq!(agreed.verdict.as_deref(), Some("已批准执行"));
    assert_eq!(agreed.verdict_color, ThemeColor::Info);
    card.status = BashApprovalStatus::Denied("用户未批准这条命令".to_string());
    let refused = approval_card_appearance(&card);
    assert!(!refused.offers_decision);
    assert_eq!(refused.verdict.as_deref(), Some("已拒绝：用户未批准这条命令"));
    assert_eq!(refused.verdict_color, ThemeColor::Error);
    assert_eq!(usage_color(&None), ThemeColor::ForegroundMuted);
    assert_eq!(usage_color(&Some("失败".to_string())), ThemeColor::Error);
}
