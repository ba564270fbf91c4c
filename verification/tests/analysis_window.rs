//! The window of an analysis: reports, messages, consent, and its end.

use argus_ui::agent::{
    AgentSessionStatus, AgentStreamKind, AgentTraceEntry, AgentTraceKind, AgentUserMessageStatus,
    BashApprovalStatus,
};
use argus_ui::agent_event::AgentEvent;
use argus_ui::agent_stream::AgentStreamItem;
use argus_ui::agent_view::short_id;
use argus_ui::agent_window::{
    AgentWindow, MessageDelivery, AGENT_MESSAGE_MAX_BYTES, AGENT_MESSAGE_MAX_COUNT,
    AGENT_TRACE_MAX_COUNT,
};
use argus_ui::clock::TraceTime;
use argus_ui::input_behavior::LocalInputAction;
use argus_ui::keystroke::{Keystroke, Modifiers};
use argus_ui::log_matcher::{
    compact_matcher_pattern, format_source_scan_summary, next_matcher_mode, next_matcher_target,
    LogNameMatcherMode, LogNameMatcherTarget,
};
use argus_ui::text_input::TextInputState;

fn at(seconds: i64) -> TraceTime {
    TraceTime { seconds, nanos: 0 }
}

fn window() -> AgentWindow {
    AgentWindow::new(
        "session-1".to_string(),
        "为什么重启？".to_string(),
        "扫描完成".to_string(),
        128_000,
        at(1),
    )
}

fn status(window: &mut AgentWindow, status: AgentSessionStatus, elapsed: u64) {
    window.apply_event(AgentEvent::Status(status, "标签".to_string()), at(2), elapsed);
}

#[test]
fn pieces_of_one_stream_are_joined() {
    let mut window = window();
    let before = window.traces.len();
    window.apply_stream_delta(AgentStreamKind::Output, "堆内存".to_string(), at(3));
    window.apply_stream_delta(AgentStreamKind::Output, "耗尽".to_string(), at(4));
    assert_eq!(window.traces.len(), before + 1);
    assert_eq!(window.traces.last().unwrap().detail, "堆内存耗尽");
    window.apply_stream_delta(AgentStreamKind::Reasoning, "想".to_string(), at(5));
    assert_eq!(window.traces.len(), before + 2);
}

#[test]
fn a_reset_drops_what_was_not_finished() {
    let mut window = window();
    let before = window.traces.len();
    window.apply_stream_delta(AgentStreamKind::Reasoning, "想".to_string(), at(3));
    window.apply_stream_delta(AgentStreamKind::Output, "说".to_string(), at(4));
    window.drop_incomplete_stream_text();
    assert_eq!(window.traces.len(), before);
}

#[test]
fn the_history_forgets_the_oldest() {
    let mut window = window();
    for number in 0..(AGENT_TRACE_MAX_COUNT + 5) {
        let title = format!("第 {number} 条");
        window.push_trace(AgentTraceEntry::new(
            AgentTraceKind::Tool,
            &title,
            "",
            at(10 + number as i64),
        ));
    }
    assert_eq!(window.traces.len(), AGENT_TRACE_MAX_COUNT);
    assert_eq!(
        window.traces.last().unwrap().title,
        format!("第 {} 条", AGENT_TRACE_MAX_COUNT + 4)
    );
}

#[test]
fn the_first_answer_to_a_command_stands() {
    let mut window = window();
    window.apply_event(
        AgentEvent::BashApprovalRequired {
            request_id: "r1".to_string(),
            command: "ls".to_string(),
        },
        at(3),
        0,
    );
    let decision = window.resolve_bash_approval("r1", true).unwrap();
    assert_eq!(decision.request_id, "r1");
    assert!(decision.approved);
    assert!(window.resolve_bash_approval("r1", false).is_none());
    assert!(window.resolve_bash_approval("r2", true).is_none());
    assert_eq!(window.bash_approvals[0].status, BashApprovalStatus::Approved);
}

#[test]
fn the_time_of_the_end_stands() {
    let mut window = window();
    assert_eq!(window.overall_elapsed_seconds(9), 9);
    status(&mut window, AgentSessionStatus::Completed, 12);
    status(&mut window, AgentSessionStatus::Failed, 40);
    assert_eq!(window.overall_elapsed_seconds(99), 12);
    assert!(window.is_session_terminal());
}

#[test]
fn cancelling_twice_is_cancelling_once() {
    let mut window = window();
    status(&mut window, AgentSessionStatus::Investigating, 0);
    let first = window.cancel_session(at(5));
    assert!(first.0);
    assert_eq!(window.status, AgentSessionStatus::Cancelling);
    let traces = window.traces.len();
    let second = window.cancel_session(at(6));
    assert!(!second.0);
    assert!(second.1.is_empty());
    assert_eq!(window.traces.len(), traces);
}

#[test]
fn a_running_session_asks_before_it_closes() {
    let mut window = window();
    assert!(!window.request_close());
    assert!(window.show_close_confirmation);
    window.keep_open();
    assert!(!window.show_close_confirmation);
    status(&mut window, AgentSessionStatus::Cancelled, 1);
    assert!(window.request_close());
}

#[test]
fn messages_are_checked_before_they_are_sent() {
    let mut window = window();
    status(&mut window, AgentSessionStatus::Investigating, 0);
    window.message_input = TextInputState::from_value("   ".to_string());
    assert!(window.begin_message("m0".to_string()).is_none());
    window.message_input =
        TextInputState::from_value("a".repeat(AGENT_MESSAGE_MAX_BYTES + 1));
    assert!(window.begin_message("m0".to_string()).is_none());
    assert!(window.input_error.is_some());

    window.message_input = TextInputState::from_value("  看 memory.log ".to_string());
    let message = window.begin_message("m1".to_string()).unwrap();
    assert_eq!(message.content, "看 memory.log");
    window.finish_message(message, MessageDelivery::Sent, at(4));
    assert_eq!(window.message_input.value, "");
    assert_eq!(window.user_messages.len(), 1);
    window.apply_event(AgentEvent::UserMessageConsumed("m1".to_string()), at(5), 0);
    assert_eq!(window.user_messages[0].status, AgentUserMessageStatus::Consumed);
}

#[test]
fn a_message_that_was_not_delivered_stays_in_the_input() {
    let mut window = window();
    status(&mut window, AgentSessionStatus::Investigating, 0);
    window.message_input = TextInputState::from_value("看日志".to_string());
    let message = window.begin_message("m1".to_string()).unwrap();
    window.finish_message(message, MessageDelivery::QueueClosed, at(4));
    assert_eq!(window.message_input.value, "看日志");
    assert_eq!(window.input_error.as_deref(), Some("Agent 提示队列已经关闭"));
    assert!(window.user_messages.is_empty());
}

#[test]
fn only_so_many_messages_are_sent() {
    let mut window = window();
    status(&mut window, AgentSessionStatus::Investigating, 0);
    for number in 0..AGENT_MESSAGE_MAX_COUNT {
        window.message_input = TextInputState::from_value("再看".to_string());
        let message = window.begin_message(format!("m{number}")).unwrap();
        window.finish_message(message, MessageDelivery::Sent, at(4));
    }
    window.message_input = TextInputState::from_value("再看".to_string());
    assert!(window.begin_message("late".to_string()).is_none());
    assert_eq!(window.user_messages.len(), AGENT_MESSAGE_MAX_COUNT);
}

#[test]
fn toggling_a_group_twice_restores_it() {
    let mut window = window();
    window.push_trace(AgentTraceEntry::new(AgentTraceKind::Tool, "读取", "a", at(7)));
    window.sync_trace_items();
    let group = window
        .trace_items
        .iter()
        .find_map(|item| match item {
            AgentStreamItem::ToolGroup { group_id, .. } => Some(*group_id),
            _ => None,
        })
        .unwrap();
    window.toggle_tool_group(group);
    assert!(window.expanded_tool_groups.contains(&group));
    window.toggle_tool_group(group);
    assert!(window.expanded_tool_groups.is_empty());
}

#[test]
fn keys_of_the_message_input_are_taken_by_it() {
    let mut window = window();
    status(&mut window, AgentSessionStatus::Investigating, 0);
    let plain =
        Modifiers { control: false, platform: false, shift: false, function: false, secondary: false };
    let key = Keystroke { key: "a".to_string(), key_char: Some("a".to_string()), modifiers: plain };
    let outcome = window.handle_message_key(&key, &None);
    assert_eq!(outcome.action, LocalInputAction::Changed);
    assert_eq!(window.message_input.value, "a");
}

#[test]
fn ids_are_shortened_for_display() {
    assert_eq!(short_id("abc"), "abc");
    assert_eq!(short_id("0123456789abcdef"), "01234567");
}

#[test]
fn rules_of_names_go_round_and_are_shown_in_one_line() {
    assert_eq!(
        next_matcher_target(next_matcher_target(LogNameMatcherTarget::FileName)),
        LogNameMatcherTarget::FileName
    );
    let mut mode = LogNameMatcherMode::Exact;
    for _ in 0..5 {
        mode = next_matcher_mode(mode);
    }
    assert_eq!(mode, LogNameMatcherMode::Exact);
    assert!(!compact_matcher_pattern("a\nb\r\nc").contains('\n'));
    assert!(format_source_scan_summary(3, 0, &Vec::new()).contains('3'));
}
