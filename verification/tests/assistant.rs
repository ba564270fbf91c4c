//! The assistant: its conversation, its answers, its sources and its models.

use argus_ui::agent::{
    AgentStreamKind, AgentTraceEntry, AgentTraceKind, AgentUserMessage, AgentUserMessageStatus,
};
use argus_ui::agent_event::AgentEvent;
use argus_ui::ai_config::AiModelProfile;
use argus_ui::assistant_model::{
    AssistantPanel, AssistantPanelMessage, AssistantPanelStatus, PanelEffect,
};
use argus_ui::assistant_view::{panel_frame, ComposerAction, PanelFrame};
use argus_ui::clock::TraceTime;
use argus_ui::keystroke::{Keystroke, Modifiers};
use argus_ui::mention_query::{
    active_mention_query, assistant_message_with_mentions, matching_candidates,
    AssistantMentionQuery,
};
use argus_ui::mentions::{
    build_mention_candidates, text_comes_before, AssistantMentionCandidate, AssistantMentionKind,
    AssistantSelectedMention, ScopeSource, SourceScope, ASSISTANT_MENTION_RESULT_LIMIT,
};
use argus_ui::text_input::TextInputState;

fn at(seconds: i64) -> TraceTime {
    TraceTime { seconds, nanos: 0 }
}

fn model(id: &str, enabled: bool) -> AiModelProfile {
    AiModelProfile {
        profile_id: id.to_string(),
        enabled,
        name: format!("模型 {id}"),
        base_url: format!("https://{id}.example/v1"),
        model: id.to_string(),
        context_window_tokens: 128_000,
    }
}

fn empty_panel() -> AssistantPanel {
    AssistantPanel::new(Vec::new(), false, at(1))
}

fn panel_with_models() -> AssistantPanel {
    AssistantPanel::new(vec![model("a", true), model("b", false), model("c", true)], true, at(1))
}

fn source(number: u64, path: &str) -> ScopeSource {
    ScopeSource {
        source_ref: format!("ref-{number}"),
        source_id: number,
        relative_path: path.to_string(),
    }
}

fn consumed(id: &str, content: &str) -> AgentUserMessage {
    let mut message = AgentUserMessage::queued(id.to_string(), content.to_string());
    message.status = AgentUserMessageStatus::Consumed;
    message
}

fn answer(content: &str) -> AssistantPanelMessage {
    AssistantPanelMessage::Answer { content: content.to_string(), citations: Vec::new() }
}

fn key(name: &str) -> Keystroke {
    Keystroke {
        key: name.to_string(),
        key_char: None,
        modifiers: Modifiers {
            control: false,
            platform: false,
            shift: false,
            function: false,
            secondary: false,
        },
    }
}

#[test]
fn mention_query_only_matches_current_at_token() {
    let input = TextInputState::from_value("检查一下 @memory".to_string());
    let query = active_mention_query(&input).expect("独立 @ token 应触发候选");
    assert_eq!(query.text, "memory");
    assert_eq!(query.range, 5..12);

    let email = TextInputState::from_value("联系 user@example.com".to_string());
    assert!(active_mention_query(&email).is_none());
}

#[test]
fn selected_mentions_are_hidden_and_bound_to_runtime_message() {
    let selected = AssistantSelectedMention {
        marker: "@来源/memory.log".to_string(),
        candidate: AssistantMentionCandidate {
            display_path: "来源/memory.log".to_string(),
            search_key: "来源/memory.log".to_string(),
            kind: AssistantMentionKind::File,
            source_ref: Some("opaque-ref".to_string()),
            matching_source_count: 1,
        },
    };
    let chosen = vec![selected];
    let runtime = assistant_message_with_mentions("检查 @来源/memory.log 是否存在 OOM", &chosen);
    assert!(runtime.contains("ARGUS_SELECTED_SOURCES"));
    assert!(runtime.contains("opaque-ref"));
    assert_eq!(assistant_message_with_mentions("检查全部日志", &chosen), "检查全部日志");
}

#[test]
fn the_model_is_told_the_members_as_json() {
    let chosen = vec![AssistantSelectedMention {
        marker: "@logs/".to_string(),
        candidate: AssistantMentionCandidate {
            display_path: "logs/".to_string(),
            search_key: "logs/".to_string(),
            kind: AssistantMentionKind::Folder,
            source_ref: None,
            matching_source_count: 2,
        },
    }];
    let runtime = assistant_message_with_mentions("看 @logs/", &chosen);
    let start = runtime.find('[').unwrap();
    let end = runtime.rfind(']').unwrap();
    let parsed: serde_json::Value = serde_json::from_str(&runtime[start..=end]).unwrap();
    let object = &parsed[0];
    assert_eq!(object["kind"], "folder");
    assert_eq!(object["display_path"], "logs/");
    assert_eq!(object["path_prefix"], "logs/");
    assert!(object["source_ref"].is_null());
    assert_eq!(object["matching_source_count"], 2);
    assert!(runtime.starts_with("看 @logs/\n\n"));
}

#[test]
fn incremental_source_updates_preserve_assistant_context() {
    let mut panel = empty_panel();
    panel.push_trace(AgentTraceEntry::new(
        AgentTraceKind::Status,
        "已有对话",
        "应在非替换式来源更新后继续保留",
        at(2),
    ));
    let original_message_count = panel.messages.len();

    panel.accept_source_registry_revision(1, false);
    assert_eq!(panel.messages.len(), original_message_count);

    panel.invalidate_scope_for_analysis_configuration_change(1, "日志说明已更新", at(3));
    assert!(panel.messages.len() > original_message_count);
}

#[test]
fn final_answer_without_stream_delta_does_not_overwrite_previous_turn() {
    let mut panel = empty_panel();
    panel.messages = vec![
        answer("上一轮答案"),
        AssistantPanelMessage::User(consumed("m1", "当前问题")),
    ];
    panel.active_turn_message_start = Some(2);

    panel.finish_answer("当前轮答案".to_string(), Vec::new());

    assert!(matches!(
        panel.messages.first(),
        Some(AssistantPanelMessage::Answer { content, .. }) if content == "上一轮答案"
    ));
    assert!(matches!(
        panel.messages.get(2),
        Some(AssistantPanelMessage::Answer { content, .. }) if content == "当前轮答案"
    ));
}

#[test]
fn configuration_change_requeues_active_question_and_drops_partial_answer() {
    let mut panel = empty_panel();
    panel.messages = vec![
        AssistantPanelMessage::User(consumed("m1", "重新分析当前问题")),
        AssistantPanelMessage::Reasoning("旧配置思考".to_string()),
        answer("旧配置半截答案"),
    ];
    panel.status = AssistantPanelStatus::Running;
    panel.active_turn_message_start = Some(1);
    panel.active_turn_user_message_ids = vec!["m1".to_string()];
    panel.has_turn = true;

    panel.invalidate_scope_for_analysis_configuration_change(2, "日志说明已更新", at(3));

    assert!(matches!(
        panel.messages.first(),
        Some(AssistantPanelMessage::User(message))
            if message.status == AgentUserMessageStatus::Queued
    ));
    assert!(!panel.messages.iter().any(|message| matches!(
        message,
        AssistantPanelMessage::Reasoning(_) | AssistantPanelMessage::Answer { .. }
    )));
    assert_eq!(panel.status, AssistantPanelStatus::Idle);
    assert!(panel.active_turn_user_message_ids.is_empty());
}

#[test]
fn queued_runtime_binding_is_kept_until_turn_consumes_message() {
    let mut panel = empty_panel();
    panel.take_effects();
    let message = AgentUserMessage::queued("m1".to_string(), "检查指定来源".to_string());
    let runtime_content =
        "检查指定来源\n<ARGUS_SELECTED_SOURCES>opaque-ref</ARGUS_SELECTED_SOURCES>";
    panel.takes_messages = true;
    panel.pending_runtime_messages.insert("m1".to_string(), runtime_content.to_string());

    panel.queue_running_message(&message);

    let effects = panel.take_effects();
    let delivered = effects
        .iter()
        .find_map(|effect| match effect {
            PanelEffect::SendMessage(message) => Some(message),
            _ => None,
        })
        .expect("补充消息应进入当前回答通道");
    assert_eq!(delivered.content, runtime_content);
    assert!(panel.pending_runtime_messages.contains_key("m1"));

    panel.active_turn_user_message_ids.push("m1".to_string());
    panel.finish_active_turn();
    assert!(!panel.pending_runtime_messages.contains_key("m1"));
}

#[test]
fn nothing_is_asked_for_in_front_of_a_mark() {
    let mut input = TextInputState::from_value("看 @log".to_string());
    input.cursor = 2;
    assert_eq!(active_mention_query(&input), None);
    input.cursor = 3;
    assert_eq!(active_mention_query(&input).unwrap().text, "");
    let start = TextInputState { cursor: 0, ..TextInputState::from_value("@memory".to_string()) };
    assert_eq!(active_mention_query(&start), None);

    let mut panel = panel_with_models();
    panel.input = TextInputState::from_value("@memory".to_string());
    panel.refresh_mention_picker();
    assert_eq!(panel.mention_query.as_ref().unwrap().text, "memory");
    panel.handle_input_key(&key("home"), &None, "m1".to_string(), 1);
    assert_eq!(panel.input.cursor, 0);
    assert_eq!(panel.mention_query, None);
}

#[test]
fn only_a_question_that_is_there_is_queued_again() {
    let mut panel = empty_panel();
    panel.messages = vec![
        AssistantPanelMessage::User(consumed("m1", "问题")),
        AssistantPanelMessage::Reasoning("思考".to_string()),
    ];
    panel.status = AssistantPanelStatus::Running;
    panel.active_turn_message_start = Some(1);
    panel.active_turn_user_message_ids = vec!["m2".to_string()];
    assert!(!panel.cancel_background_work_and_requeue_active_turn());
    assert_eq!(panel.messages, vec![AssistantPanelMessage::User(consumed("m1", "问题"))]);
    assert!(panel.active_turn_user_message_ids.is_empty());
    assert_eq!(panel.active_turn_message_start, None);
    panel.active_turn_user_message_ids = vec!["m1".to_string()];
    assert!(panel.cancel_background_work_and_requeue_active_turn());
    panel.status = AssistantPanelStatus::Idle;
    panel.active_turn_user_message_ids = vec!["m1".to_string()];
    assert!(!panel.cancel_background_work_and_requeue_active_turn());

    let told = |ids: Vec<String>| {
        let mut panel = empty_panel();
        panel.messages = vec![AssistantPanelMessage::User(consumed("m1", "问题"))];
        panel.status = AssistantPanelStatus::Running;
        panel.active_turn_user_message_ids = ids;
        panel.invalidate_scope_for_analysis_configuration_change(2, "日志说明已更新", at(3));
        match panel.messages.last() {
            Some(AssistantPanelMessage::Trace(trace)) => trace.detail.contains("重新排队"),
            _ => panic!("应有状态说明"),
        }
    };
    assert!(told(vec!["m1".to_string()]));
    assert!(!told(vec!["m2".to_string()]));
}

#[test]
fn without_logs_nothing_of_the_conversation_is_shown() {
    assert_eq!(
        panel_frame(&empty_panel()),
        PanelFrame::Empty {
            title: "请先加载日志",
            note: "Agent 助手会话随日志加载自动创建，加载完成后即可提问。",
        }
    );
    let mut panel = panel_with_models();
    panel.input = TextInputState::from_value(" 问题 ".to_string());
    let PanelFrame::Conversation(frame) = panel_frame(&panel) else {
        panic!("应展示会话");
    };
    assert_eq!(frame.model_name, "模型 a");
    assert_eq!(frame.context_window, 128_000);
    assert_eq!(frame.composer_action, ComposerAction::Send);
    assert!(frame.can_switch_model);
    assert!(!frame.shows_picker);
    assert_eq!(frame.active_message, None);
}

#[test]
fn folders_and_files_can_be_named() {
    let scope = SourceScope {
        sources: vec![source(2, "logs/app/b.log"), source(1, "logs/app/A.log"), source(3, "c.log")],
        profile_count: 0,
    };
    let candidates = build_mention_candidates(&scope);
    let folder = candidates
        .iter()
        .find(|candidate| {
            candidate.kind == AssistantMentionKind::Folder && candidate.display_path.contains("app")
        })
        .unwrap();
    assert_eq!(folder.matching_source_count, 2);
    assert!(folder.source_ref.is_none());
    let file = candidates
        .iter()
        .find(|candidate| candidate.display_path.ends_with("A.log"))
        .unwrap();
    assert_eq!(file.kind, AssistantMentionKind::File);
    assert_eq!(file.source_ref.as_deref(), Some("ref-1"));
    assert!(file.search_key.ends_with("a.log"));
    let first_file = candidates
        .iter()
        .position(|candidate| candidate.kind == AssistantMentionKind::File)
        .unwrap();
    assert!(candidates[first_file..]
        .iter()
        .all(|candidate| candidate.kind == AssistantMentionKind::File));
}

#[test]
fn names_are_found_whatever_their_case() {
    let scope = SourceScope {
        sources: (0..12).map(|number| source(number, &format!("Logs/App-{number}.LOG"))).collect(),
        profile_count: 0,
    };
    let candidates = build_mention_candidates(&scope);
    let found = matching_candidates(&candidates, "APP-1");
    assert!(!found.is_empty());
    assert!(found.iter().all(|index| candidates[*index].search_key.contains("app-1")));
    assert!(matching_candidates(&candidates, "").len() <= ASSISTANT_MENTION_RESULT_LIMIT);
    assert!(matching_candidates(&candidates, "没有").is_empty());
}

#[test]
fn texts_are_ordered_by_their_characters() {
    assert!(text_comes_before("a", "b"));
    assert!(text_comes_before("a", "ab"));
    assert!(!text_comes_before("b", "a"));
    assert!(!text_comes_before("a", "a"));
}

#[test]
fn only_models_that_may_be_chosen_are_offered() {
    let mut panel = panel_with_models();
    assert_eq!(panel.models.len(), 2);
    assert_eq!(panel.selected_model().unwrap().profile_id, "a");
    panel.select_next_model();
    assert_eq!(panel.selected_model().unwrap().profile_id, "c");
    panel.select_next_model();
    assert_eq!(panel.selected_model().unwrap().profile_id, "a");
    assert!(panel.unavailable_reason().is_none());
    panel.refresh_selected_model_credential(Some("没有密钥".to_string()));
    assert!(panel.unavailable_reason().is_some());
}

#[test]
fn a_scan_that_was_outdated_is_ignored() {
    let mut panel = panel_with_models();
    let effects = panel.take_effects();
    let generation = effects
        .iter()
        .find_map(|effect| match effect {
            PanelEffect::ScheduleScan { generation } => Some(*generation),
            _ => None,
        })
        .unwrap();
    panel.run_scheduled_scan(generation.wrapping_add(1));
    assert!(panel.take_effects().is_empty());
    panel.run_scheduled_scan(generation);
    assert!(panel.take_effects().contains(&PanelEffect::BeginScan));
    panel.start_source_scan(true, at(2));
    assert_eq!(panel.status, AssistantPanelStatus::Scanning);
    assert!(!panel.accept_scan_result(panel.scan_generation.wrapping_add(1), None, at(3)));
    assert!(panel.accept_scan_result(panel.scan_generation, None, at(3)));
}

#[test]
fn reports_of_an_answer_that_does_not_count_change_nothing() {
    let mut panel = panel_with_models();
    let rows = panel.messages.len();
    let stale = panel.turn_generation.wrapping_add(1);
    panel.apply_turn_event(
        AgentEvent::StreamDelta(AgentStreamKind::Output, "旧".to_string()),
        stale,
        at(3),
    );
    assert_eq!(panel.messages.len(), rows);
    let current = panel.turn_generation;
    panel.apply_turn_event(
        AgentEvent::StreamDelta(AgentStreamKind::Output, "新".to_string()),
        current,
        at(3),
    );
    panel.apply_turn_event(
        AgentEvent::StreamDelta(AgentStreamKind::Output, "的".to_string()),
        current,
        at(3),
    );
    assert!(matches!(
        panel.messages.last(),
        Some(AssistantPanelMessage::Answer { content, .. }) if content == "新的"
    ));
}

#[test]
fn a_candidate_is_chosen_with_the_keyboard() {
    let mut panel = panel_with_models();
    let scope = SourceScope { sources: vec![source(1, "memory.log")], profile_count: 0 };
    panel.start_source_scan(true, at(2));
    panel.finish_source_scan(scope, 0, 1, at(3));
    panel.input = TextInputState::from_value("看 @mem".to_string());
    panel.refresh_mention_picker();
    assert_eq!(panel.mention_results.len(), 1);
    panel.handle_input_key(&key("enter"), &None, "m1".to_string(), 1);
    assert_eq!(panel.input.value, "看 @memory.log ");
    assert_eq!(panel.selected_mentions.len(), 1);
    let mut submit = key("enter");
    submit.modifiers.secondary = true;
    panel.handle_input_key(&submit, &None, "m1".to_string(), 1);
    assert_eq!(panel.input.value, "");
    assert!(panel.has_queued_messages());
    assert!(panel.pending_runtime_messages.contains_key("m1"));
}

#[test]
fn a_finished_answer_goes_into_the_history() {
    let mut panel = panel_with_models();
    panel.messages.push(AssistantPanelMessage::User(consumed("m1", "问题")));
    panel.active_turn_message_start = Some(panel.messages.len());
    panel.active_turn_user_message_ids = vec!["m1".to_string()];
    panel.status = AssistantPanelStatus::Running;
    let generation = panel.turn_generation;
    panel.apply_turn_event(
        AgentEvent::AssistantCompleted {
            output: "答案".to_string(),
            citations: Vec::new(),
            accepted_user_messages: vec!["问题".to_string()],
            history_was_trimmed: false,
        },
        generation,
        at(4),
    );
    assert_eq!(panel.history.len(), 1);
    assert_eq!(panel.history[0].assistant_output, "答案");
    assert_eq!(panel.status, AssistantPanelStatus::Idle);
}

#[test]
fn stopping_twice_is_stopping_once() {
    let mut panel = panel_with_models();
    panel.status = AssistantPanelStatus::Running;
    panel.has_turn = true;
    panel.take_effects();
    panel.stop_current_work();
    let first = panel.take_effects();
    assert!(first.contains(&PanelEffect::CancelTurn));
    assert_eq!(panel.status, AssistantPanelStatus::Cancelling);
    panel.stop_current_work();
    assert_eq!(panel.status, AssistantPanelStatus::Cancelling);
}

#[test]
fn a_mention_can_be_chosen_for_a_place_behind_the_text() {
    let mut panel = panel_with_models();
    panel.mention_candidates = vec![AssistantMentionCandidate {
        display_path: "a.log".to_string(),
        search_key: "a.log".to_string(),
        kind: AssistantMentionKind::File,
        source_ref: None,
        matching_source_count: 1,
    }];
    panel.input = TextInputState::from_value("看".to_string());
    let far = AssistantMentionQuery { range: 5..6, text: String::new() };
    assert!(panel.select_mention(&far, 0));
    assert_eq!(panel.input.value, "看@a.log ");
    assert_eq!(panel.input.cursor, 12);
    assert!(!panel.select_mention(&far, 1));
}
