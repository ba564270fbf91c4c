//! The forms: connections, the start of an analysis, and the settings.

use argus_ui::agent_dialog::{launch_appearance, AgentLaunchDialog, AGENT_QUESTION_MAX_BYTES};
use argus_ui::ai_config::{
    AiBudgetProfile, AiConfig, AiModelProfile, LogNameMatcher, LogTypeProfile,
};
use argus_ui::ai_settings::{AiDraftField, AiSettingsDraft, AiSettingsEditorKind};
use argus_ui::ai_settings_editor::{
    AiSettingsEditor, CapabilityProbeState, MATCHER_LIMIT, PRIORITY_LIMIT,
};
use argus_ui::ai_settings_view::{
    editor_foot, field_texts, input_id, log_type_body, model_page, switch_appearance, LogTypeBody,
};
use argus_ui::connection_dialog::{
    delete_question, directory_window_appearance, directory_window_texts, host_key_question,
    input_id_for_target, input_takes_key, link_window_appearance, link_window_rows, ConnectionDeletePromptState, ConnectionDirectoryFormState,
    ConnectionDirectoryWindow, ConnectionDirectoryWindowMode, ConnectionFormInputTarget,
    ConnectionHostKeyPromptState, ConnectionLinkFormState, ConnectionLinkKind,
    ConnectionLinkWindow, ConnectionLinkWindowMode, ConnectionNodeId, ConnectionSubmission,
    ConnectionWindowInputAction,
};
use argus_ui::icon::ArgusIcon;
use argus_ui::keystroke::{Keystroke, Modifiers};
use argus_ui::log_matcher::{LogNameMatcherMode, LogNameMatcherTarget};
use argus_ui::text_input::{InputPointerAction, InputPointerEvent, TextInputState};
use argus_ui::text_selection::{NativeTextEdit, TextSelectionGranularity};
use argus_ui::theme::ThemeColor;

fn press(key: &str, typed: Option<&str>) -> Keystroke {
    Keystroke {
        key: key.to_string(),
        key_char: typed.map(str::to_string),
        modifiers: Modifiers {
            control: false,
            platform: false,
            shift: false,
            function: false,
            secondary: false,
        },
    }
}

fn model(id: &str) -> AiModelProfile {
    AiModelProfile {
        profile_id: id.to_string(),
        enabled: true,
        name: format!("模型 {id}"),
        base_url: "https://host/v1".to_string(),
        model: "gpt".to_string(),
        context_window_tokens: 128_000,
    }
}

fn profile(id: &str) -> LogTypeProfile {
    LogTypeProfile {
        profile_id: id.to_string(),
        enabled: true,
        name: "网关".to_string(),
        priority: 995,
        matchers: vec![LogNameMatcher {
            target: LogNameMatcherTarget::RelativePath,
            mode: LogNameMatcherMode::Regex,
            pattern: ".*gateway.*".to_string(),
            case_sensitive: true,
        }],
        description: "访问日志".to_string(),
    }
}

fn config() -> AiConfig {
    AiConfig {
        base_url: "https://old".to_string(),
        model: "old".to_string(),
        model_profiles: vec![model("m1"), model("m2")],
        allow_raw_log_content: false,
        consent_version: String::new(),
        budget_profile: AiBudgetProfile::Balanced,
        request_timeout_seconds: 60,
        system_prompt: "专家".to_string(),
        log_profiles: vec![profile("p1")],
    }
}

fn editor(kind: AiSettingsEditorKind) -> AiSettingsEditor {
    AiSettingsEditor::new(kind, AiSettingsDraft::from_config(config(), kind, model("new")))
}

#[test]
fn settings_survive_being_opened() {
    let kept = editor(AiSettingsEditorKind::SystemPrompt).save();
    let expected = AiConfig { base_url: String::new(), model: String::new(), ..config() };
    assert_eq!(kept.config, expected);
    assert!(kept.credential.is_none());
    assert_eq!(editor(AiSettingsEditorKind::Model(Some(1))).save().config, expected);
}

#[test]
fn a_new_entry_stands_behind_the_others() {
    let new_model = editor(AiSettingsEditorKind::Model(None));
    assert_eq!(new_model.draft.selected_model, Some(2));
    assert_eq!(new_model.draft.models[2].name.value, "模型 new");
    assert_eq!(new_model.draft.models[2].api_key.value, "");
    let new_type = editor(AiSettingsEditorKind::LogProfile(Some(7)));
    assert_eq!(new_type.draft.selected_profile, Some(1));
    let added = &new_type.draft.profiles[1];
    assert_eq!(added.priority, 100);
    assert_eq!(added.matchers.len(), 1);
    assert_eq!(added.matchers[0].mode, LogNameMatcherMode::Contains);
}

#[test]
fn a_new_log_type_has_a_random_id() {
    let first = editor(AiSettingsEditorKind::LogProfile(None));
    let second = editor(AiSettingsEditorKind::LogProfile(None));
    let id = &first.draft.profiles[1].profile_id;
    assert_ne!(*id, second.draft.profiles[1].profile_id);
    let parsed = uuid::Uuid::parse_str(id).unwrap();
    assert_eq!(parsed.get_version_num(), 4);
    assert_eq!(parsed.to_string(), *id);
}

#[test]
fn what_is_no_number_counts_as_no_context() {
    let mut editor = editor(AiSettingsEditorKind::Model(Some(0)));
    editor.draft.models[0].context_window = TextInputState::from_value(" 64000 ".to_string());
    assert_eq!(editor.save().config.model_profiles[0].context_window_tokens, 64_000);
    editor.draft.models[0].context_window = TextInputState::from_value("很多".to_string());
    assert_eq!(editor.save().config.model_profiles[0].context_window_tokens, 0);
}

#[test]
fn one_input_has_the_keyboard() {
    let mut editor = editor(AiSettingsEditorKind::Model(Some(0)));
    editor.focus_field(AiDraftField::BaseUrl);
    assert!(editor.draft.models[0].base_url.is_focused);
    editor.draft.models[0].base_url.marked_range = Some(0..1);
    editor.focus_field(AiDraftField::ApiKey);
    assert!(editor.draft.models[0].api_key.is_focused);
    assert!(!editor.draft.models[0].base_url.is_focused);
    assert!(editor.draft.models[0].base_url.marked_range.is_none());
    assert!(!editor.draft.system_prompt.is_focused);
}

#[test]
fn typing_makes_a_trial_out_of_date() {
    let mut editor = editor(AiSettingsEditorKind::Model(Some(0)));
    editor.draft.models[0].api_key = TextInputState::from_value("  sk-1  ".to_string());
    let trial = editor.probe_config().unwrap();
    assert!(trial.log_profiles.is_empty());
    let request = editor.begin_probe(&trial.model_profiles, None).unwrap();
    assert_eq!(request.model.profile_id, "m1");
    assert_eq!(request.entered_api_key.as_deref(), Some("sk-1"));
    assert!(editor.probe_config().is_none());
    assert!(editor.begin_probe(&trial.model_profiles, None).is_none());
    editor.handle_input_key(AiDraftField::BaseUrl, &press("x", Some("x")), &None);
    assert_eq!(editor.capability_probe_state, CapabilityProbeState::Idle);
    assert!(!editor.finish_probe(request.generation, Ok("可用".to_string())));
    assert_eq!(editor.capability_probe_state, CapabilityProbeState::Idle);
    let again = editor.begin_probe(&trial.model_profiles, None).unwrap();
    assert!(editor.finish_probe(again.generation, Err("拒绝".to_string())));
    assert_eq!(editor.capability_probe_state, CapabilityProbeState::Failed("拒绝".to_string()));
}

#[test]
fn a_trial_that_cannot_be_made_says_why() {
    let mut prompt = editor(AiSettingsEditorKind::SystemPrompt);
    assert!(prompt.begin_probe(&Vec::new(), None).is_none());
    assert_eq!(
        prompt.capability_probe_state,
        CapabilityProbeState::Failed("当前没有可测试的模型配置".to_string())
    );
    let mut gone = editor(AiSettingsEditorKind::Model(Some(1)));
    assert!(gone.begin_probe(&vec![model("m1")], None).is_none());
    assert_eq!(
        gone.capability_probe_state,
        CapabilityProbeState::Failed("当前模型配置已不存在".to_string())
    );
    let mut wrong = editor(AiSettingsEditorKind::Model(Some(0)));
    assert!(wrong.begin_probe(&vec![model("m1")], Some("地址无效".to_string())).is_none());
    assert_eq!(
        wrong.capability_probe_state,
        CapabilityProbeState::Failed("地址无效".to_string())
    );
    assert_eq!(wrong.capability_probe_generation, 0);
}

#[test]
fn rules_can_be_added_and_removed_within_limits() {
    let mut editor = editor(AiSettingsEditorKind::LogProfile(Some(0)));
    editor.remove_matcher();
    assert_eq!(editor.error_message.as_deref(), Some("每个日志类型至少保留一条名称规则"));
    editor.add_matcher();
    assert_eq!(editor.draft.selected_matcher, 1);
    editor.remove_matcher();
    assert_eq!(editor.draft.profiles[0].matchers.len(), 1);
    assert_eq!(editor.draft.selected_matcher, 0);
    for _ in 0..40 {
        editor.add_matcher();
    }
    assert_eq!(editor.draft.profiles[0].matchers.len(), MATCHER_LIMIT);
    assert_eq!(editor.error_message.as_deref(), Some("每个日志类型最多配置 16 条名称规则"));
}

#[test]
fn switches_change_what_they_say() {
    let mut editor = editor(AiSettingsEditorKind::LogProfile(Some(0)));
    editor.cycle_matcher_target();
    editor.cycle_matcher_mode();
    editor.toggle_matcher_case();
    editor.toggle_profile();
    editor.raise_priority();
    let edited = &editor.draft.profiles[0];
    assert_eq!(edited.matchers[0].target, LogNameMatcherTarget::FileName);
    assert_eq!(edited.matchers[0].mode, LogNameMatcherMode::Exact);
    assert!(!edited.matchers[0].case_sensitive);
    assert!(!edited.enabled);
    assert_eq!(edited.priority, PRIORITY_LIMIT);
    editor.lower_priority();
    assert_eq!(editor.draft.profiles[0].priority, 990);
    editor.draft.profiles[0].priority = 4;
    editor.lower_priority();
    assert_eq!(editor.draft.profiles[0].priority, 0);
    editor.toggle_raw_log_content("2026-07");
    assert!(editor.draft.allow_raw_log_content);
    assert_eq!(editor.draft.consent_version, "2026-07");
    editor.toggle_raw_log_content("2026-07");
    assert_eq!(editor.draft.consent_version, "");
    editor.reset_system_prompt("默认".to_string());
    assert_eq!(editor.draft.system_prompt.value, "默认");
    editor.select_matcher(3);
    editor.toggle_matcher_case();
    assert!(!editor.draft.profiles[0].matchers[0].case_sensitive);
}

#[test]
fn removing_takes_the_entry_out() {
    let mut models = editor(AiSettingsEditorKind::Model(Some(0)));
    let kept = models.delete_existing().unwrap();
    assert_eq!(kept.model_profiles.len(), 1);
    assert_eq!(kept.model_profiles[0].profile_id, "m2");
    models.finish_save(Err("无法保存".to_string()));
    assert_eq!(models.error_message.as_deref(), Some("无法保存"));
    let mut types = editor(AiSettingsEditorKind::LogProfile(Some(0)));
    assert!(types.delete_existing().unwrap().log_profiles.is_empty());
    assert!(editor(AiSettingsEditorKind::Model(None)).delete_existing().is_none());
    assert!(editor(AiSettingsEditorKind::SystemPrompt).delete_existing().is_none());
}

#[test]
fn every_edit_of_a_model_ends_its_trial() {
    for field in [
        AiDraftField::ModelName,
        AiDraftField::BaseUrl,
        AiDraftField::Model,
        AiDraftField::ContextWindow,
        AiDraftField::ApiKey,
    ] {
        let mut editor = editor(AiSettingsEditorKind::Model(Some(0)));
        editor.capability_probe_state = CapabilityProbeState::Testing;
        editor.error_message = Some("旧".to_string());
        let generation = editor.capability_probe_generation;
        editor.handle_input_key(field, &press("1", Some("1")), &None);
        assert_eq!(editor.capability_probe_generation, generation + 1);
        assert_eq!(editor.capability_probe_state, CapabilityProbeState::Idle);
        assert_eq!(editor.error_message, None);
        assert!(!editor.finish_probe(generation, Ok("可用".to_string())));
        assert_eq!(editor.capability_probe_state, CapabilityProbeState::Idle);
        let edit = NativeTextEdit {
            replacement_range: 0..0,
            text: "2".to_string(),
            selected_range: 1..1,
            marked_range: None,
        };
        editor.apply_native_edit(field, &edit);
        assert_eq!(editor.capability_probe_generation, generation + 2);
        editor.clear_input(field);
        assert_eq!(editor.capability_probe_generation, generation + 3);
    }
    let mut types = editor(AiSettingsEditorKind::LogProfile(Some(0)));
    types.handle_input_key(AiDraftField::ProfileName, &press("1", Some("1")), &None);
    assert_eq!(types.capability_probe_generation, 0);
}

#[test]
fn only_some_keys_need_a_cursor_in_the_text() {
    let stray = TextInputState { cursor: 3, ..TextInputState::new() };
    assert!(!input_takes_key(&stray, &press("backspace", None)));
    assert!(input_takes_key(&stray, &press("delete", None)));
    let last = TextInputState { cursor: usize::MAX, ..TextInputState::new() };
    assert!(!input_takes_key(&last, &press("right", None)));
    assert!(!input_takes_key(&last, &press("arrowright", None)));
    assert!(input_takes_key(&last, &press("left", None)));
    let mut window = ConnectionDirectoryWindow::new(
        ConnectionDirectoryFormState { name_input: TextInputState::new(), error_message: None },
        ConnectionDirectoryWindowMode::Create,
    );
    window.form.name_input.cursor = 3;
    let target = ConnectionFormInputTarget::DirectoryName;
    window.handle_input_key(target, &press("n", Some("n")), &None);
    assert_eq!(window.form.name_input.value, "n");
    assert_eq!(window.form.name_input.cursor, 1);
}

#[test]
fn inputs_of_the_editor_can_be_emptied_and_edited() {
    let mut editor = editor(AiSettingsEditorKind::Model(Some(0)));
    let generation = editor.capability_probe_generation;
    editor.clear_input(AiDraftField::ModelName);
    assert_eq!(editor.draft.models[0].name.value, "");
    assert!(editor.draft.models[0].name.is_focused);
    assert_eq!(editor.capability_probe_generation, generation + 1);
    editor.clear_input(AiDraftField::Model);
    assert_eq!(editor.capability_probe_generation, generation + 2);
    editor.apply_native_edit(
        AiDraftField::Model,
        &NativeTextEdit {
            replacement_range: 0..0,
            text: "模型".to_string(),
            selected_range: 2..2,
            marked_range: None,
        },
    );
    assert_eq!(editor.draft.models[0].model.value, "模型");
    let event = InputPointerEvent {
        action: InputPointerAction::Begin,
        character_index: 1,
        granularity: TextSelectionGranularity::Character,
    };
    editor.apply_pointer(AiDraftField::Model, &event, None);
    assert_eq!(editor.draft.models[0].model.cursor, 1);
    let closing = editor.handle_input_key(AiDraftField::Model, &press("escape", None), &None);
    assert!(closing.closes);
    let missing = editor.handle_input_key(AiDraftField::ProfileName, &press("a", Some("a")), &None);
    assert!(!missing.closes);
}

#[test]
fn the_editor_shows_its_pages() {
    let model_editor = editor(AiSettingsEditorKind::Model(Some(0)));
    let page = model_page(&model_editor).unwrap();
    assert!(page.enabled);
    assert_eq!(page.probe.text, "尚未探测");
    assert!(editor_foot(&model_editor).can_delete);
    assert_eq!(AiSettingsEditorKind::Model(None).dialog_title(), "新增模型");
    assert_eq!(AiSettingsEditorKind::SystemPrompt.dialog_size(), (760, 620));
    assert_eq!(AiSettingsEditorKind::SystemPrompt.dialog_icon(), ArgusIcon::FileText);
    assert!(field_texts(AiDraftField::ApiKey).is_secret);
    assert_eq!(input_id(AiDraftField::SystemPrompt), "ai-system-prompt");
    assert_eq!(switch_appearance(true), (ArgusIcon::ToggleRight, ThemeColor::Info));
    match log_type_body(&editor(AiSettingsEditorKind::LogProfile(Some(0)))) {
        LogTypeBody::Page(page) => {
            assert_eq!(page.priority, "优先级：995（数值越大越优先）");
            assert_eq!(page.tabs[0].text, "规则 1");
            assert!(page.tabs[0].is_selected);
            let rule = page.rule.unwrap();
            assert_eq!(rule.target, "目标：相对路径");
            assert_eq!(rule.mode, "方式：正则");
            assert_eq!(rule.case, "区分大小写");
        }
        _ => panic!("the log type has a page"),
    }
    assert!(matches!(log_type_body(&model_editor), LogTypeBody::Hint(_)));
}

#[test]
fn an_analysis_starts_with_a_question() {
    let mut dialog = AgentLaunchDialog::new(
        "全部来源".to_string(),
        vec![model("m1"), model("m2")],
        None,
        false,
    );
    assert!(dialog.submit().is_none());
    assert_eq!(dialog.error_message.as_deref(), Some("请输入希望 Agent 分析的问题"));
    dialog.question_input = TextInputState::from_value("a".repeat(AGENT_QUESTION_MAX_BYTES + 1));
    assert!(dialog.submit().is_none());
    assert_eq!(dialog.error_message.as_deref(), Some("问题内容不能超过 4 KiB"));
    dialog.question_input = TextInputState::from_value(" 为什么？ ".to_string());
    dialog.select_next_model();
    let request = dialog.submit().unwrap();
    assert_eq!(request.question, "为什么？");
    assert_eq!(request.model_profile_id, "m2");
    assert!(dialog.is_preparing);
    assert!(dialog.submit().is_none());
    let scanning = launch_appearance(&dialog, "128K");
    assert_eq!(scanning.submit_label, "正在扫描…");
    assert_eq!(
        scanning.scanning.as_deref(),
        Some("正在完整扫描来源树并匹配日志类型，完成后自动启动分析…")
    );
    assert_eq!(scanning.consent, None);
    assert_eq!(scanning.error, None);
    dialog.finish_preparing_with_error("扫描失败".to_string());
    assert!(!dialog.is_preparing);
    let refused = launch_appearance(&dialog, "128K");
    assert_eq!(refused.scanning, None);
    assert_eq!(refused.error.as_deref(), Some("扫描失败"));
    assert!(refused.consent.is_some());
    let mut empty = AgentLaunchDialog::new("x".to_string(), Vec::new(), None, false);
    empty.question_input = TextInputState::from_value("问".to_string());
    assert!(empty.submit().is_none());
    assert_eq!(empty.error_message.as_deref(), Some("当前没有可用于智能分析的模型"));
}

fn link_form(kind: ConnectionLinkKind) -> ConnectionLinkFormState {
    ConnectionLinkFormState {
        link_kind: kind,
        name_input: TextInputState::from_value("生产".to_string()),
        host_input: TextInputState::from_value("host".to_string()),
        port_input: TextInputState::from_value("22".to_string()),
        username_input: TextInputState::new(),
        password_input: TextInputState::new(),
        share_input: TextInputState::new(),
        initial_dir_input: TextInputState::new(),
        domain_input: TextInputState::new(),
        private_key_path_input: TextInputState::new(),
        private_key_passphrase_input: TextInputState::new(),
        error_message: None,
    }
}

#[test]
fn a_link_window_types_into_the_input_that_is_focused() {
    let mut window =
        ConnectionLinkWindow::new(link_form(ConnectionLinkKind::Ssh), ConnectionLinkWindowMode::Create);
    assert!(window.form.name_input.is_focused);
    assert!(window.is_mode(ConnectionLinkWindowMode::Create));
    assert_eq!(window.link_kind(), ConnectionLinkKind::Ssh);
    window.focus_input(ConnectionFormInputTarget::LinkHost);
    assert!(!window.form.name_input.is_focused);
    let outcome =
        window.handle_input_key(ConnectionFormInputTarget::LinkHost, &press("x", Some("x")), &None);
    assert_eq!(outcome.action, ConnectionWindowInputAction::Changed);
    assert_eq!(window.form.host_input.value, "hostx");
    assert_eq!(window.submission(), ConnectionSubmission::CreateLink);
    assert!(!window.finish_submission(Err("端口无效".to_string())));
    assert_eq!(window.form.error_message.as_deref(), Some("端口无效"));
    assert!(window.finish_submission(Ok(())));
}

#[test]
fn a_window_shows_why_its_form_was_refused() {
    let mut link = ConnectionLinkWindow::new(
        link_form(ConnectionLinkKind::Smb),
        ConnectionLinkWindowMode::Create,
    );
    assert_eq!(link_window_appearance(&link).error, None);
    link.finish_submission(Err("端口无效".to_string()));
    let look = link_window_appearance(&link);
    assert_eq!(look.error.as_deref(), Some("端口无效"));
    assert_eq!(look.texts.title, "新增 SMB 链接");
    assert_eq!(look.rows, link_window_rows(ConnectionLinkKind::Smb));
    let form = ConnectionDirectoryFormState {
        name_input: TextInputState::new(),
        error_message: Some("名称为空".to_string()),
    };
    let directory = ConnectionDirectoryWindow::new(form, ConnectionDirectoryWindowMode::Create);
    let look = directory_window_appearance(&directory);
    assert_eq!(look.error.as_deref(), Some("名称为空"));
    assert_eq!(look.texts.submit_label, "创建目录");
    assert_eq!(look.rows.len(), 1);
}

#[test]
fn a_directory_window_can_be_reused() {
    let form = |name: &str| ConnectionDirectoryFormState {
        name_input: TextInputState::from_value(name.to_string()),
        error_message: None,
    };
    let mut window =
        ConnectionDirectoryWindow::new(form("旧"), ConnectionDirectoryWindowMode::Create);
    let edit = ConnectionDirectoryWindowMode::Edit { directory_id: ConnectionNodeId(4) };
    window.replace_form(form("新"), edit);
    assert!(window.is_mode(edit));
    assert_eq!(window.form.name_input.value, "新");
    assert!(window.form.name_input.is_focused);
    assert_eq!(
        window.submission(),
        ConnectionSubmission::UpdateDirectory(ConnectionNodeId(4))
    );
    assert_eq!(directory_window_texts(edit).title, "编辑目录");
}

#[test]
fn the_windows_of_links_ask_for_what_the_protocol_needs() {
    let ssh = link_window_rows(ConnectionLinkKind::Ssh);
    let smb = link_window_rows(ConnectionLinkKind::Smb);
    assert!(ssh.iter().any(|row| row.target == ConnectionFormInputTarget::LinkPrivateKeyPath));
    assert!(!ssh.iter().any(|row| row.target == ConnectionFormInputTarget::LinkShare));
    assert!(smb.iter().any(|row| row.target == ConnectionFormInputTarget::LinkShare));
    assert!(ssh
        .iter()
        .find(|row| row.target == ConnectionFormInputTarget::LinkPassword)
        .unwrap()
        .is_secret);
    assert_ne!(
        input_id_for_target(ConnectionFormInputTarget::LinkHost),
        input_id_for_target(ConnectionFormInputTarget::LinkPort)
    );
}

#[test]
fn prompts_ask_about_the_right_thing() {
    let key = ConnectionHostKeyPromptState {
        host: "h".to_string(),
        port: 22,
        fingerprint: "f".to_string(),
    };
    assert_eq!(host_key_question(&key), "h:22 首次连接，需要确认主机指纹。");
    let deletion = ConnectionDeletePromptState {
        node_id: ConnectionNodeId(1),
        label: "目录一".to_string(),
        is_directory: true,
    };
    assert!(delete_question(&deletion).starts_with("确定要删除目录"));
    assert!(delete_question(&deletion).contains("目录一"));
}
