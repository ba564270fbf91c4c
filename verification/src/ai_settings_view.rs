//! What the editor of the settings shows.

use vstd::prelude::*;
use crate::ai_settings::{AiDraftField, AiSettingsEditorKind, DraftModel, ProfileDraft};
use crate::ai_settings_editor::{AiSettingsEditor, CapabilityProbeState, ProbeModel};
use crate::icon::ArgusIcon;
use crate::log_matcher::{matcher_mode_label, matcher_target_label, mode_text, target_text};
use crate::text::{decimal, decimal_text};
use crate::theme::ThemeColor;

verus! {

// ---------------------------------------------------------------------------
// The frame
// ---------------------------------------------------------------------------

/// The title of the dialog.
pub open spec fn title_of(kind: AiSettingsEditorKind) -> Seq<char> {
    match kind {
        AiSettingsEditorKind::Model(Some(_)) => "编辑模型"@,
        AiSettingsEditorKind::Model(None) => "新增模型"@,
        AiSettingsEditorKind::LogProfile(Some(_)) => "编辑日志类型"@,
        AiSettingsEditorKind::LogProfile(None) => "新增日志类型"@,
        AiSettingsEditorKind::SystemPrompt => "默认系统提示词"@,
    }
}

impl AiSettingsEditorKind {
    /// The title of the dialog.
    pub fn dialog_title(self) -> (result: &'static str)
        ensures
            result@ == title_of(self),
    {
        match self {
            AiSettingsEditorKind::Model(Some(_)) => "编辑模型",
            AiSettingsEditorKind::Model(None) => "新增模型",
            AiSettingsEditorKind::LogProfile(Some(_)) => "编辑日志类型",
            AiSettingsEditorKind::LogProfile(None) => "新增日志类型",
            AiSettingsEditorKind::SystemPrompt => "默认系统提示词",
        }
    }

    /// The width and the height of the dialog.
    pub fn dialog_size(self) -> (result: (u32, u32))
        ensures
            result == (match self {
                AiSettingsEditorKind::Model(_) => (680u32, 520u32),
                AiSettingsEditorKind::LogProfile(_) => (680u32, 600u32),
                AiSettingsEditorKind::SystemPrompt => (760u32, 620u32),
            }),
    {
        match self {
            AiSettingsEditorKind::Model(_) => (680, 520),
            AiSettingsEditorKind::LogProfile(_) => (680, 600),
            AiSettingsEditorKind::SystemPrompt => (760, 620),
        }
    }

    /// The icon beside the title.
    pub fn dialog_icon(self) -> (result: ArgusIcon)
        ensures
            result == (match self {
                AiSettingsEditorKind::Model(_) => ArgusIcon::Settings,
                AiSettingsEditorKind::LogProfile(_) => ArgusIcon::Logs,
                AiSettingsEditorKind::SystemPrompt => ArgusIcon::FileText,
            }),
    {
        match self {
            AiSettingsEditorKind::Model(_) => ArgusIcon::Settings,
            AiSettingsEditorKind::LogProfile(_) => ArgusIcon::Logs,
            AiSettingsEditorKind::SystemPrompt => ArgusIcon::FileText,
        }
    }
}

/// What the foot of the dialog says where nothing went wrong.
pub open spec fn hint_of(kind: AiSettingsEditorKind) -> Seq<char> {
    match kind {
        AiSettingsEditorKind::Model(_) => "API Key 只写入系统凭据库，留空将保留已有密钥"@,
        AiSettingsEditorKind::LogProfile(_) => {
            "名称规则按优先级匹配，日志说明会发送给所配置的模型服务"@
        },
        AiSettingsEditorKind::SystemPrompt => {
            "提示词只补充专业角色，不能覆盖固定流程和安全规则"@
        },
    }
}

/// The foot of the dialog.
#[derive(Debug, PartialEq, Eq)]
pub struct EditorFoot {
    /// What it says.
    pub text: String,
    /// The colour of that.
    pub color: ThemeColor,
    /// Whether there is an entry to remove.
    pub can_delete: bool,
}

/// Works out the foot of the dialog.
pub fn editor_foot(editor: &AiSettingsEditor) -> (result: EditorFoot)
    ensures
        result.text@ == (match editor@.error_message {
            Some(message) => message,
            None => hint_of(editor@.kind),
        }),
        result.color == (if editor@.error_message is Some {
            ThemeColor::Error
        } else {
            ThemeColor::ForegroundMuted
        }),
        result.can_delete == (match editor@.kind {
            AiSettingsEditorKind::Model(place) => place is Some,
            AiSettingsEditorKind::LogProfile(place) => place is Some,
            AiSettingsEditorKind::SystemPrompt => false,
        }),
{
    let text = match &editor.error_message {
        Some(message) => message.clone(),
        None => match editor.kind {
            AiSettingsEditorKind::Model(_) => {
                "API Key 只写入系统凭据库，留空将保留已有密钥".to_owned()
            },
            AiSettingsEditorKind::LogProfile(_) => {
                "名称规则按优先级匹配，日志说明会发送给所配置的模型服务".to_owned()
            },
            AiSettingsEditorKind::SystemPrompt => {
                "提示词只补充专业角色，不能覆盖固定流程和安全规则".to_owned()
            },
        },
    };
    EditorFoot {
        text,
        color: if editor.error_message.is_some() {
            ThemeColor::Error
        } else {
            ThemeColor::ForegroundMuted
        },
        can_delete: match editor.kind {
            AiSettingsEditorKind::Model(place) => place.is_some(),
            AiSettingsEditorKind::LogProfile(place) => place.is_some(),
            AiSettingsEditorKind::SystemPrompt => false,
        },
    }
}

// ---------------------------------------------------------------------------
// The inputs
// ---------------------------------------------------------------------------

/// The texts around an input.
#[derive(Debug, PartialEq, Eq)]
pub struct FieldTexts {
    /// Its id.
    pub id: &'static str,
    /// What stands above it.
    pub label: &'static str,
    /// What stands below it.
    pub description: &'static str,
    /// What stands in it while it is empty.
    pub placeholder: &'static str,
    /// Whether its text is hidden.
    pub is_secret: bool,
    /// How many lines it shows.
    pub visible_lines: usize,
}

/// A [`FieldTexts`] with its texts as sequences of characters.
#[verifier::ext_equal]
pub struct FieldTextsModel {
    /// Its id.
    pub id: Seq<char>,
    /// What stands above it.
    pub label: Seq<char>,
    /// What stands below it.
    pub description: Seq<char>,
    /// What stands in it while it is empty.
    pub placeholder: Seq<char>,
    /// Whether its text is hidden.
    pub is_secret: bool,
    /// How many lines it shows.
    pub visible_lines: usize,
}

impl View for FieldTexts {
    type V = FieldTextsModel;

    open spec fn view(&self) -> FieldTextsModel {
        FieldTextsModel {
            id: self.id@,
            label: self.label@,
            description: self.description@,
            placeholder: self.placeholder@,
            is_secret: self.is_secret,
            visible_lines: self.visible_lines,
        }
    }
}

/// The texts around an input of one line.
pub open spec fn line_texts(
    id: Seq<char>,
    label: Seq<char>,
    description: Seq<char>,
    placeholder: Seq<char>,
) -> FieldTextsModel {
    FieldTextsModel { id, label, description, placeholder, is_secret: false, visible_lines: 1 }
}

/// The texts around each input.
pub open spec fn texts_of(field: AiDraftField) -> FieldTextsModel {
    match field {
        AiDraftField::ModelName => line_texts(
            "ai-model-name-input"@,
            "配置名称"@,
            "用于设置列表和发起智能分析时选择模型。"@,
            "例如：生产环境 GPT"@,
        ),
        AiDraftField::BaseUrl => line_texts(
            "ai-base-url-input"@,
            "服务地址"@,
            "外部服务必须使用 HTTPS，本机服务允许 HTTP。"@,
            "例如 https://host/v1"@,
        ),
        AiDraftField::Model => line_texts(
            "ai-model-input"@,
            "模型 ID"@,
            "填写服务端支持结构化工具调用的模型标识。"@,
            "模型 ID"@,
        ),
        AiDraftField::ContextWindow => line_texts(
            "ai-model-context-window-input"@,
            "上下文大小"@,
            "填写模型上下文窗口的 Token 数，用于分析时计算当前请求占用比例。"@,
            "例如 128000"@,
        ),
        AiDraftField::ApiKey => FieldTextsModel {
            is_secret: true,
            ..line_texts(
                "ai-api-key-input"@,
                "API Key"@,
                "密钥不会写入 settings.toml；留空表示保留系统凭据库中的已有值。"@,
                "API Key（留空保留已有密钥）"@,
            )
        },
        AiDraftField::ProfileName => line_texts(
            "ai-profile-name-input"@,
            "日志类型名称"@,
            "长度为 1～64 个字符。"@,
            "例如：网关访问日志"@,
        ),
        AiDraftField::MatcherPattern => line_texts(
            "ai-matcher-pattern-input"@,
            "名称或路径模式"@,
            "支持完全匹配、前缀、后缀、包含和 Rust 正则。"@,
            "名称文本或 Rust 正则（1～512 字符）"@,
        ),
        AiDraftField::ProfileDescription => FieldTextsModel {
            visible_lines: 7,
            ..line_texts(
                "ai-profile-description"@,
                ""@,
                "建议填写字段含义、时区、关联 ID、已知故障特征和误判；不要填写密码、Token 或要求执行命令。"@,
                "说明日志来源、字段含义、关联方式、常见故障和分析建议（1 B～4 KiB）"@,
            )
        },
        AiDraftField::SystemPrompt => FieldTextsModel {
            visible_lines: 16,
            ..line_texts(
                "ai-system-prompt"@,
                ""@,
                "最多 32 KiB。固定分析流程、工具沙箱、最高思考模式和证据校验不可被此提示词关闭。"@,
                "填写专业角色、领域知识和输出偏好"@,
            )
        },
    }
}

fn one_line(
    id: &'static str,
    label: &'static str,
    description: &'static str,
    placeholder: &'static str,
) -> (result: FieldTexts)
    ensures
        result@ == line_texts(id@, label@, description@, placeholder@),
{
    FieldTexts { id, label, description, placeholder, is_secret: false, visible_lines: 1 }
}

/// The texts around an input.
pub fn field_texts(field: AiDraftField) -> (result: FieldTexts)
    ensures
        result@ == texts_of(field),
{
    match field {
        AiDraftField::ModelName => one_line(
            "ai-model-name-input",
            "配置名称",
            "用于设置列表和发起智能分析时选择模型。",
            "例如：生产环境 GPT",
        ),
        AiDraftField::BaseUrl => one_line(
            "ai-base-url-input",
            "服务地址",
            "外部服务必须使用 HTTPS，本机服务允许 HTTP。",
            "例如 https://host/v1",
        ),
        AiDraftField::Model => one_line(
            "ai-model-input",
            "模型 ID",
            "填写服务端支持结构化工具调用的模型标识。",
            "模型 ID",
        ),
        AiDraftField::ContextWindow => one_line(
            "ai-model-context-window-input",
            "上下文大小",
            "填写模型上下文窗口的 Token 数，用于分析时计算当前请求占用比例。",
            "例如 128000",
        ),
        AiDraftField::ApiKey => {
            let mut texts = one_line(
                "ai-api-key-input",
                "API Key",
                "密钥不会写入 settings.toml；留空表示保留系统凭据库中的已有值。",
                "API Key（留空保留已有密钥）",
            );
            texts.is_secret = true;
            texts
        },
        AiDraftField::ProfileName => one_line(
            "ai-profile-name-input",
            "日志类型名称",
            "长度为 1～64 个字符。",
            "例如：网关访问日志",
        ),
        AiDraftField::MatcherPattern => one_line(
            "ai-matcher-pattern-input",
            "名称或路径模式",
            "支持完全匹配、前缀、后缀、包含和 Rust 正则。",
            "名称文本或 Rust 正则（1～512 字符）",
        ),
        AiDraftField::ProfileDescription => {
            let mut texts = one_line(
                "ai-profile-description",
                "",
                "建议填写字段含义、时区、关联 ID、已知故障特征和误判；不要填写密码、Token 或要求执行命令。",
                "说明日志来源、字段含义、关联方式、常见故障和分析建议（1 B～4 KiB）",
            );
            texts.visible_lines = 7;
            texts
        },
        AiDraftField::SystemPrompt => {
            let mut texts = one_line(
                "ai-system-prompt",
                "",
                "最多 32 KiB。固定分析流程、工具沙箱、最高思考模式和证据校验不可被此提示词关闭。",
                "填写专业角色、领域知识和输出偏好",
            );
            texts.visible_lines = 16;
            texts
        },
    }
}

/// The id of an input.
pub fn input_id(field: AiDraftField) -> (result: &'static str)
    ensures
        result@ == texts_of(field).id,
{
    field_texts(field).id
}

// ---------------------------------------------------------------------------
// The page of a model
// ---------------------------------------------------------------------------

/// How the trial of the model is shown.
#[derive(Debug, PartialEq, Eq)]
pub struct ProbeAppearance {
    /// What the button says.
    pub button: &'static str,
    /// What stands beside it.
    pub text: String,
    /// The colour of that.
    pub color: ThemeColor,
}

/// Whether an appearance is that of a trial.
pub open spec fn shows_probe(appearance: ProbeAppearance, state: ProbeModel) -> bool {
    &&& appearance.button@ == (if state is Testing {
        "测试中…"@
    } else {
        "测试连接与工具调用"@
    })
    &&& appearance.text@ == (match state {
        ProbeModel::Idle => "尚未探测"@,
        ProbeModel::Testing => "正在发送固定无日志请求"@,
        ProbeModel::Succeeded(message) => message,
        ProbeModel::Failed(message) => message,
    })
    &&& appearance.color == (match state {
        ProbeModel::Succeeded(_) => ThemeColor::Info,
        ProbeModel::Failed(_) => ThemeColor::Error,
        _ => ThemeColor::ForegroundMuted,
    })
}

/// Works out how the trial of the model is shown.
pub fn probe_appearance(state: &CapabilityProbeState) -> (result: ProbeAppearance)
    ensures
        shows_probe(result, state@),
{
    match state {
        CapabilityProbeState::Idle => ProbeAppearance {
            button: "测试连接与工具调用",
            text: "尚未探测".to_owned(),
            color: ThemeColor::ForegroundMuted,
        },
        CapabilityProbeState::Testing => ProbeAppearance {
            button: "测试中…",
            text: "正在发送固定无日志请求".to_owned(),
            color: ThemeColor::ForegroundMuted,
        },
        CapabilityProbeState::Succeeded(message) => ProbeAppearance {
            button: "测试连接与工具调用",
            text: message.clone(),
            color: ThemeColor::Info,
        },
        CapabilityProbeState::Failed(message) => ProbeAppearance {
            button: "测试连接与工具调用",
            text: message.clone(),
            color: ThemeColor::Error,
        },
    }
}

/// The page of a model.
#[derive(Debug, PartialEq, Eq)]
pub struct ModelPage {
    /// Whether new sessions may choose the model.
    pub enabled: bool,
    /// Whether the model may see log text.
    pub allow_raw_log_content: bool,
    /// How the trial is shown.
    pub probe: ProbeAppearance,
}

/// Works out the page of the chosen model; none where there is no such model.
pub fn model_page(editor: &AiSettingsEditor) -> (result: Option<ModelPage>)
    ensures
        match result {
            Some(page) => editor@.draft.has_model() && page.enabled
                == editor@.draft.chosen_model().enabled && page.allow_raw_log_content
                == editor@.draft.allow_raw_log_content && shows_probe(
                page.probe,
                editor@.probe_state,
            ),
            None => !editor@.draft.has_model(),
        },
{
    match editor.draft.selected_model {
        Some(index) => {
            if index < editor.draft.models.len() {
                assert(editor@.draft.models[index as int] == editor.draft.models@[index as int]@);
                Some(
                    ModelPage {
                        enabled: editor.draft.models[index].enabled,
                        allow_raw_log_content: editor.draft.allow_raw_log_content,
                        probe: probe_appearance(&editor.capability_probe_state),
                    },
                )
            } else {
                None
            }
        },
        None => None,
    }
}

// ---------------------------------------------------------------------------
// The page of a log type
// ---------------------------------------------------------------------------

/// The buttons of a rule.
#[derive(Debug, PartialEq, Eq)]
pub struct RuleButtons {
    /// What the rule looks at.
    pub target: String,
    /// How it compares.
    pub mode: String,
    /// Whether upper and lower case differ.
    pub case: &'static str,
    /// Whether that button is lit.
    pub is_case_sensitive: bool,
}

/// One rule among the others.
#[derive(Debug, PartialEq, Eq)]
pub struct RuleTab {
    /// What it says.
    pub text: String,
    /// Whether it is the chosen one.
    pub is_selected: bool,
}

/// The page of a log type.
#[derive(Debug, PartialEq, Eq)]
pub struct LogTypePage {
    /// Whether the log type is used.
    pub enabled: bool,
    /// Its priority.
    pub priority: String,
    /// Its rules.
    pub tabs: Vec<RuleTab>,
    /// The buttons of the chosen rule.
    pub rule: Option<RuleButtons>,
}

/// What takes the place of the page of a log type.
#[derive(Debug, PartialEq, Eq)]
pub enum LogTypeBody {
    /// No log type was chosen.
    Hint(&'static str),
    /// The chosen one is not there.
    Blank,
    /// The page.
    Page(LogTypePage),
}

/// Whether the tabs are those of some rules.
pub open spec fn are_tabs(tabs: Seq<RuleTab>, count: int, selected: usize) -> bool {
    &&& tabs.len() == count
    &&& forall|i: int|
        0 <= i < count ==> (#[trigger] tabs[i]).text@ == "规则 "@ + decimal_text((i + 1) as nat)
            && tabs[i].is_selected == (i == selected)
}

/// Whether a page is that of the chosen log type.
pub open spec fn shows_log_type(page: LogTypePage, draft: DraftModel) -> bool {
    let profile = draft.chosen_profile();
    &&& page.enabled == profile.enabled
    &&& page.priority@ == "优先级："@ + decimal_text(profile.priority as nat)
        + "（数值越大越优先）"@
    &&& are_tabs(page.tabs@, profile.matchers.len() as int, draft.selected_matcher)
    &&& match page.rule {
        Some(buttons) => {
            let rule = draft.chosen_rule();
            &&& draft.has_rule()
            &&& buttons.target@ == "目标："@ + target_text(rule.target)
            &&& buttons.mode@ == "方式："@ + mode_text(rule.mode)
            &&& buttons.case@ == (if rule.case_sensitive {
                "区分大小写"@
            } else {
                "忽略大小写"@
            })
            &&& buttons.is_case_sensitive == rule.case_sensitive
        },
        None => !draft.has_rule(),
    }
}

fn rule_tabs(count: usize, selected: usize) -> (result: Vec<RuleTab>)
    requires
        count < usize::MAX,
    ensures
        are_tabs(result@, count as int, selected),
{
    let mut tabs: Vec<RuleTab> = Vec::new();
    let mut i: usize = 0;
    while i < count
        invariant
            i <= count < usize::MAX,
            are_tabs(tabs@, i as int, selected),
        decreases count - i,
    {
        let mut text = "规则 ".to_owned();
        let number = decimal((i + 1) as u64);
        text.push_str(number.as_str());
        tabs.push(RuleTab { text, is_selected: i == selected });
        i += 1;
    }
    tabs
}

fn rule_buttons(profile: &ProfileDraft, place: usize) -> (result: RuleButtons)
    requires
        place < profile.matchers@.len(),
    ensures
        ({
            let rule = profile@.matchers[place as int];
            &&& result.target@ == "目标："@ + target_text(rule.target)
            &&& result.mode@ == "方式："@ + mode_text(rule.mode)
            &&& result.case@ == (if rule.case_sensitive {
                "区分大小写"@
            } else {
                "忽略大小写"@
            })
            &&& result.is_case_sensitive == rule.case_sensitive
        }),
{
    let rule = &profile.matchers[place];
    assert(profile@.matchers[place as int] == rule@);
    let mut target = "目标：".to_owned();
    target.push_str(matcher_target_label(rule.target));
    let mut mode = "方式：".to_owned();
    mode.push_str(matcher_mode_label(rule.mode));
    RuleButtons {
        target,
        mode,
        case: if rule.case_sensitive {
            "区分大小写"
        } else {
            "忽略大小写"
        },
        is_case_sensitive: rule.case_sensitive,
    }
}

/// Works out the page of the chosen log type.
pub fn log_type_body(editor: &AiSettingsEditor) -> (result: LogTypeBody)
    requires
        editor@.draft.has_profile() ==> editor@.draft.chosen_profile().matchers.len() < usize::MAX,
    ensures
        match result {
            LogTypeBody::Hint(text) => editor@.draft.selected_profile is None && text@
                == "新增或选择一个日志类型以编辑名称规则和分析说明"@,
            LogTypeBody::Blank => editor@.draft.selected_profile is Some
                && !editor@.draft.has_profile(),
            LogTypeBody::Page(page) => editor@.draft.has_profile() && shows_log_type(
                page,
                editor@.draft,
            ),
        },
{
    let draft = &editor.draft;
    match draft.selected_profile {
        None => LogTypeBody::Hint("新增或选择一个日志类型以编辑名称规则和分析说明"),
        Some(index) => {
            if index >= draft.profiles.len() {
                return LogTypeBody::Blank;
            }
            let profile = &draft.profiles[index];
            assert(editor@.draft.profiles[index as int] == profile@);
            let mut priority = "优先级：".to_owned();
            let number = decimal(profile.priority as u64);
            priority.push_str(number.as_str());
            priority.push_str("（数值越大越优先）");
            let rule = if draft.selected_matcher < profile.matchers.len() {
                Some(rule_buttons(profile, draft.selected_matcher))
            } else {
                None
            };
            LogTypeBody::Page(
                LogTypePage {
                    enabled: profile.enabled,
                    priority,
                    tabs: rule_tabs(profile.matchers.len(), draft.selected_matcher),
                    rule,
                },
            )
        },
    }
}

// ---------------------------------------------------------------------------
// The small parts
// ---------------------------------------------------------------------------

/// The icon of a switch, and its colour.
pub fn switch_appearance(enabled: bool) -> (result: (ArgusIcon, ThemeColor))
    ensures
        result == (if enabled {
            (ArgusIcon::ToggleRight, ThemeColor::Info)
        } else {
            (ArgusIcon::ToggleLeft, ThemeColor::ForegroundMuted)
        }),
{
    if enabled {
        (ArgusIcon::ToggleRight, ThemeColor::Info)
    } else {
        (ArgusIcon::ToggleLeft, ThemeColor::ForegroundMuted)
    }
}

/// The background of a button in the editor.
pub fn editor_button_background(is_primary: bool) -> (result: ThemeColor)
    ensures
        result == (if is_primary {
            ThemeColor::Selection
        } else {
            ThemeColor::CurrentLine
        }),
{
    if is_primary {
        ThemeColor::Selection
    } else {
        ThemeColor::CurrentLine
    }
}

/// The colour of the icon on a button at the foot of the editor.
pub fn action_icon_color(is_primary: bool) -> (result: ThemeColor)
    ensures
        result == (if is_primary {
            ThemeColor::Foreground
        } else {
            ThemeColor::ForegroundMuted
        }),
{
    if is_primary {
        ThemeColor::Foreground
    } else {
        ThemeColor::ForegroundMuted
    }
}

} // verus!
