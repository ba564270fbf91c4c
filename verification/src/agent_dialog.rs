//! The dialog that starts an analysis: the question, the model, and what it shows.

use vstd::prelude::*;
use crate::ai_config::{model_profiles, AiModelProfile, ModelProfileModel};
use crate::input_behavior::{handle_local_input_key, key_has_room, key_step, LocalInputAction};
use crate::keystroke::{copy_optional_text, optional_text, Keystroke};
use crate::text::{byte_len, same_text, trim, trimmed, utf8_len};
use crate::text_input::{InputModel, TextInputState};
use crate::text_selection::NativeTextEdit;
use crate::theme::ThemeColor;

verus! {

/// The most bytes of a question.
pub const AGENT_QUESTION_MAX_BYTES: usize = 4096;

/// The dialog.
#[derive(Debug, PartialEq, Eq)]
pub struct AgentLaunchDialog {
    /// What will be analysed.
    pub scope_label: String,
    /// The models that may be asked.
    pub models: Vec<AiModelProfile>,
    /// The place of the chosen one.
    pub selected_model: usize,
    /// Why no analysis can start.
    pub unavailable_reason: Option<String>,
    /// Whether the model may see log text.
    pub allow_raw_log_content: bool,
    /// The input.
    pub question_input: TextInputState,
    /// What went wrong last.
    pub error_message: Option<String>,
    /// Whether the sources are being scanned.
    pub is_preparing: bool,
}

/// An [`AgentLaunchDialog`] with its texts as sequences of characters.
#[verifier::ext_equal]
pub struct LaunchModel {
    /// What will be analysed.
    pub scope_label: Seq<char>,
    /// The models that may be asked.
    pub models: Seq<ModelProfileModel>,
    /// The place of the chosen one.
    pub selected_model: usize,
    /// Why no analysis can start.
    pub unavailable_reason: Option<Seq<char>>,
    /// Whether the model may see log text.
    pub allow_raw_log_content: bool,
    /// The input.
    pub question_input: InputModel,
    /// What went wrong last.
    pub error_message: Option<Seq<char>>,
    /// Whether the sources are being scanned.
    pub is_preparing: bool,
}

impl View for AgentLaunchDialog {
    type V = LaunchModel;

    open spec fn view(&self) -> LaunchModel {
        LaunchModel {
            scope_label: self.scope_label@,
            models: model_profiles(self.models@),
            selected_model: self.selected_model,
            unavailable_reason: optional_text(self.unavailable_reason),
            allow_raw_log_content: self.allow_raw_log_content,
            question_input: self.question_input@,
            error_message: optional_text(self.error_message),
            is_preparing: self.is_preparing,
        }
    }
}

/// What starts an analysis.
#[derive(Debug, PartialEq, Eq)]
pub struct LaunchRequest {
    /// The question.
    pub question: String,
    /// The id of the model.
    pub model_profile_id: String,
}

impl LaunchModel {
    /// Whether the chosen place is one of the models', where there are any.
    pub open spec fn is_sound(self) -> bool {
        self.models.len() > 0 ==> self.selected_model < self.models.len()
    }

    /// The question.
    pub open spec fn question(self) -> Seq<char> {
        trimmed(self.question_input.value)
    }

    /// Whether the dialog takes nothing at the moment.
    pub open spec fn is_idle(self) -> bool {
        self.unavailable_reason is Some || self.is_preparing
    }

    /// Why the question cannot be put.
    pub open spec fn question_error(self) -> Option<Seq<char>> {
        if self.question().len() == 0 {
            Some("请输入希望 Agent 分析的问题"@)
        } else if utf8_len(self.question()) > AGENT_QUESTION_MAX_BYTES {
            Some("问题内容不能超过 4 KiB"@)
        } else if self.selected_model >= self.models.len() {
            Some("当前没有可用于智能分析的模型"@)
        } else {
            None
        }
    }

    /// The dialog after the question was put.
    pub open spec fn submitted(self) -> LaunchModel {
        if self.is_idle() {
            self
        } else if self.question_error() is Some {
            LaunchModel { error_message: self.question_error(), ..self }
        } else {
            LaunchModel { is_preparing: true, error_message: None, ..self }
        }
    }

    /// The dialog after the user went on to the next model.
    pub open spec fn next_model_chosen(self) -> LaunchModel {
        if !self.is_preparing && self.models.len() > 1 {
            LaunchModel {
                selected_model: ((self.selected_model + 1) % (self.models.len() as int)) as usize,
                error_message: None,
                ..self
            }
        } else {
            self
        }
    }
}

/// What a key press asks for.
#[derive(Debug, PartialEq, Eq)]
pub struct QuestionKeyOutcome {
    /// What starts an analysis.
    pub request: Option<LaunchRequest>,
    /// Whether the dialog closes.
    pub closes: bool,
    /// What goes to the clipboard.
    pub copied: Option<String>,
}

/// Whether a request is what a dialog asks for when its question is put.
pub open spec fn is_request_of(request: Option<LaunchRequest>, dialog: LaunchModel) -> bool {
    match request {
        Some(present) => !dialog.is_idle() && dialog.question_error() is None && present.question@
            == dialog.question() && present.model_profile_id@
            == dialog.models[dialog.selected_model as int].profile_id,
        None => dialog.is_idle() || dialog.question_error() is Some,
    }
}

impl AgentLaunchDialog {
    /// Opens the dialog.
    pub fn new(
        scope_label: String,
        models: Vec<AiModelProfile>,
        unavailable_reason: Option<String>,
        allow_raw_log_content: bool,
    ) -> (result: AgentLaunchDialog)
        ensures
            result@.is_sound(),
            result@ == (LaunchModel {
                scope_label: scope_label@,
                models: model_profiles(models@),
                selected_model: 0,
                unavailable_reason: optional_text(unavailable_reason),
                allow_raw_log_content,
                question_input: InputModel { is_focused: true, ..InputModel::blank() },
                error_message: None,
                is_preparing: false,
            }),
    {
        let mut question_input = TextInputState::new();
        question_input.is_focused = true;
        AgentLaunchDialog {
            scope_label,
            models,
            selected_model: 0,
            unavailable_reason,
            allow_raw_log_content,
            question_input,
            error_message: None,
            is_preparing: false,
        }
    }

    /// Puts the question: gives what starts an analysis, or notes why nothing does.
    pub fn submit(&mut self) -> (result: Option<LaunchRequest>)
        requires
            old(self)@.is_sound(),
        ensures
            final(self)@.is_sound(),
            final(self)@ == old(self)@.submitted(),
            is_request_of(result, old(self)@),
    {
        if self.unavailable_reason.is_some() || self.is_preparing {
            return None;
        }
        let question = trim(self.question_input.value.as_str());
        if question.as_str().is_empty() {
            self.error_message = Some("请输入希望 Agent 分析的问题".to_owned());
            return None;
        }
        if byte_len(question.as_str()) > AGENT_QUESTION_MAX_BYTES {
            self.error_message = Some("问题内容不能超过 4 KiB".to_owned());
            return None;
        }
        if self.selected_model >= self.models.len() {
            self.error_message = Some("当前没有可用于智能分析的模型".to_owned());
            return None;
        }
        proof {
            assert(self@.models[self.selected_model as int]
                == self.models@[self.selected_model as int]@);
        }
        let model_profile_id = self.models[self.selected_model].profile_id.clone();
        self.is_preparing = true;
        self.error_message = None;
        Some(LaunchRequest { question, model_profile_id })
    }

    /// Goes back to the form, with what went wrong.
    pub fn finish_preparing_with_error(&mut self, message: String)
        requires
            old(self)@.is_sound(),
        ensures
            final(self)@.is_sound(),
            final(self)@ == (LaunchModel {
                is_preparing: false,
                error_message: Some(message@),
                ..old(self)@
            }),
    {
        self.is_preparing = false;
        self.error_message = Some(message);
    }

    /// Goes on to the next model.
    pub fn select_next_model(&mut self)
        requires
            old(self)@.is_sound(),
        ensures
            final(self)@.is_sound(),
            final(self)@ == old(self)@.next_model_chosen(),
    {
        if !self.is_preparing && self.models.len() > 1 {
            self.selected_model = (self.selected_model + 1) % self.models.len();
            self.error_message = None;
        }
    }

    /// Handles a key press. Nothing is taken while the sources are being scanned.
    pub fn handle_question_key(&mut self, keystroke: &Keystroke, clipboard: &Option<String>) -> (result:
        QuestionKeyOutcome)
        requires
            old(self)@.is_sound(),
            !old(self)@.is_preparing ==> key_has_room(
                old(self)@.question_input,
                keystroke@,
                true,
                optional_text(*clipboard),
            ),
        ensures
            final(self)@.is_sound(),
            ({
                let step = key_step(
                    old(self)@.question_input,
                    keystroke@,
                    true,
                    optional_text(*clipboard),
                );
                let typed = LaunchModel { question_input: step.input, ..old(self)@ };
                if old(self)@.is_preparing {
                    &&& final(self)@ == old(self)@
                    &&& result.request is None && !result.closes && result.copied is None
                } else {
                    &&& optional_text(result.copied) == step.copied
                    &&& result.closes == (step.action is Close)
                    &&& if step.action is Submit {
                        final(self)@ == typed.submitted() && is_request_of(result.request, typed)
                    } else {
                        final(self)@ == (LaunchModel {
                            error_message: if step.action is Changed {
                                None
                            } else {
                                typed.error_message
                            },
                            ..typed
                        }) && result.request is None
                    }
                }
            }),
    {
        if self.is_preparing {
            return QuestionKeyOutcome { request: None, closes: false, copied: None };
        }
        let outcome = handle_local_input_key(&mut self.question_input, keystroke, true, clipboard);
        match outcome.action {
            LocalInputAction::Submit => {
                let request = self.submit();
                QuestionKeyOutcome { request, closes: false, copied: outcome.copied }
            },
            LocalInputAction::Close => QuestionKeyOutcome {
                request: None,
                closes: true,
                copied: outcome.copied,
            },
            LocalInputAction::Changed => {
                self.error_message = None;
                QuestionKeyOutcome { request: None, closes: false, copied: outcome.copied }
            },
            LocalInputAction::Ignored => QuestionKeyOutcome {
                request: None,
                closes: false,
                copied: outcome.copied,
            },
        }
    }

    /// Applies an edit of the system's input method. Nothing is taken while the
    /// sources are being scanned.
    pub fn apply_native_edit(&mut self, edit: &NativeTextEdit)
        requires
            old(self)@.is_sound(),
        ensures
            final(self)@.is_sound(),
            final(self)@ == (if old(self)@.is_preparing {
                old(self)@
            } else {
                LaunchModel {
                    question_input: old(self)@.question_input.natively_edited(*edit),
                    error_message: None,
                    ..old(self)@
                }
            }),
    {
        if self.is_preparing {
            return;
        }
        self.question_input.apply_native_edit(edit);
        self.error_message = None;
    }

    /// Whether a key press on the dialog itself closes it.
    pub fn closes_on(keystroke: &Keystroke) -> (result: bool)
        ensures
            result == (keystroke@.key == "escape"@),
    {
        same_text(keystroke.key.as_str(), "escape")
    }
}

/// Going round through the models, each is chosen once.
pub proof fn law_models_go_round(dialog: LaunchModel)
    requires
        dialog.is_sound(),
        !dialog.is_preparing,
        1 < dialog.models.len() <= usize::MAX,
    ensures
        dialog.next_model_chosen().selected_model == (if dialog.selected_model + 1
            == dialog.models.len() {
            0
        } else {
            dialog.selected_model + 1
        }),
        dialog.next_model_chosen().is_sound(),
{
    let count = dialog.models.len();
    let next = dialog.selected_model + 1;
    if next == count {
        vstd::arithmetic::div_mod::lemma_mod_self_0(count as int);
    } else {
        vstd::arithmetic::div_mod::lemma_small_mod(next as nat, count);
    }
}

/// While the sources are being scanned, the question cannot be put again.
pub proof fn law_question_is_put_once(dialog: LaunchModel)
    ensures
        dialog.submitted().is_preparing ==> dialog.submitted().submitted() == dialog.submitted(),
{
}

// ---------------------------------------------------------------------------
// What the dialog shows
// ---------------------------------------------------------------------------

/// What the dialog says about log text.
pub open spec fn consent_text(allow_raw_log_content: bool) -> Seq<char> {
    if allow_raw_log_content {
        "已授权：Agent 可把工具裁剪并脱敏的必要日志片段发送到所选模型服务。"@
    } else {
        "未授权日志原文：Agent 只能使用来源元数据和本地聚合结果。"@
    }
}

/// What the dialog shows.
#[derive(Debug, PartialEq, Eq)]
pub struct LaunchAppearance {
    /// Why no analysis can start; nothing else is shown then.
    pub unavailable_reason: Option<String>,
    /// What will be analysed.
    pub scope_text: String,
    /// The chosen model: its name, and where it is.
    pub model_lines: Option<(String, String)>,
    /// Whether another model can be chosen.
    pub can_switch: bool,
    /// What the dialog says about log text; nothing while the sources are scanned.
    pub consent: Option<String>,
    /// The colour of that.
    pub consent_color: ThemeColor,
    /// What the dialog says while the sources are scanned.
    pub scanning: Option<String>,
    /// What went wrong last.
    pub error: Option<String>,
    /// What the button says.
    pub submit_label: String,
    /// Whether the button takes clicks.
    pub can_submit: bool,
}

/// Whether an appearance is that of a dialog.
pub open spec fn shows_launch(
    appearance: LaunchAppearance,
    dialog: LaunchModel,
    context_window_label: Seq<char>,
) -> bool {
    &&& optional_text(appearance.unavailable_reason) == dialog.unavailable_reason
    &&& appearance.scope_text@ == "分析范围："@ + dialog.scope_label
        + "（开始后会完整扫描该来源根，不依赖树节点展开状态）"@
    &&& match appearance.model_lines {
        Some(lines) => dialog.selected_model < dialog.models.len() && {
            let model = dialog.models[dialog.selected_model as int];
            &&& lines.0@ == "使用模型："@ + model.name
            &&& lines.1@ == model.model + " · 上下文 "@ + context_window_label + " · "@
                + model.base_url
        },
        None => dialog.selected_model >= dialog.models.len(),
    }
    &&& appearance.can_switch == (!dialog.is_preparing && dialog.models.len() > 1)
    &&& optional_text(appearance.consent) == (if dialog.is_preparing {
        None
    } else {
        Some(consent_text(dialog.allow_raw_log_content))
    })
    &&& appearance.consent_color == (if dialog.allow_raw_log_content {
        ThemeColor::Warning
    } else {
        ThemeColor::ForegroundMuted
    })
    &&& optional_text(appearance.scanning) == (if dialog.is_preparing {
        Some("正在完整扫描来源树并匹配日志类型，完成后自动启动分析…"@)
    } else {
        None
    })
    &&& optional_text(appearance.error) == dialog.error_message
    &&& appearance.submit_label@ == (if dialog.is_preparing {
        "正在扫描…"@
    } else {
        "开始分析"@
    })
    &&& appearance.can_submit == !dialog.is_preparing
}

/// Works out what the dialog shows. `context_window_label` tells the size of the
/// chosen model's context window.
pub fn launch_appearance(dialog: &AgentLaunchDialog, context_window_label: &str) -> (result:
    LaunchAppearance)
    ensures
        shows_launch(result, dialog@, context_window_label@),
{
    let mut scope_text = "分析范围：".to_owned();
    scope_text.push_str(dialog.scope_label.as_str());
    scope_text.push_str("（开始后会完整扫描该来源根，不依赖树节点展开状态）");
    let model_lines = if dialog.selected_model < dialog.models.len() {
        let model = &dialog.models[dialog.selected_model];
        proof {
            assert(dialog@.models[dialog.selected_model as int] == model@);
        }
        let mut name = "使用模型：".to_owned();
        name.push_str(model.name.as_str());
        let mut place = model.model.clone();
        place.push_str(" · 上下文 ");
        place.push_str(context_window_label);
        place.push_str(" · ");
        place.push_str(model.base_url.as_str());
        Some((name, place))
    } else {
        None
    };
    LaunchAppearance {
        unavailable_reason: copy_optional_text(&dialog.unavailable_reason),
        scope_text,
        model_lines,
        can_switch: !dialog.is_preparing && dialog.models.len() > 1,
        consent: if dialog.is_preparing {
            None
        } else if dialog.allow_raw_log_content {
            Some(
                "已授权：Agent 可把工具裁剪并脱敏的必要日志片段发送到所选模型服务。".to_owned(),
            )
        } else {
            Some("未授权日志原文：Agent 只能使用来源元数据和本地聚合结果。".to_owned())
        },
        consent_color: if dialog.allow_raw_log_content {
            ThemeColor::Warning
        } else {
            ThemeColor::ForegroundMuted
        },
        scanning: if dialog.is_preparing {
            Some("正在完整扫描来源树并匹配日志类型，完成后自动启动分析…".to_owned())
        } else {
            None
        },
        error: copy_optional_text(&dialog.error_message),
        submit_label: if dialog.is_preparing {
            "正在扫描…".to_owned()
        } else {
            "开始分析".to_owned()
        },
        can_submit: !dialog.is_preparing,
    }
}

} // verus!
