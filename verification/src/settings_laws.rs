//! What holds of the settings while they are edited: which entry, which field and which rule a
//! step reaches, and what is kept in the end.

use std::ops::Range;
use vstd::prelude::*;
use crate::ai_config::ModelProfileModel;
use crate::ai_settings::{
    AiDraftField, AiSettingsEditorKind, DraftModel, ModelDraftModel, ProfileDraftModel,
};
use crate::ai_settings_editor::{
    answered_state, is_model_field, is_multiline, lowered, raised, EditorModel, ProbeModel,
};
use crate::input_behavior::key_step;
use crate::keystroke::KeystrokeModel;
use crate::log_matcher::{
    all_profile_lines, compact_pattern, escaped, following_mode, mode_text, other_target,
    profile_lines, rule_line, rule_lines, scan_summary, target_text, AgentLogProfileMatchSummary,
    AgentLogRuleMatchSummary, LogNameMatcherMode, LogNameMatcherTarget,
};
use crate::text::{decimal_text, parsed_number, trimmed};
use crate::text_input::{InputModel, InputPointerEvent};
use crate::text_selection::NativeTextEdit;

verus! {

/// Whether a field belongs to the chosen model.
pub open spec fn is_of_model(field: AiDraftField) -> bool {
    match field {
        AiDraftField::ModelName => true,
        AiDraftField::BaseUrl => true,
        AiDraftField::Model => true,
        AiDraftField::ContextWindow => true,
        AiDraftField::ApiKey => true,
        _ => false,
    }
}

/// Each field is an input of what is chosen: of the model, of the log type, of the rule, or the
/// prompt.
pub proof fn law_fields_are_of_what_is_chosen(draft: DraftModel, model: usize, profile: usize)
    requires
        draft.selected_model == Some(model),
        model < draft.models.len(),
        draft.selected_profile == Some(profile),
        profile < draft.profiles.len(),
        draft.selected_matcher < draft.profiles[profile as int].matchers.len(),
    ensures
        ({
            let chosen = draft.models[model as int];
            let kind = draft.profiles[profile as int];
            let rule = kind.matchers[draft.selected_matcher as int];
            &&& draft.input(AiDraftField::ModelName) == chosen.name
            &&& draft.input(AiDraftField::BaseUrl) == chosen.base_url
            &&& draft.input(AiDraftField::Model) == chosen.model
            &&& draft.input(AiDraftField::ContextWindow) == chosen.context_window
            &&& draft.input(AiDraftField::ApiKey) == chosen.api_key
            &&& draft.input(AiDraftField::ProfileName) == kind.name
            &&& draft.input(AiDraftField::ProfileDescription) == kind.description
            &&& draft.input(AiDraftField::MatcherPattern) == rule.pattern
            &&& draft.input(AiDraftField::SystemPrompt) == draft.system_prompt
            &&& forall|field: AiDraftField| #[trigger] draft.has_input(field)
        }),
{
}

/// A field is there exactly where what it belongs to is chosen and is there.
pub proof fn law_field_needs_its_entry(draft: DraftModel, field: AiDraftField)
    ensures
        ({
            let has_model = draft.selected_model is Some && draft.selected_model->0
                < draft.models.len();
            let has_profile = draft.selected_profile is Some && draft.selected_profile->0
                < draft.profiles.len();
            let has_rule = has_profile && draft.selected_matcher
                < draft.profiles[draft.selected_profile->0 as int].matchers.len();
            &&& is_of_model(field) ==> draft.has_input(field) == has_model
            &&& field is ProfileName || field is ProfileDescription ==> draft.has_input(field)
                == has_profile
            &&& field is MatcherPattern ==> draft.has_input(field) == has_rule
            &&& field is SystemPrompt ==> draft.has_input(field)
        }),
{
}

/// The fields of several lines are the description of a log type and the prompt; the fields of a
/// model are its name, its address, its id, its context window and its key.
pub proof fn law_kinds_of_fields(field: AiDraftField)
    ensures
        is_multiline(field) <==> field is ProfileDescription || field is SystemPrompt,
        is_model_field(field) <==> is_of_model(field),
{
}

/// A key press in a field does to its input what it does to it alone. What changes or submits it
/// clears the error; in a model's field it also ends a trial of the model, whose answer then comes
/// too late. No other field changes.
pub proof fn law_key_reaches_one_field(
    editor: EditorModel,
    field: AiDraftField,
    other: AiDraftField,
    keystroke: KeystrokeModel,
    clipboard: Option<Seq<char>>,
)
    requires
        editor.draft.has_input(field),
        editor.draft.has_input(other),
    ensures
        ({
            let after = editor.after_key(field, keystroke, clipboard);
            let has_lines = field is ProfileDescription || field is SystemPrompt;
            let step = key_step(editor.draft.input(field), keystroke, has_lines, clipboard);
            let counts = step.action is Changed || step.action is Submit;
            &&& after.draft.input(field) == step.input
            &&& other != field ==> after.draft.input(other) == editor.draft.input(other)
            &&& counts ==> after.error_message is None
            &&& !counts ==> after.error_message == editor.error_message
            &&& counts && is_of_model(field) ==> after.probe_state is Idle
                && after.probe_generation != editor.probe_generation
            &&& !(counts && is_of_model(field)) ==> after.probe_state == editor.probe_state
                && after.probe_generation == editor.probe_generation
            &&& after.kind == editor.kind
        }),
{
    let has_lines = field is ProfileDescription || field is SystemPrompt;
    let step = key_step(editor.draft.input(field), keystroke, has_lines, clipboard);
    crate::ai_settings_editor::law_inputs_are_apart(editor.draft, field, other, step.input);
    crate::ai_settings_editor::law_inputs_are_apart(editor.draft, field, field, step.input);
}

/// A native edit and the mouse reach the field that they are meant for, which has the keyboard
/// then; the edit also clears the error and ends a trial of the model. Emptying a field leaves
/// nothing in it.
pub proof fn law_edits_reach_one_field(
    editor: EditorModel,
    field: AiDraftField,
    other: AiDraftField,
    edit: NativeTextEdit,
    event: InputPointerEvent,
    word: Option<Range<usize>>,
)
    requires
        editor.draft.has_input(field),
        editor.draft.has_input(other),
        other != field,
    ensures
        ({
            let focused = editor.draft.focused_on(field);
            let edited = editor.natively_edited(field, edit);
            let pointed = editor.pointed(field, event, word);
            let emptied = editor.emptied(field);
            &&& edited.draft.input(field) == focused.input(field).natively_edited(edit)
            &&& edited.draft.input(other).value == editor.draft.input(other).value
            &&& edited.error_message is None
            &&& is_of_model(field) ==> edited.probe_state is Idle && edited.probe_generation
                != editor.probe_generation
            &&& !is_of_model(field) ==> edited.probe_state == editor.probe_state
                && edited.probe_generation == editor.probe_generation
            &&& pointed.draft.input(field) == focused.input(field).pointed(event, word)
            &&& pointed.draft.input(other).value == editor.draft.input(other).value
            &&& pointed.probe_state == editor.probe_state
            &&& emptied.draft.input(field).value.len() == 0
            &&& emptied.draft.input(field).is_focused
            &&& emptied.draft.input(other) == editor.draft.input(other)
            &&& is_of_model(field) ==> emptied.probe_state is Idle && emptied.probe_generation
                != editor.probe_generation
        }),
{
    crate::ai_settings_editor::law_one_input_has_the_keyboard(editor.draft, field, field);
    crate::ai_settings_editor::law_one_input_has_the_keyboard(editor.draft, field, other);
    let focused = editor.draft.focused_on(field);
    let edited = focused.input(field).natively_edited(edit);
    let pointed = focused.input(field).pointed(event, word);
    let blank = InputModel { is_focused: true, ..InputModel::blank() };
    crate::ai_settings_editor::law_inputs_are_apart(focused, field, other, edited);
    crate::ai_settings_editor::law_inputs_are_apart(focused, field, field, edited);
    crate::ai_settings_editor::law_inputs_are_apart(focused, field, other, pointed);
    crate::ai_settings_editor::law_inputs_are_apart(focused, field, field, pointed);
    crate::ai_settings_editor::law_inputs_are_apart(editor.draft, field, other, blank);
    crate::ai_settings_editor::law_inputs_are_apart(editor.draft, field, field, blank);
}

/// The field that gets the keyboard keeps its text and its cursor; all others lose it and keep
/// theirs.
pub proof fn law_focus_keeps_texts(draft: DraftModel, field: AiDraftField, other: AiDraftField)
    requires
        draft.has_input(other),
    ensures
        draft.focused_on(field).input(other).is_focused <==> other == field,
        draft.focused_on(field).input(other).value == draft.input(other).value,
        draft.focused_on(field).input(other).cursor == draft.input(other).cursor,
        draft.focused_on(field).models.len() == draft.models.len(),
        draft.focused_on(field).profiles.len() == draft.profiles.len(),
        draft.focused_on(field).selected_model == draft.selected_model,
        draft.focused_on(field).selected_profile == draft.selected_profile,
        draft.focused_on(field).selected_matcher == draft.selected_matcher,
{
}

/// Whether two drafts differ in one log type at most.
pub open spec fn differ_in_profile(before: DraftModel, after: DraftModel, at: int) -> bool {
    &&& after.profiles.len() == before.profiles.len()
    &&& forall|i: int|
        0 <= i < before.profiles.len() && i != at ==> #[trigger] after.profiles[i]
            == before.profiles[i]
    &&& after.models == before.models
    &&& after.system_prompt == before.system_prompt
    &&& after.selected_profile == before.selected_profile
    &&& after.allow_raw_log_content == before.allow_raw_log_content
}

/// A new rule stands behind the others and is chosen: it looks for a part of the file name, in
/// either case, and has no pattern yet. A log type has at most sixteen.
pub proof fn law_new_rule_is_chosen(editor: EditorModel, at: usize)
    requires
        editor.draft.selected_profile == Some(at),
        at < editor.draft.profiles.len(),
    ensures
        ({
            let after = editor.matcher_added();
            let rules = editor.draft.profiles[at as int].matchers;
            let new_rules = after.draft.profiles[at as int].matchers;
            let rule = new_rules[new_rules.len() - 1];
            &&& rules.len() < 16 ==> {
                &&& new_rules.len() == rules.len() + 1
                &&& forall|i: int|
                    0 <= i < rules.len() ==> #[trigger] new_rules[i] == rules[i]
                &&& rule.target is FileName
                &&& rule.mode is Contains
                &&& !rule.case_sensitive
                &&& rule.pattern.value.len() == 0
                &&& after.draft.selected_matcher == rules.len()
                &&& after.error_message == editor.error_message
                &&& differ_in_profile(editor.draft, after.draft, at as int)
            }
            &&& rules.len() >= 16 ==> after == (EditorModel {
                error_message: Some("每个日志类型最多配置 16 条名称规则"@),
                ..editor
            })
        }),
{
}

/// Removing takes the chosen rule away and no other; the one that takes its place, or the last
/// one, is chosen then. The last rule of a log type stays.
pub proof fn law_chosen_rule_is_removed(editor: EditorModel, at: usize)
    requires
        editor.draft.selected_profile == Some(at),
        at < editor.draft.profiles.len(),
        editor.draft.selected_matcher < editor.draft.profiles[at as int].matchers.len(),
        editor.draft.profiles[at as int].matchers.len() <= usize::MAX,
    ensures
        ({
            let after = editor.matcher_removed();
            let rules = editor.draft.profiles[at as int].matchers;
            let place = editor.draft.selected_matcher as int;
            &&& rules.len() > 1 ==> {
                &&& after.draft.profiles[at as int].matchers == rules.take(place) + rules.skip(
                    place + 1,
                )
                &&& after.draft.selected_matcher == (if place + 1 < rules.len() {
                    place
                } else {
                    place - 1
                })
                &&& after.error_message == editor.error_message
                &&& differ_in_profile(editor.draft, after.draft, at as int)
            }
            &&& rules.len() == 1 ==> after == (EditorModel {
                error_message: Some("每个日志类型至少保留一条名称规则"@),
                ..editor
            })
        }),
{
    let rules = editor.draft.profiles[at as int].matchers;
    let place = editor.draft.selected_matcher as int;
    assert(rules.remove(place) =~= rules.take(place) + rules.skip(place + 1));
}

/// Changing what a rule looks at, how it compares or whether case counts changes that rule and
/// nothing else of it.
pub proof fn law_rule_change_reaches_the_chosen_rule(
    editor: EditorModel,
    at: usize,
    target: LogNameMatcherTarget,
    mode: LogNameMatcherMode,
    case_sensitive: bool,
)
    requires
        editor.draft.selected_profile == Some(at),
        at < editor.draft.profiles.len(),
        editor.draft.selected_matcher < editor.draft.profiles[at as int].matchers.len(),
    ensures
        ({
            let after = editor.rule_changed(target, mode, case_sensitive);
            let place = editor.draft.selected_matcher as int;
            let rules = editor.draft.profiles[at as int].matchers;
            let new_rules = after.draft.profiles[at as int].matchers;
            &&& new_rules.len() == rules.len()
            &&& new_rules[place].target == target
            &&& new_rules[place].mode == mode
            &&& new_rules[place].case_sensitive == case_sensitive
            &&& new_rules[place].pattern == rules[place].pattern
            &&& forall|i: int|
                0 <= i < rules.len() && i != place ==> #[trigger] new_rules[i] == rules[i]
            &&& differ_in_profile(editor.draft, after.draft, at as int)
        }),
{
}

/// A priority goes up and down by ten, between nothing and a thousand; going down undoes going up
/// away from the limits. Only the chosen log type gets the new one.
pub proof fn law_priority_goes_by_ten(editor: EditorModel, at: usize, priority: u16)
    requires
        editor.draft.selected_profile == Some(at),
        at < editor.draft.profiles.len(),
    ensures
        priority >= 10 ==> lowered(priority) == priority - 10,
        priority < 10 ==> lowered(priority) == 0,
        priority <= 990 ==> raised(priority) == priority + 10,
        priority > 990 ==> raised(priority) == 1000,
        priority <= 990 ==> lowered(raised(priority) as u16) == priority,
        ({
            let after = editor.reprioritised(priority as int);
            &&& after.draft.profiles[at as int].priority == priority
            &&& after.draft.profiles[at as int].matchers
                == editor.draft.profiles[at as int].matchers
            &&& after.draft.profiles[at as int].name == editor.draft.profiles[at as int].name
            &&& differ_in_profile(editor.draft, after.draft, at as int)
        }),
{
}

/// Deleting takes the entry that is edited out of the list and no other; an entry that is new, and
/// the prompt, cannot be deleted.
pub proof fn law_edited_entry_is_deleted(editor: EditorModel, at: usize)
    ensures
        ({
            let (after, is_gone) = editor.entry_removed();
            &&& editor.kind is SystemPrompt ==> !is_gone && after == editor
            &&& editor.kind == AiSettingsEditorKind::Model(None) ==> !is_gone && after == editor
            &&& editor.kind == AiSettingsEditorKind::LogProfile(None) ==> !is_gone && after
                == editor
            &&& editor.kind == AiSettingsEditorKind::Model(Some(at)) && at
                < editor.draft.models.len() ==> {
                &&& is_gone
                &&& after.draft.models == editor.draft.models.take(at as int)
                    + editor.draft.models.skip(at + 1)
                &&& after.draft.profiles == editor.draft.profiles
            }
            &&& editor.kind == AiSettingsEditorKind::LogProfile(Some(at)) && at
                < editor.draft.profiles.len() ==> {
                &&& is_gone
                &&& after.draft.profiles == editor.draft.profiles.take(at as int)
                    + editor.draft.profiles.skip(at + 1)
                &&& after.draft.models == editor.draft.models
            }
        }),
{
    if at < editor.draft.models.len() {
        let models = editor.draft.models;
        assert(models.remove(at as int) =~= models.take(at as int) + models.skip(at + 1));
    }
    if at < editor.draft.profiles.len() {
        let profiles = editor.draft.profiles;
        assert(profiles.remove(at as int) =~= profiles.take(at as int) + profiles.skip(at + 1));
    }
}

/// Opening an entry chooses it; opening a new one puts it behind the others and chooses it; opening
/// the prompt changes nothing.
pub proof fn law_opened_entry_is_chosen(
    draft: DraftModel,
    at: usize,
    new_model: ModelDraftModel,
    new_profile: ProfileDraftModel,
)
    requires
        draft.models.len() <= usize::MAX,
        draft.profiles.len() <= usize::MAX,
    ensures
        at < draft.models.len() ==> draft.opened(
            AiSettingsEditorKind::Model(Some(at)),
            new_model,
            new_profile,
        ) == (DraftModel { selected_model: Some(at), ..draft }),
        at < draft.profiles.len() ==> draft.opened(
            AiSettingsEditorKind::LogProfile(Some(at)),
            new_model,
            new_profile,
        ) == (DraftModel { selected_profile: Some(at), ..draft }),
        draft.opened(AiSettingsEditorKind::Model(None), new_model, new_profile) == (DraftModel {
            models: draft.models.push(new_model),
            selected_model: Some(draft.models.len() as usize),
            ..draft
        }),
        draft.opened(AiSettingsEditorKind::LogProfile(None), new_model, new_profile)
            == (DraftModel {
            profiles: draft.profiles.push(new_profile),
            selected_profile: Some(draft.profiles.len() as usize),
            ..draft
        }),
        draft.opened(AiSettingsEditorKind::SystemPrompt, new_model, new_profile) == draft,
{
}

/// A new log type is switched on, has priority one hundred, one rule and no text.
pub proof fn law_new_log_type(profile_id: Seq<char>)
    ensures
        ({
            let fresh = ProfileDraftModel::fresh(profile_id);
            &&& fresh.profile_id == profile_id
            &&& fresh.enabled
            &&& fresh.priority == 100
            &&& fresh.name.value.len() == 0
            &&& fresh.description.value.len() == 0
            &&& fresh.matchers.len() == 1
            &&& fresh.matchers[0].target is FileName
            &&& fresh.matchers[0].mode is Contains
            &&& fresh.matchers[0].pattern.value.len() == 0
            &&& !fresh.matchers[0].case_sensitive
        }),
{
}

/// What is kept of a model is what its fields hold; a context window that is no number is none.
/// What its fields hold in the beginning is what was kept, but for the key.
pub proof fn law_model_is_kept_as_typed(draft: ModelDraftModel, profile: ModelProfileModel)
    ensures
        draft.profile().profile_id == draft.profile_id,
        draft.profile().enabled == draft.enabled,
        draft.profile().name == draft.name.value,
        draft.profile().base_url == draft.base_url.value,
        draft.profile().model == draft.model.value,
        parsed_number(trimmed(draft.context_window.value)) is Some
            ==> draft.profile().context_window_tokens == parsed_number(
            trimmed(draft.context_window.value),
        )->0,
        parsed_number(trimmed(draft.context_window.value)) is None
            ==> draft.profile().context_window_tokens == 0,
        profile.draft().profile_id == profile.profile_id,
        profile.draft().enabled == profile.enabled,
        profile.draft().name.value == profile.name,
        profile.draft().base_url.value == profile.base_url,
        profile.draft().model.value == profile.model,
        profile.draft().context_window.value == decimal_text(profile.context_window_tokens as nat),
        profile.draft().api_key.value.len() == 0,
{
}

/// What is kept of a log type is what its fields and its rules hold, rule by rule.
pub proof fn law_log_type_is_kept_as_typed(draft: ProfileDraftModel, i: int)
    requires
        0 <= i < draft.matchers.len(),
    ensures
        ({
            let kept = draft.profile();
            &&& kept.profile_id == draft.profile_id
            &&& kept.enabled == draft.enabled
            &&& kept.name == draft.name.value
            &&& kept.priority == draft.priority
            &&& kept.description == draft.description.value
            &&& kept.matchers.len() == draft.matchers.len()
            &&& kept.matchers[i].target == draft.matchers[i].target
            &&& kept.matchers[i].mode == draft.matchers[i].mode
            &&& kept.matchers[i].pattern == draft.matchers[i].pattern.value
            &&& kept.matchers[i].case_sensitive == draft.matchers[i].case_sensitive
        }),
{
}

/// What is kept of all settings: every model and every log type in order, the prompt, the consent
/// and the time limit.
pub proof fn law_settings_are_kept_as_typed(draft: DraftModel)
    ensures
        ({
            let kept = draft.config();
            &&& kept.model_profiles.len() == draft.models.len()
            &&& forall|i: int|
                0 <= i < draft.models.len() ==> #[trigger] kept.model_profiles[i]
                    == draft.models[i].profile()
            &&& kept.log_profiles.len() == draft.profiles.len()
            &&& forall|i: int|
                0 <= i < draft.profiles.len() ==> #[trigger] kept.log_profiles[i]
                    == draft.profiles[i].profile()
            &&& kept.system_prompt == draft.system_prompt.value
            &&& kept.allow_raw_log_content == draft.allow_raw_log_content
            &&& kept.consent_version == draft.consent_version
            &&& kept.request_timeout_seconds == draft.request_timeout_seconds
            &&& kept.budget_profile is Balanced
            &&& kept.base_url.len() == 0
            &&& kept.model.len() == 0
        }),
{
}

/// A trial begins where a model is chosen, is there and is found fit; else it fails with what is
/// wrong. A trial that begins has a number of its own, and while it runs no other begins.
pub proof fn law_trial_begins_for_a_fit_model(
    editor: EditorModel,
    models: Seq<ModelProfileModel>,
    verdict: Option<Seq<char>>,
)
    ensures
        ({
            let after = editor.trial_begun(models, verdict);
            let chosen = editor.draft.selected_model;
            &&& editor.probe_state is Testing ==> after == editor
            &&& !(editor.probe_state is Testing) && chosen is None ==> after == (EditorModel {
                probe_state: ProbeModel::Failed("当前没有可测试的模型配置"@),
                ..editor
            })
            &&& !(editor.probe_state is Testing) && chosen is Some && chosen->0 >= models.len()
                ==> after == (EditorModel {
                probe_state: ProbeModel::Failed("当前模型配置已不存在"@),
                ..editor
            })
            &&& !(editor.probe_state is Testing) && chosen is Some && chosen->0 < models.len()
                && verdict is Some ==> after == (EditorModel {
                probe_state: ProbeModel::Failed(verdict->0),
                ..editor
            })
            &&& !(editor.probe_state is Testing) && chosen is Some && chosen->0 < models.len()
                && verdict is None ==> after.probe_state is Testing && after.probe_generation
                != editor.probe_generation && after.draft == editor.draft
        }),
{
}

/// The answer to the running trial is taken over, one to an earlier trial is not. An answer is a
/// success or a failure with its text.
pub proof fn law_only_the_running_trial_is_answered(
    editor: EditorModel,
    generation: usize,
    answer: Result<String, String>,
)
    ensures
        ({
            let after = editor.trial_answered(generation, answered_state(answer));
            &&& generation != editor.probe_generation ==> after == editor
            &&& generation == editor.probe_generation && answer is Ok ==> after.probe_state
                == ProbeModel::Succeeded(answer->Ok_0@)
            &&& generation == editor.probe_generation && answer is Err ==> after.probe_state
                == ProbeModel::Failed(answer->Err_0@)
            &&& after.draft == editor.draft
            &&& after.probe_generation == editor.probe_generation
        }),
{
}

/// The key for a trial is the one that was typed, without the space around it.
pub proof fn law_typed_key_is_tried(editor: EditorModel, at: usize)
    ensures
        editor.draft.selected_model == Some(at) && at < editor.draft.models.len()
            ==> editor.entered_key() == trimmed(editor.draft.models[at as int].api_key.value),
        editor.draft.selected_model is None ==> editor.entered_key().len() == 0,
{
}

/// What a rule looks at goes to and fro between the file's name and its path; how it compares goes
/// through five ways in a fixed order and round again.
pub proof fn law_rules_are_switched_in_order(target: LogNameMatcherTarget)
    ensures
        other_target(target) != target,
        other_target(other_target(target)) == target,
        following_mode(LogNameMatcherMode::Exact) is Prefix,
        following_mode(LogNameMatcherMode::Prefix) is Suffix,
        following_mode(LogNameMatcherMode::Suffix) is Contains,
        following_mode(LogNameMatcherMode::Contains) is Regex,
        following_mode(LogNameMatcherMode::Regex) is Exact,
        target_text(LogNameMatcherTarget::FileName) == "文件名"@,
        target_text(LogNameMatcherTarget::RelativePath) == "相对路径"@,
        mode_text(LogNameMatcherMode::Exact) == "完全相等"@,
        mode_text(LogNameMatcherMode::Prefix) == "前缀"@,
        mode_text(LogNameMatcherMode::Suffix) == "后缀"@,
        mode_text(LogNameMatcherMode::Contains) == "包含"@,
        mode_text(LogNameMatcherMode::Regex) == "正则"@,
{
}

/// A pattern is shown as it is but for breaks and tabs, which are shown by a backslash and a
/// letter; of a long one the first 120 characters and a mark are shown.
pub proof fn law_pattern_is_shown_on_one_line(pattern: Seq<char>, character: char)
    ensures
        escaped(Seq::empty()).len() == 0,
        character == '\n' ==> escaped(pattern.push(character)) == escaped(pattern) + seq![
            '\\',
            'n',
        ],
        character == '\r' ==> escaped(pattern.push(character)) == escaped(pattern) + seq![
            '\\',
            'r',
        ],
        character == '\t' ==> escaped(pattern.push(character)) == escaped(pattern) + seq![
            '\\',
            't',
        ],
        character != '\n' && character != '\r' && character != '\t' ==> escaped(
            pattern.push(character),
        ) == escaped(pattern).push(character),
        escaped(pattern).len() <= 120 ==> compact_pattern(pattern) == escaped(pattern),
        escaped(pattern).len() > 120 ==> compact_pattern(pattern) == escaped(pattern).take(
            120,
        ).push('…'),
{
    assert(pattern.push(character).drop_last() =~= pattern);
    assert(escaped(pattern) + seq![character] =~= escaped(pattern).push(character));
    if escaped(pattern).len() > 120 {
        assert(escaped(pattern).take(120) + seq!['…'] =~= escaped(pattern).take(120).push('…'));
    }
}

/// The report of a scan tells how many files and log types there are, and then of each log type
/// and of each of its rules, one line each and in order, how many files it hit.
pub proof fn law_scan_report_tells_every_rule(
    source_count: usize,
    profile_count: usize,
    summaries: Seq<AgentLogProfileMatchSummary>,
    summary: AgentLogProfileMatchSummary,
    rules: Seq<AgentLogRuleMatchSummary>,
    rule: AgentLogRuleMatchSummary,
)
    ensures
        ({
            let head = "工作区清单已固化，共 "@ + decimal_text(source_count as nat)
                + " 个日志文件，匹配 "@ + decimal_text(profile_count as nat)
                + " 种日志类型说明；模型可调用 list_loaded_sources、read_file 和受控 bash 在工作目录内取证。"@;
            &&& scan_summary(source_count, profile_count, Seq::empty()) == head + seq!['\n']
                + "当前没有已启用的日志类型匹配规则。"@
            &&& summaries.len() > 0 ==> scan_summary(source_count, profile_count, summaries)
                == head + seq!['\n'] + "规则命中统计（同一文件可以命中多条规则）："@
                + all_profile_lines(summaries)
        }),
        all_profile_lines(Seq::empty()).len() == 0,
        all_profile_lines(summaries.push(summary)) == all_profile_lines(summaries)
            + profile_lines(summary),
        profile_lines(summary) == seq!['\n'] + summary.profile_name@ + "（优先级 "@ + decimal_text(
            summary.priority as nat,
        ) + "）：规则命中 "@ + decimal_text(summary.matched_file_count as nat)
            + " 个文件，最终采用 "@ + decimal_text(summary.selected_file_count as nat)
            + " 个文件"@ + rule_lines(summary.rules@),
        rule_lines(Seq::empty()).len() == 0,
        rule_lines(rules.push(rule)) == rule_lines(rules) + rule_line(rule, rules.len() as int),
        rule.case_sensitive ==> rule_line(rule, 0) == seq!['\n'] + "  规则 "@ + decimal_text(1)
            + " · "@ + target_text(rule.target) + " · "@ + mode_text(rule.mode) + " · "@
            + "区分大小写"@ + " · “"@ + compact_pattern(rule.pattern@) + "”：命中 "@
            + decimal_text(rule.matched_file_count as nat) + " 个文件"@,
        !rule.case_sensitive ==> rule_line(rule, rules.len() as int) == seq!['\n'] + "  规则 "@
            + decimal_text((rules.len() + 1) as nat) + " · "@ + target_text(rule.target) + " · "@
            + mode_text(rule.mode) + " · "@ + "忽略大小写"@ + " · “"@ + compact_pattern(
            rule.pattern@,
        ) + "”：命中 "@ + decimal_text(rule.matched_file_count as nat) + " 个文件"@,
{
    assert(summaries.push(summary).drop_last() =~= summaries);
    assert(rules.push(rule).drop_last() =~= rules);
}

} // verus!
