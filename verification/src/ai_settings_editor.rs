//! The editor of the settings: its inputs, its switches, its rules, and the trial of
//! a model.

use std::ops::Range;
use vstd::prelude::*;
use crate::ai_config::{AiConfig, AiModelProfile, ConfigModel, ModelProfileModel};
use crate::ai_settings::{
    matcher_drafts, model_drafts, profile_drafts, AiDraftField, AiSettingsDraft,
    AiSettingsEditorKind, DraftModel, MatcherDraft, MatcherDraftModel, ModelDraft, ModelDraftModel,
    ProfileDraft, ProfileDraftModel,
};
use crate::input_behavior::{handle_local_input_key, key_has_room, key_step, LocalInputAction};
use crate::keystroke::{optional_text, Keystroke, KeystrokeModel};
use crate::log_matcher::{
    following_mode, next_matcher_mode, next_matcher_target, other_target, LogNameMatcherMode,
    LogNameMatcherTarget,
};
use crate::text::{trim, trimmed};
use crate::text_input::{apply_pointer_event, InputModel, InputPointerEvent, TextInputState};
use crate::text_selection::{min_of, NativeTextEdit};

verus! {

/// The most rules of a log type.
pub const MATCHER_LIMIT: usize = 16;

/// How much one click changes a priority.
pub const PRIORITY_STEP: u16 = 10;

/// The highest priority that clicks reach.
pub const PRIORITY_LIMIT: u16 = 1000;

// ---------------------------------------------------------------------------
// The inputs of a draft
// ---------------------------------------------------------------------------

/// An input that gets the keyboard, or loses it to another one.
pub open spec fn turned(input: InputModel, gets: bool) -> InputModel {
    if gets {
        InputModel { is_focused: true, ..input }
    } else {
        InputModel { is_focused: false, marked_range: None, selection_drag: None, ..input }
    }
}

impl ModelDraftModel {
    /// One of the inputs of the model.
    pub open spec fn input(self, field: AiDraftField) -> InputModel {
        match field {
            AiDraftField::ModelName => self.name,
            AiDraftField::BaseUrl => self.base_url,
            AiDraftField::Model => self.model,
            AiDraftField::ContextWindow => self.context_window,
            _ => self.api_key,
        }
    }

    /// The model with another state of one input.
    pub open spec fn with_input(self, field: AiDraftField, input: InputModel) -> ModelDraftModel {
        match field {
            AiDraftField::ModelName => ModelDraftModel { name: input, ..self },
            AiDraftField::BaseUrl => ModelDraftModel { base_url: input, ..self },
            AiDraftField::Model => ModelDraftModel { model: input, ..self },
            AiDraftField::ContextWindow => ModelDraftModel { context_window: input, ..self },
            _ => ModelDraftModel { api_key: input, ..self },
        }
    }

    /// The model while one input has the keyboard.
    pub open spec fn focused_on(self, field: AiDraftField) -> ModelDraftModel {
        ModelDraftModel {
            name: turned(self.name, field is ModelName),
            base_url: turned(self.base_url, field is BaseUrl),
            model: turned(self.model, field is Model),
            context_window: turned(self.context_window, field is ContextWindow),
            api_key: turned(self.api_key, field is ApiKey),
            ..self
        }
    }
}

impl ProfileDraftModel {
    /// The log type while one input has the keyboard.
    pub open spec fn focused_on(self, field: AiDraftField, place: usize) -> ProfileDraftModel {
        ProfileDraftModel {
            name: turned(self.name, field is ProfileName),
            matchers: if place < self.matchers.len() {
                let rule = self.matchers[place as int];
                self.matchers.update(
                    place as int,
                    MatcherDraftModel {
                        pattern: turned(rule.pattern, field is MatcherPattern),
                        ..rule
                    },
                )
            } else {
                self.matchers
            },
            description: turned(self.description, field is ProfileDescription),
            ..self
        }
    }
}

impl DraftModel {
    /// Whether there is a chosen model.
    pub open spec fn has_model(self) -> bool {
        self.selected_model is Some && self.selected_model->0 < self.models.len()
    }

    /// The chosen model.
    pub open spec fn chosen_model(self) -> ModelDraftModel {
        self.models[self.selected_model->0 as int]
    }

    /// The draft with another chosen model.
    pub open spec fn with_model(self, model: ModelDraftModel) -> DraftModel {
        DraftModel { models: self.models.update(self.selected_model->0 as int, model), ..self }
    }

    /// Whether there is a chosen log type.
    pub open spec fn has_profile(self) -> bool {
        self.selected_profile is Some && self.selected_profile->0 < self.profiles.len()
    }

    /// The chosen log type.
    pub open spec fn chosen_profile(self) -> ProfileDraftModel {
        self.profiles[self.selected_profile->0 as int]
    }

    /// The draft with another chosen log type.
    pub open spec fn with_profile(self, profile: ProfileDraftModel) -> DraftModel {
        DraftModel {
            profiles: self.profiles.update(self.selected_profile->0 as int, profile),
            ..self
        }
    }

    /// Whether there is a chosen rule.
    pub open spec fn has_rule(self) -> bool {
        self.has_profile() && self.selected_matcher < self.chosen_profile().matchers.len()
    }

    /// The chosen rule.
    pub open spec fn chosen_rule(self) -> MatcherDraftModel {
        self.chosen_profile().matchers[self.selected_matcher as int]
    }

    /// The draft with another chosen rule.
    pub open spec fn with_rule(self, rule: MatcherDraftModel) -> DraftModel {
        let profile = self.chosen_profile();
        self.with_profile(
            ProfileDraftModel {
                matchers: profile.matchers.update(self.selected_matcher as int, rule),
                ..profile
            },
        )
    }

    /// Whether an input is there.
    pub open spec fn has_input(self, field: AiDraftField) -> bool {
        match field {
            AiDraftField::ProfileName | AiDraftField::ProfileDescription => self.has_profile(),
            AiDraftField::MatcherPattern => self.has_rule(),
            AiDraftField::SystemPrompt => true,
            _ => self.has_model(),
        }
    }

    /// An input that is there.
    pub open spec fn input(self, field: AiDraftField) -> InputModel {
        match field {
            AiDraftField::ProfileName => self.chosen_profile().name,
            AiDraftField::ProfileDescription => self.chosen_profile().description,
            AiDraftField::MatcherPattern => self.chosen_rule().pattern,
            AiDraftField::SystemPrompt => self.system_prompt,
            _ => self.chosen_model().input(field),
        }
    }

    /// The draft with another state of an input that is there.
    pub open spec fn with_input(self, field: AiDraftField, input: InputModel) -> DraftModel {
        match field {
            AiDraftField::ProfileName => self.with_profile(
                ProfileDraftModel { name: input, ..self.chosen_profile() },
            ),
            AiDraftField::ProfileDescription => self.with_profile(
                ProfileDraftModel { description: input, ..self.chosen_profile() },
            ),
            AiDraftField::MatcherPattern => self.with_rule(
                MatcherDraftModel { pattern: input, ..self.chosen_rule() },
            ),
            AiDraftField::SystemPrompt => DraftModel { system_prompt: input, ..self },
            _ => self.with_model(self.chosen_model().with_input(field, input)),
        }
    }

    /// The draft while one input has the keyboard.
    pub open spec fn focused_on(self, field: AiDraftField) -> DraftModel {
        DraftModel {
            models: if self.has_model() {
                self.models.update(
                    self.selected_model->0 as int,
                    self.chosen_model().focused_on(field),
                )
            } else {
                self.models
            },
            profiles: if self.has_profile() {
                self.profiles.update(
                    self.selected_profile->0 as int,
                    self.chosen_profile().focused_on(field, self.selected_matcher),
                )
            } else {
                self.profiles
            },
            system_prompt: turned(self.system_prompt, field is SystemPrompt),
            ..self
        }
    }
}

proof fn lemma_model_drafts_update(drafts: Seq<ModelDraft>, place: int)
    requires
        0 <= place < drafts.len(),
    ensures
        forall|draft: ModelDraft|
            model_drafts(#[trigger] drafts.update(place, draft)) == model_drafts(drafts).update(
                place,
                draft@,
            ),
{
    assert forall|draft: ModelDraft|
        model_drafts(#[trigger] drafts.update(place, draft)) == model_drafts(drafts).update(
            place,
            draft@,
        ) by {
        assert(model_drafts(drafts.update(place, draft)) =~= model_drafts(drafts).update(
            place,
            draft@,
        ));
    }
}

proof fn lemma_profile_drafts_update(drafts: Seq<ProfileDraft>, place: int)
    requires
        0 <= place < drafts.len(),
    ensures
        forall|draft: ProfileDraft|
            profile_drafts(#[trigger] drafts.update(place, draft)) == profile_drafts(drafts).update(
                place,
                draft@,
            ),
{
    assert forall|draft: ProfileDraft|
        profile_drafts(#[trigger] drafts.update(place, draft)) == profile_drafts(drafts).update(
            place,
            draft@,
        ) by {
        assert(profile_drafts(drafts.update(place, draft)) =~= profile_drafts(drafts).update(
            place,
            draft@,
        ));
    }
}

proof fn lemma_matcher_drafts_update(drafts: Seq<MatcherDraft>, place: int)
    requires
        0 <= place < drafts.len(),
    ensures
        forall|draft: MatcherDraft|
            matcher_drafts(#[trigger] drafts.update(place, draft)) == matcher_drafts(drafts).update(
                place,
                draft@,
            ),
{
    assert forall|draft: MatcherDraft|
        matcher_drafts(#[trigger] drafts.update(place, draft)) == matcher_drafts(drafts).update(
            place,
            draft@,
        ) by {
        assert(matcher_drafts(drafts.update(place, draft)) =~= matcher_drafts(drafts).update(
            place,
            draft@,
        ));
    }
}

/// Gives an input the keyboard, or takes it away.
fn turn_input(input: &mut TextInputState, gets: bool)
    ensures
        final(input)@ == turned(old(input)@, gets),
{
    input.is_focused = gets;
    if !gets {
        input.marked_range = None;
        input.selection_drag = None;
    }
}

impl ModelDraft {
    /// One of the inputs of the model.
    pub fn input_mut(&mut self, field: AiDraftField) -> (result: &mut TextInputState)
        ensures
            result@ == old(self)@.input(field),
            final(self)@ == old(self)@.with_input(field, final(result)@),
    {
        match field {
            AiDraftField::ModelName => &mut self.name,
            AiDraftField::BaseUrl => &mut self.base_url,
            AiDraftField::Model => &mut self.model,
            AiDraftField::ContextWindow => &mut self.context_window,
            _ => &mut self.api_key,
        }
    }
}

impl AiSettingsDraft {
    /// Whether there is a chosen model.
    pub fn has_chosen_model(&self) -> (result: bool)
        ensures
            result == self@.has_model(),
    {
        match self.selected_model {
            Some(index) => index < self.models.len(),
            None => false,
        }
    }

    /// Whether there is a chosen log type.
    pub fn has_chosen_profile(&self) -> (result: bool)
        ensures
            result == self@.has_profile(),
    {
        match self.selected_profile {
            Some(index) => index < self.profiles.len(),
            None => false,
        }
    }

    /// Whether there is a chosen rule.
    pub fn has_chosen_rule(&self) -> (result: bool)
        ensures
            result == self@.has_rule(),
    {
        match self.selected_profile {
            Some(index) => {
                if index < self.profiles.len() {
                    assert(self@.profiles[index as int] == self.profiles@[index as int]@);
                    self.selected_matcher < self.profiles[index].matchers.len()
                } else {
                    false
                }
            },
            None => false,
        }
    }

    /// The chosen model.
    pub fn selected_model_mut(&mut self) -> (result: &mut ModelDraft)
        requires
            old(self)@.has_model(),
        ensures
            result@ == old(self)@.chosen_model(),
            final(self)@ == old(self)@.with_model(final(result)@),
    {
        let index: usize = self.selected_model.unwrap();
        proof {
            lemma_model_drafts_update(self.models@, index as int);
            assert(self@.models[index as int] == self.models@[index as int]@);
        }
        &mut self.models[index]
    }

    /// The chosen log type.
    pub fn selected_profile_mut(&mut self) -> (result: &mut ProfileDraft)
        requires
            old(self)@.has_profile(),
        ensures
            result@ == old(self)@.chosen_profile(),
            final(self)@ == old(self)@.with_profile(final(result)@),
    {
        let index: usize = self.selected_profile.unwrap();
        proof {
            lemma_profile_drafts_update(self.profiles@, index as int);
            assert(self@.profiles[index as int] == self.profiles@[index as int]@);
        }
        &mut self.profiles[index]
    }

    /// The chosen rule.
    pub fn selected_matcher_mut(&mut self) -> (result: &mut MatcherDraft)
        requires
            old(self)@.has_rule(),
        ensures
            result@ == old(self)@.chosen_rule(),
            final(self)@ == old(self)@.with_rule(final(result)@),
    {
        let place: usize = self.selected_matcher;
        let profile = self.selected_profile_mut();
        proof {
            lemma_matcher_drafts_update(profile.matchers@, place as int);
            assert(profile@.matchers[place as int] == profile.matchers@[place as int]@);
        }
        &mut profile.matchers[place]
    }

    /// Whether an input is there.
    pub fn has_input_for(&self, field: AiDraftField) -> (result: bool)
        ensures
            result == self@.has_input(field),
    {
        match field {
            AiDraftField::ProfileName | AiDraftField::ProfileDescription => {
                self.has_chosen_profile()
            },
            AiDraftField::MatcherPattern => self.has_chosen_rule(),
            AiDraftField::SystemPrompt => true,
            _ => self.has_chosen_model(),
        }
    }

    /// An input that is there.
    pub fn input_mut(&mut self, field: AiDraftField) -> (result: &mut TextInputState)
        requires
            old(self)@.has_input(field),
        ensures
            result@ == old(self)@.input(field),
            final(self)@ == old(self)@.with_input(field, final(result)@),
    {
        match field {
            AiDraftField::ProfileName => &mut self.selected_profile_mut().name,
            AiDraftField::ProfileDescription => &mut self.selected_profile_mut().description,
            AiDraftField::MatcherPattern => &mut self.selected_matcher_mut().pattern,
            AiDraftField::SystemPrompt => &mut self.system_prompt,
            _ => self.selected_model_mut().input_mut(field),
        }
    }
}

// ---------------------------------------------------------------------------
// The keyboard
// ---------------------------------------------------------------------------

impl ModelDraft {
    /// Gives one input the keyboard, and takes it from the others.
    fn focus_field(&mut self, field: AiDraftField)
        ensures
            final(self)@ == old(self)@.focused_on(field),
    {
        turn_input(&mut self.name, field == AiDraftField::ModelName);
        turn_input(&mut self.base_url, field == AiDraftField::BaseUrl);
        turn_input(&mut self.model, field == AiDraftField::Model);
        turn_input(&mut self.context_window, field == AiDraftField::ContextWindow);
        turn_input(&mut self.api_key, field == AiDraftField::ApiKey);
    }
}

impl ProfileDraft {
    /// Gives one input the keyboard, and takes it from the others.
    fn focus_field(&mut self, field: AiDraftField, place: usize)
        ensures
            final(self)@ == old(self)@.focused_on(field, place),
    {
        let ghost before = self@;
        turn_input(&mut self.name, field == AiDraftField::ProfileName);
        if place < self.matchers.len() {
            proof {
                lemma_matcher_drafts_update(self.matchers@, place as int);
                assert(before.matchers[place as int] == self.matchers@[place as int]@);
            }
            let rule = &mut self.matchers[place];
            turn_input(&mut rule.pattern, field == AiDraftField::MatcherPattern);
        }
        turn_input(&mut self.description, field == AiDraftField::ProfileDescription);
    }
}

impl AiSettingsDraft {
    /// Gives one input the keyboard, and takes it from the others.
    pub fn focus_field(&mut self, field: AiDraftField)
        ensures
            final(self)@ == old(self)@.focused_on(field),
    {
        if self.has_chosen_model() {
            self.selected_model_mut().focus_field(field);
        }
        if self.has_chosen_profile() {
            let place: usize = self.selected_matcher;
            self.selected_profile_mut().focus_field(field, place);
        }
        turn_input(&mut self.system_prompt, field == AiDraftField::SystemPrompt);
    }
}

/// At most one input has the keyboard: the one that it was given to.
pub proof fn law_one_input_has_the_keyboard(
    draft: DraftModel,
    field: AiDraftField,
    other: AiDraftField,
)
    requires
        draft.has_input(other),
    ensures
        draft.focused_on(field).has_input(other),
        draft.focused_on(field).input(other).is_focused == (other == field),
        draft.focused_on(field).input(other).value == draft.input(other).value,
{
}

/// What is typed into one input leaves the texts of the others alone.
pub proof fn law_inputs_are_apart(
    draft: DraftModel,
    field: AiDraftField,
    other: AiDraftField,
    input: InputModel,
)
    requires
        draft.has_input(field),
        draft.has_input(other),
    ensures
        draft.with_input(field, input).has_input(other),
        draft.with_input(field, input).input(other) == (if field == other {
            input
        } else {
            draft.input(other)
        }),
{
}

// ---------------------------------------------------------------------------
// The editor
// ---------------------------------------------------------------------------

/// How the trial of a model stands.
#[derive(Debug, PartialEq, Eq)]
pub enum CapabilityProbeState {
    /// None was made since the last change.
    Idle,
    /// One is under way.
    Testing,
    /// The last one worked.
    Succeeded(String),
    /// The last one failed.
    Failed(String),
}

/// A [`CapabilityProbeState`] with its text as a sequence of characters.
#[verifier::ext_equal]
pub enum ProbeModel {
    /// None was made since the last change.
    Idle,
    /// One is under way.
    Testing,
    /// The last one worked.
    Succeeded(Seq<char>),
    /// The last one failed.
    Failed(Seq<char>),
}

impl View for CapabilityProbeState {
    type V = ProbeModel;

    open spec fn view(&self) -> ProbeModel {
        match self {
            CapabilityProbeState::Idle => ProbeModel::Idle,
            CapabilityProbeState::Testing => ProbeModel::Testing,
            CapabilityProbeState::Succeeded(message) => ProbeModel::Succeeded(message@),
            CapabilityProbeState::Failed(message) => ProbeModel::Failed(message@),
        }
    }
}

/// The editor.
#[derive(Debug, PartialEq, Eq)]
pub struct AiSettingsEditor {
    /// What is being edited.
    pub kind: AiSettingsEditorKind,
    /// The draft.
    pub draft: AiSettingsDraft,
    /// What went wrong last.
    pub error_message: Option<String>,
    /// How the trial of the model stands.
    pub capability_probe_state: CapabilityProbeState,
    /// The number of the trial; the answer to any other is out of date.
    pub capability_probe_generation: usize,
}

/// An [`AiSettingsEditor`] with its texts as sequences of characters.
#[verifier::ext_equal]
pub struct EditorModel {
    /// What is being edited.
    pub kind: AiSettingsEditorKind,
    /// The draft.
    pub draft: DraftModel,
    /// What went wrong last.
    pub error_message: Option<Seq<char>>,
    /// How the trial of the model stands.
    pub probe_state: ProbeModel,
    /// The number of the trial.
    pub probe_generation: usize,
}

impl View for AiSettingsEditor {
    type V = EditorModel;

    open spec fn view(&self) -> EditorModel {
        EditorModel {
            kind: self.kind,
            draft: self.draft@,
            error_message: optional_text(self.error_message),
            probe_state: self.capability_probe_state@,
            probe_generation: self.capability_probe_generation,
        }
    }
}

/// Whether an input belongs to the configuration of a model. A change of it makes
/// the last trial out of date.
pub open spec fn is_model_field(field: AiDraftField) -> bool {
    field is ModelName || field is BaseUrl || field is Model || field is ContextWindow
        || field is ApiKey
}

/// Whether an input has several lines.
pub open spec fn is_multiline(field: AiDraftField) -> bool {
    field is ProfileDescription || field is SystemPrompt
}

impl EditorModel {
    /// The editor with another draft.
    pub open spec fn with_draft(self, draft: DraftModel) -> EditorModel {
        EditorModel { draft, ..self }
    }

    /// The editor with nothing gone wrong.
    pub open spec fn without_error(self) -> EditorModel {
        EditorModel { error_message: None, ..self }
    }

    /// The editor after the last trial went out of date.
    pub open spec fn invalidated(self) -> EditorModel {
        EditorModel {
            probe_generation: next_generation(self.probe_generation),
            probe_state: ProbeModel::Idle,
            ..self
        }
    }

    /// The editor after a key press in one of its inputs.
    pub open spec fn after_key(
        self,
        field: AiDraftField,
        keystroke: KeystrokeModel,
        clipboard: Option<Seq<char>>,
    ) -> EditorModel {
        if !self.draft.has_input(field) {
            self
        } else {
            let step = key_step(
                self.draft.input(field),
                keystroke,
                is_multiline(field),
                clipboard,
            );
            let typed = self.with_draft(self.draft.with_input(field, step.input));
            if step.action is Changed || step.action is Submit {
                if is_model_field(field) {
                    typed.without_error().invalidated()
                } else {
                    typed.without_error()
                }
            } else {
                typed
            }
        }
    }

    /// The editor after an edit of the system's input method.
    pub open spec fn natively_edited(
        self,
        field: AiDraftField,
        edit: NativeTextEdit,
    ) -> EditorModel {
        let focused = self.draft.focused_on(field);
        let edited = self.with_draft(
            if focused.has_input(field) {
                focused.with_input(field, focused.input(field).natively_edited(edit))
            } else {
                focused
            },
        ).without_error();
        if is_model_field(field) {
            edited.invalidated()
        } else {
            edited
        }
    }

    /// The editor after the mouse did something on one of its inputs.
    pub open spec fn pointed(
        self,
        field: AiDraftField,
        event: InputPointerEvent,
        word: Option<Range<usize>>,
    ) -> EditorModel {
        let focused = self.draft.focused_on(field);
        self.with_draft(
            if focused.has_input(field) {
                focused.with_input(field, focused.input(field).pointed(event, word))
            } else {
                focused
            },
        )
    }

    /// The editor after one of its inputs was emptied.
    pub open spec fn emptied(self, field: AiDraftField) -> EditorModel {
        let cleared = if self.draft.has_input(field) {
            self.with_draft(
                self.draft.with_input(field, InputModel { is_focused: true, ..InputModel::blank() }),
            )
        } else {
            self
        };
        if is_model_field(field) {
            cleared.invalidated()
        } else {
            cleared
        }
    }

    /// The editor after a rule was added, or refused.
    pub open spec fn matcher_added(self) -> EditorModel {
        let profile = self.draft.chosen_profile();
        if !self.draft.has_profile() {
            self
        } else if profile.matchers.len() >= MATCHER_LIMIT {
            EditorModel { error_message: Some("每个日志类型最多配置 16 条名称规则"@), ..self }
        } else {
            let grown = self.draft.with_profile(
                ProfileDraftModel {
                    matchers: profile.matchers.push(MatcherDraftModel::fresh()),
                    ..profile
                },
            );
            self.with_draft(
                DraftModel { selected_matcher: profile.matchers.len() as usize, ..grown },
            )
        }
    }

    /// The editor after the chosen rule was removed; the last one stays.
    pub open spec fn matcher_removed(self) -> EditorModel {
        let profile = self.draft.chosen_profile();
        let last = profile.matchers.len() - 1;
        let place = if self.draft.selected_matcher < last {
            self.draft.selected_matcher as int
        } else {
            last
        };
        if !self.draft.has_profile() {
            self
        } else if profile.matchers.len() <= 1 {
            EditorModel { error_message: Some("每个日志类型至少保留一条名称规则"@), ..self }
        } else {
            let shrunk = self.draft.with_profile(
                ProfileDraftModel { matchers: profile.matchers.remove(place), ..profile },
            );
            self.with_draft(
                DraftModel {
                    selected_matcher: (if self.draft.selected_matcher < last - 1 {
                        self.draft.selected_matcher as int
                    } else {
                        last - 1
                    }) as usize,
                    ..shrunk
                },
            )
        }
    }

    /// The editor after an entry of the list was removed, and whether one was.
    pub open spec fn entry_removed(self) -> (EditorModel, bool) {
        match self.kind {
            AiSettingsEditorKind::Model(place) => if place is Some && place->0
                < self.draft.models.len() {
                (
                    self.with_draft(
                        DraftModel {
                            models: self.draft.models.remove(place->0 as int),
                            ..self.draft
                        },
                    ),
                    true,
                )
            } else {
                (self, false)
            },
            AiSettingsEditorKind::LogProfile(place) => if place is Some && place->0
                < self.draft.profiles.len() {
                (
                    self.with_draft(
                        DraftModel {
                            profiles: self.draft.profiles.remove(place->0 as int),
                            ..self.draft
                        },
                    ),
                    true,
                )
            } else {
                (self, false)
            },
            AiSettingsEditorKind::SystemPrompt => (self, false),
        }
    }
}

/// The number behind a number; the first one behind the last.
pub open spec fn next_generation(generation: usize) -> usize {
    if generation == usize::MAX {
        0
    } else {
        (generation + 1) as usize
    }
}

/// What a key press in the editor asks for.
#[derive(Debug, PartialEq, Eq)]
pub struct EditorKeyOutcome {
    /// Whether the editor closes, with nothing kept.
    pub closes: bool,
    /// What goes to the clipboard.
    pub copied: Option<String>,
}

impl AiSettingsEditor {
    /// Opens the editor.
    pub fn new(kind: AiSettingsEditorKind, draft: AiSettingsDraft) -> (result: AiSettingsEditor)
        ensures
            result@ == (EditorModel {
                kind,
                draft: draft@,
                error_message: None,
                probe_state: ProbeModel::Idle,
                probe_generation: 0,
            }),
    {
        AiSettingsEditor {
            kind,
            draft,
            error_message: None,
            capability_probe_state: CapabilityProbeState::Idle,
            capability_probe_generation: 0,
        }
    }

    /// Makes the last trial out of date: its answer will not be shown.
    pub fn invalidate_capability_probe(&mut self)
        ensures
            final(self)@ == old(self)@.invalidated(),
    {
        self.capability_probe_generation = self.capability_probe_generation.wrapping_add(1);
        self.capability_probe_state = CapabilityProbeState::Idle;
    }

    /// Gives an input the keyboard.
    pub fn focus_field(&mut self, field: AiDraftField)
        ensures
            final(self)@ == old(self)@.with_draft(old(self)@.draft.focused_on(field)),
    {
        self.draft.focus_field(field);
    }

    /// Handles a key press in an input.
    pub fn handle_input_key(
        &mut self,
        field: AiDraftField,
        keystroke: &Keystroke,
        clipboard: &Option<String>,
    ) -> (result: EditorKeyOutcome)
        requires
            old(self)@.draft.has_input(field) ==> key_has_room(
                old(self)@.draft.input(field),
                keystroke@,
                is_multiline(field),
                optional_text(*clipboard),
            ),
        ensures
            final(self)@ == old(self)@.after_key(field, keystroke@, optional_text(*clipboard)),
            ({
                let step = key_step(
                    old(self)@.draft.input(field),
                    keystroke@,
                    is_multiline(field),
                    optional_text(*clipboard),
                );
                if old(self)@.draft.has_input(field) {
                    &&& result.closes == (step.action is Close)
                    &&& optional_text(result.copied) == step.copied
                } else {
                    !result.closes && result.copied is None
                }
            }),
    {
        if !self.draft.has_input_for(field) {
            return EditorKeyOutcome { closes: false, copied: None };
        }
        let multiline = match field {
            AiDraftField::ProfileDescription | AiDraftField::SystemPrompt => true,
            _ => false,
        };
        let outcome = handle_local_input_key(
            self.draft.input_mut(field),
            keystroke,
            multiline,
            clipboard,
        );
        match outcome.action {
            LocalInputAction::Changed | LocalInputAction::Submit => {
                self.error_message = None;
                self.note_change(field);
                EditorKeyOutcome { closes: false, copied: outcome.copied }
            },
            LocalInputAction::Close => EditorKeyOutcome { closes: true, copied: outcome.copied },
            LocalInputAction::Ignored => EditorKeyOutcome { closes: false, copied: outcome.copied },
        }
    }

    /// Makes the last trial out of date where a change of an input does.
    fn note_change(&mut self, field: AiDraftField)
        ensures
            final(self)@ == (if is_model_field(field) {
                old(self)@.invalidated()
            } else {
                old(self)@
            }),
    {
        match field {
            AiDraftField::ModelName
            | AiDraftField::BaseUrl
            | AiDraftField::Model
            | AiDraftField::ContextWindow
            | AiDraftField::ApiKey => self.invalidate_capability_probe(),
            _ => {},
        }
    }

    /// Applies an edit of the system's input method, which also gives the input the
    /// keyboard.
    pub fn apply_native_edit(&mut self, field: AiDraftField, edit: &NativeTextEdit)
        ensures
            final(self)@ == old(self)@.natively_edited(field, *edit),
    {
        self.focus_field(field);
        if self.draft.has_input_for(field) {
            self.draft.input_mut(field).apply_native_edit(edit);
        }
        self.error_message = None;
        self.note_change(field);
    }

    /// Does to an input what the mouse did, which also gives it the keyboard.
    pub fn apply_pointer(
        &mut self,
        field: AiDraftField,
        event: &InputPointerEvent,
        word: Option<Range<usize>>,
    )
        ensures
            final(self)@ == old(self)@.pointed(field, *event, word),
    {
        self.focus_field(field);
        if self.draft.has_input_for(field) {
            apply_pointer_event(self.draft.input_mut(field), event, word);
        }
    }

    /// Empties an input.
    pub fn clear_input(&mut self, field: AiDraftField)
        ensures
            final(self)@ == old(self)@.emptied(field),
    {
        if self.draft.has_input_for(field) {
            let mut blank = TextInputState::new();
            blank.is_focused = true;
            let input = self.draft.input_mut(field);
            *input = blank;
        }
        self.note_change(field);
    }

    /// Adds a rule to the chosen log type.
    pub fn add_matcher(&mut self)
        ensures
            final(self)@ == old(self)@.matcher_added(),
    {
        if !self.draft.has_chosen_profile() {
            return;
        }
        let ghost before = self@;
        let profile = self.draft.selected_profile_mut();
        let count: usize = profile.matchers.len();
        let is_full = count >= MATCHER_LIMIT;
        if !is_full {
            profile.matchers.push(MatcherDraft::new());
            proof {
                assert(profile@.matchers =~= before.draft.chosen_profile().matchers.push(
                    MatcherDraftModel::fresh(),
                ));
            }
        }
        if is_full {
            self.error_message = Some("每个日志类型最多配置 16 条名称规则".to_owned());
            assert(self@.draft =~= before.draft);
        } else {
            self.draft.selected_matcher = count;
        }
    }

    /// Removes the chosen rule; the last one stays.
    pub fn remove_matcher(&mut self)
        ensures
            final(self)@ == old(self)@.matcher_removed(),
    {
        if !self.draft.has_chosen_profile() {
            return;
        }
        let ghost before = self@;
        let index: usize = self.draft.selected_matcher;
        let profile = self.draft.selected_profile_mut();
        let count: usize = profile.matchers.len();
        if count > 1 {
            let place: usize = min_of(index, count - 1);
            profile.matchers.remove(place);
            proof {
                assert(profile@.matchers =~= before.draft.chosen_profile().matchers.remove(
                    place as int,
                ));
            }
        }
        if count <= 1 {
            self.error_message = Some("每个日志类型至少保留一条名称规则".to_owned());
            assert(self@.draft =~= before.draft);
        } else {
            self.draft.selected_matcher = min_of(index, count - 2);
        }
    }

    /// Removes the entry of the list that is being edited. Gives the settings to
    /// keep, where there is such an entry.
    pub fn delete_existing(&mut self) -> (result: Option<AiConfig>)
        ensures
            final(self)@ == old(self)@.entry_removed().0,
            match result {
                Some(config) => old(self)@.entry_removed().1 && config@
                    == old(self)@.entry_removed().0.draft.config(),
                None => !old(self)@.entry_removed().1,
            },
    {
        let ghost before = self@;
        let model: Option<usize> = match self.kind {
            AiSettingsEditorKind::Model(place) => place,
            _ => None,
        };
        let profile: Option<usize> = match self.kind {
            AiSettingsEditorKind::LogProfile(place) => place,
            _ => None,
        };
        if model.is_some() && model.unwrap() < self.draft.models.len() {
            let index: usize = model.unwrap();
            self.draft.models.remove(index);
            assert(self@.draft.models =~= before.draft.models.remove(index as int));
        } else if profile.is_some() && profile.unwrap() < self.draft.profiles.len() {
            let index: usize = profile.unwrap();
            self.draft.profiles.remove(index);
            assert(self@.draft.profiles =~= before.draft.profiles.remove(index as int));
        } else {
            return None;
        }
        Some(self.draft.to_config())
    }
}

// ---------------------------------------------------------------------------
// The switches
// ---------------------------------------------------------------------------

impl EditorModel {
    /// The editor with another chosen rule, where there is one.
    pub open spec fn rule_changed(
        self,
        target: LogNameMatcherTarget,
        mode: LogNameMatcherMode,
        case_sensitive: bool,
    ) -> EditorModel {
        if self.draft.has_rule() {
            self.with_draft(
                self.draft.with_rule(
                    MatcherDraftModel { target, mode, case_sensitive, ..self.draft.chosen_rule() },
                ),
            )
        } else {
            self
        }
    }

    /// The editor after the chosen log type got another priority, where there is one.
    pub open spec fn reprioritised(self, priority: int) -> EditorModel {
        if self.draft.has_profile() {
            self.with_draft(
                self.draft.with_profile(
                    ProfileDraftModel { priority: priority as u16, ..self.draft.chosen_profile() },
                ),
            )
        } else {
            self
        }
    }
}

/// A priority one step down; none is below zero.
pub open spec fn lowered(priority: u16) -> int {
    if priority < PRIORITY_STEP {
        0
    } else {
        priority - PRIORITY_STEP
    }
}

/// A priority one step up, and no higher than the limit.
pub open spec fn raised(priority: u16) -> int {
    if priority + PRIORITY_STEP > PRIORITY_LIMIT {
        PRIORITY_LIMIT as int
    } else {
        priority + PRIORITY_STEP
    }
}

impl AiSettingsEditor {
    /// Switches whether new sessions may choose the model.
    pub fn toggle_model(&mut self)
        ensures
            final(self)@ == (if old(self)@.draft.has_model() {
                old(self)@.with_draft(
                    old(self)@.draft.with_model(
                        ModelDraftModel {
                            enabled: !old(self)@.draft.chosen_model().enabled,
                            ..old(self)@.draft.chosen_model()
                        },
                    ),
                )
            } else {
                old(self)@
            }).without_error(),
    {
        if self.draft.has_chosen_model() {
            let model = self.draft.selected_model_mut();
            model.enabled = !model.enabled;
        }
        self.error_message = None;
    }

    /// Switches whether the model may see log text. `version` names the wording that
    /// the user agrees to.
    pub fn toggle_raw_log_content(&mut self, version: &str)
        ensures
            final(self)@ == old(self)@.with_draft(
                DraftModel {
                    allow_raw_log_content: !old(self)@.draft.allow_raw_log_content,
                    consent_version: if old(self)@.draft.allow_raw_log_content {
                        Seq::empty()
                    } else {
                        version@
                    },
                    ..old(self)@.draft
                },
            ).without_error(),
    {
        self.draft.allow_raw_log_content = !self.draft.allow_raw_log_content;
        self.draft.consent_version = if self.draft.allow_raw_log_content {
            version.to_owned()
        } else {
            String::new()
        };
        self.error_message = None;
    }

    /// Switches whether the log type is used.
    pub fn toggle_profile(&mut self)
        ensures
            final(self)@ == (if old(self)@.draft.has_profile() {
                old(self)@.with_draft(
                    old(self)@.draft.with_profile(
                        ProfileDraftModel {
                            enabled: !old(self)@.draft.chosen_profile().enabled,
                            ..old(self)@.draft.chosen_profile()
                        },
                    ),
                )
            } else {
                old(self)@
            }),
    {
        if self.draft.has_chosen_profile() {
            let profile = self.draft.selected_profile_mut();
            profile.enabled = !profile.enabled;
        }
    }

    /// Lowers the priority of the log type.
    pub fn lower_priority(&mut self)
        ensures
            final(self)@ == old(self)@.reprioritised(
                lowered(old(self)@.draft.chosen_profile().priority),
            ),
    {
        if self.draft.has_chosen_profile() {
            let profile = self.draft.selected_profile_mut();
            profile.priority = profile.priority.saturating_sub(PRIORITY_STEP);
        }
    }

    /// Raises the priority of the log type.
    pub fn raise_priority(&mut self)
        ensures
            final(self)@ == old(self)@.reprioritised(
                raised(old(self)@.draft.chosen_profile().priority),
            ),
    {
        if self.draft.has_chosen_profile() {
            let profile = self.draft.selected_profile_mut();
            let higher: u16 = profile.priority.saturating_add(PRIORITY_STEP);
            profile.priority = if higher > PRIORITY_LIMIT {
                PRIORITY_LIMIT
            } else {
                higher
            };
        }
    }

    /// Chooses a rule.
    pub fn select_matcher(&mut self, index: usize)
        ensures
            final(self)@ == old(self)@.with_draft(
                DraftModel { selected_matcher: index, ..old(self)@.draft },
            ),
    {
        self.draft.selected_matcher = index;
    }

    /// Goes on to the other thing that the rule can look at.
    pub fn cycle_matcher_target(&mut self)
        ensures
            final(self)@ == old(self)@.rule_changed(
                other_target(old(self)@.draft.chosen_rule().target),
                old(self)@.draft.chosen_rule().mode,
                old(self)@.draft.chosen_rule().case_sensitive,
            ),
    {
        if self.draft.has_chosen_rule() {
            let rule = self.draft.selected_matcher_mut();
            rule.target = next_matcher_target(rule.target);
        }
    }

    /// Goes on to the next way in which the rule can compare.
    pub fn cycle_matcher_mode(&mut self)
        ensures
            final(self)@ == old(self)@.rule_changed(
                old(self)@.draft.chosen_rule().target,
                following_mode(old(self)@.draft.chosen_rule().mode),
                old(self)@.draft.chosen_rule().case_sensitive,
            ),
    {
        if self.draft.has_chosen_rule() {
            let rule = self.draft.selected_matcher_mut();
            rule.mode = next_matcher_mode(rule.mode);
        }
    }

    /// Switches whether the rule tells upper and lower case apart.
    pub fn toggle_matcher_case(&mut self)
        ensures
            final(self)@ == old(self)@.rule_changed(
                old(self)@.draft.chosen_rule().target,
                old(self)@.draft.chosen_rule().mode,
                !old(self)@.draft.chosen_rule().case_sensitive,
            ),
    {
        if self.draft.has_chosen_rule() {
            let rule = self.draft.selected_matcher_mut();
            rule.case_sensitive = !rule.case_sensitive;
        }
    }

    /// Goes back to the prompt that comes with the program.
    pub fn reset_system_prompt(&mut self, prompt: String)
        ensures
            final(self)@ == old(self)@.with_draft(
                DraftModel { system_prompt: InputModel::holding(prompt@), ..old(self)@.draft },
            ).without_error(),
    {
        self.draft.system_prompt = TextInputState::from_value(prompt);
        self.error_message = None;
    }
}

// ---------------------------------------------------------------------------
// Keeping the settings
// ---------------------------------------------------------------------------

/// What is to be kept.
#[derive(Debug, PartialEq, Eq)]
pub struct SettingsToKeep {
    /// The settings.
    pub config: AiConfig,
    /// The address of the edited model and the key that was typed for it. An empty
    /// key leaves the one that is there.
    pub credential: Option<(String, String)>,
}

impl AiSettingsEditor {
    /// What is to be kept.
    pub fn save(&self) -> (result: SettingsToKeep)
        ensures
            result.config@ == self@.draft.config(),
            match result.credential {
                Some(credential) => self@.draft.has_model() && credential.0@
                    == self@.draft.chosen_model().base_url.value && credential.1@
                    == self@.draft.chosen_model().api_key.value,
                None => !self@.draft.has_model(),
            },
    {
        let config = self.draft.to_config();
        let credential = match self.draft.selected_model {
            Some(index) => {
                if index < self.draft.models.len() {
                    let model = &self.draft.models[index];
                    assert(self@.draft.models[index as int] == model@);
                    Some((model.base_url.value.clone(), model.api_key.value.clone()))
                } else {
                    None
                }
            },
            None => None,
        };
        SettingsToKeep { config, credential }
    }

    /// Takes in whether the settings could be kept.
    pub fn finish_save(&mut self, answer: Result<(), String>)
        ensures
            final(self)@ == (match answer {
                Ok(_) => old(self)@,
                Err(message) => EditorModel { error_message: Some(message@), ..old(self)@ },
            }),
    {
        match answer {
            Ok(_) => {},
            Err(message) => {
                self.error_message = Some(message);
            },
        }
    }
}

// ---------------------------------------------------------------------------
// The trial of a model
// ---------------------------------------------------------------------------

/// A trial to be made.
#[derive(Debug, PartialEq, Eq)]
pub struct ProbeRequest {
    /// Its number, which the answer has to name.
    pub generation: usize,
    /// The model.
    pub model: AiModelProfile,
    /// The key that was typed; none where the one that is kept is to be used.
    pub entered_api_key: Option<String>,
}

impl EditorModel {
    /// The settings for a trial: none of the log types, and no leave to see log text.
    pub open spec fn trial_config(self) -> ConfigModel {
        ConfigModel {
            allow_raw_log_content: false,
            consent_version: Seq::empty(),
            log_profiles: Seq::empty(),
            ..self.draft.config()
        }
    }

    /// Why no trial can be made with some settings, of whose model `verdict` says
    /// what is wrong.
    pub open spec fn trial_refusal(
        self,
        models: Seq<ModelProfileModel>,
        verdict: Option<Seq<char>>,
    ) -> Option<Seq<char>> {
        match self.draft.selected_model {
            None => Some("当前没有可测试的模型配置"@),
            Some(index) => if index >= models.len() {
                Some("当前模型配置已不存在"@)
            } else {
                verdict
            },
        }
    }

    /// The editor after a trial was asked for.
    pub open spec fn trial_begun(
        self,
        models: Seq<ModelProfileModel>,
        verdict: Option<Seq<char>>,
    ) -> EditorModel {
        if self.probe_state is Testing {
            self
        } else {
            match self.trial_refusal(models, verdict) {
                Some(message) => EditorModel { probe_state: ProbeModel::Failed(message), ..self },
                None => EditorModel {
                    probe_state: ProbeModel::Testing,
                    probe_generation: next_generation(self.probe_generation),
                    ..self
                },
            }
        }
    }

    /// The key that was typed for the chosen model.
    pub open spec fn entered_key(self) -> Seq<char> {
        if self.draft.has_model() {
            trimmed(self.draft.chosen_model().api_key.value)
        } else {
            Seq::empty()
        }
    }

    /// The editor after a trial was answered.
    pub open spec fn trial_answered(self, generation: usize, answer: ProbeModel) -> EditorModel {
        if generation == self.probe_generation {
            EditorModel { probe_state: answer, ..self }
        } else {
            self
        }
    }
}

/// The state that an answer leads to.
pub open spec fn answered_state(answer: Result<String, String>) -> ProbeModel {
    match answer {
        Ok(message) => ProbeModel::Succeeded(message@),
        Err(message) => ProbeModel::Failed(message@),
    }
}

impl AiSettingsEditor {
    /// The settings for a trial; none while one is under way.
    pub fn probe_config(&self) -> (result: Option<AiConfig>)
        ensures
            match result {
                Some(config) => !(self@.probe_state is Testing) && config@ == self@.trial_config(),
                None => self@.probe_state is Testing,
            },
    {
        match self.capability_probe_state {
            CapabilityProbeState::Testing => None,
            _ => {
                let mut config = self.draft.to_config();
                config.allow_raw_log_content = false;
                config.consent_version = String::new();
                config.log_profiles = Vec::new();
                assert(config@ =~= self@.trial_config());
                Some(config)
            },
        }
    }

    /// Begins a trial with the models of some settings. `verdict` says what is wrong
    /// with the chosen one.
    pub fn begin_probe(&mut self, models: &Vec<AiModelProfile>, verdict: Option<String>) -> (result:
        Option<ProbeRequest>)
        ensures
            ({
                let kept = crate::ai_config::model_profiles(models@);
                let verdict_text = optional_text(verdict);
                &&& final(self)@ == old(self)@.trial_begun(kept, verdict_text)
                &&& match result {
                    Some(request) => {
                        &&& !(old(self)@.probe_state is Testing)
                        &&& old(self)@.trial_refusal(kept, verdict_text) is None
                        &&& request.generation == final(self)@.probe_generation
                        &&& request.model@ == kept[old(self)@.draft.selected_model->0 as int]
                        &&& optional_text(request.entered_api_key) == (if old(
                            self,
                        )@.entered_key().len() == 0 {
                            None
                        } else {
                            Some(old(self)@.entered_key())
                        })
                    },
                    None => old(self)@.probe_state is Testing || old(self)@.trial_refusal(
                        kept,
                        verdict_text,
                    ) is Some,
                }
            }),
    {
        let is_testing = match &self.capability_probe_state {
            CapabilityProbeState::Testing => true,
            _ => false,
        };
        if is_testing {
            return None;
        }
        let refusal = match self.draft.selected_model {
            None => Some("当前没有可测试的模型配置".to_owned()),
            Some(index) => {
                if index >= models.len() {
                    Some("当前模型配置已不存在".to_owned())
                } else {
                    verdict
                }
            },
        };
        match refusal {
            Some(message) => {
                self.capability_probe_state = CapabilityProbeState::Failed(message);
                None
            },
            None => {
                let index: usize = self.draft.selected_model.unwrap();
                let key = if index < self.draft.models.len() {
                    assert(self@.draft.models[index as int] == self.draft.models@[index as int]@);
                    trim(self.draft.models[index].api_key.value.as_str())
                } else {
                    String::new()
                };
                self.capability_probe_generation = self.capability_probe_generation.wrapping_add(1);
                self.capability_probe_state = CapabilityProbeState::Testing;
                let model = models[index].copy();
                Some(
                    ProbeRequest {
                        generation: self.capability_probe_generation,
                        model,
                        entered_api_key: if key.as_str().is_empty() {
                            None
                        } else {
                            Some(key)
                        },
                    },
                )
            },
        }
    }

    /// Takes in the answer to a trial, unless it is out of date. Says whether it was
    /// taken in.
    pub fn finish_probe(&mut self, generation: usize, answer: Result<String, String>) -> (result:
        bool)
        ensures
            final(self)@ == old(self)@.trial_answered(generation, answered_state(answer)),
            result == (generation == old(self)@.probe_generation),
    {
        if self.capability_probe_generation != generation {
            return false;
        }
        self.capability_probe_state = match answer {
            Ok(message) => CapabilityProbeState::Succeeded(message),
            Err(message) => CapabilityProbeState::Failed(message),
        };
        true
    }
}

// ---------------------------------------------------------------------------
// What holds of the editor
// ---------------------------------------------------------------------------

/// The answer to a trial that a later change made out of date is never shown.
pub proof fn law_late_answer_is_dropped(editor: EditorModel, answer: ProbeModel)
    ensures
        editor.invalidated().trial_answered(editor.probe_generation, answer)
            == editor.invalidated(),
{
}

/// Changing any input of a model while a trial is under way ends it: with keys,
/// through the system's input method, or by emptying the input. The trial is to be
/// made anew, and the answer to the old one changes nothing any more.
pub proof fn law_typing_ends_a_trial(
    editor: EditorModel,
    field: AiDraftField,
    keystroke: KeystrokeModel,
    clipboard: Option<Seq<char>>,
    edit: NativeTextEdit,
    answer: ProbeModel,
)
    requires
        is_model_field(field),
    ensures
        editor.draft.has_input(field) && key_step(
            editor.draft.input(field),
            keystroke,
            is_multiline(field),
            clipboard,
        ).action is Changed ==> {
            let typed = editor.after_key(field, keystroke, clipboard);
            &&& typed.probe_generation == next_generation(editor.probe_generation)
            &&& typed.probe_state is Idle
            &&& typed.error_message is None
            &&& typed.trial_answered(editor.probe_generation, answer) == typed
        },
        ({
            let edited = editor.natively_edited(field, edit);
            &&& edited.probe_generation == next_generation(editor.probe_generation)
            &&& edited.probe_state is Idle
            &&& edited.error_message is None
            &&& edited.trial_answered(editor.probe_generation, answer) == edited
        }),
        ({
            let emptied = editor.emptied(field);
            &&& emptied.probe_generation == next_generation(editor.probe_generation)
            &&& emptied.probe_state is Idle
            &&& emptied.trial_answered(editor.probe_generation, answer) == emptied
        }),
{
}

/// A trial sees neither the log types nor any leave to see log text.
pub proof fn law_trial_sees_no_logs(editor: EditorModel)
    ensures
        editor.trial_config().log_profiles.len() == 0,
        !editor.trial_config().allow_raw_log_content,
        editor.trial_config().consent_version.len() == 0,
        editor.trial_config().model_profiles == editor.draft.config().model_profiles,
{
}

/// While a trial is under way, no other one begins.
pub proof fn law_one_trial_at_a_time(
    editor: EditorModel,
    models: Seq<ModelProfileModel>,
    verdict: Option<Seq<char>>,
)
    ensures
        editor.trial_begun(models, verdict).probe_state is Testing ==> editor.trial_begun(
            models,
            verdict,
        ).trial_begun(models, verdict) == editor.trial_begun(models, verdict),
{
}

/// A log type that has between one and [`MATCHER_LIMIT`] rules keeps that, whether a
/// rule is added or removed, and one of them stays chosen.
pub proof fn law_rules_stay_within_limits(editor: EditorModel)
    requires
        editor.draft.has_rule(),
        editor.draft.chosen_profile().matchers.len() <= MATCHER_LIMIT,
    ensures
        editor.matcher_added().draft.has_rule(),
        editor.matcher_added().draft.chosen_profile().matchers.len() <= MATCHER_LIMIT,
        editor.matcher_removed().draft.has_rule(),
        1 <= editor.matcher_removed().draft.chosen_profile().matchers.len() <= MATCHER_LIMIT,
{
}

/// Removing a rule that was just added leaves the rules as they were.
pub proof fn law_added_rule_can_be_removed(editor: EditorModel)
    requires
        editor.draft.has_profile(),
        1 <= editor.draft.chosen_profile().matchers.len() < MATCHER_LIMIT,
    ensures
        editor.matcher_added().matcher_removed().draft.chosen_profile()
            == editor.draft.chosen_profile(),
{
    assert(editor.matcher_added().matcher_removed().draft.chosen_profile().matchers
        =~= editor.draft.chosen_profile().matchers);
}

/// A priority within the limits stays there.
pub proof fn law_priority_stays_within_limits(priority: u16)
    requires
        priority <= PRIORITY_LIMIT,
    ensures
        0 <= lowered(priority) <= priority,
        priority <= raised(priority) <= PRIORITY_LIMIT,
{
}

/// Removing an entry takes exactly that one out of the settings.
pub proof fn law_removing_takes_one_entry(editor: EditorModel)
    requires
        editor.entry_removed().1,
    ensures
        match editor.kind {
            AiSettingsEditorKind::Model(place) => editor.entry_removed().0.draft.config()
                == (ConfigModel {
                model_profiles: editor.draft.config().model_profiles.remove(place->0 as int),
                ..editor.draft.config()
            }),
            AiSettingsEditorKind::LogProfile(place) => editor.entry_removed().0.draft.config()
                == (ConfigModel {
                log_profiles: editor.draft.config().log_profiles.remove(place->0 as int),
                ..editor.draft.config()
            }),
            AiSettingsEditorKind::SystemPrompt => false,
        },
{
    match editor.kind {
        AiSettingsEditorKind::Model(place) => {
            assert(editor.entry_removed().0.draft.config().model_profiles
                =~= editor.draft.config().model_profiles.remove(place->0 as int));
        },
        AiSettingsEditorKind::LogProfile(place) => {
            assert(editor.entry_removed().0.draft.config().log_profiles
                =~= editor.draft.config().log_profiles.remove(place->0 as int));
        },
        AiSettingsEditorKind::SystemPrompt => {},
    }
}

} // verus!
