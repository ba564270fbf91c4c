//! The settings while they are being edited: every text as an input of its own.

use uuid::Uuid;
use vstd::prelude::*;
use crate::ai_config::{
    log_profile_models, matcher_models, model_profiles, AiBudgetProfile, AiConfig, AiModelProfile,
    ConfigModel, LogNameMatcher, LogProfileModel, LogTypeProfile, MatcherModel, ModelProfileModel,
};
use crate::log_matcher::{LogNameMatcherMode, LogNameMatcherTarget};
use crate::text::{
    decimal, decimal_text, law_decimal_has_no_space, law_parse_reads_decimal, parse_number,
    parsed_number, trim, trimmed,
};
use crate::text_input::{InputModel, TextInputState};

verus! {

/// The priority of a new log type.
pub const NEW_PROFILE_PRIORITY: u16 = 100;

/// What is being edited. A place says which existing entry; none, a new one.
#[derive(Clone, Copy, Debug, PartialEq, Eq, Structural)]
pub enum AiSettingsEditorKind {
    /// A model.
    Model(Option<usize>),
    /// A log type.
    LogProfile(Option<usize>),
    /// What every session is told first.
    SystemPrompt,
}

/// The inputs of the editor.
#[derive(Clone, Copy, Debug, PartialEq, Eq, Structural)]
pub enum AiDraftField {
    /// The name of the model.
    ModelName,
    /// Where its service is.
    BaseUrl,
    /// What its service calls it.
    Model,
    /// The size of its context window.
    ContextWindow,
    /// The key of its service.
    ApiKey,
    /// The name of the log type.
    ProfileName,
    /// What the rule looks for.
    MatcherPattern,
    /// What the model is told about the log type.
    ProfileDescription,
    /// What every session is told first.
    SystemPrompt,
}

// ---------------------------------------------------------------------------
// The drafts
// ---------------------------------------------------------------------------

/// A model that is being edited.
#[derive(Debug, PartialEq, Eq)]
pub struct ModelDraft {
    /// Its id.
    pub profile_id: String,
    /// Whether new sessions may choose it.
    pub enabled: bool,
    /// Its name.
    pub name: TextInputState,
    /// Where its service is.
    pub base_url: TextInputState,
    /// What its service calls it.
    pub model: TextInputState,
    /// The size of its context window.
    pub context_window: TextInputState,
    /// A new key; an existing one is never shown.
    pub api_key: TextInputState,
}

/// A [`ModelDraft`] with its texts as sequences of characters.
#[verifier::ext_equal]
pub struct ModelDraftModel {
    /// Its id.
    pub profile_id: Seq<char>,
    /// Whether new sessions may choose it.
    pub enabled: bool,
    /// Its name.
    pub name: InputModel,
    /// Where its service is.
    pub base_url: InputModel,
    /// What its service calls it.
    pub model: InputModel,
    /// The size of its context window.
    pub context_window: InputModel,
    /// A new key.
    pub api_key: InputModel,
}

impl View for ModelDraft {
    type V = ModelDraftModel;

    open spec fn view(&self) -> ModelDraftModel {
        ModelDraftModel {
            profile_id: self.profile_id@,
            enabled: self.enabled,
            name: self.name@,
            base_url: self.base_url@,
            model: self.model@,
            context_window: self.context_window@,
            api_key: self.api_key@,
        }
    }
}

/// A rule that is being edited.
#[derive(Debug, PartialEq, Eq)]
pub struct MatcherDraft {
    /// What it looks at.
    pub target: LogNameMatcherTarget,
    /// How it compares.
    pub mode: LogNameMatcherMode,
    /// What it looks for.
    pub pattern: TextInputState,
    /// Whether upper and lower case differ.
    pub case_sensitive: bool,
}

/// A [`MatcherDraft`] with its text as a sequence of characters.
#[verifier::ext_equal]
pub struct MatcherDraftModel {
    /// What it looks at.
    pub target: LogNameMatcherTarget,
    /// How it compares.
    pub mode: LogNameMatcherMode,
    /// What it looks for.
    pub pattern: InputModel,
    /// Whether upper and lower case differ.
    pub case_sensitive: bool,
}

impl View for MatcherDraft {
    type V = MatcherDraftModel;

    open spec fn view(&self) -> MatcherDraftModel {
        MatcherDraftModel {
            target: self.target,
            mode: self.mode,
            pattern: self.pattern@,
            case_sensitive: self.case_sensitive,
        }
    }
}

/// A log type that is being edited.
#[derive(Debug, PartialEq, Eq)]
pub struct ProfileDraft {
    /// Its id.
    pub profile_id: String,
    /// Whether it is used.
    pub enabled: bool,
    /// Its name.
    pub name: TextInputState,
    /// Which type wins where several match.
    pub priority: u16,
    /// The rules, any of which suffices.
    pub matchers: Vec<MatcherDraft>,
    /// What the model is told about it.
    pub description: TextInputState,
}

/// A [`ProfileDraft`] with its texts as sequences of characters.
#[verifier::ext_equal]
pub struct ProfileDraftModel {
    /// Its id.
    pub profile_id: Seq<char>,
    /// Whether it is used.
    pub enabled: bool,
    /// Its name.
    pub name: InputModel,
    /// Which type wins where several match.
    pub priority: u16,
    /// The rules.
    pub matchers: Seq<MatcherDraftModel>,
    /// What the model is told about it.
    pub description: InputModel,
}

impl View for ProfileDraft {
    type V = ProfileDraftModel;

    open spec fn view(&self) -> ProfileDraftModel {
        ProfileDraftModel {
            profile_id: self.profile_id@,
            enabled: self.enabled,
            name: self.name@,
            priority: self.priority,
            matchers: matcher_drafts(self.matchers@),
            description: self.description@,
        }
    }
}

/// All settings while they are being edited.
#[derive(Debug, PartialEq, Eq)]
pub struct AiSettingsDraft {
    /// The models.
    pub models: Vec<ModelDraft>,
    /// The place of the one that is edited.
    pub selected_model: Option<usize>,
    /// Whether the model may see log text.
    pub allow_raw_log_content: bool,
    /// Which wording the user agreed to.
    pub consent_version: String,
    /// How long a request may take.
    pub request_timeout_seconds: u64,
    /// What every session is told first.
    pub system_prompt: TextInputState,
    /// The log types.
    pub profiles: Vec<ProfileDraft>,
    /// The place of the one that is edited.
    pub selected_profile: Option<usize>,
    /// The place of the rule that is edited.
    pub selected_matcher: usize,
}

/// An [`AiSettingsDraft`] with its texts as sequences of characters.
#[verifier::ext_equal]
pub struct DraftModel {
    /// The models.
    pub models: Seq<ModelDraftModel>,
    /// The place of the one that is edited.
    pub selected_model: Option<usize>,
    /// Whether the model may see log text.
    pub allow_raw_log_content: bool,
    /// Which wording the user agreed to.
    pub consent_version: Seq<char>,
    /// How long a request may take.
    pub request_timeout_seconds: u64,
    /// What every session is told first.
    pub system_prompt: InputModel,
    /// The log types.
    pub profiles: Seq<ProfileDraftModel>,
    /// The place of the one that is edited.
    pub selected_profile: Option<usize>,
    /// The place of the rule that is edited.
    pub selected_matcher: usize,
}

impl View for AiSettingsDraft {
    type V = DraftModel;

    open spec fn view(&self) -> DraftModel {
        DraftModel {
            models: model_drafts(self.models@),
            selected_model: self.selected_model,
            allow_raw_log_content: self.allow_raw_log_content,
            consent_version: self.consent_version@,
            request_timeout_seconds: self.request_timeout_seconds,
            system_prompt: self.system_prompt@,
            profiles: profile_drafts(self.profiles@),
            selected_profile: self.selected_profile,
            selected_matcher: self.selected_matcher,
        }
    }
}

/// The models of some model drafts.
pub open spec fn model_drafts(drafts: Seq<ModelDraft>) -> Seq<ModelDraftModel> {
    drafts.map_values(|draft: ModelDraft| draft@)
}

/// The models of some rule drafts.
pub open spec fn matcher_drafts(drafts: Seq<MatcherDraft>) -> Seq<MatcherDraftModel> {
    drafts.map_values(|draft: MatcherDraft| draft@)
}

/// The models of some log type drafts.
pub open spec fn profile_drafts(drafts: Seq<ProfileDraft>) -> Seq<ProfileDraftModel> {
    drafts.map_values(|draft: ProfileDraft| draft@)
}

// ---------------------------------------------------------------------------
// From the settings to the drafts and back
// ---------------------------------------------------------------------------

impl ModelProfileModel {
    /// The profile as it is edited. No key is shown.
    pub open spec fn draft(self) -> ModelDraftModel {
        ModelDraftModel {
            profile_id: self.profile_id,
            enabled: self.enabled,
            name: InputModel::holding(self.name),
            base_url: InputModel::holding(self.base_url),
            model: InputModel::holding(self.model),
            context_window: InputModel::holding(decimal_text(self.context_window_tokens as nat)),
            api_key: InputModel::blank(),
        }
    }
}

impl ModelDraftModel {
    /// The size of the context window as it was typed; zero where that is no number.
    pub open spec fn context_window_tokens(self) -> u64 {
        match parsed_number(trimmed(self.context_window.value)) {
            Some(tokens) => tokens,
            None => 0,
        }
    }

    /// The profile as it is kept. The key does not go into it.
    pub open spec fn profile(self) -> ModelProfileModel {
        ModelProfileModel {
            profile_id: self.profile_id,
            enabled: self.enabled,
            name: self.name.value,
            base_url: self.base_url.value,
            model: self.model.value,
            context_window_tokens: self.context_window_tokens(),
        }
    }
}

impl MatcherModel {
    /// The rule as it is edited.
    pub open spec fn draft(self) -> MatcherDraftModel {
        MatcherDraftModel {
            target: self.target,
            mode: self.mode,
            pattern: InputModel::holding(self.pattern),
            case_sensitive: self.case_sensitive,
        }
    }
}

impl MatcherDraftModel {
    /// A new rule.
    pub open spec fn fresh() -> MatcherDraftModel {
        MatcherDraftModel {
            target: LogNameMatcherTarget::FileName,
            mode: LogNameMatcherMode::Contains,
            pattern: InputModel::blank(),
            case_sensitive: false,
        }
    }

    /// The rule as it is kept.
    pub open spec fn matcher(self) -> MatcherModel {
        MatcherModel {
            target: self.target,
            mode: self.mode,
            pattern: self.pattern.value,
            case_sensitive: self.case_sensitive,
        }
    }
}

impl LogProfileModel {
    /// The log type as it is edited.
    pub open spec fn draft(self) -> ProfileDraftModel {
        ProfileDraftModel {
            profile_id: self.profile_id,
            enabled: self.enabled,
            name: InputModel::holding(self.name),
            priority: self.priority,
            matchers: self.matchers.map_values(|matcher: MatcherModel| matcher.draft()),
            description: InputModel::holding(self.description),
        }
    }
}

impl ProfileDraftModel {
    /// A new log type.
    pub open spec fn fresh(profile_id: Seq<char>) -> ProfileDraftModel {
        ProfileDraftModel {
            profile_id,
            enabled: true,
            name: InputModel::blank(),
            priority: NEW_PROFILE_PRIORITY,
            matchers: seq![MatcherDraftModel::fresh()],
            description: InputModel::blank(),
        }
    }

    /// The log type as it is kept.
    pub open spec fn profile(self) -> LogProfileModel {
        LogProfileModel {
            profile_id: self.profile_id,
            enabled: self.enabled,
            name: self.name.value,
            priority: self.priority,
            matchers: self.matchers.map_values(|matcher: MatcherDraftModel| matcher.matcher()),
            description: self.description.value,
        }
    }
}

impl ConfigModel {
    /// The settings as they are edited, with nothing chosen yet.
    pub open spec fn draft(self) -> DraftModel {
        DraftModel {
            models: self.model_profiles.map_values(|profile: ModelProfileModel| profile.draft()),
            selected_model: None,
            allow_raw_log_content: self.allow_raw_log_content,
            consent_version: self.consent_version,
            request_timeout_seconds: self.request_timeout_seconds,
            system_prompt: InputModel::holding(self.system_prompt),
            profiles: self.log_profiles.map_values(|profile: LogProfileModel| profile.draft()),
            selected_profile: None,
            selected_matcher: 0,
        }
    }
}

impl DraftModel {
    /// The draft opened for one kind of editing: an existing entry where the place
    /// is one, else a new entry behind the others.
    pub open spec fn opened(
        self,
        kind: AiSettingsEditorKind,
        new_model: ModelDraftModel,
        new_profile: ProfileDraftModel,
    ) -> DraftModel {
        match kind {
            AiSettingsEditorKind::Model(place) => if place is Some && place->0 < self.models.len() {
                DraftModel { selected_model: place, ..self }
            } else {
                DraftModel {
                    models: self.models.push(new_model),
                    selected_model: Some(self.models.len() as usize),
                    ..self
                }
            },
            AiSettingsEditorKind::LogProfile(place) => if place is Some && place->0
                < self.profiles.len() {
                DraftModel { selected_profile: place, ..self }
            } else {
                DraftModel {
                    profiles: self.profiles.push(new_profile),
                    selected_profile: Some(self.profiles.len() as usize),
                    ..self
                }
            },
            AiSettingsEditorKind::SystemPrompt => self,
        }
    }

    /// Whether a kind of editing starts a new log type.
    pub open spec fn needs_log_type(self, kind: AiSettingsEditorKind) -> bool {
        match kind {
            AiSettingsEditorKind::LogProfile(place) => place is None || place->0
                >= self.profiles.len(),
            _ => false,
        }
    }

    /// The settings as they are kept.
    pub open spec fn config(self) -> ConfigModel {
        ConfigModel {
            base_url: Seq::empty(),
            model: Seq::empty(),
            model_profiles: self.models.map_values(|draft: ModelDraftModel| draft.profile()),
            allow_raw_log_content: self.allow_raw_log_content,
            consent_version: self.consent_version,
            budget_profile: AiBudgetProfile::Balanced,
            request_timeout_seconds: self.request_timeout_seconds,
            system_prompt: self.system_prompt.value,
            log_profiles: self.profiles.map_values(|draft: ProfileDraftModel| draft.profile()),
        }
    }
}

/// Whether a character is a hexadecimal digit in lower case.
pub open spec fn is_hex_digit(character: char) -> bool {
    '0' <= character <= '9' || 'a' <= character <= 'f'
}

/// Whether a text is a random id: 32 hexadecimal digits in five groups, with the
/// version and the variant where they belong.
pub open spec fn is_random_id(text: Seq<char>) -> bool {
    &&& text.len() == 36
    &&& forall|i: int|
        0 <= i < 36 ==> if i == 8 || i == 13 || i == 18 || i == 23 {
            #[trigger] text[i] == '-'
        } else {
            is_hex_digit(text[i])
        }
    &&& text[14] == '4'
    &&& text[19] == '8' || text[19] == '9' || text[19] == 'a' || text[19] == 'b'
}

/// `Uuid::new_v4` makes up an id, and its `to_string` writes it in lower case with
/// hyphens. Which one comes is up to chance; only its shape is stated. Where the
/// system has no random numbers to give, the call does not return.
#[verifier::external_body]
pub(crate) fn random_id() -> (result: String)
    ensures
        is_random_id(result@),
{
    Uuid::new_v4().to_string()
}

impl ModelDraft {
    /// The draft of a profile.
    pub fn from_profile(profile: AiModelProfile) -> (result: ModelDraft)
        ensures
            result@ == profile@.draft(),
    {
        ModelDraft {
            profile_id: profile.profile_id,
            enabled: profile.enabled,
            name: TextInputState::from_value(profile.name),
            base_url: TextInputState::from_value(profile.base_url),
            model: TextInputState::from_value(profile.model),
            context_window: TextInputState::from_value(decimal(profile.context_window_tokens)),
            api_key: TextInputState::new(),
        }
    }

    /// The profile of a draft.
    pub fn to_profile(&self) -> (result: AiModelProfile)
        ensures
            result@ == self@.profile(),
    {
        let typed = trim(self.context_window.value.as_str());
        let context_window_tokens: u64 = match parse_number(typed.as_str()) {
            Some(tokens) => tokens,
            None => 0,
        };
        AiModelProfile {
            profile_id: self.profile_id.clone(),
            enabled: self.enabled,
            name: self.name.value.clone(),
            base_url: self.base_url.value.clone(),
            model: self.model.value.clone(),
            context_window_tokens,
        }
    }
}

impl MatcherDraft {
    /// A new rule.
    pub fn new() -> (result: MatcherDraft)
        ensures
            result@ == MatcherDraftModel::fresh(),
    {
        MatcherDraft {
            target: LogNameMatcherTarget::FileName,
            mode: LogNameMatcherMode::Contains,
            pattern: TextInputState::new(),
            case_sensitive: false,
        }
    }

    /// The draft of a rule.
    pub fn from_matcher(matcher: LogNameMatcher) -> (result: MatcherDraft)
        ensures
            result@ == matcher@.draft(),
    {
        MatcherDraft {
            target: matcher.target,
            mode: matcher.mode,
            pattern: TextInputState::from_value(matcher.pattern),
            case_sensitive: matcher.case_sensitive,
        }
    }

    /// The rule of a draft.
    pub fn to_matcher(&self) -> (result: LogNameMatcher)
        ensures
            result@ == self@.matcher(),
    {
        LogNameMatcher {
            target: self.target,
            mode: self.mode,
            pattern: self.pattern.value.clone(),
            case_sensitive: self.case_sensitive,
        }
    }
}

impl ProfileDraft {
    /// A new log type with an id of its own.
    pub fn new() -> (result: ProfileDraft)
        ensures
            is_random_id(result@.profile_id),
            result@ == ProfileDraftModel::fresh(result@.profile_id),
    {
        ProfileDraft::with_id(random_id())
    }

    /// A new log type.
    pub fn with_id(profile_id: String) -> (result: ProfileDraft)
        ensures
            result@ == ProfileDraftModel::fresh(profile_id@),
    {
        let mut matchers: Vec<MatcherDraft> = Vec::new();
        matchers.push(MatcherDraft::new());
        proof {
            assert(matcher_drafts(matchers@) =~= seq![MatcherDraftModel::fresh()]);
        }
        ProfileDraft {
            profile_id,
            enabled: true,
            name: TextInputState::new(),
            priority: NEW_PROFILE_PRIORITY,
            matchers,
            description: TextInputState::new(),
        }
    }

    /// The draft of a log type.
    pub fn from_profile(profile: LogTypeProfile) -> (result: ProfileDraft)
        ensures
            result@ == profile@.draft(),
    {
        let ghost whole = profile@;
        let ghost kept = profile.matchers@;
        let mut matchers: Vec<MatcherDraft> = Vec::new();
        for matcher in iter: profile.matchers
            invariant
                iter.seq() == kept,
                matchers@.len() == iter.index(),
                forall|i: int|
                    0 <= i < matchers@.len() ==> (#[trigger] matchers@[i])@ == kept[i]@.draft(),
        {
            matchers.push(MatcherDraft::from_matcher(matcher));
        }
        proof {
            assert(matcher_drafts(matchers@) =~= whole.draft().matchers);
        }
        ProfileDraft {
            profile_id: profile.profile_id,
            enabled: profile.enabled,
            name: TextInputState::from_value(profile.name),
            priority: profile.priority,
            matchers,
            description: TextInputState::from_value(profile.description),
        }
    }

    /// The log type of a draft.
    pub fn to_profile(&self) -> (result: LogTypeProfile)
        ensures
            result@ == self@.profile(),
    {
        let mut matchers: Vec<LogNameMatcher> = Vec::new();
        let mut i: usize = 0;
        while i < self.matchers.len()
            invariant
                i <= self.matchers@.len(),
                matchers@.len() == i,
                forall|k: int|
                    0 <= k < i ==> (#[trigger] matchers@[k])@ == self.matchers@[k]@.matcher(),
            decreases self.matchers@.len() - i,
        {
            matchers.push(self.matchers[i].to_matcher());
            i += 1;
        }
        proof {
            assert(matcher_models(matchers@) =~= self@.profile().matchers);
        }
        LogTypeProfile {
            profile_id: self.profile_id.clone(),
            enabled: self.enabled,
            name: self.name.value.clone(),
            priority: self.priority,
            matchers,
            description: self.description.value.clone(),
        }
    }
}

impl AiSettingsDraft {
    /// Opens some settings for editing. `new_model` is what a new model starts
    /// from; a new log type gets an id of its own.
    pub fn from_config(
        config: AiConfig,
        kind: AiSettingsEditorKind,
        new_model: AiModelProfile,
    ) -> (result: AiSettingsDraft)
        ensures
            exists|profile_id: Seq<char>|
                (config@.draft().needs_log_type(kind) ==> is_random_id(profile_id)) && result@
                    == config@.draft().opened(
                    kind,
                    new_model@.draft(),
                    #[trigger] ProfileDraftModel::fresh(profile_id),
                ),
    {
        let is_needed = match kind {
            AiSettingsEditorKind::LogProfile(place) => match place {
                Some(index) => index >= config.log_profiles.len(),
                None => true,
            },
            _ => false,
        };
        let new_profile = if is_needed {
            ProfileDraft::new()
        } else {
            ProfileDraft::with_id(String::new())
        };
        proof {
            assert(new_profile@ == ProfileDraftModel::fresh(new_profile@.profile_id));
        }
        AiSettingsDraft::with_new_entries(config, kind, new_model, new_profile)
    }

    /// Opens some settings for editing, with what a new entry starts from.
    pub fn with_new_entries(
        config: AiConfig,
        kind: AiSettingsEditorKind,
        new_model: AiModelProfile,
        new_profile: ProfileDraft,
    ) -> (result: AiSettingsDraft)
        ensures
            result@ == config@.draft().opened(kind, new_model@.draft(), new_profile@),
    {
        let ghost whole = config@;
        let ghost kept_models = config.model_profiles@;
        let ghost kept_profiles = config.log_profiles@;
        let mut models: Vec<ModelDraft> = Vec::new();
        for profile in iter: config.model_profiles
            invariant
                iter.seq() == kept_models,
                models@.len() == iter.index(),
                forall|i: int|
                    0 <= i < models@.len() ==> (#[trigger] models@[i])@ == kept_models[i]@.draft(),
        {
            models.push(ModelDraft::from_profile(profile));
        }
        let mut profiles: Vec<ProfileDraft> = Vec::new();
        for profile in iter: config.log_profiles
            invariant
                iter.seq() == kept_profiles,
                profiles@.len() == iter.index(),
                forall|i: int|
                    0 <= i < profiles@.len() ==> (#[trigger] profiles@[i])@
                        == kept_profiles[i]@.draft(),
        {
            profiles.push(ProfileDraft::from_profile(profile));
        }
        proof {
            assert(model_drafts(models@) =~= whole.draft().models);
            assert(profile_drafts(profiles@) =~= whole.draft().profiles);
        }
        let mut draft = AiSettingsDraft {
            models,
            selected_model: None,
            allow_raw_log_content: config.allow_raw_log_content,
            consent_version: config.consent_version,
            request_timeout_seconds: config.request_timeout_seconds,
            system_prompt: TextInputState::from_value(config.system_prompt),
            profiles,
            selected_profile: None,
            selected_matcher: 0,
        };
        let ghost before = draft@;
        assert(before == whole.draft());
        match kind {
            AiSettingsEditorKind::Model(place) => {
                match place {
                    Some(index) if index < draft.models.len() => {
                        draft.selected_model = Some(index);
                    },
                    _ => {
                        draft.selected_model = Some(draft.models.len());
                        draft.models.push(ModelDraft::from_profile(new_model));
                        assert(draft@.models =~= before.models.push(new_model@.draft()));
                    },
                }
            },
            AiSettingsEditorKind::LogProfile(place) => {
                match place {
                    Some(index) if index < draft.profiles.len() => {
                        draft.selected_profile = Some(index);
                    },
                    _ => {
                        draft.selected_profile = Some(draft.profiles.len());
                        draft.profiles.push(new_profile);
                        assert(draft@.profiles =~= before.profiles.push(new_profile@));
                    },
                }
            },
            AiSettingsEditorKind::SystemPrompt => {},
        }
        draft
    }

    /// The settings of a draft.
    pub fn to_config(&self) -> (result: AiConfig)
        ensures
            result@ == self@.config(),
    {
        let mut kept_models: Vec<AiModelProfile> = Vec::new();
        let mut i: usize = 0;
        while i < self.models.len()
            invariant
                i <= self.models@.len(),
                kept_models@.len() == i,
                forall|k: int|
                    0 <= k < i ==> (#[trigger] kept_models@[k])@ == self.models@[k]@.profile(),
            decreases self.models@.len() - i,
        {
            kept_models.push(self.models[i].to_profile());
            i += 1;
        }
        let mut log_profiles: Vec<LogTypeProfile> = Vec::new();
        let mut j: usize = 0;
        while j < self.profiles.len()
            invariant
                j <= self.profiles@.len(),
                log_profiles@.len() == j,
                forall|k: int|
                    0 <= k < j ==> (#[trigger] log_profiles@[k])@ == self.profiles@[k]@.profile(),
            decreases self.profiles@.len() - j,
        {
            log_profiles.push(self.profiles[j].to_profile());
            j += 1;
        }
        proof {
            assert(model_profiles(kept_models@) =~= self@.config().model_profiles);
            assert(log_profile_models(log_profiles@) =~= self@.config().log_profiles);
        }
        AiConfig {
            base_url: String::new(),
            model: String::new(),
            model_profiles: kept_models,
            allow_raw_log_content: self.allow_raw_log_content,
            consent_version: self.consent_version.clone(),
            budget_profile: AiBudgetProfile::Balanced,
            request_timeout_seconds: self.request_timeout_seconds,
            system_prompt: self.system_prompt.value.clone(),
            log_profiles,
        }
    }
}

// ---------------------------------------------------------------------------
// What holds of the drafts
// ---------------------------------------------------------------------------

/// A model profile that is opened and kept again is what it was.
pub proof fn law_model_survives_editing(profile: ModelProfileModel)
    ensures
        profile.draft().profile() == profile,
{
    law_decimal_has_no_space(profile.context_window_tokens);
    law_parse_reads_decimal(profile.context_window_tokens);
}

/// A log type that is opened and kept again is what it was.
pub proof fn law_log_type_survives_editing(profile: LogProfileModel)
    ensures
        profile.draft().profile() == profile,
{
    let again = profile.draft().profile().matchers;
    assert forall|i: int| 0 <= i < profile.matchers.len() implies again[i]
        == profile.matchers[i] by {}
    assert(again =~= profile.matchers);
}

/// Settings that are opened and kept again are what they were, but for the address
/// and the model of older settings, which are dropped.
pub proof fn law_settings_survive_editing(config: ConfigModel)
    ensures
        config.draft().config() == (ConfigModel {
            base_url: Seq::empty(),
            model: Seq::empty(),
            ..config
        }),
{
    let again = config.draft().config();
    assert forall|i: int| 0 <= i < config.model_profiles.len() implies again.model_profiles[i]
        == config.model_profiles[i] by {
        law_model_survives_editing(config.model_profiles[i]);
    }
    assert forall|i: int| 0 <= i < config.log_profiles.len() implies again.log_profiles[i]
        == config.log_profiles[i] by {
        law_log_type_survives_editing(config.log_profiles[i]);
    }
    assert(again.model_profiles =~= config.model_profiles);
    assert(again.log_profiles =~= config.log_profiles);
}

/// No key is shown when settings are opened.
pub proof fn law_no_key_is_shown(
    config: ConfigModel,
    kind: AiSettingsEditorKind,
    new_model: ModelProfileModel,
    new_profile: ProfileDraftModel,
)
    ensures
        forall|i: int|
            0 <= i < config.draft().opened(kind, new_model.draft(), new_profile).models.len() ==> (
            #[trigger] config.draft().opened(
                kind,
                new_model.draft(),
                new_profile,
            ).models[i]).api_key == InputModel::blank(),
{
}

/// Opening an entry of the list leaves the settings as they are; opening a new
/// entry puts it behind the others.
pub proof fn law_opening_changes_no_entry(
    draft: DraftModel,
    kind: AiSettingsEditorKind,
    new_model: ModelDraftModel,
    new_profile: ProfileDraftModel,
)
    ensures
        draft.models.is_prefix_of(draft.opened(kind, new_model, new_profile).models),
        draft.profiles.is_prefix_of(draft.opened(kind, new_model, new_profile).profiles),
        draft.opened(kind, new_model, new_profile).models.len() <= draft.models.len() + 1,
        draft.opened(kind, new_model, new_profile).profiles.len() <= draft.profiles.len() + 1,
{
}

} // verus!
