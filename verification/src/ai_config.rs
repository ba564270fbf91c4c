//! The settings of the analysis: which models may be asked, and which log types
//! are known by name.

use vstd::prelude::*;
use crate::log_matcher::{LogNameMatcherMode, LogNameMatcherTarget};

verus! {

/// A model that may be asked.
#[derive(Debug, PartialEq, Eq)]
pub struct AiModelProfile {
    /// Its id.
    pub profile_id: String,
    /// Whether new sessions may choose it.
    pub enabled: bool,
    /// Its name.
    pub name: String,
    /// Where its service is.
    pub base_url: String,
    /// What its service calls it.
    pub model: String,
    /// The size of its context window.
    pub context_window_tokens: u64,
}

/// An [`AiModelProfile`] with its texts as sequences of characters.
#[verifier::ext_equal]
pub struct ModelProfileModel {
    /// Its id.
    pub profile_id: Seq<char>,
    /// Whether new sessions may choose it.
    pub enabled: bool,
    /// Its name.
    pub name: Seq<char>,
    /// Where its service is.
    pub base_url: Seq<char>,
    /// What its service calls it.
    pub model: Seq<char>,
    /// The size of its context window.
    pub context_window_tokens: u64,
}

impl View for AiModelProfile {
    type V = ModelProfileModel;

    open spec fn view(&self) -> ModelProfileModel {
        ModelProfileModel {
            profile_id: self.profile_id@,
            enabled: self.enabled,
            name: self.name@,
            base_url: self.base_url@,
            model: self.model@,
            context_window_tokens: self.context_window_tokens,
        }
    }
}

impl AiModelProfile {
    /// A second copy of the profile.
    pub fn copy(&self) -> (result: AiModelProfile)
        ensures
            result@ == self@,
    {
        AiModelProfile {
            profile_id: self.profile_id.clone(),
            enabled: self.enabled,
            name: self.name.clone(),
            base_url: self.base_url.clone(),
            model: self.model.clone(),
            context_window_tokens: self.context_window_tokens,
        }
    }
}

/// The models of some profiles.
pub open spec fn model_profiles(profiles: Seq<AiModelProfile>) -> Seq<ModelProfileModel> {
    profiles.map_values(|profile: AiModelProfile| profile@)
}

/// The profiles that may be chosen, in their order.
pub open spec fn enabled_models(profiles: Seq<ModelProfileModel>) -> Seq<ModelProfileModel>
    decreases profiles.len(),
{
    if profiles.len() == 0 {
        Seq::empty()
    } else {
        let earlier = enabled_models(profiles.drop_last());
        if profiles.last().enabled {
            earlier.push(profiles.last())
        } else {
            earlier
        }
    }
}

/// The first profile with an id.
pub open spec fn profile_place(profiles: Seq<ModelProfileModel>, id: Seq<char>) -> Option<int>
    decreases profiles.len(),
{
    if profiles.len() == 0 {
        None
    } else if profiles[0].profile_id == id {
        Some(0)
    } else {
        match profile_place(profiles.skip(1), id) {
            Some(index) => Some(index + 1),
            None => None,
        }
    }
}

/// Finds the first profile with an id.
pub fn find_profile(profiles: &Vec<AiModelProfile>, id: &str) -> (result: Option<usize>)
    ensures
        match result {
            Some(index) => profile_place(model_profiles(profiles@), id@) == Some(index as int)
                && index < profiles@.len(),
            None => profile_place(model_profiles(profiles@), id@) is None,
        },
{
    let ghost models = model_profiles(profiles@);
    let mut i: usize = 0;
    proof {
        assert(models.skip(0) =~= models);
    }
    while i < profiles.len()
        invariant
            i <= profiles@.len(),
            models == model_profiles(profiles@),
            profile_place(models, id@) == (match profile_place(models.skip(i as int), id@) {
                Some(index) => Some(index + i),
                None => None,
            }),
        decreases profiles@.len() - i,
    {
        proof {
            assert(models.skip(i as int)[0] == profiles@[i as int]@);
            assert(models.skip(i as int).skip(1) =~= models.skip(i + 1));
        }
        if crate::text::same_text(profiles[i].profile_id.as_str(), id) {
            return Some(i);
        }
        i += 1;
    }
    None
}

/// Keeps the profiles that may be chosen.
pub fn keep_enabled(profiles: Vec<AiModelProfile>) -> (result: Vec<AiModelProfile>)
    ensures
        model_profiles(result@) == enabled_models(model_profiles(profiles@)),
{
    let ghost models = model_profiles(profiles@);
    let mut kept: Vec<AiModelProfile> = Vec::new();
    let mut i: usize = 0;
    proof {
        assert(models.take(0) =~= Seq::empty());
        assert(model_profiles(kept@) =~= Seq::empty());
    }
    while i < profiles.len()
        invariant
            i <= profiles@.len(),
            models == model_profiles(profiles@),
            model_profiles(kept@) == enabled_models(models.take(i as int)),
        decreases profiles@.len() - i,
    {
        proof {
            assert(models.take(i + 1).drop_last() =~= models.take(i as int));
            assert(models.take(i + 1).last() == profiles@[i as int]@);
        }
        if profiles[i].enabled {
            let ghost before = kept@;
            let profile = profiles[i].copy();
            kept.push(profile);
            proof {
                assert(model_profiles(kept@) =~= model_profiles(before).push(profile@));
            }
        }
        i += 1;
    }
    proof {
        assert(models.take(i as int) =~= models);
    }
    kept
}

/// Nothing but profiles that may be chosen is kept.
pub proof fn law_only_enabled_models_are_kept(profiles: Seq<ModelProfileModel>)
    ensures
        forall|i: int|
            0 <= i < enabled_models(profiles).len() ==> (#[trigger] enabled_models(
                profiles,
            )[i]).enabled,
    decreases profiles.len(),
{
    if profiles.len() > 0 {
        let shorter = profiles.drop_last();
        law_only_enabled_models_are_kept(shorter);
        assert forall|i: int| 0 <= i < enabled_models(profiles).len() implies (
        #[trigger] enabled_models(profiles)[i]).enabled by {
            if i < enabled_models(shorter).len() {
                assert(enabled_models(profiles)[i] == enabled_models(shorter)[i]);
            }
        }
    }
}

/// A rule that recognises log files by name.
#[derive(Debug, PartialEq, Eq)]
pub struct LogNameMatcher {
    /// What it looks at.
    pub target: LogNameMatcherTarget,
    /// How it compares.
    pub mode: LogNameMatcherMode,
    /// What it looks for.
    pub pattern: String,
    /// Whether upper and lower case differ.
    pub case_sensitive: bool,
}

/// A [`LogNameMatcher`] with its text as a sequence of characters.
#[verifier::ext_equal]
pub struct MatcherModel {
    /// What it looks at.
    pub target: LogNameMatcherTarget,
    /// How it compares.
    pub mode: LogNameMatcherMode,
    /// What it looks for.
    pub pattern: Seq<char>,
    /// Whether upper and lower case differ.
    pub case_sensitive: bool,
}

impl View for LogNameMatcher {
    type V = MatcherModel;

    open spec fn view(&self) -> MatcherModel {
        MatcherModel {
            target: self.target,
            mode: self.mode,
            pattern: self.pattern@,
            case_sensitive: self.case_sensitive,
        }
    }
}

/// The models of some rules.
pub open spec fn matcher_models(matchers: Seq<LogNameMatcher>) -> Seq<MatcherModel> {
    matchers.map_values(|matcher: LogNameMatcher| matcher@)
}

/// A log type that is known by name.
#[derive(Debug, PartialEq, Eq)]
pub struct LogTypeProfile {
    /// Its id.
    pub profile_id: String,
    /// Whether it is used.
    pub enabled: bool,
    /// Its name.
    pub name: String,
    /// Which type wins where several match.
    pub priority: u16,
    /// The rules, any of which suffices.
    pub matchers: Vec<LogNameMatcher>,
    /// What the model is told about it.
    pub description: String,
}

/// A [`LogTypeProfile`] with its texts as sequences of characters.
#[verifier::ext_equal]
pub struct LogProfileModel {
    /// Its id.
    pub profile_id: Seq<char>,
    /// Whether it is used.
    pub enabled: bool,
    /// Its name.
    pub name: Seq<char>,
    /// Which type wins where several match.
    pub priority: u16,
    /// The rules.
    pub matchers: Seq<MatcherModel>,
    /// What the model is told about it.
    pub description: Seq<char>,
}

impl View for LogTypeProfile {
    type V = LogProfileModel;

    open spec fn view(&self) -> LogProfileModel {
        LogProfileModel {
            profile_id: self.profile_id@,
            enabled: self.enabled,
            name: self.name@,
            priority: self.priority,
            matchers: matcher_models(self.matchers@),
            description: self.description@,
        }
    }
}

/// The models of some log types.
pub open spec fn log_profile_models(profiles: Seq<LogTypeProfile>) -> Seq<LogProfileModel> {
    profiles.map_values(|profile: LogTypeProfile| profile@)
}

/// How much an analysis may spend.
#[derive(Clone, Copy, Debug, PartialEq, Eq, Structural)]
pub enum AiBudgetProfile {
    /// Neither little nor much.
    Balanced,
}

/// All settings of the analysis.
#[derive(Debug, PartialEq, Eq)]
pub struct AiConfig {
    /// An address of older settings.
    pub base_url: String,
    /// A model of older settings.
    pub model: String,
    /// The models that may be asked.
    pub model_profiles: Vec<AiModelProfile>,
    /// Whether the model may see log text.
    pub allow_raw_log_content: bool,
    /// Which wording the user agreed to.
    pub consent_version: String,
    /// How much an analysis may spend.
    pub budget_profile: AiBudgetProfile,
    /// How long a request may take.
    pub request_timeout_seconds: u64,
    /// What every session is told first.
    pub system_prompt: String,
    /// The log types that are known by name.
    pub log_profiles: Vec<LogTypeProfile>,
}

/// An [`AiConfig`] with its texts as sequences of characters.
#[verifier::ext_equal]
pub struct ConfigModel {
    /// An address of older settings.
    pub base_url: Seq<char>,
    /// A model of older settings.
    pub model: Seq<char>,
    /// The models that may be asked.
    pub model_profiles: Seq<ModelProfileModel>,
    /// Whether the model may see log text.
    pub allow_raw_log_content: bool,
    /// Which wording the user agreed to.
    pub consent_version: Seq<char>,
    /// How much an analysis may spend.
    pub budget_profile: AiBudgetProfile,
    /// How long a request may take.
    pub request_timeout_seconds: u64,
    /// What every session is told first.
    pub system_prompt: Seq<char>,
    /// The log types that are known by name.
    pub log_profiles: Seq<LogProfileModel>,
}

impl View for AiConfig {
    type V = ConfigModel;

    open spec fn view(&self) -> ConfigModel {
        ConfigModel {
            base_url: self.base_url@,
            model: self.model@,
            model_profiles: model_profiles(self.model_profiles@),
            allow_raw_log_content: self.allow_raw_log_content,
            consent_version: self.consent_version@,
            budget_profile: self.budget_profile,
            request_timeout_seconds: self.request_timeout_seconds,
            system_prompt: self.system_prompt@,
            log_profiles: log_profile_models(self.log_profiles@),
        }
    }
}

} // verus!
