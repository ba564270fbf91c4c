//! The panel of the assistant: one method for each thing that can happen to it.

use vstd::hash_map::StringHashMap;
use vstd::prelude::*;
use crate::agent::{
    copy_citations, trace_model, AgentBudgetSnapshot, AgentSessionStatus, AgentStreamKind,
    AgentTraceEntry, AgentTraceKind, AgentUserMessage, AgentUserMessageStatus, AssistantCitation,
};
use crate::agent_event::{text_models, AgentEvent};
use crate::agent_stream::trace_models;
use crate::ai_config::{find_profile, keep_enabled, model_profiles, AiModelProfile};
use crate::assistant_model::{
    effect_models, first_of, has_one_of, is_one_of, last_answer, mention_text, message_is_sound,
    messages_are_sound, panel_messages, text_map, staying, stays, turn_models, waiting_ids, waiting_texts, waits,
    with_status, with_statuses, without_keys, AssistantHistoryTurn, AssistantPanel,
    AssistantPanelMessage, AssistantPanelStatus, MessageModel, PanelEffect, PanelModel,
    ASSISTANT_MESSAGE_MAX_BYTES,
};
use crate::clock::TraceTime;
use crate::input_behavior::{fits_at, handle_local_input_key, key_has_room, LocalInputAction};
use crate::keystroke::{copy_optional_text, optional_text, Keystroke};
use crate::mention_query::{
    active_mention_query, assistant_message_with_mentions, law_offered_candidates_fit,
    law_query_is_one_word, matching_candidates, AssistantMentionQuery,
};
use crate::mentions::{
    are_candidates_of, build_mention_candidates, selected_models, AssistantSelectedMention,
    SourceScope,
};
use crate::text::{
    byte_len, contains_text, decimal, same_text, to_ascii_lower, trim,
};
use crate::text_input::{InputModel, TextInputState};
use crate::text_selection::{
    character_count, min_of, replace_character_range, NativeTextEdit, TextSelectionGranularity,
};

verus! {

// ---------------------------------------------------------------------------
// Lists of texts and messages
// ---------------------------------------------------------------------------

/// Whether a text is in a list.
fn has_text(texts: &Vec<String>, wanted: &str) -> (result: bool)
    ensures
        result == text_models(texts@).contains(wanted@),
{
    let ghost models = text_models(texts@);
    let mut i: usize = 0;
    while i < texts.len()
        invariant
            i <= texts@.len(),
            models == text_models(texts@),
            forall|k: int| 0 <= k < i ==> #[trigger] models[k] != wanted@,
        decreases texts@.len() - i,
    {
        proof {
            assert(models[i as int] == texts@[i as int]@);
        }
        if same_text(texts[i].as_str(), wanted) {
            return true;
        }
        i += 1;
    }
    false
}

fn message_is_one_of(message: &AssistantPanelMessage, ids: &Vec<String>) -> (result: bool)
    ensures
        result == is_one_of(message@, text_models(ids@)),
{
    match message {
        AssistantPanelMessage::User(user) => has_text(ids, user.message_id.as_str()),
        _ => false,
    }
}

fn message_waits(message: &AssistantPanelMessage) -> (result: bool)
    ensures
        result == waits(message@),
{
    match message {
        AssistantPanelMessage::User(user) => user.status == AgentUserMessageStatus::Queued,
        _ => false,
    }
}

fn set_status(message: &mut AssistantPanelMessage, status: AgentUserMessageStatus)
    ensures
        final(message)@ == with_status(old(message)@, status),
{
    match message {
        AssistantPanelMessage::User(user) => {
            user.status = status;
        },
        _ => {},
    }
}

/// Changes the status of every message with one of some ids.
fn set_statuses(
    messages: &mut Vec<AssistantPanelMessage>,
    ids: &Vec<String>,
    status: AgentUserMessageStatus,
)
    ensures
        final(messages)@.len() == old(messages)@.len(),
        panel_messages(final(messages)@) == with_statuses(
            panel_messages(old(messages)@),
            text_models(ids@),
            status,
        ),
{
    let ghost before = panel_messages(messages@);
    let ghost wanted = with_statuses(before, text_models(ids@), status);
    let mut i: usize = 0;
    while i < messages.len()
        invariant
            i <= messages@.len(),
            messages@.len() == before.len(),
            wanted == with_statuses(before, text_models(ids@), status),
            forall|k: int| 0 <= k < i ==> (#[trigger] messages@[k])@ == wanted[k],
            forall|k: int| i <= k < before.len() ==> (#[trigger] messages@[k])@ == before[k],
        decreases messages@.len() - i,
    {
        if message_is_one_of(&messages[i], ids) {
            set_status(&mut messages[i], status);
        }
        i += 1;
    }
    proof {
        assert(panel_messages(messages@) =~= wanted);
    }
}

/// Whether there is a message with one of some ids.
fn holds_one_of(messages: &Vec<AssistantPanelMessage>, ids: &Vec<String>) -> (result: bool)
    ensures
        result == has_one_of(panel_messages(messages@), text_models(ids@)),
{
    let ghost models = panel_messages(messages@);
    let mut i: usize = 0;
    while i < messages.len()
        invariant
            i <= messages@.len(),
            models == panel_messages(messages@),
            forall|k: int| 0 <= k < i ==> !is_one_of(#[trigger] models[k], text_models(ids@)),
        decreases messages@.len() - i,
    {
        proof {
            assert(models[i as int] == messages@[i as int]@);
        }
        if message_is_one_of(&messages[i], ids) {
            return true;
        }
        i += 1;
    }
    false
}

/// Finds the first message with one of some ids.
fn find_first_of(messages: &Vec<AssistantPanelMessage>, ids: &Vec<String>) -> (result: usize)
    ensures
        result == first_of(panel_messages(messages@), text_models(ids@)),
        result <= messages@.len(),
{
    let ghost models = panel_messages(messages@);
    let mut i: usize = 0;
    proof {
        assert(models.skip(0) =~= models);
    }
    while i < messages.len()
        invariant
            i <= messages@.len(),
            models == panel_messages(messages@),
            first_of(models, text_models(ids@)) == i + first_of(
                models.skip(i as int),
                text_models(ids@),
            ),
        decreases messages@.len() - i,
    {
        proof {
            assert(models.skip(i as int)[0] == messages@[i as int]@);
            assert(models.skip(i as int).skip(1) =~= models.skip(i + 1));
        }
        if message_is_one_of(&messages[i], ids) {
            return i;
        }
        i += 1;
    }
    i
}

/// Finds the last answer that is not in front of a message.
fn find_last_answer(messages: &Vec<AssistantPanelMessage>, start: usize) -> (result: Option<usize>)
    ensures
        match result {
            Some(index) => last_answer(panel_messages(messages@), start as int) == Some(
                index as int,
            ) && start <= index < messages@.len() && panel_messages(messages@)[index as int]
                is Answer,
            None => last_answer(panel_messages(messages@), start as int) is None,
        },
{
    let ghost models = panel_messages(messages@);
    let mut end: usize = messages.len();
    proof {
        assert(models.take(end as int) =~= models);
    }
    while end > start
        invariant
            end <= messages@.len(),
            models == panel_messages(messages@),
            last_answer(models, start as int) == last_answer(
                models.take(end as int),
                start as int,
            ),
        decreases end,
    {
        proof {
            assert(models.take(end as int).drop_last() =~= models.take(end - 1));
            assert(models.take(end as int).last() == messages@[end - 1]@);
        }
        match &messages[end - 1] {
            AssistantPanelMessage::Answer { .. } => {
                return Some(end - 1);
            },
            _ => {},
        }
        end -= 1;
    }
    None
}

proof fn lemma_push_message(messages: Seq<AssistantPanelMessage>, message: AssistantPanelMessage)
    ensures
        panel_messages(messages.push(message)) == panel_messages(messages).push(message@),
{
    assert(panel_messages(messages.push(message)) =~= panel_messages(messages).push(message@));
}

fn message_stays(message: &AssistantPanelMessage, users_only: bool) -> (result: bool)
    ensures
        result == stays(message@, users_only),
{
    match message {
        AssistantPanelMessage::User(_) => true,
        AssistantPanelMessage::Reasoning(_) => false,
        AssistantPanelMessage::Answer { .. } => false,
        _ => !users_only,
    }
}

/// Drops the messages behind a place that do not stay.
fn retain_messages(messages: &mut Vec<AssistantPanelMessage>, start: usize, users_only: bool)
    requires
        start <= old(messages)@.len(),
    ensures
        panel_messages(final(messages)@) == panel_messages(old(messages)@).take(start as int)
            + staying(panel_messages(old(messages)@).skip(start as int), users_only),
{
    let ghost before = panel_messages(messages@);
    let ghost head = before.take(start as int);
    let ghost tail = before.skip(start as int);
    let ghost mut seen: int = 0;
    let mut i: usize = start;
    proof {
        assert(tail.take(0) =~= Seq::empty());
        assert(panel_messages(messages@) =~= head + staying(tail.take(0), users_only) + tail.skip(
            0,
        ));
    }
    while i < messages.len()
        invariant
            start <= i <= messages@.len(),
            head.len() == start,
            0 <= seen <= tail.len(),
            i == start + staying(tail.take(seen), users_only).len(),
            panel_messages(messages@) == head + staying(tail.take(seen), users_only) + tail.skip(
                seen,
            ),
        decreases messages@.len() - i,
    {
        let ghost models = panel_messages(messages@);
        let ghost kept = staying(tail.take(seen), users_only);
        proof {
            assert(models.len() == messages@.len());
            assert(models[i as int] == tail.skip(seen)[0]);
            assert(models[i as int] == messages@[i as int]@);
            assert(tail.take(seen + 1).drop_last() =~= tail.take(seen));
            assert(tail.take(seen + 1).last() == tail[seen]);
        }
        if message_stays(&messages[i], users_only) {
            proof {
                assert(head + kept + tail.skip(seen) =~= head + kept.push(tail[seen]) + tail.skip(
                    seen + 1,
                ));
            }
            i += 1;
        } else {
            messages.remove(i);
            proof {
                assert(panel_messages(messages@) =~= models.remove(i as int));
                assert(models.remove(i as int) =~= head + kept + tail.skip(seen + 1));
            }
        }
        proof {
            seen = seen + 1;
        }
    }
    proof {
        assert(tail.skip(seen).len() == 0);
        assert(tail.take(seen) =~= tail);
        assert(panel_messages(messages@) =~= head + staying(tail, users_only));
    }
}

/// Drops some keys of a map.
fn forget_keys(texts: &mut StringHashMap<String>, keys: &Vec<String>)
    ensures
        text_map(final(texts)@) == without_keys(text_map(old(texts)@), text_models(keys@)),
{
    let ghost before = text_map(texts@);
    let ghost ids = text_models(keys@);
    let mut i: usize = 0;
    proof {
        assert(ids.take(0) =~= Seq::empty());
    }
    while i < keys.len()
        invariant
            i <= keys@.len(),
            ids == text_models(keys@),
            text_map(texts@) == without_keys(before, ids.take(i as int)),
        decreases keys@.len() - i,
    {
        let ghost present = texts@;
        proof {
            assert(ids.take(i + 1).drop_last() =~= ids.take(i as int));
            assert(ids.take(i + 1).last() == keys@[i as int]@);
        }
        texts.remove(keys[i].as_str());
        proof {
            assert(text_map(texts@) =~= text_map(present).remove(keys@[i as int]@));
        }
        i += 1;
    }
    proof {
        assert(ids.take(i as int) =~= ids);
    }
}

// ---------------------------------------------------------------------------
// The conversation
// ---------------------------------------------------------------------------

impl AssistantPanel {
    /// Opens the panel. `profiles` are the models of the settings.
    pub fn new(profiles: Vec<AiModelProfile>, has_loaded_sources: bool, now: TraceTime) -> (result:
        AssistantPanel)
        requires
            now.is_valid(),
        ensures
            result@.is_sound(),
            result@ == (PanelModel {
                models: Seq::empty(),
                selected_model_id: None,
                credential_error: None,
                has_loaded_sources,
                scope: None,
                mention_candidates: Seq::empty(),
                mention_query: None,
                mention_results: Seq::empty(),
                mention_highlighted_index: 0,
                selected_mentions: Seq::empty(),
                pending_runtime_messages: Map::empty(),
                scope_revision: None,
                history: Seq::empty(),
                messages: seq![
                    MessageModel::Trace(
                        trace_model(
                            AgentTraceKind::Status,
                            "Agent 助手"@,
                            "输入问题后将完整扫描全部已加载来源，并按需调用只读日志工具。"@,
                            now,
                        ),
                    ),
                ],
                is_following_latest: true,
                input: InputModel::blank(),
                status: AssistantPanelStatus::Idle,
                error: None,
                budget: crate::agent::empty_budget(),
                takes_messages: false,
                has_turn: false,
                has_scan: false,
                scan_generation: 0,
                turn_generation: 0,
                active_turn_message_start: None,
                active_turn_user_message_ids: Seq::empty(),
                outbox: Seq::empty(),
            }).configured(model_profiles(profiles@)).scan_scheduled(),
    {
        let welcome = AssistantPanelMessage::Trace(
            AgentTraceEntry::new(
                AgentTraceKind::Status,
                "Agent 助手",
                "输入问题后将完整扫描全部已加载来源，并按需调用只读日志工具。",
                now,
            ),
        );
        let mut messages: Vec<AssistantPanelMessage> = Vec::new();
        messages.push(welcome);
        let mut panel = AssistantPanel {
            models: Vec::new(),
            selected_model_id: None,
            credential_error: None,
            has_loaded_sources,
            scope: None,
            mention_candidates: Vec::new(),
            mention_query: None,
            mention_results: Vec::new(),
            mention_highlighted_index: 0,
            selected_mentions: Vec::new(),
            pending_runtime_messages: StringHashMap::new(),
            scope_revision: None,
            history: Vec::new(),
            messages,
            is_following_latest: true,
            input: TextInputState::new(),
            status: AssistantPanelStatus::Idle,
            error: None,
            budget: AgentBudgetSnapshot::new(),
            takes_messages: false,
            has_turn: false,
            has_scan: false,
            scan_generation: 0,
            turn_generation: 0,
            active_turn_message_start: None,
            active_turn_user_message_ids: Vec::new(),
            outbox: Vec::new(),
        };
        proof {
            assert(panel@.models =~= Seq::empty());
            assert(panel@.mention_candidates =~= Seq::empty());
            assert(panel@.selected_mentions =~= Seq::empty());
            assert(panel@.pending_runtime_messages =~= Map::empty());
            assert(panel@.history =~= Seq::empty());
            assert(panel@.messages =~= seq![welcome@]);
            assert(panel@.active_turn_user_message_ids =~= Seq::empty());
            assert(panel@.outbox =~= Seq::empty());
        }
        panel.apply_model_configuration(profiles);
        panel.schedule_source_scan();
        panel
    }

    /// Asks for outside work.
    fn ask(&mut self, effect: PanelEffect)
        ensures
            final(self)@ == old(self)@.asking(effect@),
    {
        let ghost before = self.outbox@;
        self.outbox.push(effect);
        proof {
            assert(effect_models(self.outbox@) =~= effect_models(before).push(effect@));
        }
    }

    /// Hands out the outside work that is asked for.
    pub fn take_effects(&mut self) -> (result: Vec<PanelEffect>)
        ensures
            effect_models(result@) == old(self)@.outbox,
            final(self)@ == (PanelModel { outbox: Seq::empty(), ..old(self)@ }),
    {
        let mut taken: Vec<PanelEffect> = Vec::new();
        taken.append(&mut self.outbox);
        proof {
            assert(taken@ =~= old(self).outbox@);
            assert(effect_models(self.outbox@) =~= Seq::empty());
        }
        taken
    }

    /// Has a row measured anew.
    fn remeasure(&mut self, index: usize)
        requires
            index < usize::MAX,
        ensures
            final(self)@ == old(self)@.remeasured(index as int),
    {
        self.ask(PanelEffect::SpliceRows { start: index, end: index + 1, new_count: 1 });
    }

    /// Adds a message.
    pub fn push_message(&mut self, message: AssistantPanelMessage)
        requires
            old(self)@.is_sound(),
            message_is_sound(message@),
        ensures
            final(self)@.is_sound(),
            final(self)@ == old(self)@.pushed(message@),
    {
        let length: usize = self.messages.len();
        let ghost before = self.messages@;
        self.messages.push(message);
        proof {
            lemma_push_message(before, message);
        }
        self.ask(PanelEffect::SpliceRows { start: length, end: length, new_count: 1 });
    }

    /// Adds a trace. Tool traces in a row share a message.
    pub fn push_trace(&mut self, trace: AgentTraceEntry)
        requires
            old(self)@.is_sound(),
            trace.created_at.is_valid(),
        ensures
            final(self)@.is_sound(),
            final(self)@ == old(self)@.traced(trace@),
    {
        if trace.kind != AgentTraceKind::Tool {
            self.push_message(AssistantPanelMessage::Trace(trace));
            return;
        }
        let length: usize = self.messages.len();
        let ghost before = self@;
        if length > 0 {
            let last: usize = length - 1;
            proof {
                assert(self@.messages.last() == self.messages@[last as int]@);
            }
            if let AssistantPanelMessage::ToolGroup { traces, .. } = &mut self.messages[last] {
                let ghost group = traces@;
                traces.push(trace);
                proof {
                    assert(trace_models(traces@) =~= trace_models(group).push(trace@));
                }
                proof {
                    assert(self@.messages =~= before.traced(trace@).messages);
                    assert(messages_are_sound(self@.messages)) by {
                        assert forall|i: int| 0 <= i < self@.messages.len() implies message_is_sound(
                            #[trigger] self@.messages[i],
                        ) by {
                            if i != last {
                                assert(self@.messages[i] == before.messages[i]);
                            } else {
                                assert(message_is_sound(before.messages[i]));
                            }
                        }
                    }
                }
                self.remeasure(last);
                return;
            }
            proof {
                assert(self@.messages =~= before.messages);
            }
        }
        let mut traces: Vec<AgentTraceEntry> = Vec::new();
        traces.push(trace);
        proof {
            assert(trace_models(traces@) =~= seq![trace@]);
        }
        self.push_message(AssistantPanelMessage::ToolGroup { traces, is_expanded: false });
    }

    /// Takes more text from the model in.
    pub fn apply_stream_delta(&mut self, kind: AgentStreamKind, delta: String)
        requires
            old(self)@.is_sound(),
        ensures
            final(self)@.is_sound(),
            final(self)@ == old(self)@.streamed(kind, delta@),
    {
        if delta.as_str().is_empty() {
            return;
        }
        let length: usize = self.messages.len();
        let ghost before = self@;
        if length > 0 {
            let last: usize = length - 1;
            proof {
                assert(self@.messages.last() == self.messages@[last as int]@);
            }
            let grows = match (kind, &mut self.messages[last]) {
                (AgentStreamKind::Reasoning, AssistantPanelMessage::Reasoning(content)) => {
                    content.push_str(delta.as_str());
                    true
                },
                (AgentStreamKind::Output, AssistantPanelMessage::Answer { content, .. }) => {
                    content.push_str(delta.as_str());
                    true
                },
                _ => false,
            };
            if grows {
                proof {
                    assert(self@.messages =~= before.streamed(kind, delta@).messages);
                }
                self.remeasure(last);
                return;
            }
            proof {
                assert(self@.messages =~= before.messages);
            }
        }
        match kind {
            AgentStreamKind::Reasoning => {
                self.push_message(AssistantPanelMessage::Reasoning(delta));
            },
            AgentStreamKind::Output => {
                let citations: Vec<AssistantCitation> = Vec::new();
                proof {
                    assert(crate::agent::citation_models(citations@) =~= Seq::empty());
                }
                self.push_message(AssistantPanelMessage::Answer { content: delta, citations });
            },
        }
    }

    /// Completes the answer of the running turn.
    pub fn finish_answer(&mut self, output: String, citations: Vec<AssistantCitation>)
        requires
            old(self)@.is_sound(),
        ensures
            final(self)@.is_sound(),
            final(self)@ == old(self)@.answered(
                output@,
                crate::agent::citation_models(citations@),
            ),
    {
        let length: usize = self.messages.len();
        let start: usize = match self.active_turn_message_start {
            Some(start) => min_of(start, length),
            None => length,
        };
        let ghost before = self@;
        match find_last_answer(&self.messages, start) {
            Some(index) => {
                let has_output = !trim(output.as_str()).as_str().is_empty();
                if let AssistantPanelMessage::Answer { content, citations: cited } =
                    &mut self.messages[index] {
                    if has_output {
                        *content = output;
                    }
                    *cited = citations;
                }
                proof {
                    assert(before.messages[index as int] == old(self).messages@[index as int]@);
                    assert(self@.messages =~= before.answered(
                        output@,
                        crate::agent::citation_models(citations@),
                    ).messages);
                }
                self.remeasure(index);
            },
            None => {
                self.push_message(AssistantPanelMessage::Answer { content: output, citations });
            },
        }
    }

    /// Changes the status of a message of the user.
    pub fn update_user_message_status(&mut self, message_id: &str, status: AgentUserMessageStatus)
        requires
            old(self)@.is_sound(),
        ensures
            final(self)@.is_sound(),
            final(self)@ == old(self)@.with_message_status(message_id@, status),
    {
        let mut ids: Vec<String> = Vec::new();
        ids.push(message_id.to_owned());
        proof {
            assert(text_models(ids@) =~= seq![message_id@]);
        }
        let index: usize = find_first_of(&self.messages, &ids);
        let ghost before = self@;
        if index < self.messages.len() {
            set_status(&mut self.messages[index], status);
            proof {
                assert(before.messages[index as int] == old(self).messages@[index as int]@);
                assert(self@.messages =~= before.with_message_status(message_id@, status).messages);
            }
            self.remeasure(index);
        }
    }

    /// Whether a message of the user still waits.
    pub fn has_queued_messages(&self) -> (result: bool)
        ensures
            result == self@.has_waiting(),
    {
        let ghost models = self@.messages;
        let mut i: usize = 0;
        while i < self.messages.len()
            invariant
                i <= self.messages@.len(),
                models == panel_messages(self.messages@),
                forall|k: int| 0 <= k < i ==> !waits(#[trigger] models[k]),
            decreases self.messages@.len() - i,
        {
            proof {
                assert(models[i as int] == self.messages@[i as int]@);
            }
            if message_waits(&self.messages[i]) {
                proof {
                    assert(waits(self@.messages[i as int]));
                }
                return true;
            }
            i += 1;
        }
        false
    }

    /// Stops what the assistant is doing. The conversation stays.
    pub fn stop_current_work(&mut self)
        requires
            old(self)@.is_sound(),
        ensures
            final(self)@.is_sound(),
            final(self)@ == old(self)@.stopped(),
    {
        if !self.status.is_busy() || self.status == AssistantPanelStatus::Cancelling {
            return;
        }
        self.status = AssistantPanelStatus::Cancelling;
        if self.has_scan {
            self.ask(PanelEffect::CancelScan);
        }
        if self.has_turn {
            self.ask(PanelEffect::CancelTurn);
        }
    }

    /// Ends the running answer.
    pub fn finish_active_turn(&mut self)
        requires
            old(self)@.is_sound(),
        ensures
            final(self)@.is_sound(),
            final(self)@ == old(self)@.turn_finished(),
    {
        forget_keys(&mut self.pending_runtime_messages, &self.active_turn_user_message_ids);
        self.active_turn_user_message_ids = Vec::new();
        self.status = AssistantPanelStatus::Idle;
        self.takes_messages = false;
        self.has_turn = false;
        self.active_turn_message_start = None;
        proof {
            assert(self@.active_turn_user_message_ids =~= Seq::empty());
        }
    }

    /// Stops everything in the background; no result of it counts any more.
    fn stop_background(&mut self)
        ensures
            final(self)@ == old(self)@.background_stopped(),
    {
        let had_scan = self.has_scan;
        let had_turn = self.has_turn;
        self.has_scan = false;
        self.has_turn = false;
        self.scan_generation = self.scan_generation.wrapping_add(1);
        self.turn_generation = self.turn_generation.wrapping_add(1);
        if had_scan {
            self.ask(PanelEffect::CancelScan);
        }
        if had_turn {
            self.ask(PanelEffect::CancelTurn);
        }
    }

    /// Gives everything in the background up.
    pub fn cancel_background_work(&mut self)
        requires
            old(self)@.is_sound(),
        ensures
            final(self)@.is_sound(),
            final(self)@ == old(self)@.given_up(),
    {
        self.stop_background();
        forget_keys(&mut self.pending_runtime_messages, &self.active_turn_user_message_ids);
        self.active_turn_user_message_ids = Vec::new();
        self.active_turn_message_start = None;
        self.takes_messages = false;
        proof {
            assert(self@.active_turn_user_message_ids =~= Seq::empty());
        }
    }

    /// Stops everything in the background and takes the running answer back: the
    /// questions that it is about wait again. Returns whether any of them does.
    pub fn cancel_background_work_and_requeue_active_turn(&mut self) -> (result: bool)
        requires
            old(self)@.is_sound(),
        ensures
            final(self)@.is_sound(),
            final(self)@ == old(self)@.taken_back(),
            result == old(self)@.takes_back_question(),
    {
        let should_requeue = self.status == AssistantPanelStatus::Running;
        let takes_back = should_requeue && holds_one_of(
            &self.messages,
            &self.active_turn_user_message_ids,
        );
        self.stop_background();
        let mut ids: Vec<String> = Vec::new();
        let ghost active = self.active_turn_user_message_ids@;
        ids.append(&mut self.active_turn_user_message_ids);
        proof {
            assert(ids@ =~= active);
            assert(self@.active_turn_user_message_ids =~= Seq::empty());
        }
        let start = self.active_turn_message_start;
        self.active_turn_message_start = None;
        self.takes_messages = false;
        if should_requeue {
            set_statuses(&mut self.messages, &ids, AgentUserMessageStatus::Queued);
            match start {
                Some(place) => {
                    if place < self.messages.len() {
                        retain_messages(&mut self.messages, place, true);
                    }
                },
                None => {},
            }
            proof {
                assert(self@.messages == old(self)@.messages_taken_back());
                lemma_taken_back_is_sound(old(self)@);
            }
            let row_count: usize = self.messages.len();
            self.ask(PanelEffect::ResetRows { row_count });
        } else {
            forget_keys(&mut self.pending_runtime_messages, &ids);
        }
        takes_back
    }

    /// Takes the model's thoughts and answers of the running turn back: it starts
    /// over.
    pub fn reset_incomplete_stream_messages(&mut self)
        requires
            old(self)@.is_sound(),
        ensures
            final(self)@.is_sound(),
            final(self)@ == old(self)@.attempt_reset(),
    {
        match self.active_turn_message_start {
            Some(start) => {
                if start < self.messages.len() {
                    retain_messages(&mut self.messages, start, false);
                    proof {
                        let before = old(self)@.messages;
                        lemma_staying_is_sound(before.skip(start as int), false);
                        lemma_sound_parts(before, start as int, false);
                    }
                    let row_count: usize = self.messages.len();
                    self.ask(PanelEffect::ResetRows { row_count });
                    if self.is_following_latest {
                        self.ask(PanelEffect::ScrollToLatest);
                    }
                }
            },
            None => {},
        }
    }

    /// Forgets everything that rests on an older scan.
    fn clear_source_mention_state(&mut self)
        ensures
            final(self)@ == old(self)@.mentions_cleared(),
    {
        self.mention_candidates = Vec::new();
        self.mention_query = None;
        self.mention_results = Vec::new();
        self.mention_highlighted_index = 0;
        self.selected_mentions = Vec::new();
        self.pending_runtime_messages = StringHashMap::new();
        proof {
            assert(self@.mention_candidates =~= Seq::empty());
            assert(self@.selected_mentions =~= Seq::empty());
            assert(self@.pending_runtime_messages =~= Map::empty());
        }
    }
}

proof fn lemma_staying_is_sound(messages: Seq<MessageModel>, users_only: bool)
    requires
        messages_are_sound(messages),
    ensures
        messages_are_sound(staying(messages, users_only)),
    decreases messages.len(),
{
    if messages.len() > 0 {
        let shorter = messages.drop_last();
        assert forall|i: int| 0 <= i < shorter.len() implies message_is_sound(
            #[trigger] shorter[i],
        ) by {
            assert(shorter[i] == messages[i]);
        }
        lemma_staying_is_sound(shorter, users_only);
        assert(message_is_sound(messages[messages.len() - 1]));
    }
}

proof fn lemma_sound_parts(messages: Seq<MessageModel>, start: int, users_only: bool)
    requires
        messages_are_sound(messages),
        0 <= start <= messages.len(),
    ensures
        messages_are_sound(messages.take(start) + staying(messages.skip(start), users_only)),
{
    let tail = messages.skip(start);
    assert forall|i: int| 0 <= i < tail.len() implies message_is_sound(#[trigger] tail[i]) by {
        assert(tail[i] == messages[i + start]);
    }
    lemma_staying_is_sound(tail, users_only);
    let all = messages.take(start) + staying(tail, users_only);
    assert forall|i: int| 0 <= i < all.len() implies message_is_sound(#[trigger] all[i]) by {
        if i < start {
            assert(all[i] == messages[i]);
        } else {
            assert(all[i] == staying(tail, users_only)[i - start]);
        }
    }
}

proof fn lemma_statuses_are_sound(
    messages: Seq<MessageModel>,
    ids: Seq<Seq<char>>,
    status: AgentUserMessageStatus,
)
    requires
        messages_are_sound(messages),
    ensures
        messages_are_sound(with_statuses(messages, ids, status)),
{
    let marked = with_statuses(messages, ids, status);
    assert forall|i: int| 0 <= i < marked.len() implies message_is_sound(#[trigger] marked[i]) by {
        assert(message_is_sound(messages[i]));
    }
}

proof fn lemma_taken_back_is_sound(panel: PanelModel)
    requires
        messages_are_sound(panel.messages),
    ensures
        messages_are_sound(panel.messages_taken_back()),
{
    let marked = with_statuses(
        panel.messages,
        panel.active_turn_user_message_ids,
        AgentUserMessageStatus::Queued,
    );
    lemma_statuses_are_sound(
        panel.messages,
        panel.active_turn_user_message_ids,
        AgentUserMessageStatus::Queued,
    );
    if panel.active_turn_message_start is Some && panel.active_turn_message_start->0
        < marked.len() {
        lemma_sound_parts(marked, panel.active_turn_message_start->0 as int, true);
    }
}

// ---------------------------------------------------------------------------
// Models and sources
// ---------------------------------------------------------------------------

impl AssistantPanel {
    /// Takes the models of new settings in.
    pub fn apply_model_configuration(&mut self, profiles: Vec<AiModelProfile>)
        ensures
            final(self)@ == old(self)@.configured(model_profiles(profiles@)),
    {
        let models = keep_enabled(profiles);
        let is_valid = match &self.selected_model_id {
            Some(id) => find_profile(&models, id.as_str()).is_some(),
            None => false,
        };
        if !is_valid {
            self.selected_model_id = if models.len() > 0 {
                Some(models[0].profile_id.clone())
            } else {
                None
            };
        }
        self.models = models;
        self.ask(PanelEffect::CheckCredential);
    }

    /// Asks for a scan a moment later, where one makes sense.
    fn schedule_source_scan(&mut self)
        ensures
            final(self)@ == old(self)@.scan_scheduled(),
    {
        if self.has_loaded_sources && !self.status.is_busy() {
            let generation: u64 = self.scan_generation;
            self.ask(PanelEffect::ScheduleScan { generation });
        }
    }
}

impl AssistantPanel {
    /// Finds the chosen model.
    fn chosen_index(&self) -> (result: Option<usize>)
        ensures
            match result {
                Some(index) => self@.chosen_place() == Some(index as int) && index
                    < self.models@.len(),
                None => self@.chosen_place() is None,
            },
    {
        match &self.selected_model_id {
            Some(id) => find_profile(&self.models, id.as_str()),
            None => None,
        }
    }

    /// The chosen model.
    pub fn selected_model(&self) -> (result: Option<&AiModelProfile>)
        ensures
            match (result, self@.chosen_place()) {
                (Some(model), Some(index)) => 0 <= index < self@.models.len() && model@
                    == self@.models[index],
                (None, None) => true,
                _ => false,
            },
    {
        match self.chosen_index() {
            Some(index) => {
                proof {
                    assert(self@.models[index as int] == self.models@[index as int]@);
                }
                Some(&self.models[index])
            },
            None => None,
        }
    }

    /// Why nothing can be sent.
    pub fn unavailable_reason(&self) -> (result: Option<String>)
        ensures
            optional_text(result) == self@.unavailable(),
    {
        if self.chosen_index().is_none() {
            return Some("尚未配置已启用模型，请先完成模型配置。".to_owned());
        }
        copy_optional_text(&self.credential_error)
    }

    /// Goes on to the next model.
    pub fn select_next_model(&mut self)
        requires
            old(self)@.is_sound(),
        ensures
            final(self)@.is_sound(),
            final(self)@ == old(self)@.next_model_chosen(),
    {
        let count: usize = self.models.len();
        if self.status.is_busy() || count <= 1 {
            return;
        }
        let current: usize = match self.chosen_index() {
            Some(index) => index,
            None => 0,
        };
        let next: usize = (current + 1) % count;
        proof {
            assert(self@.models[next as int] == self.models@[next as int]@);
        }
        self.selected_model_id = Some(self.models[next].profile_id.clone());
        self.error = None;
        self.ask(PanelEffect::CheckCredential);
    }

    /// Notes whether the chosen model's key can be had. `error` says why not.
    pub fn refresh_selected_model_credential(&mut self, error: Option<String>)
        requires
            old(self)@.is_sound(),
        ensures
            final(self)@.is_sound(),
            final(self)@ == old(self)@.credential_known(optional_text(error)),
    {
        self.credential_error = if self.chosen_index().is_some() {
            error
        } else {
            None
        };
    }

    /// Takes in that the sources grew. A scan that is under way starts over.
    pub fn accept_source_registry_revision(&mut self, revision: u64, has_loaded_sources: bool)
        requires
            old(self)@.is_sound(),
        ensures
            final(self)@.is_sound(),
            final(self)@ == old(self)@.revision_accepted(revision, has_loaded_sources),
    {
        self.has_loaded_sources = has_loaded_sources;
        self.scope_revision = Some(revision);
        if self.status == AssistantPanelStatus::Scanning {
            let had_scan = self.has_scan;
            self.has_scan = false;
            self.scan_generation = self.scan_generation.wrapping_add(1);
            self.scope = None;
            self.status = AssistantPanelStatus::Idle;
            if had_scan {
                self.ask(PanelEffect::CancelScan);
            }
            self.clear_source_mention_state();
            self.schedule_source_scan();
        } else if self.scope.is_none() && self.status == AssistantPanelStatus::Idle
            && has_loaded_sources {
            self.schedule_source_scan();
        }
    }

    /// Takes in that the settings of the analysis changed, for a reason: the
    /// conversation stays, the scan is done anew, and the running question waits
    /// again.
    pub fn invalidate_scope_for_analysis_configuration_change(
        &mut self,
        revision: u64,
        reason: &str,
        now: TraceTime,
    )
        requires
            old(self)@.is_sound(),
            now.is_valid(),
        ensures
            final(self)@.is_sound(),
            final(self)@ == old(self)@.invalidated(revision, reason@, now),
    {
        let requeued = self.cancel_background_work_and_requeue_active_turn();
        self.scope = None;
        self.clear_source_mention_state();
        self.scope_revision = Some(revision);
        self.status = AssistantPanelStatus::Idle;
        self.error = None;
        let mut detail = reason.to_owned();
        detail.push_str("，正在重新扫描日志范围；现有对话上下文继续保留");
        if requeued {
            detail.push_str("，当前问题已重新排队");
        }
        detail.push_str("。");
        proof {
            assert(detail@ =~= reason@ + "，正在重新扫描日志范围；现有对话上下文继续保留"@ + (if requeued {
                "，当前问题已重新排队"@
            } else {
                Seq::empty()
            }) + "。"@);
        }
        self.push_trace(
            AgentTraceEntry::new(
                AgentTraceKind::Status,
                "智能分析配置已更新",
                detail.as_str(),
                now,
            ),
        );
        self.schedule_source_scan();
    }

    /// The moment has come that a scan was put off to.
    pub fn run_scheduled_scan(&mut self, generation: u64)
        requires
            old(self)@.is_sound(),
        ensures
            final(self)@.is_sound(),
            final(self)@ == old(self)@.scheduled_scan_due(generation),
    {
        if self.scan_generation == generation && self.status == AssistantPanelStatus::Idle
            && self.scope.is_none() && self.has_loaded_sources {
            self.ask(PanelEffect::BeginScan);
        }
    }

    /// Begins a scan. `has_roots` says whether there is anything to scan.
    pub fn start_source_scan(&mut self, has_roots: bool, now: TraceTime)
        requires
            old(self)@.is_sound(),
            now.is_valid(),
        ensures
            final(self)@.is_sound(),
            final(self)@ == old(self)@.scan_begun(has_roots, now),
    {
        if self.status != AssistantPanelStatus::Idle {
            return;
        }
        if !has_roots {
            self.error = Some("尚未加载日志来源".to_owned());
            return;
        }
        let generation: u64 = self.scan_generation.wrapping_add(1);
        self.scan_generation = generation;
        self.has_scan = true;
        self.status = AssistantPanelStatus::Scanning;
        self.push_trace(
            AgentTraceEntry::new(
                AgentTraceKind::Status,
                "正在扫描全部来源",
                "正在补齐未展开目录和归档，并匹配日志类型说明",
                now,
            ),
        );
        self.ask(PanelEffect::RunScan { generation });
    }

    /// Takes the end of a scan in: `failure` says why it failed. Returns whether
    /// what it found is to be handed to the application; a scan that does not
    /// count any more changes nothing.
    pub fn accept_scan_result(
        &mut self,
        generation: u64,
        failure: Option<String>,
        now: TraceTime,
    ) -> (result: bool)
        requires
            old(self)@.is_sound(),
            now.is_valid(),
        ensures
            final(self)@.is_sound(),
            result == (generation == old(self)@.scan_generation && failure is None),
            final(self)@ == (if generation != old(self)@.scan_generation {
                old(self)@
            } else {
                match optional_text(failure) {
                    Some(error) => old(self)@.scan_failed(error, now),
                    None => PanelModel { has_scan: false, ..old(self)@ },
                }
            }),
    {
        if generation != self.scan_generation {
            return false;
        }
        self.has_scan = false;
        match failure {
            None => true,
            Some(error) => {
                self.status = AssistantPanelStatus::Idle;
                if !contains_text(error.as_str(), "已取消") {
                    let mut text = "来源树完整扫描失败：".to_owned();
                    text.push_str(error.as_str());
                    self.error = Some(text);
                    self.push_trace(
                        AgentTraceEntry::new(
                            AgentTraceKind::Warning,
                            "来源扫描失败",
                            error.as_str(),
                            now,
                        ),
                    );
                }
                false
            },
        }
    }

    /// Takes in that the application refused what a scan found, because its
    /// sources are at another revision.
    pub fn refuse_scan(&mut self, error: &str, revision: u64, now: TraceTime)
        requires
            old(self)@.is_sound(),
            now.is_valid(),
        ensures
            final(self)@.is_sound(),
            final(self)@ == old(self)@.scan_refused(error@, revision, now),
    {
        self.status = AssistantPanelStatus::Idle;
        self.accept_source_registry_revision(revision, true);
        self.push_trace(
            AgentTraceEntry::new(AgentTraceKind::Status, "来源扫描已重新调度", error, now),
        );
    }

    /// Takes in what a scan found, once the application has it. What waits is
    /// answered next.
    pub fn finish_source_scan(
        &mut self,
        scope: SourceScope,
        warning_count: usize,
        revision: u64,
        now: TraceTime,
    )
        requires
            old(self)@.is_sound(),
            now.is_valid(),
        ensures
            final(self)@.is_sound(),
            are_candidates_of(final(self)@.mention_candidates, scope.sources@),
            final(self)@ == old(self)@.scan_completed(
                scope@,
                final(self)@.mention_candidates,
                warning_count,
                revision,
                now,
            ),
    {
        let source_count: usize = scope.sources.len();
        let profile_count: usize = scope.profile_count;
        self.mention_candidates = build_mention_candidates(&scope);
        self.scope = Some(scope);
        self.mention_query = None;
        self.mention_results = Vec::new();
        self.mention_highlighted_index = 0;
        self.refresh_mention_picker();
        self.scope_revision = Some(revision);
        self.has_loaded_sources = source_count > 0;
        self.status = AssistantPanelStatus::Idle;
        let mut detail = "已固化 ".to_owned();
        detail.push_str(decimal(source_count as u64).as_str());
        detail.push_str(" 个日志文件，匹配 ");
        detail.push_str(decimal(profile_count as u64).as_str());
        detail.push_str(" 种日志类型说明");
        if warning_count > 0 {
            detail.push_str("，包含 ");
            detail.push_str(decimal(warning_count as u64).as_str());
            detail.push_str(" 项可容忍警告");
        }
        proof {
            assert(scope@.sources.len() == source_count);
            assert(detail@ =~= "已固化 "@ + crate::text::decimal_text(scope@.sources.len())
                + " 个日志文件，匹配 "@ + crate::text::decimal_text(scope@.profile_count as nat)
                + " 种日志类型说明"@ + (if warning_count == 0 {
                Seq::empty()
            } else {
                "，包含 "@ + crate::text::decimal_text(warning_count as nat) + " 项可容忍警告"@
            }));
        }
        self.push_trace(
            AgentTraceEntry::new(
                AgentTraceKind::Status,
                "全部来源扫描完成",
                detail.as_str(),
                now,
            ),
        );
        self.ask(PanelEffect::BeginTurn);
    }

    // -----------------------------------------------------------------------
    // The picker
    // -----------------------------------------------------------------------

    /// Looks anew at what is being typed behind an `@`.
    pub fn refresh_mention_picker(&mut self)
        requires
            messages_are_sound(old(self)@.messages),
        ensures
            final(self)@.is_sound(),
            final(self)@ == old(self)@.mentions_refreshed(),
    {
        self.mention_query = active_mention_query(&self.input);
        self.mention_highlighted_index = 0;
        self.mention_results = match &self.mention_query {
            Some(query) => {
                proof {
                    assert(self.mention_candidates.len() <= usize::MAX);
                    law_offered_candidates_fit(self@.mention_candidates, query@.text);
                }
                matching_candidates(&self.mention_candidates, query.text.as_str())
            },
            None => Vec::new(),
        };
    }

    /// Whether a candidate was chosen already.
    fn has_chosen_candidate(&self, index: usize) -> (result: bool)
        requires
            index < self.mention_candidates@.len(),
        ensures
            result == self@.has_chosen(self@.mention_candidates[index as int]),
    {
        let candidate = &self.mention_candidates[index];
        let ghost models = self@.selected_mentions;
        proof {
            assert(self@.mention_candidates[index as int] == candidate@);
        }
        let mut i: usize = 0;
        while i < self.selected_mentions.len()
            invariant
                i <= self.selected_mentions@.len(),
                models == self@.selected_mentions,
                candidate@ == self@.mention_candidates[index as int],
                forall|k: int|
                    0 <= k < i ==> !((#[trigger] models[k]).candidate.kind == candidate@.kind
                        && models[k].candidate.display_path == candidate@.display_path),
            decreases self.selected_mentions@.len() - i,
        {
            let selected = &self.selected_mentions[i];
            proof {
                assert(models[i as int] == selected@);
            }
            if selected.candidate.kind == candidate.kind && same_text(
                selected.candidate.display_path.as_str(),
                candidate.display_path.as_str(),
            ) {
                proof {
                    assert(self@.selected_mentions[i as int] == selected@);
                }
                return true;
            }
            i += 1;
        }
        false
    }

    /// Chooses a candidate: its mark takes the place of what was typed. Returns
    /// whether there is such a candidate.
    pub fn select_mention(&mut self, query: &AssistantMentionQuery, candidate_index: usize) -> (result:
        bool)
        requires
            old(self)@.is_sound(),
            candidate_index < old(self)@.mention_candidates.len() ==> fits_at(
                old(self)@.input,
                query@.range.start,
                mention_text(old(self)@.mention_candidates[candidate_index as int]),
            ),
        ensures
            final(self)@.is_sound(),
            result == (candidate_index < old(self)@.mention_candidates.len()),
            final(self)@ == (if result {
                old(self)@.mention_chosen(query@, candidate_index as int)
            } else {
                old(self)@
            }),
    {
        if candidate_index >= self.mention_candidates.len() {
            return false;
        }
        let is_chosen = self.has_chosen_candidate(candidate_index);
        let candidate = self.mention_candidates[candidate_index].copy();
        proof {
            assert(self@.mention_candidates[candidate_index as int] == candidate@);
        }
        let mut marker = "@".to_owned();
        proof {
            reveal_strlit("@");
            assert("@"@ =~= seq!['@']);
        }
        marker.push_str(candidate.display_path.as_str());
        let mut replacement = marker.clone();
        replacement.push(' ');
        let ghost mark = marker@;
        proof {
            assert(replacement@ =~= mark + seq![' ']);
        }
        self.input.value = replace_character_range(
            self.input.value.as_str(),
            &query.range,
            replacement.as_str(),
        );
        let length: usize = character_count(self.input.value.as_str());
        assert(query@.range.start <= old(self)@.input.value.len() ==> query@.range.start
            + replacement@.len() <= length);
        self.input.cursor = query.range.start + character_count(replacement.as_str());
        self.input.selection_anchor = None;
        self.input.marked_range = None;
        if !is_chosen {
            let ghost before = self.selected_mentions@;
            let selected = AssistantSelectedMention { marker, candidate };
            self.selected_mentions.push(selected);
            proof {
                assert(selected_models(self.selected_mentions@) =~= selected_models(before).push(
                    selected@,
                ));
            }
        }
        self.mention_query = None;
        self.mention_results = Vec::new();
        self.mention_highlighted_index = 0;
        self.error = None;
        true
    }

    /// Chooses the candidate that was clicked.
    pub fn click_mention(&mut self, candidate_index: usize)
        requires
            old(self)@.is_sound(),
        ensures
            final(self)@.is_sound(),
            final(self)@ == (if old(self)@.mention_query is Some && candidate_index
                < old(self)@.mention_candidates.len() {
                old(self)@.mention_chosen(old(self)@.mention_query->0, candidate_index as int)
            } else {
                old(self)@
            }),
    {
        let query = match &self.mention_query {
            Some(query) => query.copy(),
            None => {
                return;
            },
        };
        proof {
            law_query_is_one_word(self@.input);
        }
        self.select_mention(&query, candidate_index);
    }

    /// Chooses the candidate that the keyboard is on. Returns whether there is one.
    fn select_highlighted_mention(&mut self) -> (result: bool)
        requires
            old(self)@.is_sound(),
        ensures
            final(self)@.is_sound(),
            ({
                let panel = old(self)@;
                let place = panel.mention_highlighted_index as int;
                &&& result == (panel.mention_query is Some && place < panel.mention_results.len()
                    && panel.mention_results[place] < panel.mention_candidates.len())
                &&& final(self)@ == (if result {
                    panel.mention_chosen(
                        panel.mention_query->0,
                        panel.mention_results[place] as int,
                    )
                } else {
                    panel
                })
            }),
    {
        let query = match &self.mention_query {
            Some(query) => query.copy(),
            None => {
                return false;
            },
        };
        if self.mention_highlighted_index >= self.mention_results.len() {
            return false;
        }
        proof {
            law_query_is_one_word(self@.input);
        }
        let index: usize = self.mention_results[self.mention_highlighted_index];
        self.select_mention(&query, index)
    }

    // -----------------------------------------------------------------------
    // Sending and answering
    // -----------------------------------------------------------------------

    /// Hands a message to the running answer, where it takes any.
    pub fn queue_running_message(&mut self, message: &AgentUserMessage)
        requires
            old(self)@.is_sound(),
        ensures
            final(self)@.is_sound(),
            final(self)@ == old(self)@.message_handed_over(message@),
    {
        if !self.takes_messages {
            return;
        }
        let mut runtime = message.copy();
        match self.pending_runtime_messages.get(message.message_id.as_str()) {
            Some(content) => {
                runtime.content = content.clone();
            },
            None => {},
        }
        self.ask(PanelEffect::SendMessage(runtime));
    }

    /// Takes a message out of the input: it waits, and with it what the model gets
    /// for it.
    fn take_message(&mut self, message_id: String, content: String)
        requires
            old(self)@.is_sound(),
        ensures
            final(self)@.is_sound(),
            final(self)@ == old(self)@.message_taken(message_id@, content@),
    {
        let runtime = assistant_message_with_mentions(content.as_str(), &self.selected_mentions);
        let message = AgentUserMessage::queued(message_id.clone(), content);
        let ghost pending = self.pending_runtime_messages@;
        self.pending_runtime_messages.insert(message_id, runtime);
        proof {
            assert(text_map(self.pending_runtime_messages@) =~= text_map(pending).insert(
                message_id@,
                runtime@,
            ));
        }
        self.push_message(AssistantPanelMessage::User(message));
        self.input = TextInputState::new();
        self.input.is_focused = true;
        self.mention_query = None;
        self.mention_results = Vec::new();
        self.selected_mentions = Vec::new();
        self.error = None;
        proof {
            assert(self@.selected_mentions =~= Seq::empty());
        }
    }

    /// Decides what happens to a message that waits.
    fn route_message(&mut self, message: &AgentUserMessage)
        requires
            old(self)@.is_sound(),
        ensures
            final(self)@.is_sound(),
            final(self)@ == old(self)@.message_routed(message@),
    {
        match self.status {
            AssistantPanelStatus::Scanning => {},
            AssistantPanelStatus::Cancelling => {},
            AssistantPanelStatus::Running => {
                self.queue_running_message(message);
            },
            AssistantPanelStatus::Idle => {
                if self.scope.is_none() {
                    self.ask(PanelEffect::BeginScan);
                } else {
                    self.ask(PanelEffect::BeginTurn);
                }
            },
        }
    }

    /// Sends the message in the input. `message_id` is a new id, and
    /// `current_revision` the present revision of the sources.
    pub fn submit_input(&mut self, message_id: String, current_revision: u64)
        requires
            old(self)@.is_sound(),
        ensures
            final(self)@.is_sound(),
            final(self)@ == old(self)@.submitted(message_id@, current_revision),
    {
        let content = trim(self.input.value.as_str());
        if content.as_str().is_empty() {
            self.error = Some("请输入需要分析的问题".to_owned());
            return;
        }
        if byte_len(content.as_str()) > ASSISTANT_MESSAGE_MAX_BYTES {
            self.error = Some("单条消息不能超过 32 KiB".to_owned());
            return;
        }
        if self.models.len() == 0 {
            self.error = Some("尚未配置已启用模型".to_owned());
            return;
        }
        match self.scope_revision {
            Some(revision) => {
                if revision != current_revision {
                    self.accept_source_registry_revision(current_revision, true);
                }
            },
            None => {},
        }
        let message = AgentUserMessage::queued(message_id.clone(), content.clone());
        self.take_message(message_id, content);
        self.route_message(&message);
    }

    /// The ids of the messages that wait.
    fn collect_waiting_ids(&self) -> (result: Vec<String>)
        ensures
            text_models(result@) == waiting_ids(self@.messages),
    {
        let ghost models = self@.messages;
        let mut ids: Vec<String> = Vec::new();
        let mut i: usize = 0;
        proof {
            assert(models.take(0) =~= Seq::empty());
            assert(text_models(ids@) =~= Seq::empty());
        }
        while i < self.messages.len()
            invariant
                i <= self.messages@.len(),
                models == panel_messages(self.messages@),
                text_models(ids@) == waiting_ids(models.take(i as int)),
            decreases self.messages@.len() - i,
        {
            proof {
                assert(models.take(i + 1).drop_last() =~= models.take(i as int));
                assert(models.take(i + 1).last() == self.messages@[i as int]@);
            }
            match &self.messages[i] {
                AssistantPanelMessage::User(user) => {
                    if user.status == AgentUserMessageStatus::Queued {
                        let ghost before = ids@;
                        let id = user.message_id.clone();
                        ids.push(id);
                        proof {
                            assert(text_models(ids@) =~= text_models(before).push(id@));
                        }
                    }
                },
                _ => {},
            }
            i += 1;
        }
        proof {
            assert(models.take(i as int) =~= models);
        }
        ids
    }

    /// What the model gets for the messages that wait.
    fn collect_waiting_texts(&self) -> (result: Vec<String>)
        ensures
            text_models(result@) == waiting_texts(
                self@.messages,
                self@.pending_runtime_messages,
            ),
    {
        let ghost models = self@.messages;
        let ghost pending = self@.pending_runtime_messages;
        let mut texts: Vec<String> = Vec::new();
        let mut i: usize = 0;
        proof {
            assert(models.take(0) =~= Seq::empty());
            assert(text_models(texts@) =~= Seq::empty());
        }
        while i < self.messages.len()
            invariant
                i <= self.messages@.len(),
                models == panel_messages(self.messages@),
                pending == text_map(self.pending_runtime_messages@),
                text_models(texts@) == waiting_texts(models.take(i as int), pending),
            decreases self.messages@.len() - i,
        {
            proof {
                assert(models.take(i + 1).drop_last() =~= models.take(i as int));
                assert(models.take(i + 1).last() == self.messages@[i as int]@);
            }
            match &self.messages[i] {
                AssistantPanelMessage::User(user) => {
                    if user.status == AgentUserMessageStatus::Queued {
                        let ghost before = texts@;
                        let text = match self.pending_runtime_messages.get(
                            user.message_id.as_str(),
                        ) {
                            Some(content) => content.clone(),
                            None => user.content.clone(),
                        };
                        texts.push(text);
                        proof {
                            assert(text_models(texts@) =~= text_models(before).push(text@));
                        }
                    }
                },
                _ => {},
            }
            i += 1;
        }
        proof {
            assert(models.take(i as int) =~= models);
        }
        texts
    }

    /// Where the chosen model's service is, where its key is needed now.
    pub fn needed_key(&self) -> (result: Option<String>)
        ensures
            match optional_text(result) {
                Some(base_url) => self@.turn_is_ready() && base_url
                    == self@.models[self@.chosen_place()->0].base_url,
                None => !self@.turn_is_ready(),
            },
    {
        if self.status != AssistantPanelStatus::Idle || !self.has_queued_messages()
            || self.scope.is_none() {
            return None;
        }
        match self.selected_model() {
            Some(model) => Some(model.base_url.clone()),
            None => None,
        }
    }

    /// Begins to answer everything that waits. `key_error` says why the chosen
    /// model's key cannot be had.
    pub fn start_queued_turn(&mut self, key_error: Option<String>)
        requires
            old(self)@.is_sound(),
        ensures
            final(self)@.is_sound(),
            final(self)@ == old(self)@.turn_begun(optional_text(key_error)),
    {
        if self.status != AssistantPanelStatus::Idle || !self.has_queued_messages() {
            return;
        }
        if self.scope.is_none() {
            self.error = Some("来源范围尚未准备完成".to_owned());
            return;
        }
        if self.chosen_index().is_none() {
            self.error = Some("当前模型配置已经失效".to_owned());
            return;
        }
        if key_error.is_some() {
            self.error = key_error;
            return;
        }
        let ids = self.collect_waiting_ids();
        let initial_messages = self.collect_waiting_texts();
        let length: usize = self.messages.len();
        let first: usize = find_first_of(&self.messages, &ids);
        proof {
            lemma_statuses_are_sound(
                self@.messages,
                text_models(ids@),
                AgentUserMessageStatus::Consumed,
            );
        }
        set_statuses(&mut self.messages, &ids, AgentUserMessageStatus::Consumed);
        let generation: u64 = self.turn_generation.wrapping_add(1);
        self.turn_generation = generation;
        self.has_turn = true;
        self.takes_messages = true;
        self.status = AssistantPanelStatus::Running;
        self.active_turn_message_start = Some(length);
        self.active_turn_user_message_ids = ids;
        self.error = None;
        self.budget = AgentBudgetSnapshot::new();
        self.ask(
            PanelEffect::SpliceRows { start: first, end: length, new_count: length - first },
        );
        self.ask(PanelEffect::RunTurn { generation, initial_messages });
    }

    /// Asks for the next answer where anything waits.
    fn ask_for_next_turn(&mut self)
        ensures
            final(self)@ == old(self)@.next_turn_asked(),
    {
        if self.has_queued_messages() {
            self.ask(PanelEffect::BeginTurn);
        }
    }

    /// The running answer was stopped.
    fn cancel_turn(&mut self, now: TraceTime)
        requires
            old(self)@.is_sound(),
            now.is_valid(),
        ensures
            final(self)@.is_sound(),
            final(self)@ == old(self)@.turn_cancelled(now),
    {
        self.finish_active_turn();
        self.push_trace(
            AgentTraceEntry::new(
                AgentTraceKind::Status,
                "当前回答已停止",
                "对话和已验证引用仍保留，可继续发送新问题",
                now,
            ),
        );
        self.ask_for_next_turn();
    }

    /// The model got a message of the user.
    fn consume_message(&mut self, message_id: String)
        requires
            old(self)@.is_sound(),
        ensures
            final(self)@.is_sound(),
            final(self)@ == old(self)@.message_consumed(message_id@),
    {
        self.update_user_message_status(message_id.as_str(), AgentUserMessageStatus::Consumed);
        if !has_text(&self.active_turn_user_message_ids, message_id.as_str()) {
            let ghost before = self.active_turn_user_message_ids@;
            self.active_turn_user_message_ids.push(message_id);
            proof {
                assert(text_models(self.active_turn_user_message_ids@) =~= text_models(
                    before,
                ).push(message_id@));
            }
        }
    }

    /// A message of the user was refused.
    fn reject_message(&mut self, message_id: &str, reason: &str, now: TraceTime)
        requires
            old(self)@.is_sound(),
            now.is_valid(),
        ensures
            final(self)@.is_sound(),
            final(self)@ == old(self)@.message_rejected(message_id@, reason@, now),
    {
        self.update_user_message_status(message_id, AgentUserMessageStatus::Rejected);
        let ghost pending = self.pending_runtime_messages@;
        self.pending_runtime_messages.remove(message_id);
        proof {
            assert(text_map(self.pending_runtime_messages@) =~= text_map(pending).remove(
                message_id@,
            ));
        }
        self.push_trace(
            AgentTraceEntry::new(AgentTraceKind::Warning, "补充消息未进入当前回答", reason, now),
        );
    }

    /// The running answer is complete.
    fn complete_turn(
        &mut self,
        turn: AssistantHistoryTurn,
        history_was_trimmed: bool,
        now: TraceTime,
    )
        requires
            old(self)@.is_sound(),
            now.is_valid(),
        ensures
            final(self)@.is_sound(),
            final(self)@ == old(self)@.turn_completed(turn@, history_was_trimmed, now),
    {
        self.finish_answer(turn.assistant_output.clone(), copy_citations(&turn.citations));
        let ghost before = self.history@;
        self.history.push(turn);
        proof {
            assert(turn_models(self.history@) =~= turn_models(before).push(turn@));
        }
        self.finish_active_turn();
        if history_was_trimmed {
            self.push_trace(
                AgentTraceEntry::new(
                    AgentTraceKind::Status,
                    "上下文窗口已整理",
                    "较早对话仍保留在界面中，但已从本轮模型上下文移除",
                    now,
                ),
            );
        }
        self.ask_for_next_turn();
    }

    /// The running answer failed.
    fn fail_turn(&mut self, message: String, now: TraceTime)
        requires
            old(self)@.is_sound(),
            now.is_valid(),
        ensures
            final(self)@.is_sound(),
            final(self)@ == old(self)@.turn_failed(message@, now),
    {
        let trace = AgentTraceEntry::new(
            AgentTraceKind::Warning,
            "助手回答失败",
            message.as_str(),
            now,
        );
        self.error = Some(message);
        self.push_trace(trace);
    }

    /// Takes a report of an answer in. Reports of answers that do not count any
    /// more change nothing.
    pub fn apply_turn_event(&mut self, event: AgentEvent, generation: u64, now: TraceTime)
        requires
            old(self)@.is_sound(),
            event.is_dated(),
            now.is_valid(),
        ensures
            final(self)@.is_sound(),
            final(self)@ == old(self)@.after_turn_event(event@, generation, now),
    {
        if generation != self.turn_generation {
            return;
        }
        match event {
            AgentEvent::Status(status, _) => match status {
                AgentSessionStatus::Investigating => {
                    self.status = AssistantPanelStatus::Running;
                },
                AgentSessionStatus::Cancelled => {
                    self.cancel_turn(now);
                },
                AgentSessionStatus::Failed => {
                    self.finish_active_turn();
                },
                _ => {},
            },
            AgentEvent::Trace(trace) => {
                self.push_trace(trace);
            },
            AgentEvent::Budget(budget) => {
                self.budget = budget;
            },
            AgentEvent::StreamDelta(kind, delta) => {
                self.apply_stream_delta(kind, delta);
            },
            AgentEvent::UserMessageConsumed(message_id) => {
                self.consume_message(message_id);
            },
            AgentEvent::UserMessageRejected(message_id, reason) => {
                self.reject_message(message_id.as_str(), reason.as_str(), now);
            },
            AgentEvent::AssistantCompleted {
                output,
                citations,
                accepted_user_messages,
                history_was_trimmed,
            } => {
                self.complete_turn(
                    AssistantHistoryTurn {
                        user_messages: accepted_user_messages,
                        assistant_output: output,
                        citations,
                    },
                    history_was_trimmed,
                    now,
                );
            },
            AgentEvent::AssistantAttemptReset => {
                self.reset_incomplete_stream_messages();
            },
            AgentEvent::Failed(message) => {
                self.fail_turn(message, now);
            },
            AgentEvent::BashApprovalRequired { .. } => {},
            AgentEvent::BashApprovalOutcome { .. } => {},
            AgentEvent::Stage => {},
            AgentEvent::Report => {},
        }
    }

    // -----------------------------------------------------------------------
    // Keys, pointer and rows
    // -----------------------------------------------------------------------

    /// Moves the keyboard to the next candidate that is offered, or to the one
    /// before; behind the last comes the first.
    fn move_highlight(&mut self, goes_down: bool)
        requires
            old(self)@.is_sound(),
            old(self)@.mention_results.len() > 0,
        ensures
            final(self)@.is_sound(),
            final(self)@ == old(self)@.highlight_moved(goes_down),
    {
        let count: usize = self.mention_results.len();
        let place: usize = self.mention_highlighted_index;
        self.mention_highlighted_index = if goes_down {
            (place + 1) % count
        } else if place == 0 {
            count - 1
        } else {
            place - 1
        };
    }

    /// Closes the picker.
    fn close_picker(&mut self)
        requires
            old(self)@.is_sound(),
        ensures
            final(self)@.is_sound(),
            final(self)@ == old(self)@.picker_closed(),
    {
        self.mention_query = None;
        self.mention_results = Vec::new();
    }

    /// Handles a key press while the picker is open. Returns whether it was for
    /// the picker.
    fn handle_picker_key(&mut self, keystroke: &Keystroke) -> (result: bool)
        requires
            old(self)@.is_sound(),
        ensures
            final(self)@.is_sound(),
            match old(self)@.picker_step(keystroke@) {
                Some(panel) => result && final(self)@ == panel,
                None => !result && final(self)@ == old(self)@,
            },
    {
        if self.mention_query.is_none() {
            return false;
        }
        let key = to_ascii_lower(keystroke.key.as_str());
        let has_results = self.mention_results.len() > 0;
        if (same_text(key.as_str(), "up") || same_text(key.as_str(), "arrowup")) && has_results {
            self.move_highlight(false);
            return true;
        }
        if (same_text(key.as_str(), "down") || same_text(key.as_str(), "arrowdown"))
            && has_results {
            self.move_highlight(true);
            return true;
        }
        if (same_text(key.as_str(), "enter") || same_text(key.as_str(), "tab"))
            && !keystroke.modifiers.secondary {
            return self.select_highlighted_mention();
        }
        if same_text(key.as_str(), "escape") {
            self.close_picker();
            return true;
        }
        false
    }

    /// Handles a key press. `message_id` is a new id, and `current_revision` the
    /// present revision of the sources, in case a message is sent. Returns what
    /// goes to the clipboard.
    pub fn handle_input_key(
        &mut self,
        keystroke: &Keystroke,
        clipboard: &Option<String>,
        message_id: String,
        current_revision: u64,
    ) -> (result: Option<String>)
        requires
            old(self)@.is_sound(),
            key_has_room(old(self)@.input, keystroke@, true, optional_text(*clipboard)),
        ensures
            final(self)@.is_sound(),
            final(self)@ == old(self)@.keyed(
                keystroke@,
                optional_text(*clipboard),
                message_id@,
                current_revision,
            ),
            optional_text(result) == (if old(self)@.picker_step(keystroke@) is Some {
                None
            } else {
                old(self)@.input_step(keystroke@, optional_text(*clipboard)).copied
            }),
    {
        if self.handle_picker_key(keystroke) {
            return None;
        }
        let outcome = handle_local_input_key(&mut self.input, keystroke, true, clipboard);
        match outcome.action {
            LocalInputAction::Submit => {
                self.submit_input(message_id, current_revision);
            },
            LocalInputAction::Changed => {
                self.error = None;
                self.refresh_mention_picker();
            },
            LocalInputAction::Close => {
                self.close_picker();
                self.input.clear_focus();
            },
            LocalInputAction::Ignored => {},
        }
        outcome.copied
    }

    /// Applies an edit of the system's input method.
    pub fn apply_native_edit(&mut self, edit: &NativeTextEdit)
        requires
            old(self)@.is_sound(),
        ensures
            final(self)@.is_sound(),
            final(self)@ == (PanelModel {
                input: old(self)@.input.natively_edited(*edit),
                error: None,
                ..old(self)@
            }).mentions_refreshed(),
    {
        self.input.apply_native_edit(edit);
        self.error = None;
        self.refresh_mention_picker();
    }

    /// The mouse button went down in the input.
    pub fn begin_pointer_selection(
        &mut self,
        character_index: usize,
        granularity: TextSelectionGranularity,
        word: Option<std::ops::Range<usize>>,
    )
        requires
            old(self)@.is_sound(),
        ensures
            final(self)@.is_sound(),
            final(self)@ == (PanelModel {
                input: old(self)@.input.pressed(character_index, granularity, word),
                ..old(self)@
            }).mentions_refreshed(),
    {
        self.input.begin_pointer_selection(character_index, granularity, word);
        self.refresh_mention_picker();
    }

    /// The mouse moved in the input with its button down.
    pub fn update_pointer_selection(
        &mut self,
        character_index: usize,
        word: Option<std::ops::Range<usize>>,
    )
        requires
            old(self)@.is_sound(),
        ensures
            final(self)@.is_sound(),
            final(self)@ == (PanelModel {
                input: old(self)@.input.dragged(character_index, word),
                ..old(self)@
            }).mentions_refreshed(),
    {
        self.input.update_pointer_selection(character_index, word);
        self.refresh_mention_picker();
    }

    /// The mouse button came up.
    pub fn finish_pointer_selection(&mut self)
        requires
            old(self)@.is_sound(),
        ensures
            final(self)@.is_sound(),
            final(self)@ == (PanelModel {
                input: old(self)@.input.released(),
                ..old(self)@
            }).mentions_refreshed(),
    {
        self.input.finish_pointer_selection();
        self.refresh_mention_picker();
    }

    /// Opens or closes a run of tool traces.
    pub fn toggle_tool_group(&mut self, index: usize)
        requires
            old(self)@.is_sound(),
        ensures
            final(self)@.is_sound(),
            final(self)@ == old(self)@.group_toggled(index as int),
    {
        if index >= self.messages.len() {
            return;
        }
        let ghost before = self@;
        proof {
            assert(before.messages[index as int] == self.messages@[index as int]@);
            assert(message_is_sound(before.messages[index as int]));
        }
        if let AssistantPanelMessage::ToolGroup { is_expanded, .. } = &mut self.messages[index] {
            *is_expanded = !*is_expanded;
            proof {
                assert(self@.messages =~= before.group_toggled(index as int).messages);
                assert(messages_are_sound(self@.messages)) by {
                    assert forall|i: int| 0 <= i < self@.messages.len() implies message_is_sound(
                        #[trigger] self@.messages[i],
                    ) by {
                        if i != index {
                            assert(self@.messages[i] == before.messages[i]);
                        }
                    }
                }
            }
            self.remeasure(index);
            return;
        }
        proof {
            assert(self@.messages =~= before.messages);
        }
    }

    /// Goes back to the newest row.
    pub fn jump_to_latest(&mut self)
        requires
            old(self)@.is_sound(),
        ensures
            final(self)@.is_sound(),
            final(self)@ == old(self)@.jumped(),
    {
        self.is_following_latest = true;
        self.ask(PanelEffect::ScrollToLatest);
    }

    /// Follows the scrolling of the conversation: whoever scrolls away from its end
    /// is left there.
    pub fn follow_scroll(&mut self, is_scrolled: bool)
        requires
            old(self)@.is_sound(),
        ensures
            final(self)@.is_sound(),
            final(self)@ == (PanelModel { is_following_latest: !is_scrolled, ..old(self)@ }),
    {
        self.is_following_latest = !is_scrolled;
    }

    /// Gives the input the keyboard.
    pub fn focus_input(&mut self)
        requires
            old(self)@.is_sound(),
        ensures
            final(self)@.is_sound(),
            final(self)@ == (PanelModel {
                input: InputModel { is_focused: true, ..old(self)@.input },
                ..old(self)@
            }),
    {
        self.input.is_focused = true;
    }
}

} // verus!
