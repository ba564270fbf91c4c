//! What holds of asking the assistant: naming sources, sending a message, scanning the sources and
//! beginning a turn.

use vstd::prelude::*;
use crate::agent::{AgentTraceKind, AgentUserMessageStatus, TraceModel, UserMessageModel};
use crate::ai_config::{enabled_models, profile_place, ModelProfileModel};
use crate::assistant_model::{
    text_for_model, waiting_ids, waiting_texts, waits, EffectModel, MessageModel, PanelModel,
    ScopeModel,
};
use crate::clock::TraceTime;
use crate::conversation_laws::some_waits;
use crate::input_behavior::key_step;
use crate::keystroke::KeystrokeModel;
use crate::mention_laws::{law_parts_are_found, stands_in};
use crate::mention_query::{offered, query_at_cursor, runtime_message, QueryModel};
use crate::mentions::{CandidateModel, SelectedModel};
use crate::text::{ascii_lower_case, decimal_text, trimmed, utf8_len};

verus! {

/// A chosen source is written into the question in place of the word that asked for it: an at
/// sign, its path and a space, with the cursor behind them. The choice is remembered once; the
/// picker closes; the rest of the question stays.
pub proof fn law_chosen_source_is_written(panel: PanelModel, query: QueryModel, index: int)
    requires
        0 <= index < panel.mention_candidates.len(),
        query.range.start <= query.range.end <= panel.input.value.len(),
        query.range.start + panel.mention_candidates[index].display_path.len() + 2 <= usize::MAX,
    ensures
        ({
            let candidate = panel.mention_candidates[index];
            let after = panel.mention_chosen(query, index);
            let written = seq!['@'] + candidate.display_path + seq![' '];
            let is_known = exists|i: int|
                0 <= i < panel.selected_mentions.len() && (
                #[trigger] panel.selected_mentions[i]).candidate.kind == candidate.kind
                    && panel.selected_mentions[i].candidate.display_path
                    == candidate.display_path;
            &&& after.input.value == panel.input.value.take(query.range.start as int) + written
                + panel.input.value.skip(query.range.end as int)
            &&& after.input.cursor == query.range.start + candidate.display_path.len() + 2
            &&& after.input.selection_anchor is None
            &&& after.input.marked_range is None
            &&& is_known ==> after.selected_mentions == panel.selected_mentions
            &&& !is_known ==> after.selected_mentions == panel.selected_mentions.push(
                SelectedModel { marker: seq!['@'] + candidate.display_path, candidate },
            )
            &&& after.mention_query is None
            &&& after.mention_results.len() == 0
            &&& after.error is None
            &&& after.messages == panel.messages
            &&& after.outbox == panel.outbox
        }),
{
}

/// The picker shows what the word at the cursor asks for, with the first result highlighted; no
/// word, no results. Closing it keeps the question and the choices.
pub proof fn law_picker_follows_the_cursor(panel: PanelModel)
    ensures
        ({
            let after = panel.mentions_refreshed();
            let query = query_at_cursor(panel.input);
            &&& after.mention_query == query
            &&& query is Some ==> after.mention_results == offered(
                panel.mention_candidates,
                query->0.text,
            )
            &&& query is None ==> after.mention_results.len() == 0
            &&& after.mention_highlighted_index == 0
            &&& after.input == panel.input
            &&& after.selected_mentions == panel.selected_mentions
            &&& panel.picker_closed().mention_query is None
            &&& panel.picker_closed().mention_results.len() == 0
            &&& panel.picker_closed().input == panel.input
            &&& panel.picker_closed().selected_mentions == panel.selected_mentions
        }),
{
}

/// The highlight goes down and up by one and round at both ends; down and up undo each other.
pub proof fn law_highlight_goes_round(panel: PanelModel)
    requires
        0 < panel.mention_results.len() <= 8,
        panel.mention_highlighted_index < panel.mention_results.len(),
    ensures
        ({
            let down = panel.highlight_moved(true);
            let up = panel.highlight_moved(false);
            let place = panel.mention_highlighted_index as int;
            let count = panel.mention_results.len() as int;
            &&& place + 1 < count ==> down.mention_highlighted_index == place + 1
            &&& place + 1 == count ==> down.mention_highlighted_index == 0
            &&& place > 0 ==> up.mention_highlighted_index == place - 1
            &&& place == 0 ==> up.mention_highlighted_index == count - 1
            &&& down.highlight_moved(false) == panel
            &&& up.highlight_moved(true) == panel
        }),
{
    let place = panel.mention_highlighted_index as int;
    let count = panel.mention_results.len() as int;
    if place + 1 < count {
        assert((place + 1) % count == place + 1) by (nonlinear_arith)
            requires
                0 <= place,
                place + 1 < count,
        ;
    } else {
        assert(count % count == 0) by (nonlinear_arith)
            requires
                count > 0,
        ;
    }
    if place > 0 {
        assert((place - 1 + 1) % count == place) by (nonlinear_arith)
            requires
                0 < place < count,
        ;
    }
}

proof fn lemma_picker_keys()
    ensures
        "up"@.len() == 2,
        "arrowup"@.len() == 7,
        "down"@.len() == 4,
        "arrowdown"@.len() == 9,
        "enter"@.len() == 5,
        "tab"@.len() == 3,
        "escape"@.len() == 6,
{
    reveal_strlit("up");
    reveal_strlit("arrowup");
    reveal_strlit("down");
    reveal_strlit("arrowdown");
    reveal_strlit("enter");
    reveal_strlit("tab");
    reveal_strlit("escape");
}

/// While the picker is open its keys are its own: up and down move the highlight, enter and tab
/// choose the highlighted source, escape closes it. Every other key, and every key while it is
/// closed, goes to the question.
pub proof fn law_picker_keys(panel: PanelModel, keystroke: KeystrokeModel)
    requires
        0 < panel.mention_results.len() <= 8,
        panel.mention_highlighted_index < panel.mention_results.len(),
        forall|i: int|
            0 <= i < panel.mention_results.len() ==> (#[trigger] panel.mention_results[i])
                < panel.mention_candidates.len(),
    ensures
        ({
            let key = ascii_lower_case(keystroke.key);
            let step = panel.picker_step(keystroke);
            let place = panel.mention_highlighted_index as int;
            &&& panel.mention_query is None ==> step is None
            &&& panel.mention_query is Some && (key == "up"@ || key == "arrowup"@) ==> step == Some(
                panel.highlight_moved(false),
            )
            &&& panel.mention_query is Some && (key == "down"@ || key == "arrowdown"@) ==> step
                == Some(panel.highlight_moved(true))
            &&& panel.mention_query is Some && (key == "enter"@ || key == "tab"@)
                && !keystroke.modifiers.secondary ==> step == Some(
                panel.mention_chosen(
                    panel.mention_query->0,
                    panel.mention_results[place] as int,
                ),
            )
            &&& panel.mention_query is Some && key == "escape"@ ==> step == Some(
                panel.picker_closed(),
            )
            &&& key != "up"@ && key != "arrowup"@ && key != "down"@ && key != "arrowdown"@ && key
                != "enter"@ && key != "tab"@ && key != "escape"@ ==> step is None
        }),
{
    lemma_picker_keys();
}

/// A key that the picker leaves goes to the question: what it changes is looked up in the sources
/// and clears the error; a submitted question is sent; closing takes the keyboard away.
pub proof fn law_other_keys_reach_the_question(
    panel: PanelModel,
    keystroke: KeystrokeModel,
    clipboard: Option<Seq<char>>,
    message_id: Seq<char>,
    revision: u64,
)
    requires
        panel.mention_query is None,
    ensures
        ({
            let after = panel.keyed(keystroke, clipboard, message_id, revision);
            let step = key_step(panel.input, keystroke, true, clipboard);
            let typed = PanelModel { input: step.input, ..panel };
            &&& step.action is Changed ==> {
                &&& after.input == step.input
                &&& after.error is None
                &&& after.mention_query == query_at_cursor(step.input)
                &&& after.messages == panel.messages
            }
            &&& step.action is Submit ==> after == typed.submitted(message_id, revision)
            &&& step.action is Close ==> !after.input.is_focused && after.input.value
                == step.input.value && after.messages == panel.messages
            &&& step.action is Ignored ==> after == typed
        }),
{
}

/// A question is refused where it is blank, has more than 32768 bytes or has no model to go to;
/// then the panel says why, and nothing else changes.
pub proof fn law_refused_question_is_explained(
    panel: PanelModel,
    message_id: Seq<char>,
    revision: u64,
)
    ensures
        ({
            let content = trimmed(panel.input.value);
            let after = panel.submitted(message_id, revision);
            let is_taken = 0 < content.len() && utf8_len(content) <= 32768 && 0
                < panel.models.len();
            &&& !is_taken ==> (PanelModel { error: panel.error, ..after }) == panel
            &&& content.len() == 0 ==> after.error == Some("请输入需要分析的问题"@)
            &&& 0 < content.len() && utf8_len(content) > 32768 ==> after.error == Some(
                "单条消息不能超过 32 KiB"@,
            )
            &&& 0 < content.len() && utf8_len(content) <= 32768 && panel.models.len() == 0
                ==> after.error == Some("尚未配置已启用模型"@)
            &&& is_taken ==> after.error is None
        }),
{
}

/// A question that is taken waits at the end of the conversation, trimmed, with the sources that
/// it names beside it; the input is empty and keeps the keyboard; no choice is left.
pub proof fn law_taken_question_waits(
    panel: PanelModel,
    message_id: Seq<char>,
    revision: u64,
)
    requires
        0 < trimmed(panel.input.value).len(),
        utf8_len(trimmed(panel.input.value)) <= 32768,
        0 < panel.models.len(),
        panel.scope_revision is Some ==> panel.scope_revision->0 == revision,
    ensures
        ({
            let content = trimmed(panel.input.value);
            let after = panel.submitted(message_id, revision);
            let message = UserMessageModel {
                message_id,
                content,
                status: AgentUserMessageStatus::Queued,
            };
            let count = panel.messages.len() as int;
            &&& after.messages == panel.messages.push(MessageModel::User(message))
            &&& after.pending_runtime_messages == panel.pending_runtime_messages.insert(
                message_id,
                runtime_message(content, panel.selected_mentions),
            )
            &&& after.input.value.len() == 0
            &&& after.input.is_focused
            &&& after.selected_mentions.len() == 0
            &&& after.mention_query is None
            &&& after.status == panel.status
            &&& after.outbox[panel.outbox.len() as int] == (EffectModel::SpliceRows {
                start: count,
                end: count,
                new_count: 1,
            })
            &&& panel.status is Idle && panel.scope is None ==> after.outbox.last() is BeginScan
            &&& panel.status is Idle && panel.scope is Some ==> after.outbox.last() is BeginTurn
            &&& panel.status is Scanning || panel.status is Cancelling ==> after.outbox.len()
                == panel.outbox.len() + 1
            &&& panel.status is Running && !panel.takes_messages ==> after.outbox.len()
                == panel.outbox.len() + 1
            &&& panel.status is Running && panel.takes_messages ==> after.outbox.last()
                == EffectModel::SendMessage(
                UserMessageModel {
                    content: runtime_message(content, panel.selected_mentions),
                    ..message
                },
            )
        }),
{
}

/// What is sent to the model for a message is what was kept for it, else what it says.
pub proof fn law_kept_text_is_sent(
    message: UserMessageModel,
    pending: Map<Seq<char>, Seq<char>>,
)
    ensures
        pending.contains_key(message.message_id) ==> text_for_model(message, pending)
            == pending[message.message_id],
        !pending.contains_key(message.message_id) ==> text_for_model(message, pending)
            == message.content,
{
}

/// A scan begins only while nothing runs and there is something to scan. It gets a number of its
/// own and is told in the conversation.
pub proof fn law_scan_begins_when_idle(panel: PanelModel, has_roots: bool, now: TraceTime)
    ensures
        ({
            let after = panel.scan_begun(has_roots, now);
            let begins = panel.status is Idle && has_roots;
            &&& !(panel.status is Idle) ==> after == panel
            &&& panel.status is Idle && !has_roots ==> after == (PanelModel {
                error: Some("尚未加载日志来源"@),
                ..panel
            })
            &&& begins ==> {
                &&& after.status is Scanning
                &&& after.has_scan
                &&& after.scan_generation != panel.scan_generation
                &&& after.outbox.last() == (EffectModel::RunScan {
                    generation: after.scan_generation,
                })
                &&& after.messages == panel.messages.push(
                    MessageModel::Trace(
                        TraceModel {
                            kind: AgentTraceKind::Status,
                            title: "正在扫描全部来源"@,
                            detail: "正在补齐未展开目录和归档，并匹配日志类型说明"@,
                            created_at: now,
                        },
                    ),
                )
                &&& after.error == panel.error
            }
        }),
{
}

/// A scheduled scan begins only where nothing has changed since and it is still needed.
pub proof fn law_scheduled_scan_begins_where_needed(panel: PanelModel, generation: u64)
    ensures
        ({
            let after = panel.scheduled_scan_due(generation);
            let is_due = generation == panel.scan_generation && panel.status is Idle
                && panel.scope is None && panel.has_loaded_sources;
            &&& is_due ==> after.outbox == panel.outbox.push(EffectModel::BeginScan)
            &&& !is_due ==> after == panel
            &&& after.messages == panel.messages
        }),
{
}

/// A failed scan is over and tells why, as an error and as a warning; a cancelled one is over
/// without a word.
pub proof fn law_failed_scan_is_told(panel: PanelModel, error: Seq<char>, now: TraceTime)
    ensures
        ({
            let after = panel.scan_failed(error, now);
            &&& after.status is Idle
            &&& !after.has_scan
            &&& stands_in("已取消"@, error) ==> after.messages == panel.messages && after.error
                == panel.error && after.outbox == panel.outbox
            &&& !stands_in("已取消"@, error) ==> {
                &&& after.error == Some("来源树完整扫描失败："@ + error)
                &&& after.messages == panel.messages.push(
                    MessageModel::Trace(
                        TraceModel {
                            kind: AgentTraceKind::Warning,
                            title: "来源扫描失败"@,
                            detail: error,
                            created_at: now,
                        },
                    ),
                )
            }
        }),
{
    law_parts_are_found("已取消"@, error);
}

/// A scan that found something out of date is over; the sources are scanned again, and the
/// conversation says why.
pub proof fn law_outdated_scan_is_made_again(
    panel: PanelModel,
    error: Seq<char>,
    revision: u64,
    now: TraceTime,
)
    ensures
        ({
            let after = panel.scan_refused(error, revision, now);
            &&& after.status is Idle
            &&& after.scope_revision == Some(revision)
            &&& after.has_loaded_sources
            &&& after.scope == panel.scope
            &&& after.messages == panel.messages.push(
                MessageModel::Trace(
                    TraceModel {
                        kind: AgentTraceKind::Status,
                        title: "来源扫描已重新调度"@,
                        detail: error,
                        created_at: now,
                    },
                ),
            )
            &&& panel.scope is None ==> after.outbox[panel.outbox.len() as int]
                == (EffectModel::ScheduleScan { generation: panel.scan_generation })
        }),
{
}

/// A completed scan fixes the scope and its candidates, tells how many files and log types it
/// found, and asks for the turn that waits.
pub proof fn law_completed_scan_fixes_the_scope(
    panel: PanelModel,
    scope: ScopeModel,
    candidates: Seq<CandidateModel>,
    warning_count: usize,
    revision: u64,
    now: TraceTime,
)
    ensures
        ({
            let after = panel.scan_completed(scope, candidates, warning_count, revision, now);
            let found = "已固化 "@ + decimal_text(scope.sources.len()) + " 个日志文件，匹配 "@
                + decimal_text(scope.profile_count as nat) + " 种日志类型说明"@;
            let note = after.messages[after.messages.len() - 1];
            &&& after.scope == Some(scope)
            &&& after.mention_candidates == candidates
            &&& after.scope_revision == Some(revision)
            &&& after.has_loaded_sources == (scope.sources.len() > 0)
            &&& after.status is Idle
            &&& after.outbox.last() is BeginTurn
            &&& after.messages.len() == panel.messages.len() + 1
            &&& after.messages.take(panel.messages.len() as int) == panel.messages
            &&& note is Trace
            &&& note->Trace_0.kind is Status
            &&& note->Trace_0.title == "全部来源扫描完成"@
            &&& warning_count == 0 ==> note->Trace_0.detail == found
            &&& warning_count > 0 ==> note->Trace_0.detail == found + ("，包含 "@ + decimal_text(
                warning_count as nat,
            ) + " 项可容忍警告"@)
        }),
{
    let after = panel.scan_completed(scope, candidates, warning_count, revision, now);
    assert(after.messages.take(panel.messages.len() as int) =~= panel.messages);
    let found = "已固化 "@ + decimal_text(scope.sources.len()) + " 个日志文件，匹配 "@
        + decimal_text(scope.profile_count as nat) + " 种日志类型说明"@;
    assert(found + Seq::<char>::empty() =~= found);
}

/// New sources end a scan that runs and schedule another; while nothing runs and none has been
/// scanned they schedule one; else they are only remembered.
pub proof fn law_new_sources_are_scanned(
    panel: PanelModel,
    revision: u64,
    has_loaded_sources: bool,
)
    ensures
        ({
            let after = panel.revision_accepted(revision, has_loaded_sources);
            &&& after.has_loaded_sources == has_loaded_sources
            &&& after.scope_revision == Some(revision)
            &&& panel.status is Scanning ==> {
                &&& after.status is Idle
                &&& after.scope is None
                &&& !after.has_scan
                &&& after.scan_generation != panel.scan_generation
                &&& after.mention_candidates.len() == 0
                &&& after.selected_mentions.len() == 0
                &&& has_loaded_sources ==> after.outbox.last() == (EffectModel::ScheduleScan {
                    generation: after.scan_generation,
                })
                &&& !has_loaded_sources && panel.has_scan ==> after.outbox == panel.outbox.push(
                    EffectModel::CancelScan,
                )
                &&& !has_loaded_sources && !panel.has_scan ==> after.outbox == panel.outbox
            }
            &&& panel.status is Idle && panel.scope is None && has_loaded_sources ==> after.outbox
                == panel.outbox.push(
                EffectModel::ScheduleScan { generation: panel.scan_generation },
            )
            &&& !(panel.status is Scanning) ==> after.scope == panel.scope && after.status
                == panel.status
            &&& panel.status is Running || panel.status is Cancelling ==> after.outbox
                == panel.outbox
        }),
{
}

proof fn lemma_waiting_is_filter(messages: Seq<MessageModel>, pending: Map<Seq<char>, Seq<char>>)
    ensures
        waiting_ids(messages) == messages.filter(
            |message: MessageModel| message is User && message->User_0.status is Queued,
        ).map_values(|message: MessageModel| message->User_0.message_id),
        waiting_texts(messages, pending) == messages.filter(
            |message: MessageModel| message is User && message->User_0.status is Queued,
        ).map_values(|message: MessageModel| text_for_model(message->User_0, pending)),
    decreases messages.len(),
{
    reveal(Seq::filter);
    let queued = |message: MessageModel| message is User && message->User_0.status is Queued;
    let id = |message: MessageModel| message->User_0.message_id;
    let text = |message: MessageModel| text_for_model(message->User_0, pending);
    if messages.len() > 0 {
        let shorter = messages.drop_last();
        let last = messages.last();
        lemma_waiting_is_filter(shorter, pending);
        assert(waits(last) == queued(last));
        let earlier = shorter.filter(queued);
        assert(earlier.push(last).map_values(id) =~= earlier.map_values(id).push(id(last)));
        assert(earlier.push(last).map_values(text) =~= earlier.map_values(text).push(text(last)));
    } else {
        assert(waiting_ids(messages) =~= messages.filter(queued).map_values(id));
        assert(waiting_texts(messages, pending) =~= messages.filter(queued).map_values(text));
    }
}

/// A turn begins only while nothing runs, with a message that waits, a scope, a model and a key;
/// what is missing is told, and nothing else changes.
pub proof fn law_turn_begins_when_all_is_there(
    panel: PanelModel,
    key_error: Option<Seq<char>>,
)
    ensures
        ({
            let after = panel.turn_begun(key_error);
            let is_asked = panel.status is Idle && some_waits(panel.messages);
            let has_model = panel.selected_model_id is Some && exists|i: int|
                0 <= i < panel.models.len() && (#[trigger] panel.models[i]).profile_id
                    == panel.selected_model_id->0;
            &&& !is_asked ==> after == panel
            &&& is_asked && panel.scope is None ==> after == (PanelModel {
                error: Some("来源范围尚未准备完成"@),
                ..panel
            })
            &&& is_asked && panel.scope is Some && !has_model ==> after == (PanelModel {
                error: Some("当前模型配置已经失效"@),
                ..panel
            })
            &&& is_asked && panel.scope is Some && has_model && key_error is Some ==> after
                == (PanelModel { error: key_error, ..panel })
            &&& is_asked && panel.scope is Some && has_model && key_error is None ==> after.status
                is Running
        }),
{
    lemma_has_waiting(panel);
    if panel.selected_model_id is Some {
        lemma_place_is_first(panel.models, panel.selected_model_id->0);
    }
}

proof fn lemma_has_waiting(panel: PanelModel)
    ensures
        panel.has_waiting() == some_waits(panel.messages),
{
    if panel.has_waiting() {
        let i = choose|i: int|
            0 <= i < panel.messages.len() && waits(#[trigger] panel.messages[i]);
        assert(panel.messages[i] is User);
    }
    if some_waits(panel.messages) {
        let i = choose|i: int|
            0 <= i < panel.messages.len() && (#[trigger] panel.messages[i]) is User
                && panel.messages[i]->User_0.status is Queued;
        assert(waits(panel.messages[i]));
    }
}

proof fn lemma_place_is_first(profiles: Seq<ModelProfileModel>, id: Seq<char>)
    ensures
        match profile_place(profiles, id) {
            Some(place) => 0 <= place < profiles.len() && profiles[place].profile_id == id
                && forall|j: int| 0 <= j < place ==> (#[trigger] profiles[j]).profile_id != id,
            None => forall|j: int|
                0 <= j < profiles.len() ==> (#[trigger] profiles[j]).profile_id != id,
        },
    decreases profiles.len(),
{
    if profiles.len() > 0 && profiles[0].profile_id != id {
        let rest = profiles.skip(1);
        lemma_place_is_first(rest, id);
        assert forall|j: int| 0 < j < profiles.len() implies profiles[j] == rest[j - 1] by {}
    }
}

/// A turn that begins takes in every message that waits, in order: each is marked as consumed and
/// handed over with what was kept for it. It has a number of its own, begins behind the last
/// message, has spent nothing, and leaves no error.
pub proof fn law_turn_takes_in_what_waits(panel: PanelModel)
    requires
        panel.turn_is_ready(),
        panel.messages.len() <= usize::MAX,
    ensures
        ({
            let after = panel.turn_begun(None);
            let waiting = panel.messages.filter(
                |message: MessageModel| message is User && message->User_0.status is Queued,
            );
            &&& after.status is Running
            &&& after.has_turn
            &&& after.takes_messages
            &&& after.error is None
            &&& after.turn_generation != panel.turn_generation
            &&& after.active_turn_message_start == Some(panel.messages.len() as usize)
            &&& after.active_turn_user_message_ids == waiting.map_values(
                |message: MessageModel| message->User_0.message_id,
            )
            &&& after.budget.model_requests == 0
            &&& after.budget.total_tokens == 0
            &&& after.messages.len() == panel.messages.len()
            &&& forall|i: int|
                0 <= i < panel.messages.len() ==> {
                    let old_message = panel.messages[i];
                    let message = #[trigger] after.messages[i];
                    &&& !(old_message is User) ==> message == old_message
                    &&& old_message is User && old_message->User_0.status is Queued ==> message
                        == MessageModel::User(
                        UserMessageModel {
                            status: AgentUserMessageStatus::Consumed,
                            ..old_message->User_0
                        },
                    )
                }
            &&& after.outbox.last() == (EffectModel::RunTurn {
                generation: after.turn_generation,
                initial_messages: waiting.map_values(
                    |message: MessageModel|
                        text_for_model(message->User_0, panel.pending_runtime_messages),
                ),
            })
        }),
{
    lemma_waiting_is_filter(panel.messages, panel.pending_runtime_messages);
    let ids = waiting_ids(panel.messages);
    let after = panel.turn_begun(None);
    assert forall|i: int| 0 <= i < panel.messages.len() implies {
        let old_message = panel.messages[i];
        let message = #[trigger] after.messages[i];
        &&& !(old_message is User) ==> message == old_message
        &&& old_message is User && old_message->User_0.status is Queued ==> message
            == MessageModel::User(
            UserMessageModel {
                status: AgentUserMessageStatus::Consumed,
                ..old_message->User_0
            },
        )
    } by {
        if panel.messages[i] is User && panel.messages[i]->User_0.status is Queued {
            lemma_waiting_id_is_found(panel.messages, i);
        }
    }
}

proof fn lemma_waiting_id_is_found(messages: Seq<MessageModel>, at: int)
    requires
        0 <= at < messages.len(),
        messages[at] is User,
        messages[at]->User_0.status is Queued,
    ensures
        waiting_ids(messages).contains(messages[at]->User_0.message_id),
    decreases messages.len(),
{
    let ids = waiting_ids(messages);
    if at == messages.len() - 1 {
        assert(waits(messages.last()));
        assert(ids[ids.len() - 1] == messages[at]->User_0.message_id);
    } else {
        let shorter = messages.drop_last();
        lemma_waiting_id_is_found(shorter, at);
        let earlier = waiting_ids(shorter);
        let place = earlier.index_of(messages[at]->User_0.message_id);
        assert(ids[place] == earlier[place]);
    }
}

proof fn lemma_enabled_is_filter(profiles: Seq<ModelProfileModel>)
    ensures
        enabled_models(profiles) == profiles.filter(|profile: ModelProfileModel| profile.enabled),
    decreases profiles.len(),
{
    reveal(Seq::filter);
    if profiles.len() > 0 {
        lemma_enabled_is_filter(profiles.drop_last());
    }
}

/// The models to choose from are those that are switched on, in their order. The chosen one stays
/// chosen while it is among them, else the first is chosen; its key is looked for.
pub proof fn law_models_to_choose_from(panel: PanelModel, profiles: Seq<ModelProfileModel>)
    ensures
        ({
            let after = panel.configured(profiles);
            let stays = panel.selected_model_id is Some && exists|i: int|
                0 <= i < after.models.len() && (#[trigger] after.models[i]).profile_id
                    == panel.selected_model_id->0;
            &&& after.models == profiles.filter(|profile: ModelProfileModel| profile.enabled)
            &&& stays ==> after.selected_model_id == panel.selected_model_id
            &&& !stays && after.models.len() > 0 ==> after.selected_model_id == Some(
                after.models[0].profile_id,
            )
            &&& !stays && after.models.len() == 0 ==> after.selected_model_id is None
            &&& after.outbox == panel.outbox.push(EffectModel::CheckCredential)
            &&& after.messages == panel.messages
        }),
{
    lemma_enabled_is_filter(profiles);
    if panel.selected_model_id is Some {
        lemma_place_is_first(enabled_models(profiles), panel.selected_model_id->0);
    }
}

/// Switching goes from the chosen model to the next one in order and from the last to the first,
/// while nothing runs and there is more than one.
pub proof fn law_models_are_switched_in_turn(panel: PanelModel, place: int)
    requires
        0 <= place < panel.models.len(),
        panel.selected_model_id == Some(panel.models[place].profile_id),
        forall|j: int|
            0 <= j < place ==> (#[trigger] panel.models[j]).profile_id
                != panel.models[place].profile_id,
    ensures
        ({
            let after = panel.next_model_chosen();
            let count = panel.models.len() as int;
            let switches = panel.status is Idle && count > 1;
            &&& !switches ==> after == panel
            &&& switches && place + 1 < count ==> after.selected_model_id == Some(
                panel.models[place + 1].profile_id,
            )
            &&& switches && place + 1 == count ==> after.selected_model_id == Some(
                panel.models[0].profile_id,
            )
            &&& switches ==> after.error is None && after.outbox == panel.outbox.push(
                EffectModel::CheckCredential,
            ) && after.models == panel.models
        }),
{
    lemma_place_is_first(panel.models, panel.models[place].profile_id);
    let found = profile_place(panel.models, panel.models[place].profile_id)->0;
    if found < place {
        assert(panel.models[found].profile_id != panel.models[place].profile_id);
    }
    let count = panel.models.len() as int;
    if place + 1 < count {
        assert((place + 1) % count == place + 1) by (nonlinear_arith)
            requires
                0 <= place,
                place + 1 < count,
        ;
    } else {
        assert(count % count == 0) by (nonlinear_arith)
            requires
                count > 0,
        ;
    }
}

/// The panel says why it cannot answer: there is no model, or the chosen model's key is missing.
/// An error about a key is forgotten where no model is chosen.
pub proof fn law_panel_says_why_it_cannot_answer(
    panel: PanelModel,
    error: Option<Seq<char>>,
)
    ensures
        ({
            let has_model = panel.selected_model_id is Some && exists|i: int|
                0 <= i < panel.models.len() && (#[trigger] panel.models[i]).profile_id
                    == panel.selected_model_id->0;
            &&& !has_model ==> panel.unavailable() == Some(
                "尚未配置已启用模型，请先完成模型配置。"@,
            )
            &&& has_model ==> panel.unavailable() == panel.credential_error
            &&& has_model ==> panel.credential_known(error).credential_error == error
            &&& !has_model ==> panel.credential_known(error).credential_error is None
            &&& panel.credential_known(error).messages == panel.messages
        }),
{
    if panel.selected_model_id is Some {
        lemma_place_is_first(panel.models, panel.selected_model_id->0);
    }
}

/// Toggling a group of tools turns that group from folded to open or back, and no other message.
pub proof fn law_toggling_turns_one_group(panel: PanelModel, index: int)
    ensures
        ({
            let after = panel.group_toggled(index);
            let is_group = 0 <= index < panel.messages.len() && panel.messages[index] is ToolGroup;
            &&& !is_group ==> after == panel
            &&& is_group ==> crate::conversation_laws::changes_message(
                panel,
                after,
                index,
                (MessageModel::ToolGroup {
                    traces: panel.messages[index]->traces,
                    is_expanded: !panel.messages[index]->is_expanded,
                }),
            )
        }),
{
}

/// Jumping to the newest message scrolls there and follows it from then on.
pub proof fn law_jumping_follows_the_newest(panel: PanelModel)
    ensures
        panel.jumped().is_following_latest,
        panel.jumped().outbox == panel.outbox.push(EffectModel::ScrollToLatest),
        panel.jumped().messages == panel.messages,
{
}

/// A changed configuration lets go of the scope and of every choice, keeps the question in the
/// input and what was answered before, says why, and schedules a scan.
pub proof fn law_changed_configuration_starts_over(
    panel: PanelModel,
    revision: u64,
    reason: Seq<char>,
    now: TraceTime,
)
    ensures
        ({
            let after = panel.invalidated(revision, reason, now);
            let note = after.messages[after.messages.len() - 1];
            let asks_again = panel.status is Running && exists|i: int|
                0 <= i < panel.messages.len() && (#[trigger] panel.messages[i]) is User
                    && panel.active_turn_user_message_ids.contains(
                    panel.messages[i]->User_0.message_id,
                );
            &&& after.scope is None
            &&& after.scope_revision == Some(revision)
            &&& after.status is Idle
            &&& after.error is None
            &&& after.mention_candidates.len() == 0
            &&& after.selected_mentions.len() == 0
            &&& after.input == panel.input
            &&& after.history == panel.history
            &&& after.turn_generation != panel.turn_generation
            &&& after.scan_generation != panel.scan_generation
            &&& note is Trace
            &&& note->Trace_0.title == "智能分析配置已更新"@
            &&& asks_again ==> note->Trace_0.detail == reason
                + "，正在重新扫描日志范围；现有对话上下文继续保留"@ + "，当前问题已重新排队"@ + "。"@
            &&& !asks_again ==> note->Trace_0.detail == reason
                + "，正在重新扫描日志范围；现有对话上下文继续保留"@ + "。"@
            &&& panel.has_loaded_sources ==> after.outbox.last() == (EffectModel::ScheduleScan {
                generation: after.scan_generation,
            })
            &&& !panel.has_loaded_sources ==> !(after.outbox.last() is ScheduleScan)
        }),
{
    let front = reason + "，正在重新扫描日志范围；现有对话上下文继续保留"@;
    assert(front + Seq::<char>::empty() + "。"@ =~= front + "。"@);
    let asks_again = panel.status is Running && exists|i: int|
        0 <= i < panel.messages.len() && (#[trigger] panel.messages[i]) is User
            && panel.active_turn_user_message_ids.contains(panel.messages[i]->User_0.message_id);
    if panel.takes_back_question() {
        let i = choose|i: int|
            0 <= i < panel.messages.len() && crate::assistant_model::is_one_of(
                #[trigger] panel.messages[i],
                panel.active_turn_user_message_ids,
            );
        assert(panel.messages[i] is User);
    }
    if asks_again {
        let i = choose|i: int|
            0 <= i < panel.messages.len() && (#[trigger] panel.messages[i]) is User
                && panel.active_turn_user_message_ids.contains(
                panel.messages[i]->User_0.message_id,
            );
        assert(crate::assistant_model::is_one_of(
            panel.messages[i],
            panel.active_turn_user_message_ids,
        ));
    }
}

} // verus!
