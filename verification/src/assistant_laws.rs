//! What holds of the assistant's panel across its steps.

use vstd::prelude::*;
use crate::agent::{
    queued_message, AgentStreamKind, AgentUserMessageStatus, CitationModel, UserMessageModel,
};
use crate::agent_event::EventModel;
use crate::ai_config::{enabled_models, profile_place, ModelProfileModel};
use crate::assistant_model::{
    is_one_of, last_answer, next_generation, staying, stays, waiting_ids, waiting_texts, waits,
    with_status, with_statuses, without_keys, EffectModel, MessageModel, PanelModel,
};
use crate::clock::TraceTime;
use crate::mention_query::{runtime_message, QueryModel};
use crate::mentions::SelectedModel;
use crate::text::trimmed;

verus! {

// ---------------------------------------------------------------------------
// The conversation outlives its surroundings
// ---------------------------------------------------------------------------

/// Sources that grow never touch the conversation.
pub proof fn law_growing_sources_keep_conversation(
    panel: PanelModel,
    revision: u64,
    has_loaded_sources: bool,
)
    ensures
        ({
            let after = panel.revision_accepted(revision, has_loaded_sources);
            &&& after.messages == panel.messages
            &&& after.history == panel.history
            &&& after.input == panel.input
            &&& after.error == panel.error
            &&& after.scope_revision == Some(revision)
        }),
{
}

proof fn lemma_staying(messages: Seq<MessageModel>, users_only: bool)
    ensures
        staying(messages, users_only).len() <= messages.len(),
        forall|i: int|
            0 <= i < staying(messages, users_only).len() ==> stays(
                #[trigger] staying(messages, users_only)[i],
                users_only,
            ) && messages.contains(staying(messages, users_only)[i]),
        forall|i: int|
            0 <= i < messages.len() && stays(#[trigger] messages[i], users_only) ==> staying(
                messages,
                users_only,
            ).contains(messages[i]),
    decreases messages.len(),
{
    if messages.len() > 0 {
        let shorter = messages.drop_last();
        let kept = staying(shorter, users_only);
        let all = staying(messages, users_only);
        lemma_staying(shorter, users_only);
        assert forall|i: int| 0 <= i < all.len() implies stays(#[trigger] all[i], users_only)
            && messages.contains(all[i]) by {
            if i < kept.len() {
                assert(all[i] == kept[i]);
                let k = choose|k: int| 0 <= k < shorter.len() && shorter[k] == kept[i];
                assert(messages[k] == all[i]);
            } else {
                assert(all[i] == messages[messages.len() - 1]);
            }
        }
        assert forall|i: int|
            0 <= i < messages.len() && stays(#[trigger] messages[i], users_only) implies all.contains(
            messages[i],
        ) by {
            if i < messages.len() - 1 {
                assert(shorter[i] == messages[i]);
                let k = choose|k: int| 0 <= k < kept.len() && kept[k] == messages[i];
                assert(all[k] == messages[i]);
            } else {
                assert(all[all.len() - 1] == messages[i]);
            }
        }
    }
}

/// When the settings change while an answer is under way, its questions wait
/// again, and nothing that the model said since it began is left. What stood in
/// front of it keeps its place.
pub proof fn law_changed_settings_requeue_question(panel: PanelModel, start: usize)
    requires
        panel.status is Running,
        panel.active_turn_message_start == Some(start),
        start <= panel.messages.len(),
    ensures
        ({
            let after = panel.messages_taken_back();
            let ids = panel.active_turn_user_message_ids;
            &&& start <= after.len()
            &&& forall|i: int|
                0 <= i < start ==> (#[trigger] after[i]) == (if is_one_of(panel.messages[i], ids) {
                    with_status(panel.messages[i], AgentUserMessageStatus::Queued)
                } else {
                    panel.messages[i]
                })
            &&& forall|i: int| start <= i < after.len() ==> (#[trigger] after[i]) is User
            &&& forall|i: int|
                0 <= i < after.len() && is_one_of(#[trigger] after[i], ids) ==> waits(after[i])
        }),
{
    let ids = panel.active_turn_user_message_ids;
    let marked = with_statuses(panel.messages, ids, AgentUserMessageStatus::Queued);
    let after = panel.messages_taken_back();
    let tail = marked.skip(start as int);
    lemma_staying(tail, true);
    assert forall|i: int| 0 <= i < after.len() && is_one_of(#[trigger] after[i], ids) implies waits(
        after[i],
    ) by {
        if i < start {
            assert(after[i] == marked[i]);
        } else if start < marked.len() {
            assert(after[i] == staying(tail, true)[i - start]);
            let k = choose|k: int| 0 <= k < tail.len() && tail[k] == after[i];
            assert(tail[k] == marked[k + start]);
        }
    }
    assert forall|i: int| start <= i < after.len() implies (#[trigger] after[i]) is User by {
        if start < marked.len() {
            assert(after[i] == staying(tail, true)[i - start]);
        }
    }
}

/// When the settings change while an answer is under way, no message of the user
/// is lost.
pub proof fn law_changed_settings_keep_user_messages(panel: PanelModel, at: int)
    requires
        panel.status is Running,
        0 <= at < panel.messages.len(),
        panel.messages[at] is User,
    ensures
        exists|i: int|
            0 <= i < panel.messages_taken_back().len() && (
            #[trigger] panel.messages_taken_back()[i]) is User
                && panel.messages_taken_back()[i]->User_0.message_id
                == panel.messages[at]->User_0.message_id
                && panel.messages_taken_back()[i]->User_0.content
                == panel.messages[at]->User_0.content,
{
    let ids = panel.active_turn_user_message_ids;
    let marked = with_statuses(panel.messages, ids, AgentUserMessageStatus::Queued);
    let after = panel.messages_taken_back();
    assert(marked[at] is User);
    match panel.active_turn_message_start {
        Some(start) => {
            if start < marked.len() {
                let tail = marked.skip(start as int);
                if at < start {
                    assert(after[at] == marked[at]);
                } else {
                    lemma_staying(tail, true);
                    assert(tail[at - start] == marked[at]);
                    let kept = staying(tail, true);
                    let k = choose|k: int| 0 <= k < kept.len() && kept[k] == marked[at];
                    assert(after[start + k] == marked[at]);
                }
            } else {
                assert(after[at] == marked[at]);
            }
        },
        None => {
            assert(after[at] == marked[at]);
        },
    }
}

/// When the settings change, the user is told that the question waits again exactly
/// where one of its messages does: it is there and waits.
pub proof fn law_requeued_question_waits(panel: PanelModel)
    ensures
        panel.takes_back_question() == (panel.status is Running && exists|i: int|
            0 <= i < panel.messages_taken_back().len() && is_one_of(
                #[trigger] panel.messages_taken_back()[i],
                panel.active_turn_user_message_ids,
            ) && waits(panel.messages_taken_back()[i])),
{
    let ids = panel.active_turn_user_message_ids;
    let marked = with_statuses(panel.messages, ids, AgentUserMessageStatus::Queued);
    let after = panel.messages_taken_back();
    if panel.status is Running {
        let start = match panel.active_turn_message_start {
            Some(start) => if start < marked.len() {
                start as int
            } else {
                marked.len() as int
            },
            None => marked.len() as int,
        };
        let tail = marked.skip(start);
        lemma_staying(tail, true);
        assert(after =~= marked.take(start) + staying(tail, true));
        if panel.takes_back_question() {
            let at = choose|i: int|
                0 <= i < panel.messages.len() && is_one_of(#[trigger] panel.messages[i], ids);
            assert(is_one_of(marked[at], ids) && waits(marked[at]));
            if at < start {
                assert(after[at] == marked[at]);
            } else {
                assert(tail[at - start] == marked[at]);
                let kept = staying(tail, true);
                let k = choose|k: int| 0 <= k < kept.len() && kept[k] == marked[at];
                assert(after[start + k] == marked[at]);
            }
        }
        if exists|i: int| 0 <= i < after.len() && is_one_of(#[trigger] after[i], ids) {
            let i = choose|i: int| 0 <= i < after.len() && is_one_of(#[trigger] after[i], ids);
            let at = if i < start {
                i
            } else {
                assert(after[i] == staying(tail, true)[i - start]);
                start + choose|k: int| 0 <= k < tail.len() && tail[k] == after[i]
            };
            assert(after[i] == marked[at]);
            assert(is_one_of(panel.messages[at], ids));
        }
    }
}

/// Changed settings keep what later questions build on, and leave the assistant
/// idle without a scan's result.
pub proof fn law_changed_settings_keep_history(
    panel: PanelModel,
    revision: u64,
    reason: Seq<char>,
    now: TraceTime,
)
    ensures
        ({
            let after = panel.invalidated(revision, reason, now);
            &&& after.history == panel.history
            &&& after.input == panel.input
            &&& after.status is Idle
            &&& after.scope is None
            &&& after.active_turn_user_message_ids.len() == 0
            &&& after.messages.len() == panel.taken_back().messages.len() + 1
            &&& after.messages.drop_last() == panel.taken_back().messages
        }),
{
    let after = panel.invalidated(revision, reason, now);
    assert(after.messages.drop_last() =~= panel.taken_back().messages);
}

proof fn lemma_last_answer(messages: Seq<MessageModel>, start: int)
    requires
        0 <= start,
    ensures
        last_answer(messages, start) matches Some(index) ==> start <= index < messages.len()
            && messages[index] is Answer,
    decreases messages.len(),
{
    if messages.len() > 0 && messages.len() > start && !(messages.last() is Answer) {
        lemma_last_answer(messages.drop_last(), start);
    }
}

/// A complete answer changes nothing that stood there before its turn began.
pub proof fn law_answer_leaves_earlier_turns_alone(
    panel: PanelModel,
    output: Seq<char>,
    citations: Seq<CitationModel>,
)
    ensures
        panel.answered(output, citations).messages.len() >= panel.messages.len(),
        forall|i: int|
            0 <= i < panel.turn_start() ==> (#[trigger] panel.answered(
                output,
                citations,
            ).messages[i]) == panel.messages[i],
{
    lemma_last_answer(panel.messages, panel.turn_start());
}

/// When the model starts over, everything in front of its turn keeps its place,
/// none of its thoughts and answers since are left, and everything else since is.
pub proof fn law_starting_over_drops_model_text(panel: PanelModel, start: usize)
    requires
        panel.active_turn_message_start == Some(start),
        start <= panel.messages.len(),
    ensures
        ({
            let after = panel.attempt_reset().messages;
            &&& start <= after.len() <= panel.messages.len()
            &&& after.take(start as int) == panel.messages.take(start as int)
            &&& forall|i: int|
                start <= i < after.len() ==> !((#[trigger] after[i]) is Reasoning) && !(after[i]
                    is Answer)
            &&& forall|i: int|
                start <= i < panel.messages.len() && stays(#[trigger] panel.messages[i], false)
                    ==> after.contains(panel.messages[i])
        }),
{
    let after = panel.attempt_reset().messages;
    let tail = panel.messages.skip(start as int);
    lemma_staying(tail, false);
    assert(after.take(start as int) =~= panel.messages.take(start as int));
    if start < panel.messages.len() {
        let kept = staying(tail, false);
        assert forall|i: int| start <= i < after.len() implies !((#[trigger] after[i])
            is Reasoning) && !(after[i] is Answer) by {
            assert(after[i] == kept[i - start]);
        }
        assert forall|i: int|
            start <= i < panel.messages.len() && stays(
                #[trigger] panel.messages[i],
                false,
            ) implies after.contains(panel.messages[i]) by {
            assert(tail[i - start] == panel.messages[i]);
            let k = choose|k: int| 0 <= k < kept.len() && kept[k] == panel.messages[i];
            assert(after[start + k] == panel.messages[i]);
        }
    }
}

/// Text that arrives in two pieces is shown as if it had arrived in one.
pub proof fn law_pieces_of_text_merge(
    panel: PanelModel,
    kind: AgentStreamKind,
    first: Seq<char>,
    second: Seq<char>,
)
    requires
        first.len() > 0,
    ensures
        panel.streamed(kind, first).streamed(kind, second).messages == panel.streamed(
            kind,
            first + second,
        ).messages,
{
    let once = panel.streamed(kind, first);
    let twice = once.streamed(kind, second);
    let whole = panel.streamed(kind, first + second);
    if second.len() == 0 {
        assert(first + second =~= first);
    } else {
        assert(once.messages.last() is Reasoning || once.messages.last() is Answer);
        if panel.messages.len() > 0 {
            let last = panel.messages.last();
            assert(last->Reasoning_0 + (first + second) =~= last->Reasoning_0 + first + second);
            assert(last->content + (first + second) =~= last->content + first + second);
        }
        assert(twice.messages =~= whole.messages);
    }
}

// ---------------------------------------------------------------------------
// What belongs to an older answer does not count
// ---------------------------------------------------------------------------

/// Reports of another answer than the present one change nothing.
pub proof fn law_stale_reports_change_nothing(
    panel: PanelModel,
    event: EventModel,
    generation: u64,
    now: TraceTime,
)
    requires
        generation != panel.turn_generation,
    ensures
        panel.after_turn_event(event, generation, now) == panel,
{
}

/// Once everything in the background is given up, or the settings changed, no
/// report of the answer that was under way counts any more.
pub proof fn law_given_up_answer_is_stale(
    panel: PanelModel,
    event: EventModel,
    now: TraceTime,
)
    ensures
        panel.given_up().after_turn_event(event, panel.turn_generation, now) == panel.given_up(),
        panel.taken_back().after_turn_event(event, panel.turn_generation, now)
            == panel.taken_back(),
{
}

/// An answer that begins makes the reports of the one before it stale.
pub proof fn law_new_answer_outdates_old_one(panel: PanelModel)
    requires
        panel.turn_is_ready(),
    ensures
        panel.turn_begun(None).turn_generation != panel.turn_generation,
        panel.turn_begun(None).status is Running,
{
}

// ---------------------------------------------------------------------------
// What waits, and what the model gets for it
// ---------------------------------------------------------------------------

proof fn lemma_waiting_ids(messages: Seq<MessageModel>)
    ensures
        forall|i: int|
            0 <= i < messages.len() && waits(#[trigger] messages[i]) ==> waiting_ids(
                messages,
            ).contains(messages[i]->User_0.message_id),
        waiting_ids(messages).len() <= messages.len(),
    decreases messages.len(),
{
    if messages.len() > 0 {
        let shorter = messages.drop_last();
        lemma_waiting_ids(shorter);
        let all = waiting_ids(messages);
        assert forall|i: int| 0 <= i < messages.len() && waits(
            #[trigger] messages[i],
        ) implies all.contains(messages[i]->User_0.message_id) by {
            if i < messages.len() - 1 {
                assert(shorter[i] == messages[i]);
                let earlier = waiting_ids(shorter);
                let k = choose|k: int|
                    0 <= k < earlier.len() && earlier[k] == messages[i]->User_0.message_id;
                assert(all[k] == messages[i]->User_0.message_id);
            } else {
                assert(all[all.len() - 1] == messages[i]->User_0.message_id);
            }
        }
    }
}

proof fn lemma_waiting_pairs(messages: Seq<MessageModel>, pending: Map<Seq<char>, Seq<char>>)
    ensures
        waiting_texts(messages, pending).len() == waiting_ids(messages).len(),
    decreases messages.len(),
{
    if messages.len() > 0 {
        lemma_waiting_pairs(messages.drop_last(), pending);
    }
}

/// An answer that begins takes in everything that waits: nothing waits any more,
/// and the model gets one text for each message.
pub proof fn law_answer_takes_in_everything_that_waits(panel: PanelModel)
    requires
        panel.turn_is_ready(),
    ensures
        !panel.turn_begun(None).has_waiting(),
        panel.turn_begun(None).active_turn_user_message_ids == waiting_ids(panel.messages),
        waiting_texts(panel.messages, panel.pending_runtime_messages).len() == waiting_ids(
            panel.messages,
        ).len(),
        panel.turn_begun(None).outbox.last() == (EffectModel::RunTurn {
            generation: next_generation(panel.turn_generation),
            initial_messages: waiting_texts(panel.messages, panel.pending_runtime_messages),
        }),
{
    lemma_waiting_ids(panel.messages);
    lemma_waiting_pairs(panel.messages, panel.pending_runtime_messages);
    let ids = waiting_ids(panel.messages);
    let after = with_statuses(panel.messages, ids, AgentUserMessageStatus::Consumed);
    assert forall|i: int| 0 <= i < after.len() implies !waits(#[trigger] after[i]) by {
        if waits(panel.messages[i]) {
            assert(is_one_of(panel.messages[i], ids));
        }
    }
}

/// An answer that cannot begin leaves every message as it is: nothing that waits
/// is lost.
pub proof fn law_failed_start_keeps_queue(panel: PanelModel, key_error: Option<Seq<char>>)
    requires
        !panel.turn_is_ready() || key_error is Some,
    ensures
        panel.turn_begun(key_error).messages == panel.messages,
        panel.turn_begun(key_error).pending_runtime_messages == panel.pending_runtime_messages,
        panel.turn_begun(key_error).status == panel.status,
        panel.turn_begun(key_error).outbox == panel.outbox,
{
}

proof fn lemma_without_keys(texts: Map<Seq<char>, Seq<char>>, keys: Seq<Seq<char>>, id: Seq<char>)
    ensures
        without_keys(texts, keys).contains_key(id) == (texts.contains_key(id) && !keys.contains(
            id,
        )),
        without_keys(texts, keys).contains_key(id) ==> without_keys(texts, keys)[id] == texts[id],
    decreases keys.len(),
{
    if keys.len() > 0 {
        let shorter = keys.drop_last();
        lemma_without_keys(texts, shorter, id);
        if shorter.contains(id) {
            let k = choose|k: int| 0 <= k < shorter.len() && shorter[k] == id;
            assert(keys[k] == id);
        }
        if keys.contains(id) && id != keys.last() {
            let k = choose|k: int| 0 <= k < keys.len() && keys[k] == id;
            assert(shorter[k] == id);
        }
        assert(keys[keys.len() - 1] == keys.last());
    }
}

/// What the model gets for a message is kept while the message is handed over, and
/// until the answer that consumed it has ended; then it goes, and only it.
pub proof fn law_binding_lasts_until_consumed(
    panel: PanelModel,
    message: UserMessageModel,
    id: Seq<char>,
)
    ensures
        panel.message_handed_over(message).pending_runtime_messages
            == panel.pending_runtime_messages,
        panel.message_consumed(id).pending_runtime_messages == panel.pending_runtime_messages,
        panel.turn_finished().pending_runtime_messages.contains_key(id) == (
        panel.pending_runtime_messages.contains_key(id)
            && !panel.active_turn_user_message_ids.contains(id)),
        panel.turn_finished().pending_runtime_messages.contains_key(id)
            ==> panel.turn_finished().pending_runtime_messages[id]
            == panel.pending_runtime_messages[id],
{
    lemma_without_keys(panel.pending_runtime_messages, panel.active_turn_user_message_ids, id);
}

/// A message that is sent stands at the end of the conversation as the user wrote
/// it, and what the model gets for it is kept under its id.
pub proof fn law_sent_message_waits_as_written(
    panel: PanelModel,
    message_id: Seq<char>,
    revision: u64,
)
    requires
        panel.submission_error() is None,
    ensures
        ({
            let after = panel.submitted(message_id, revision);
            let content = trimmed(panel.input.value);
            &&& after.messages == panel.messages.push(
                MessageModel::User(queued_message(message_id, content)),
            )
            &&& after.pending_runtime_messages.contains_key(message_id)
            &&& after.pending_runtime_messages[message_id] == runtime_message(
                content,
                panel.up_to_date(revision).selected_mentions,
            )
            &&& after.input.value.len() == 0
            &&& after.error is None
        }),
{
}

// ---------------------------------------------------------------------------
// Choices
// ---------------------------------------------------------------------------

/// Whether no two chosen candidates are of the same kind with the same path.
pub open spec fn choices_are_distinct(selected: Seq<SelectedModel>) -> bool {
    forall|i: int, j: int|
        0 <= i < j < selected.len() ==> (#[trigger] selected[i]).candidate.kind != (
        #[trigger] selected[j]).candidate.kind || selected[i].candidate.display_path
            != selected[j].candidate.display_path
}

/// Nothing is chosen twice, and whatever was chosen is among the choices.
pub proof fn law_nothing_is_chosen_twice(panel: PanelModel, query: QueryModel, index: int)
    requires
        choices_are_distinct(panel.selected_mentions),
        0 <= index < panel.mention_candidates.len(),
    ensures
        choices_are_distinct(panel.mention_chosen(query, index).selected_mentions),
        panel.mention_chosen(query, index).has_chosen(panel.mention_candidates[index]),
{
    let candidate = panel.mention_candidates[index];
    let after = panel.mention_chosen(query, index);
    if panel.has_chosen(candidate) {
        let i = choose|i: int|
            0 <= i < panel.selected_mentions.len() && (
            #[trigger] panel.selected_mentions[i]).candidate.kind == candidate.kind
                && panel.selected_mentions[i].candidate.display_path == candidate.display_path;
        assert(after.selected_mentions[i].candidate.kind == candidate.kind);
    } else {
        assert(after.selected_mentions[panel.selected_mentions.len() as int].candidate
            == candidate);
    }
}

proof fn lemma_profile_place(profiles: Seq<ModelProfileModel>, id: Seq<char>)
    ensures
        match profile_place(profiles, id) {
            Some(index) => 0 <= index < profiles.len() && profiles[index].profile_id == id,
            None => forall|i: int|
                0 <= i < profiles.len() ==> (#[trigger] profiles[i]).profile_id != id,
        },
    decreases profiles.len(),
{
    if profiles.len() > 0 && profiles[0].profile_id != id {
        let rest = profiles.skip(1);
        lemma_profile_place(rest, id);
        assert forall|i: int| 0 < i < profiles.len() implies #[trigger] profiles[i] == rest[i
            - 1] by {}
    }
}

/// Wherever there is a model to choose, one is chosen, and a choice that is still
/// there stays.
pub proof fn law_a_model_is_always_chosen(panel: PanelModel, profiles: Seq<ModelProfileModel>)
    ensures
        enabled_models(profiles).len() > 0 ==> panel.configured(profiles).chosen_place() is Some,
        panel.selected_model_id is Some && profile_place(
            enabled_models(profiles),
            panel.selected_model_id->0,
        ) is Some ==> panel.configured(profiles).selected_model_id == panel.selected_model_id,
{
    let models = enabled_models(profiles);
    if models.len() > 0 {
        lemma_profile_place(models, models[0].profile_id);
    }
}

/// Going on to the next model always leaves a model chosen, and never while an
/// answer is under way.
pub proof fn law_next_model_is_chosen(panel: PanelModel)
    ensures
        panel.status is Idle && panel.models.len() > 1
            ==> panel.next_model_chosen().chosen_place() is Some,
        !(panel.status is Idle) ==> panel.next_model_chosen() == panel,
{
    if panel.status is Idle && panel.models.len() > 1 {
        let count = panel.models.len() as int;
        let current = match panel.chosen_place() {
            Some(index) => index,
            None => 0,
        };
        if panel.selected_model_id is Some {
            lemma_profile_place(panel.models, panel.selected_model_id->0);
        }
        let next = (current + 1) % count;
        assert(0 <= next < count);
        lemma_profile_place(panel.models, panel.models[next].profile_id);
    }
}

/// Stopping twice is the same as stopping once.
pub proof fn law_stopping_is_idempotent(panel: PanelModel)
    ensures
        panel.stopped().stopped() == panel.stopped(),
{
}

/// Opening and closing a run of tool traces leads back to where it began.
pub proof fn law_toggling_twice_restores(panel: PanelModel, index: int)
    ensures
        panel.group_toggled(index).group_toggled(index).messages == panel.messages,
{
    assert(panel.group_toggled(index).group_toggled(index).messages =~= panel.messages);
}

} // verus!
