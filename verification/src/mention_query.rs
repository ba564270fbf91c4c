//! What is being typed behind an `@`, which candidates fit it, and what the model
//! is told about the ones that were chosen.

use std::ops::Range;
use vstd::prelude::*;
use crate::keystroke::optional_text;
use crate::mentions::{
    candidate_models, kind_word, selected_models, AssistantMentionCandidate, AssistantMentionKind,
    AssistantSelectedMention, CandidateModel, SelectedModel, ASSISTANT_MENTION_RESULT_LIMIT,
    MENTION_QUERY_MAX_CHARS,
};
use crate::text::{
    behind_last, chars_of, contains_part, contains_text, is_white_space, last_segment, lower_case,
    occurs_at, starts_with_text, string_of,
};
use crate::text_input::{InputModel, TextInputState};
use crate::text_selection::min_of;

verus! {

// ---------------------------------------------------------------------------
// What is being typed
// ---------------------------------------------------------------------------

/// What is being typed behind an `@`.
#[derive(Debug, PartialEq, Eq)]
pub struct AssistantMentionQuery {
    /// From the `@` to the cursor, in characters.
    pub range: Range<usize>,
    /// What stands behind the `@`.
    pub text: String,
}

/// An [`AssistantMentionQuery`] with its text as a sequence of characters.
#[verifier::ext_equal]
pub struct QueryModel {
    /// From the `@` to the cursor.
    pub range: Range<usize>,
    /// What stands behind the `@`.
    pub text: Seq<char>,
}

impl View for AssistantMentionQuery {
    type V = QueryModel;

    open spec fn view(&self) -> QueryModel {
        QueryModel { range: self.range, text: self.text@ }
    }
}

impl AssistantMentionQuery {
    /// A second copy of the query.
    pub fn copy(&self) -> (result: AssistantMentionQuery)
        ensures
            result@ == self@,
    {
        AssistantMentionQuery {
            range: crate::text_selection::copy_range(&self.range),
            text: self.text.clone(),
        }
    }
}

/// The model of a query that may be missing.
pub open spec fn optional_query(query: Option<AssistantMentionQuery>) -> Option<QueryModel> {
    match query {
        Some(present) => Some(present@),
        None => None,
    }
}

/// Where the word begins that ends at a position: behind the last white space in
/// front of it.
pub open spec fn word_start(text: Seq<char>, end: int) -> int
    decreases end,
{
    if end <= 0 {
        0
    } else if is_white_space(text[end - 1]) {
        end
    } else {
        word_start(text, end - 1)
    }
}

/// What is being typed behind an `@`: the word at the cursor, where it begins with
/// one and holds no other, is not too long, and nothing is selected or composed.
pub open spec fn query_at_cursor(input: InputModel) -> Option<QueryModel> {
    let cursor = input.text_cursor();
    let start = word_start(input.value, cursor as int);
    if input.marked_range is Some || input.selection() is Some || start >= cursor
        || input.value[start] != '@' {
        None
    } else {
        let text = input.value.subrange(start + 1, cursor as int);
        if text.len() > MENTION_QUERY_MAX_CHARS || text.contains('@') {
            None
        } else {
            Some(QueryModel { range: Range { start: start as usize, end: cursor }, text })
        }
    }
}

proof fn lemma_word_start(text: Seq<char>, end: int)
    requires
        0 <= end <= text.len(),
    ensures
        0 <= word_start(text, end) <= end,
        forall|i: int| word_start(text, end) <= i < end ==> !is_white_space(#[trigger] text[i]),
        word_start(text, end) > 0 ==> is_white_space(text[word_start(text, end) - 1]),
    decreases end,
{
    if end > 0 && !is_white_space(text[end - 1]) {
        lemma_word_start(text, end - 1);
    }
}

fn find_word_start(characters: &Vec<char>, end: usize) -> (result: usize)
    requires
        end <= characters@.len(),
    ensures
        result == word_start(characters@, end as int),
        result <= end,
{
    let mut start: usize = end;
    while start > 0 && !characters[start - 1].is_whitespace()
        invariant
            start <= end <= characters@.len(),
            word_start(characters@, end as int) == word_start(characters@, start as int),
        decreases start,
    {
        start -= 1;
    }
    start
}

fn has_character(characters: &Vec<char>, wanted: char, start: usize, end: usize) -> (result: bool)
    requires
        start <= end <= characters@.len(),
    ensures
        result == characters@.subrange(start as int, end as int).contains(wanted),
{
    let ghost part = characters@.subrange(start as int, end as int);
    let mut i: usize = start;
    while i < end
        invariant
            start <= i <= end <= characters@.len(),
            part == characters@.subrange(start as int, end as int),
            forall|k: int| 0 <= k < i - start ==> #[trigger] part[k] != wanted,
        decreases end - i,
    {
        proof {
            assert(part[i - start] == characters@[i as int]);
        }
        if characters[i] == wanted {
            return true;
        }
        i += 1;
    }
    false
}

/// Finds what is being typed behind an `@`. In front of an `@` nothing is: the
/// query ends at the cursor.
pub fn active_mention_query(input: &TextInputState) -> (result: Option<AssistantMentionQuery>)
    ensures
        optional_query(result) == query_at_cursor(input@),
{
    if input.marked_range.is_some() || input.selection_range().is_some() {
        return None;
    }
    let characters = chars_of(input.value.as_str());
    let cursor: usize = min_of(input.cursor, characters.len());
    let start: usize = find_word_start(&characters, cursor);
    if start >= cursor || characters[start] != '@' {
        return None;
    }
    if cursor - start - 1 > MENTION_QUERY_MAX_CHARS || has_character(
        &characters,
        '@',
        start + 1,
        cursor,
    ) {
        return None;
    }
    let text = string_of(
        vstd::slice::slice_subrange(characters.as_slice(), start + 1, cursor),
    );
    Some(AssistantMentionQuery { range: start..cursor, text })
}

/// A query begins with its `@`, ends at the cursor, holds no white space and no
/// second `@`, and begins a word: an address such as `user@example.com` is none.
pub proof fn law_query_is_one_word(input: InputModel)
    ensures
        query_at_cursor(input) matches Some(query) ==> {
            &&& query.range.start < query.range.end == input.text_cursor()
            &&& query.range.end <= input.value.len()
            &&& input.value[query.range.start as int] == '@'
            &&& query.text == input.value.subrange(query.range.start + 1, query.range.end as int)
            &&& !query.text.contains('@')
            &&& query.text.len() <= MENTION_QUERY_MAX_CHARS
            &&& query.range.start > 0 ==> is_white_space(
                input.value[query.range.start - 1],
            )
            &&& forall|i: int|
                query.range.start <= i < query.range.end ==> !is_white_space(
                    #[trigger] input.value[i],
                )
        },
{
    lemma_word_start(input.value, input.text_cursor() as int);
}

// ---------------------------------------------------------------------------
// Which candidates fit
// ---------------------------------------------------------------------------

/// Whether a candidate fits a query in lower case.
pub open spec fn fits(candidate: CandidateModel, wanted: Seq<char>) -> bool {
    wanted.len() == 0 || contains_part(candidate.search_key, wanted)
}

/// Whether the name of a candidate begins with a query in lower case.
pub open spec fn name_begins(candidate: CandidateModel, wanted: Seq<char>) -> bool {
    wanted.len() > 0 && occurs_at(
        lower_case(behind_last(candidate.display_path, '/')),
        wanted,
        0,
    )
}

/// The places of the candidates that fit a query, of one kind, whose names begin
/// with it or do not, in their order.
pub open spec fn fitting(
    candidates: Seq<CandidateModel>,
    wanted: Seq<char>,
    begins: bool,
    kind: AssistantMentionKind,
) -> Seq<usize>
    decreases candidates.len(),
{
    if candidates.len() == 0 {
        Seq::empty()
    } else {
        let earlier = fitting(candidates.drop_last(), wanted, begins, kind);
        let last = candidates.last();
        if fits(last, wanted) && name_begins(last, wanted) == begins && last.kind == kind {
            earlier.push((candidates.len() - 1) as usize)
        } else {
            earlier
        }
    }
}

/// The places of all candidates that fit a query: those whose name begins with it
/// first, folders before files.
pub open spec fn all_fitting(candidates: Seq<CandidateModel>, wanted: Seq<char>) -> Seq<usize> {
    fitting(candidates, wanted, true, AssistantMentionKind::Folder) + fitting(
        candidates,
        wanted,
        true,
        AssistantMentionKind::File,
    ) + fitting(candidates, wanted, false, AssistantMentionKind::Folder) + fitting(
        candidates,
        wanted,
        false,
        AssistantMentionKind::File,
    )
}

/// The places of the candidates that are offered for a query.
pub open spec fn offered(candidates: Seq<CandidateModel>, query: Seq<char>) -> Seq<usize> {
    let all = all_fitting(candidates, lower_case(query));
    if all.len() > ASSISTANT_MENTION_RESULT_LIMIT {
        all.take(ASSISTANT_MENTION_RESULT_LIMIT as int)
    } else {
        all
    }
}

/// Finds the candidates that are offered for a query.
pub fn matching_candidates(candidates: &Vec<AssistantMentionCandidate>, query: &str) -> (result: Vec<
    usize,
>)
    ensures
        result@ == offered(candidate_models(candidates@), query@),
{
    let wanted = query.to_lowercase();
    let is_open = wanted.as_str().is_empty();
    let ghost models = candidate_models(candidates@);
    let mut begun_folders: Vec<usize> = Vec::new();
    let mut begun_files: Vec<usize> = Vec::new();
    let mut other_folders: Vec<usize> = Vec::new();
    let mut other_files: Vec<usize> = Vec::new();
    let mut i: usize = 0;
    proof {
        assert(models.take(0) =~= Seq::empty());
    }
    while i < candidates.len()
        invariant
            i <= candidates@.len(),
            models == candidate_models(candidates@),
            is_open == (wanted@.len() == 0),
            begun_folders@ == fitting(
                models.take(i as int),
                wanted@,
                true,
                AssistantMentionKind::Folder,
            ),
            begun_files@ == fitting(
                models.take(i as int),
                wanted@,
                true,
                AssistantMentionKind::File,
            ),
            other_folders@ == fitting(
                models.take(i as int),
                wanted@,
                false,
                AssistantMentionKind::Folder,
            ),
            other_files@ == fitting(
                models.take(i as int),
                wanted@,
                false,
                AssistantMentionKind::File,
            ),
        decreases candidates@.len() - i,
    {
        let candidate = &candidates[i];
        proof {
            assert(models.take(i + 1).drop_last() =~= models.take(i as int));
            assert(models.take(i + 1).last() == candidate@);
        }
        if is_open || contains_text(candidate.search_key.as_str(), wanted.as_str()) {
            let name = last_segment(candidate.display_path.as_str(), '/').as_str().to_lowercase();
            let begins = !is_open && starts_with_text(name.as_str(), wanted.as_str());
            match (begins, candidate.kind) {
                (true, AssistantMentionKind::Folder) => begun_folders.push(i),
                (true, AssistantMentionKind::File) => begun_files.push(i),
                (false, AssistantMentionKind::Folder) => other_folders.push(i),
                (false, AssistantMentionKind::File) => other_files.push(i),
            }
        }
        i += 1;
    }
    proof {
        assert(models.take(i as int) =~= models);
    }
    begun_folders.append(&mut begun_files);
    begun_folders.append(&mut other_folders);
    begun_folders.append(&mut other_files);
    proof {
        assert(begun_folders@ =~= all_fitting(models, wanted@));
    }
    if begun_folders.len() > ASSISTANT_MENTION_RESULT_LIMIT {
        begun_folders.truncate(ASSISTANT_MENTION_RESULT_LIMIT);
    }
    begun_folders
}

proof fn lemma_fitting(
    candidates: Seq<CandidateModel>,
    wanted: Seq<char>,
    begins: bool,
    kind: AssistantMentionKind,
)
    requires
        candidates.len() <= usize::MAX,
    ensures
        fitting(candidates, wanted, begins, kind).len() <= candidates.len(),
        forall|i: int|
            0 <= i < fitting(candidates, wanted, begins, kind).len() ==> {
                let at = #[trigger] fitting(candidates, wanted, begins, kind)[i];
                at < candidates.len() && fits(candidates[at as int], wanted)
            },
    decreases candidates.len(),
{
    if candidates.len() > 0 {
        let shorter = candidates.drop_last();
        lemma_fitting(shorter, wanted, begins, kind);
        assert forall|i: int|
            0 <= i < fitting(candidates, wanted, begins, kind).len() implies {
                let at = #[trigger] fitting(candidates, wanted, begins, kind)[i];
                at < candidates.len() && fits(candidates[at as int], wanted)
            } by {
            if i < fitting(shorter, wanted, begins, kind).len() {
                let at = fitting(shorter, wanted, begins, kind)[i];
                assert(shorter[at as int] == candidates[at as int]);
            }
        }
    }
}

/// Whatever is offered exists and fits, and never more is offered than the limit.
pub proof fn law_offered_candidates_fit(candidates: Seq<CandidateModel>, query: Seq<char>)
    requires
        candidates.len() <= usize::MAX,
    ensures
        offered(candidates, query).len() <= ASSISTANT_MENTION_RESULT_LIMIT,
        forall|i: int|
            0 <= i < offered(candidates, query).len() ==> {
                let at = #[trigger] offered(candidates, query)[i];
                at < candidates.len() && fits(candidates[at as int], lower_case(query))
            },
{
    let wanted = lower_case(query);
    let first = fitting(candidates, wanted, true, AssistantMentionKind::Folder);
    let second = fitting(candidates, wanted, true, AssistantMentionKind::File);
    let third = fitting(candidates, wanted, false, AssistantMentionKind::Folder);
    let fourth = fitting(candidates, wanted, false, AssistantMentionKind::File);
    lemma_fitting(candidates, wanted, true, AssistantMentionKind::Folder);
    lemma_fitting(candidates, wanted, true, AssistantMentionKind::File);
    lemma_fitting(candidates, wanted, false, AssistantMentionKind::Folder);
    lemma_fitting(candidates, wanted, false, AssistantMentionKind::File);
    assert forall|i: int| 0 <= i < offered(candidates, query).len() implies {
        let at = #[trigger] offered(candidates, query)[i];
        at < candidates.len() && fits(candidates[at as int], wanted)
    } by {
        let at = offered(candidates, query)[i];
        assert(at == all_fitting(candidates, wanted)[i]);
        if i < first.len() {
            assert(at == first[i]);
        } else if i < first.len() + second.len() {
            assert(at == second[i - first.len()]);
        } else if i < first.len() + second.len() + third.len() {
            assert(at == third[i - first.len() - second.len()]);
        } else {
            assert(at == fourth[i - first.len() - second.len() - third.len()]);
        }
    }
}

proof fn lemma_fitting_is_complete(
    candidates: Seq<CandidateModel>,
    wanted: Seq<char>,
    begins: bool,
    kind: AssistantMentionKind,
    at: int,
)
    requires
        candidates.len() <= usize::MAX,
        0 <= at < candidates.len(),
        fits(candidates[at], wanted),
        name_begins(candidates[at], wanted) == begins,
        candidates[at].kind == kind,
    ensures
        fitting(candidates, wanted, begins, kind).contains(at as usize),
    decreases candidates.len(),
{
    let shorter = candidates.drop_last();
    let all = fitting(candidates, wanted, begins, kind);
    if at < candidates.len() - 1 {
        lemma_fitting_is_complete(shorter, wanted, begins, kind, at);
        let i = fitting(shorter, wanted, begins, kind).index_of(at as usize);
        assert(all[i] == at as usize);
    } else {
        assert(all.last() == at as usize);
    }
}

/// Where the limit is not reached, every candidate that fits is offered.
pub proof fn law_every_fitting_candidate_is_offered(
    candidates: Seq<CandidateModel>,
    query: Seq<char>,
    at: int,
)
    requires
        candidates.len() <= usize::MAX,
        0 <= at < candidates.len(),
        fits(candidates[at], lower_case(query)),
        offered(candidates, query).len() < ASSISTANT_MENTION_RESULT_LIMIT,
    ensures
        offered(candidates, query).contains(at as usize),
{
    let wanted = lower_case(query);
    let candidate = candidates[at];
    let begins = name_begins(candidate, wanted);
    lemma_fitting_is_complete(candidates, wanted, begins, candidate.kind, at);
    let first = fitting(candidates, wanted, true, AssistantMentionKind::Folder);
    let second = fitting(candidates, wanted, true, AssistantMentionKind::File);
    let third = fitting(candidates, wanted, false, AssistantMentionKind::Folder);
    let fourth = fitting(candidates, wanted, false, AssistantMentionKind::File);
    let all = all_fitting(candidates, wanted);
    let i = fitting(candidates, wanted, begins, candidate.kind).index_of(at as usize);
    let offset: int = match (begins, candidate.kind) {
        (true, AssistantMentionKind::Folder) => 0,
        (true, AssistantMentionKind::File) => first.len() as int,
        (false, AssistantMentionKind::Folder) => (first.len() + second.len()) as int,
        (false, AssistantMentionKind::File) => (first.len() + second.len() + third.len()) as int,
    };
    assert(all[offset + i] == at as usize);
}

// ---------------------------------------------------------------------------
// What the model is told
// ---------------------------------------------------------------------------

/// A value in a JSON object.
#[derive(Debug, PartialEq, Eq)]
pub enum JsonScalar {
    /// A text.
    Text(String),
    /// A number.
    Count(u64),
    /// Nothing.
    Null,
}

/// A [`JsonScalar`] with its text as a sequence of characters.
#[verifier::ext_equal]
pub enum ScalarModel {
    /// A text.
    Text(Seq<char>),
    /// A number.
    Count(u64),
    /// Nothing.
    Null,
}

impl View for JsonScalar {
    type V = ScalarModel;

    open spec fn view(&self) -> ScalarModel {
        match self {
            JsonScalar::Text(text) => ScalarModel::Text(text@),
            JsonScalar::Count(count) => ScalarModel::Count(*count),
            JsonScalar::Null => ScalarModel::Null,
        }
    }
}

/// A member of a JSON object.
#[derive(Debug, PartialEq, Eq)]
pub struct JsonMember {
    /// Its key.
    pub key: String,
    /// Its value.
    pub value: JsonScalar,
}

impl View for JsonMember {
    type V = (Seq<char>, ScalarModel);

    open spec fn view(&self) -> (Seq<char>, ScalarModel) {
        (self.key@, self.value@)
    }
}

/// The members of an object.
pub open spec fn member_models(members: Seq<JsonMember>) -> Seq<(Seq<char>, ScalarModel)> {
    members.map_values(|member: JsonMember| member@)
}

/// The members of some objects.
pub open spec fn object_models(objects: Seq<Vec<JsonMember>>) -> Seq<
    Seq<(Seq<char>, ScalarModel)>,
> {
    objects.map_values(|members: Vec<JsonMember>| member_models(members@))
}

/// The JSON text of a list of objects, where it can be written.
pub uninterp spec fn json_list(objects: Seq<Seq<(Seq<char>, ScalarModel)>>) -> Option<Seq<char>>;

/// `serde_json::to_string` writes a list of objects, each collected into a
/// `serde_json::Map` from its members, as JSON. The text depends on the members
/// alone.
#[verifier::external_body]
fn json_text(objects: &Vec<Vec<JsonMember>>) -> (result: Option<String>)
    ensures
        optional_text(result) == json_list(object_models(objects@)),
{
    let value = |member: &JsonMember| match &member.value {
        JsonScalar::Text(text) => serde_json::Value::from(text.as_str()),
        JsonScalar::Count(count) => serde_json::Value::from(*count),
        JsonScalar::Null => serde_json::Value::Null,
    };
    let object = |members: &Vec<JsonMember>| -> serde_json::Map<String, serde_json::Value> {
        members.iter().map(|member| (member.key.clone(), value(member))).collect()
    };
    serde_json::to_string(&objects.iter().map(object).collect::<Vec<_>>()).ok()
}

/// A text, or nothing, as a value.
pub open spec fn text_or_null(text: Option<Seq<char>>) -> ScalarModel {
    match text {
        Some(present) => ScalarModel::Text(present),
        None => ScalarModel::Null,
    }
}

/// What the model is told about a candidate.
pub open spec fn candidate_members(candidate: CandidateModel) -> Seq<(Seq<char>, ScalarModel)> {
    seq![
        ("kind"@, ScalarModel::Text(kind_word(candidate.kind))),
        ("display_path"@, ScalarModel::Text(candidate.display_path)),
        (
            "path_prefix"@,
            if candidate.kind is Folder {
                ScalarModel::Text(candidate.display_path)
            } else {
                ScalarModel::Null
            },
        ),
        ("source_ref"@, text_or_null(candidate.source_ref)),
        ("matching_source_count"@, ScalarModel::Count(candidate.matching_source_count as u64)),
    ]
}

/// What the model is told about the chosen candidates whose marks still stand in
/// the question.
pub open spec fn told_members(selected: Seq<SelectedModel>, content: Seq<char>) -> Seq<
    Seq<(Seq<char>, ScalarModel)>,
>
    decreases selected.len(),
{
    if selected.len() == 0 {
        Seq::empty()
    } else {
        let earlier = told_members(selected.drop_last(), content);
        if contains_part(content, selected.last().marker) {
            earlier.push(candidate_members(selected.last().candidate))
        } else {
            earlier
        }
    }
}

/// A question with a block of sources behind it.
pub open spec fn with_block(content: Seq<char>, serialized: Seq<char>) -> Seq<char> {
    content + "\n\n<ARGUS_SELECTED_SOURCES app_generated=\"true\">\n"@ + serialized
        + "\n</ARGUS_SELECTED_SOURCES>"@
}

/// What the model gets for a question: the question, and what it is told about
/// the chosen candidates, where there is anything to tell.
pub open spec fn runtime_message(content: Seq<char>, selected: Seq<SelectedModel>) -> Seq<char> {
    let told = told_members(selected, content);
    if told.len() == 0 {
        content
    } else {
        with_block(
            content,
            match json_list(told) {
                Some(text) => text,
                None => "[]"@,
            },
        )
    }
}

/// Puts a block of sources behind a question.
pub fn with_source_block(content: &str, serialized: &str) -> (result: String)
    ensures
        result@ == with_block(content@, serialized@),
{
    let mut result = content.to_owned();
    result.push_str("\n\n<ARGUS_SELECTED_SOURCES app_generated=\"true\">\n");
    result.push_str(serialized);
    result.push_str("\n</ARGUS_SELECTED_SOURCES>");
    result
}

fn text_member(key: &str, text: &str) -> (result: JsonMember)
    ensures
        result@ == (key@, ScalarModel::Text(text@)),
{
    JsonMember { key: key.to_owned(), value: JsonScalar::Text(text.to_owned()) }
}

/// Says what the model is told about a candidate.
pub fn mention_members(candidate: &AssistantMentionCandidate) -> (result: Vec<JsonMember>)
    ensures
        member_models(result@) == candidate_members(candidate@),
{
    let mut members: Vec<JsonMember> = Vec::new();
    members.push(text_member("kind", candidate.kind.as_str()));
    members.push(text_member("display_path", candidate.display_path.as_str()));
    members.push(
        match candidate.kind {
            AssistantMentionKind::Folder => text_member(
                "path_prefix",
                candidate.display_path.as_str(),
            ),
            AssistantMentionKind::File => JsonMember {
                key: "path_prefix".to_owned(),
                value: JsonScalar::Null,
            },
        },
    );
    members.push(
        match &candidate.source_ref {
            Some(source_ref) => text_member("source_ref", source_ref.as_str()),
            None => JsonMember { key: "source_ref".to_owned(), value: JsonScalar::Null },
        },
    );
    members.push(
        JsonMember {
            key: "matching_source_count".to_owned(),
            value: JsonScalar::Count(candidate.matching_source_count as u64),
        },
    );
    proof {
        assert(member_models(members@) =~= candidate_members(candidate@));
    }
    members
}

/// Says what the model is told about the chosen candidates whose marks still
/// stand in the question.
pub fn mentioned_members(content: &str, selected_mentions: &Vec<AssistantSelectedMention>) -> (result:
    Vec<Vec<JsonMember>>)
    ensures
        object_models(result@) == told_members(selected_models(selected_mentions@), content@),
{
    let ghost models = selected_models(selected_mentions@);
    let mut objects: Vec<Vec<JsonMember>> = Vec::new();
    let mut i: usize = 0;
    proof {
        assert(models.take(0) =~= Seq::empty());
        assert(object_models(objects@) =~= Seq::empty());
    }
    while i < selected_mentions.len()
        invariant
            i <= selected_mentions@.len(),
            models == selected_models(selected_mentions@),
            object_models(objects@) == told_members(models.take(i as int), content@),
        decreases selected_mentions@.len() - i,
    {
        let selected = &selected_mentions[i];
        proof {
            assert(models.take(i + 1).drop_last() =~= models.take(i as int));
            assert(models.take(i + 1).last() == selected@);
        }
        if contains_text(content, selected.marker.as_str()) {
            let ghost before = objects@;
            let members = mention_members(&selected.candidate);
            objects.push(members);
            proof {
                assert(object_models(objects@) =~= object_models(before).push(
                    member_models(members@),
                ));
            }
        }
        i += 1;
    }
    proof {
        assert(models.take(i as int) =~= models);
    }
    objects
}

/// Works out what the model gets for a question.
pub fn assistant_message_with_mentions(
    content: &str,
    selected_mentions: &Vec<AssistantSelectedMention>,
) -> (result: String)
    ensures
        result@ == runtime_message(content@, selected_models(selected_mentions@)),
{
    let metadata = mentioned_members(content, selected_mentions);
    if metadata.len() == 0 {
        return content.to_owned();
    }
    match json_text(&metadata) {
        Some(serialized) => with_source_block(content, serialized.as_str()),
        None => with_source_block(content, "[]"),
    }
}

proof fn lemma_nothing_told(selected: Seq<SelectedModel>, content: Seq<char>)
    requires
        forall|i: int|
            0 <= i < selected.len() ==> !contains_part(content, (#[trigger] selected[i]).marker),
    ensures
        told_members(selected, content).len() == 0,
    decreases selected.len(),
{
    if selected.len() > 0 {
        let shorter = selected.drop_last();
        assert forall|i: int| 0 <= i < shorter.len() implies !contains_part(
            content,
            (#[trigger] shorter[i]).marker,
        ) by {
            assert(shorter[i] == selected[i]);
        }
        lemma_nothing_told(shorter, content);
    }
}

/// A question in which no mark stands any more goes to the model as it is.
pub proof fn law_unmarked_question_stays_as_it_is(content: Seq<char>, selected: Seq<SelectedModel>)
    requires
        forall|i: int|
            0 <= i < selected.len() ==> !contains_part(content, (#[trigger] selected[i]).marker),
    ensures
        runtime_message(content, selected) == content,
{
    lemma_nothing_told(selected, content);
}

/// Whatever the model gets begins with the question itself.
pub proof fn law_model_sees_question_first(content: Seq<char>, selected: Seq<SelectedModel>)
    ensures
        runtime_message(content, selected).len() >= content.len(),
        runtime_message(content, selected).take(content.len() as int) == content,
{
    let message = runtime_message(content, selected);
    assert(message.take(content.len() as int) =~= content);
}

} // verus!
