//! What holds of the sources that a question can name: which are offered, in what order, and what
//! the model is told of those that were chosen.

use std::ops::Range;
use vstd::prelude::*;
use crate::mention_query::{
    all_fitting, fits, fitting, json_list, name_begins, offered,
    query_at_cursor, runtime_message, told_members, word_start, QueryModel, ScalarModel,
};
use crate::mentions::{
    are_candidates_of, comes_before, files_in, lies_in, AssistantMentionKind, CandidateModel,
    ScopeSource, SelectedModel,
};
use crate::text::{behind_last, contains_part, is_white_space, lower_case, occurs_at};
use crate::text_input::InputModel;

verus! {

/// Whether a part stands somewhere in a text.
pub open spec fn stands_in(part: Seq<char>, text: Seq<char>) -> bool {
    exists|front: Seq<char>, back: Seq<char>| text == #[trigger] (front + part + back)
}

/// A part stands in a text exactly where the text is the part with something in front of it and
/// something behind it.
pub proof fn law_parts_are_found(part: Seq<char>, text: Seq<char>)
    ensures
        contains_part(text, part) <==> stands_in(part, text),
{
    if contains_part(text, part) {
        let at = choose|at: int| occurs_at(text, part, at);
        let front = text.take(at);
        let back = text.skip(at + part.len());
        assert(text =~= front + part + back);
    }
    if stands_in(part, text) {
        let (front, back) = choose|front: Seq<char>, back: Seq<char>|
            text == #[trigger] (front + part + back);
        let at = front.len() as int;
        assert(text.subrange(at, at + part.len()) =~= part);
        assert(occurs_at(text, part, at));
    }
}

/// Of the first so many choices, how many have their marker in a text.
pub open spec fn marked_among(selected: Seq<SelectedModel>, content: Seq<char>, count: int) -> int
    decreases count,
{
    if count <= 0 {
        0
    } else {
        marked_among(selected, content, count - 1) + (if stands_in(
            selected[count - 1].marker,
            content,
        ) {
            1int
        } else {
            0int
        })
    }
}

/// What the model is told of a source: whether it is a folder or a file, its path, for a folder
/// the path as what to look under, for a file its reference, and how many logs it stands for.
pub open spec fn describes(
    members: Seq<(Seq<char>, ScalarModel)>,
    candidate: CandidateModel,
) -> bool {
    &&& members.len() == 5
    &&& members[0].0 == "kind"@
    &&& members[0].1 == ScalarModel::Text(
        match candidate.kind {
            AssistantMentionKind::Folder => "folder"@,
            AssistantMentionKind::File => "file"@,
        },
    )
    &&& members[1] == ("display_path"@, ScalarModel::Text(candidate.display_path))
    &&& members[2].0 == "path_prefix"@
    &&& candidate.kind is Folder ==> members[2].1 == ScalarModel::Text(candidate.display_path)
    &&& candidate.kind is File ==> members[2].1 is Null
    &&& members[3].0 == "source_ref"@
    &&& candidate.source_ref is Some ==> members[3].1 == ScalarModel::Text(candidate.source_ref->0)
    &&& candidate.source_ref is None ==> members[3].1 is Null
    &&& members[4] == (
        "matching_source_count"@,
        ScalarModel::Count(candidate.matching_source_count as u64),
    )
}

/// Every chosen source whose marker stands in the question is told to the model, in the order of
/// choice, and nothing else is.
pub proof fn law_every_named_source_is_told(selected: Seq<SelectedModel>, content: Seq<char>)
    ensures
        ({
            let told = told_members(selected, content);
            &&& told.len() == marked_among(selected, content, selected.len() as int)
            &&& forall|i: int|
                0 <= i < selected.len() && stands_in(
                    (#[trigger] selected[i]).marker,
                    content,
                ) ==> {
                    let place = marked_among(selected, content, i);
                    &&& 0 <= place < told.len()
                    &&& describes(told[place], selected[i].candidate)
                }
        }),
    decreases selected.len(),
{
    if selected.len() > 0 {
        let shorter = selected.drop_last();
        law_every_named_source_is_told(shorter, content);
        law_parts_are_found(selected.last().marker, content);
        let count = shorter.len() as int;
        assert forall|i: int| 0 <= i <= count implies #[trigger] marked_among(
            selected,
            content,
            i,
        ) == marked_among(shorter, content, i) by {
            lemma_same_marks(selected, shorter, content, i);
        }
        let told = told_members(selected, content);
        let earlier = told_members(shorter, content);
        assert(marked_among(selected, content, count) == earlier.len());
        assert(told.len() == marked_among(selected, content, count + 1));
        assert forall|i: int|
            0 <= i < selected.len() && stands_in(
                (#[trigger] selected[i]).marker,
                content,
            ) implies {
            let place = marked_among(selected, content, i);
            &&& 0 <= place < told.len()
            &&& describes(told[place], selected[i].candidate)
        } by {
            if i < count {
                assert(shorter[i] == selected[i]);
                assert(stands_in(shorter[i].marker, content));
                let place = marked_among(shorter, content, i);
                assert(told[place] == earlier[place]);
            }
        }
    }
}

proof fn lemma_same_marks(
    selected: Seq<SelectedModel>,
    shorter: Seq<SelectedModel>,
    content: Seq<char>,
    count: int,
)
    requires
        shorter == selected.drop_last(),
        selected.len() > 0,
        0 <= count <= shorter.len(),
    ensures
        marked_among(selected, content, count) == marked_among(shorter, content, count),
    decreases count,
{
    if count > 0 {
        lemma_same_marks(selected, shorter, content, count - 1);
    }
}

/// The model gets the question, and behind it, where some chosen source is named in it, a block
/// with the list of those sources.
pub proof fn law_named_sources_follow_the_question(
    content: Seq<char>,
    selected: Seq<SelectedModel>,
)
    ensures
        ({
            let told = told_members(selected, content);
            let names_some = exists|i: int|
                0 <= i < selected.len() && stands_in((#[trigger] selected[i]).marker, content);
            &&& !names_some ==> runtime_message(content, selected) == content
            &&& names_some && json_list(told) is Some ==> runtime_message(content, selected)
                == content + "\n\n<ARGUS_SELECTED_SOURCES app_generated=\"true\">\n"@ + json_list(
                told,
            )->0 + "\n</ARGUS_SELECTED_SOURCES>"@
            &&& names_some && json_list(told) is None ==> runtime_message(content, selected)
                == content + "\n\n<ARGUS_SELECTED_SOURCES app_generated=\"true\">\n"@ + "[]"@
                + "\n</ARGUS_SELECTED_SOURCES>"@
        }),
{
    law_every_named_source_is_told(selected, content);
    if !(exists|i: int|
        0 <= i < selected.len() && stands_in((#[trigger] selected[i]).marker, content)) {
        lemma_none_marked(selected, content, selected.len() as int);
    }
}

proof fn lemma_none_marked(selected: Seq<SelectedModel>, content: Seq<char>, count: int)
    requires
        0 <= count <= selected.len(),
        forall|i: int|
            0 <= i < selected.len() ==> !stands_in((#[trigger] selected[i]).marker, content),
    ensures
        marked_among(selected, content, count) == 0,
    decreases count,
{
    if count > 0 {
        lemma_none_marked(selected, content, count - 1);
    }
}

/// A candidate fits what was asked for where its key holds it; everything fits an empty question.
pub proof fn law_fitting_candidates_hold_the_question(candidate: CandidateModel, wanted: Seq<char>)
    ensures
        fits(candidate, wanted) <==> wanted.len() == 0 || stands_in(wanted, candidate.search_key),
{
    law_parts_are_found(wanted, candidate.search_key);
}

proof fn lemma_name_of_path(folder: Seq<char>, name: Seq<char>)
    requires
        !name.contains('/'),
    ensures
        behind_last(folder + seq!['/'] + name, '/') == name,
        behind_last(name, '/') == name,
    decreases name.len(),
{
    let whole = folder + seq!['/'] + name;
    if name.len() == 0 {
        assert(whole.last() == '/');
        assert(behind_last(whole, '/') =~= name);
        assert(behind_last(name, '/') =~= name);
    } else {
        let shorter = name.drop_last();
        assert(whole.drop_last() =~= folder + seq!['/'] + shorter);
        assert(whole.last() == name.last());
        assert(name.contains(name.last()));
        assert forall|c: char| shorter.contains(c) implies name.contains(c) by {
            let at = shorter.index_of(c);
            assert(name[at] == c);
        }
        lemma_name_of_path(folder, shorter);
        assert(shorter.push(name.last()) =~= name);
    }
}

/// A candidate's name, which is what stands behind the last slash of its path, begins with what
/// was asked for where its lower-case form does.
pub proof fn law_names_begin_with_the_question(
    candidate: CandidateModel,
    folder: Seq<char>,
    name: Seq<char>,
    wanted: Seq<char>,
)
    requires
        !name.contains('/'),
        candidate.display_path == name || candidate.display_path == folder + seq!['/'] + name,
    ensures
        name_begins(candidate, wanted) <==> 0 < wanted.len() && wanted.is_prefix_of(
            lower_case(name),
        ),
{
    lemma_name_of_path(folder, name);
    let lower = lower_case(name);
    assert(behind_last(candidate.display_path, '/') == name);
    if wanted.len() <= lower.len() {
        assert(lower.subrange(0, wanted.len() as int) =~= lower.take(wanted.len() as int));
    }
}

/// Where a candidate stands among those offered: names that begin with what was asked for before
/// the others, and in each half folders before files.
pub open spec fn rank(candidate: CandidateModel, wanted: Seq<char>) -> int {
    if name_begins(candidate, wanted) {
        if candidate.kind is Folder {
            0
        } else {
            1
        }
    } else if candidate.kind is Folder {
        2
    } else {
        3
    }
}

/// Whether one candidate is offered before another: by rank, and in one rank in their own order.
pub open spec fn goes_first(
    candidates: Seq<CandidateModel>,
    wanted: Seq<char>,
    first: usize,
    second: usize,
) -> bool {
    let left = rank(candidates[first as int], wanted);
    let right = rank(candidates[second as int], wanted);
    left < right || (left == right && first < second)
}

proof fn lemma_fitting(
    candidates: Seq<CandidateModel>,
    wanted: Seq<char>,
    begins: bool,
    kind: AssistantMentionKind,
)
    requires
        candidates.len() <= usize::MAX,
    ensures
        ({
            let found = fitting(candidates, wanted, begins, kind);
            &&& forall|p: int|
                0 <= p < found.len() ==> {
                    let candidate = candidates[(#[trigger] found[p]) as int];
                    &&& found[p] < candidates.len()
                    &&& fits(candidate, wanted)
                    &&& name_begins(candidate, wanted) == begins
                    &&& candidate.kind == kind
                }
            &&& forall|p: int, q: int|
                0 <= p < q < found.len() ==> (#[trigger] found[p]) < (#[trigger] found[q])
            &&& forall|i: int|
                0 <= i < candidates.len() && fits(#[trigger] candidates[i], wanted) && name_begins(
                    candidates[i],
                    wanted,
                ) == begins && candidates[i].kind == kind ==> found.contains(i as usize)
        }),
    decreases candidates.len(),
{
    if candidates.len() > 0 {
        let shorter = candidates.drop_last();
        lemma_fitting(shorter, wanted, begins, kind);
        let earlier = fitting(shorter, wanted, begins, kind);
        let found = fitting(candidates, wanted, begins, kind);
        assert forall|i: int| 0 <= i < shorter.len() implies shorter[i] == candidates[i] by {}
        assert forall|p: int| 0 <= p < found.len() implies {
            let candidate = candidates[(#[trigger] found[p]) as int];
            &&& found[p] < candidates.len()
            &&& fits(candidate, wanted)
            &&& name_begins(candidate, wanted) == begins
            &&& candidate.kind == kind
        } by {
            if p < earlier.len() {
                assert(found[p] == earlier[p]);
                assert(shorter[earlier[p] as int] == candidates[found[p] as int]);
            }
        }
        assert forall|i: int|
            0 <= i < candidates.len() && fits(#[trigger] candidates[i], wanted) && name_begins(
                candidates[i],
                wanted,
            ) == begins && candidates[i].kind == kind implies found.contains(i as usize) by {
            if i < shorter.len() {
                assert(fits(shorter[i], wanted));
                let at = earlier.index_of(i as usize);
                assert(found[at] == i as usize);
            } else {
                assert(found[found.len() - 1] == i as usize);
            }
        }
    }
}

proof fn lemma_in_order(candidates: Seq<CandidateModel>, wanted: Seq<char>)
    requires
        candidates.len() <= usize::MAX,
    ensures
        ({
            let all = all_fitting(candidates, wanted);
            &&& forall|p: int|
                0 <= p < all.len() ==> (#[trigger] all[p]) < candidates.len() && fits(
                    candidates[all[p] as int],
                    wanted,
                )
            &&& forall|p: int, q: int|
                0 <= p < q < all.len() ==> goes_first(
                    candidates,
                    wanted,
                    #[trigger] all[p],
                    #[trigger] all[q],
                )
            &&& forall|i: int|
                0 <= i < candidates.len() && fits(#[trigger] candidates[i], wanted)
                    ==> all.contains(i as usize)
        }),
{
    let folder = AssistantMentionKind::Folder;
    let file = AssistantMentionKind::File;
    lemma_fitting(candidates, wanted, true, folder);
    lemma_fitting(candidates, wanted, true, file);
    lemma_fitting(candidates, wanted, false, folder);
    lemma_fitting(candidates, wanted, false, file);
    let a = fitting(candidates, wanted, true, folder);
    let b = fitting(candidates, wanted, true, file);
    let c = fitting(candidates, wanted, false, folder);
    let d = fitting(candidates, wanted, false, file);
    let all = all_fitting(candidates, wanted);
    assert(all == a + b + c + d);
    assert forall|p: int| 0 <= p < all.len() implies (#[trigger] all[p]) == (if p < a.len() {
        a[p]
    } else if p < a.len() + b.len() {
        b[p - a.len()]
    } else if p < a.len() + b.len() + c.len() {
        c[p - a.len() - b.len()]
    } else {
        d[p - a.len() - b.len() - c.len()]
    }) by {}
    assert forall|i: int|
        0 <= i < candidates.len() && fits(#[trigger] candidates[i], wanted) implies all.contains(
        i as usize,
    ) by {
        let index = i as usize;
        if name_begins(candidates[i], wanted) {
            if candidates[i].kind is Folder {
                assert(all[a.index_of(index)] == index);
            } else {
                assert(all[a.len() + b.index_of(index)] == index);
            }
        } else if candidates[i].kind is Folder {
            assert(all[a.len() + b.len() + c.index_of(index)] == index);
        } else {
            assert(all[a.len() + b.len() + c.len() + d.index_of(index)] == index);
        }
    }
}

/// At most eight candidates are offered. Each fits; they come by rank, each once; and one that
/// fits and is left out comes behind eight others.
pub proof fn law_best_candidates_are_offered(candidates: Seq<CandidateModel>, query: Seq<char>)
    requires
        candidates.len() <= usize::MAX,
    ensures
        ({
            let wanted = lower_case(query);
            let shown = offered(candidates, query);
            &&& shown.len() <= 8
            &&& forall|p: int|
                0 <= p < shown.len() ==> (#[trigger] shown[p]) < candidates.len() && fits(
                    candidates[shown[p] as int],
                    wanted,
                )
            &&& forall|p: int, q: int|
                0 <= p < q < shown.len() ==> goes_first(
                    candidates,
                    wanted,
                    #[trigger] shown[p],
                    #[trigger] shown[q],
                )
            &&& forall|i: int|
                0 <= i < candidates.len() && fits(#[trigger] candidates[i], wanted)
                    && !shown.contains(i as usize) ==> shown.len() == 8 && forall|p: int|
                    0 <= p < 8 ==> goes_first(
                        candidates,
                        wanted,
                        #[trigger] shown[p],
                        i as usize,
                    )
        }),
{
    let wanted = lower_case(query);
    lemma_in_order(candidates, wanted);
    let all = all_fitting(candidates, wanted);
    let shown = offered(candidates, query);
    assert forall|i: int|
        0 <= i < candidates.len() && fits(#[trigger] candidates[i], wanted) && !shown.contains(
            i as usize,
        ) implies shown.len() == 8 && forall|p: int|
        0 <= p < 8 ==> goes_first(candidates, wanted, #[trigger] shown[p], i as usize) by {
        let at = all.index_of(i as usize);
        assert(all[at] == i as usize);
        if at < shown.len() {
            assert(shown[at] == i as usize);
        }
        assert forall|p: int| 0 <= p < 8 implies goes_first(
            candidates,
            wanted,
            #[trigger] shown[p],
            i as usize,
        ) by {
            assert(shown[p] == all[p]);
        }
    }
}

proof fn lemma_word_start(text: Seq<char>, start: int, end: int)
    requires
        0 <= start <= end <= text.len(),
        start > 0 ==> is_white_space(text[start - 1]),
        forall|i: int| start <= i < end ==> !is_white_space(#[trigger] text[i]),
    ensures
        word_start(text, end) == start,
    decreases end - start,
{
    if start < end {
        lemma_word_start(text, start, end - 1);
    }
}

/// A word that begins with an at sign and ends at the cursor is a question for sources, up to 128
/// characters behind the sign and without a second sign; while text is selected or composed there
/// is none.
pub proof fn law_word_at_the_cursor_is_the_question(input: InputModel, start: int)
    requires
        input.value.len() <= usize::MAX,
        0 <= start < input.cursor <= input.value.len(),
        input.value[start] == '@',
        start > 0 ==> is_white_space(input.value[start - 1]),
        forall|i: int|
            start < i < input.cursor ==> !is_white_space(#[trigger] input.value[i])
                && input.value[i] != '@',
        input.selection_anchor is None,
    ensures
        input.marked_range is None && input.cursor - start <= 129 ==> query_at_cursor(input)
            == Some(
            QueryModel {
                range: Range { start: start as usize, end: input.cursor },
                text: input.value.subrange(start + 1, input.cursor as int),
            },
        ),
        input.marked_range is Some || input.cursor - start > 129 ==> query_at_cursor(input)
            is None,
{
    assert(!is_white_space('@'));
    lemma_word_start(input.value, start, input.cursor as int);
    let text = input.value.subrange(start + 1, input.cursor as int);
    assert(!text.contains('@')) by {
        if text.contains('@') {
            let at = text.index_of('@');
            assert(input.value[start + 1 + at] == '@');
        }
    }
}

/// A word that does not begin with an at sign is no question for sources.
pub proof fn law_other_words_ask_for_nothing(input: InputModel, start: int)
    requires
        input.value.len() <= usize::MAX,
        0 <= start <= input.cursor <= input.value.len(),
        start > 0 ==> is_white_space(input.value[start - 1]),
        forall|i: int| start <= i < input.cursor ==> !is_white_space(#[trigger] input.value[i]),
        start < input.cursor ==> input.value[start] != '@',
    ensures
        query_at_cursor(input) is None,
{
    lemma_word_start(input.value, start, input.cursor as int);
}

/// A file lies in a folder where its path is the folder's, a slash and something more.
pub proof fn law_files_lie_below_their_folder(folder: Seq<char>, rest: Seq<char>, path: Seq<char>)
    ensures
        lies_in(folder + seq!['/'] + rest, folder),
        lies_in(path, folder) ==> exists|below: Seq<char>|
            path == #[trigger] (folder + seq!['/'] + below),
{
    let whole = folder + seq!['/'] + rest;
    assert(whole.take(folder.len() as int) =~= folder);
    if lies_in(path, folder) {
        let below = path.skip(folder.len() as int + 1);
        assert(path =~= folder + seq!['/'] + below);
    }
}

/// Texts are ordered by their first different character; the beginning of a text comes before it.
pub proof fn law_texts_are_ordered_by_characters(
    front: Seq<char>,
    first: char,
    second: char,
    left: Seq<char>,
    right: Seq<char>,
)
    ensures
        comes_before(front + seq![first] + left, front + seq![second] + right) == (first < second
            || first == second && comes_before(left, right)),
        comes_before(front, front + seq![first] + left),
        !comes_before(front + seq![first] + left, front),
        !comes_before(front, front),
    decreases front.len(),
{
    let a = front + seq![first] + left;
    let b = front + seq![second] + right;
    if front.len() == 0 {
        assert(a.skip(1) =~= left);
        assert(b.skip(1) =~= right);
    } else {
        let rest = front.skip(1);
        assert(a.skip(1) =~= rest + seq![first] + left);
        assert(b.skip(1) =~= rest + seq![second] + right);
        law_texts_are_ordered_by_characters(rest, first, second, left, right);
    }
}

proof fn lemma_files_counted(sources: Seq<ScopeSource>, folder: Seq<char>)
    ensures
        files_in(sources, folder) == sources.filter(
            |source: ScopeSource| lies_in(source.relative_path@, folder),
        ).len(),
    decreases sources.len(),
{
    reveal(Seq::filter);
    if sources.len() > 0 {
        lemma_files_counted(sources.drop_last(), folder);
    }
}

/// The candidates of some sources: first the folders, in order, each with the number of files
/// below it; behind them one candidate for each source, with its own reference, ordered by path.
pub proof fn law_candidates_name_all_sources(
    candidates: Seq<CandidateModel>,
    sources: Seq<ScopeSource>,
)
    requires
        are_candidates_of(candidates, sources),
        sources.len() <= usize::MAX,
    ensures
        ({
            let split = candidates.len() - sources.len();
            &&& 0 <= split
            &&& forall|i: int|
                0 <= i < split ==> {
                    let folder = #[trigger] candidates[i];
                    &&& folder.kind is Folder
                    &&& folder.source_ref is None
                    &&& folder.search_key == lower_case(folder.display_path)
                    &&& folder.matching_source_count == sources.filter(
                        |source: ScopeSource|
                            lies_in(source.relative_path@, folder.display_path),
                    ).len()
                    &&& 0 < folder.matching_source_count
                }
            &&& forall|i: int, j: int|
                0 <= i < j < split ==> comes_before(
                    (#[trigger] candidates[i]).display_path,
                    (#[trigger] candidates[j]).display_path,
                )
            &&& forall|i: int|
                split <= i < candidates.len() ==> {
                    let file = #[trigger] candidates[i];
                    &&& file.kind is File
                    &&& file.matching_source_count == 1
                    &&& file.search_key == lower_case(file.display_path)
                    &&& exists|s: int|
                        0 <= s < sources.len() && (#[trigger] sources[s]).relative_path@
                            == file.display_path && file.source_ref == Some(
                            sources[s].source_ref@,
                        )
                }
            &&& forall|i: int, j: int|
                split <= i < j < candidates.len() ==> (#[trigger] candidates[i]).display_path == (
                #[trigger] candidates[j]).display_path || comes_before(
                    candidates[i].display_path,
                    candidates[j].display_path,
                )
        }),
{
    let split = candidates.len() - sources.len();
    let folders = candidates.take(split);
    let files = candidates.skip(split);
    assert forall|i: int| 0 <= i < split implies {
        let folder = #[trigger] candidates[i];
        &&& folder.kind is Folder
        &&& folder.source_ref is None
        &&& folder.search_key == lower_case(folder.display_path)
        &&& folder.matching_source_count == sources.filter(
            |source: ScopeSource| lies_in(source.relative_path@, folder.display_path),
        ).len()
        &&& 0 < folder.matching_source_count
    } by {
        assert(folders[i] == candidates[i]);
        lemma_files_counted(sources, candidates[i].display_path);
        lemma_files_are_few(sources, candidates[i].display_path);
    }
    assert forall|i: int, j: int| 0 <= i < j < split implies comes_before(
        (#[trigger] candidates[i]).display_path,
        (#[trigger] candidates[j]).display_path,
    ) by {
        assert(folders[i] == candidates[i] && folders[j] == candidates[j]);
    }
    let order = choose|order: Seq<int>| #[trigger]
        crate::mentions::is_file_order(order, sources, sources.len() as int)
            && crate::mentions::files_follow(files, sources, order);
    assert forall|i: int| split <= i < candidates.len() implies {
        let file = #[trigger] candidates[i];
        &&& file.kind is File
        &&& file.matching_source_count == 1
        &&& file.search_key == lower_case(file.display_path)
        &&& exists|s: int|
            0 <= s < sources.len() && (#[trigger] sources[s]).relative_path@ == file.display_path
                && file.source_ref == Some(sources[s].source_ref@)
    } by {
        assert(files[i - split] == candidates[i]);
        let s = order[i - split];
        assert(0 <= s < sources.len());
        assert(sources[s].relative_path@ == candidates[i].display_path);
    }
    assert forall|i: int, j: int| split <= i < j < candidates.len() implies (
    #[trigger] candidates[i]).display_path == (#[trigger] candidates[j]).display_path
        || comes_before(candidates[i].display_path, candidates[j].display_path) by {
        assert(files[i - split] == candidates[i] && files[j - split] == candidates[j]);
        assert(crate::mentions::file_comes_before(sources, order[i - split], order[j - split]));
    }
}

proof fn lemma_files_are_few(sources: Seq<ScopeSource>, folder: Seq<char>)
    ensures
        files_in(sources, folder) <= sources.len(),
    decreases sources.len(),
{
    if sources.len() > 0 {
        lemma_files_are_few(sources.drop_last(), folder);
    }
}

} // verus!
