//! Naming files and folders of the scanned sources in a question: which of them
//! can be named, and in which order.

use vstd::prelude::*;
use crate::keystroke::optional_text;
use crate::text::{chars_of, lower_case, same_text, string_of};

verus! {

/// The most candidates that are offered at once.
pub const ASSISTANT_MENTION_RESULT_LIMIT: usize = 8;

/// The most characters of a query.
pub const MENTION_QUERY_MAX_CHARS: usize = 128;

/// What can be named.
#[derive(Clone, Copy, Debug, PartialEq, Eq, Structural)]
pub enum AssistantMentionKind {
    /// A folder: all log files below it.
    Folder,
    /// One log file.
    File,
}

/// The word for a kind.
pub open spec fn kind_word(kind: AssistantMentionKind) -> Seq<char> {
    match kind {
        AssistantMentionKind::Folder => "folder"@,
        AssistantMentionKind::File => "file"@,
    }
}

impl AssistantMentionKind {
    /// The word for the kind.
    pub fn as_str(self) -> (result: &'static str)
        ensures
            result@ == kind_word(self),
    {
        match self {
            AssistantMentionKind::Folder => "folder",
            AssistantMentionKind::File => "file",
        }
    }
}

/// One log file of the scanned sources.
#[derive(Debug, PartialEq, Eq)]
pub struct ScopeSource {
    /// What it is called by in tools.
    pub source_ref: String,
    /// Its number in the application.
    pub source_id: u64,
    /// Its path below the roots.
    pub relative_path: String,
}

/// What a scan of the sources found.
#[derive(Debug, PartialEq, Eq)]
pub struct SourceScope {
    /// The log files.
    pub sources: Vec<ScopeSource>,
    /// How many log types were recognised.
    pub profile_count: usize,
}

/// Something that can be named.
#[derive(Debug, PartialEq, Eq)]
pub struct AssistantMentionCandidate {
    /// Its path.
    pub display_path: String,
    /// Its path in lower case.
    pub search_key: String,
    /// What it is.
    pub kind: AssistantMentionKind,
    /// What tools call it by, where it is a file.
    pub source_ref: Option<String>,
    /// How many log files it stands for.
    pub matching_source_count: usize,
}

/// An [`AssistantMentionCandidate`] with its texts as sequences of characters.
#[verifier::ext_equal]
pub struct CandidateModel {
    /// Its path.
    pub display_path: Seq<char>,
    /// Its path in lower case.
    pub search_key: Seq<char>,
    /// What it is.
    pub kind: AssistantMentionKind,
    /// What tools call it by.
    pub source_ref: Option<Seq<char>>,
    /// How many log files it stands for.
    pub matching_source_count: usize,
}

impl View for AssistantMentionCandidate {
    type V = CandidateModel;

    open spec fn view(&self) -> CandidateModel {
        CandidateModel {
            display_path: self.display_path@,
            search_key: self.search_key@,
            kind: self.kind,
            source_ref: optional_text(self.source_ref),
            matching_source_count: self.matching_source_count,
        }
    }
}

impl AssistantMentionCandidate {
    /// A second copy of the candidate.
    pub fn copy(&self) -> (result: AssistantMentionCandidate)
        ensures
            result@ == self@,
    {
        AssistantMentionCandidate {
            display_path: self.display_path.clone(),
            search_key: self.search_key.clone(),
            kind: self.kind,
            source_ref: crate::keystroke::copy_optional_text(&self.source_ref),
            matching_source_count: self.matching_source_count,
        }
    }
}

/// The models of some candidates.
pub open spec fn candidate_models(candidates: Seq<AssistantMentionCandidate>) -> Seq<
    CandidateModel,
> {
    candidates.map_values(|candidate: AssistantMentionCandidate| candidate@)
}

/// A candidate that was chosen, and the mark that stands for it in the question.
#[derive(Debug, PartialEq, Eq)]
pub struct AssistantSelectedMention {
    /// The mark.
    pub marker: String,
    /// What it stands for.
    pub candidate: AssistantMentionCandidate,
}

/// An [`AssistantSelectedMention`] with its texts as sequences of characters.
#[verifier::ext_equal]
pub struct SelectedModel {
    /// The mark.
    pub marker: Seq<char>,
    /// What it stands for.
    pub candidate: CandidateModel,
}

impl View for AssistantSelectedMention {
    type V = SelectedModel;

    open spec fn view(&self) -> SelectedModel {
        SelectedModel { marker: self.marker@, candidate: self.candidate@ }
    }
}

/// The models of some chosen candidates.
pub open spec fn selected_models(selected: Seq<AssistantSelectedMention>) -> Seq<SelectedModel> {
    selected.map_values(|mention: AssistantSelectedMention| mention@)
}

// ---------------------------------------------------------------------------
// The order of paths
// ---------------------------------------------------------------------------

/// Whether a text comes before another in the order of their characters' codes.
pub open spec fn comes_before(left: Seq<char>, right: Seq<char>) -> bool
    decreases left.len(),
{
    if right.len() == 0 {
        false
    } else if left.len() == 0 {
        true
    } else if left[0] == right[0] {
        comes_before(left.skip(1), right.skip(1))
    } else {
        left[0] < right[0]
    }
}

/// Whether a text comes before another.
pub fn text_comes_before(left: &str, right: &str) -> (result: bool)
    ensures
        result == comes_before(left@, right@),
{
    let left_chars = chars_of(left);
    let right_chars = chars_of(right);
    let mut i: usize = 0;
    proof {
        assert(left@.skip(0) =~= left@);
        assert(right@.skip(0) =~= right@);
    }
    while i < left_chars.len() && i < right_chars.len()
        invariant
            i <= left_chars@.len(),
            i <= right_chars@.len(),
            left_chars@ == left@,
            right_chars@ == right@,
            comes_before(left@, right@) == comes_before(
                left@.skip(i as int),
                right@.skip(i as int),
            ),
        decreases left_chars@.len() - i,
    {
        proof {
            assert(left@.skip(i as int)[0] == left@[i as int]);
            assert(right@.skip(i as int)[0] == right@[i as int]);
            assert(left@.skip(i as int).skip(1) =~= left@.skip(i + 1));
            assert(right@.skip(i as int).skip(1) =~= right@.skip(i + 1));
        }
        if left_chars[i] != right_chars[i] {
            return left_chars[i] < right_chars[i];
        }
        i += 1;
    }
    i < right_chars.len()
}

/// Of two texts exactly one comes before the other, or they are the same.
pub proof fn law_text_order_is_total(left: Seq<char>, right: Seq<char>)
    ensures
        comes_before(left, right) || comes_before(right, left) || left == right,
        !(comes_before(left, right) && comes_before(right, left)),
        comes_before(left, right) ==> left != right,
    decreases left.len(),
{
    if left.len() > 0 && right.len() > 0 && left[0] == right[0] {
        law_text_order_is_total(left.skip(1), right.skip(1));
        if left.skip(1) == right.skip(1) {
            assert(left =~= seq![left[0]] + left.skip(1));
            assert(right =~= seq![right[0]] + right.skip(1));
        }
    } else if left.len() == 0 && right.len() == 0 {
        assert(left =~= right);
    }
}

/// The order of texts carries over.
pub proof fn law_text_order_is_transitive(first: Seq<char>, second: Seq<char>, third: Seq<char>)
    requires
        comes_before(first, second),
        comes_before(second, third),
    ensures
        comes_before(first, third),
    decreases first.len(),
{
    if first.len() > 0 && first[0] == second[0] && second[0] == third[0] {
        law_text_order_is_transitive(first.skip(1), second.skip(1), third.skip(1));
    }
}

// ---------------------------------------------------------------------------
// What can be named
// ---------------------------------------------------------------------------

/// Whether a path leads through a folder.
pub open spec fn lies_in(path: Seq<char>, folder: Seq<char>) -> bool {
    folder.len() < path.len() && path[folder.len() as int] == '/' && path.take(folder.len() as int)
        == folder
}

/// How many log files lie below a folder.
pub open spec fn files_in(sources: Seq<ScopeSource>, folder: Seq<char>) -> nat
    decreases sources.len(),
{
    if sources.len() == 0 {
        0
    } else {
        files_in(sources.drop_last(), folder) + (if lies_in(
            sources.last().relative_path@,
            folder,
        ) {
            1nat
        } else {
            0nat
        })
    }
}

/// A folder as a candidate.
pub open spec fn folder_candidate(folder: Seq<char>, count: nat) -> CandidateModel {
    CandidateModel {
        display_path: folder,
        search_key: lower_case(folder),
        kind: AssistantMentionKind::Folder,
        source_ref: None,
        matching_source_count: count as usize,
    }
}

/// A log file as a candidate.
pub open spec fn file_candidate(source: ScopeSource) -> CandidateModel {
    CandidateModel {
        display_path: source.relative_path@,
        search_key: lower_case(source.relative_path@),
        kind: AssistantMentionKind::File,
        source_ref: Some(source.source_ref@),
        matching_source_count: 1,
    }
}

/// Whether some candidates are in the order of their paths, none twice.
pub open spec fn paths_ascend(candidates: Seq<CandidateModel>) -> bool {
    forall|i: int, j: int|
        0 <= i < j < candidates.len() ==> comes_before(
            (#[trigger] candidates[i]).display_path,
            (#[trigger] candidates[j]).display_path,
        )
}

/// Whether a folder is among some candidates.
pub open spec fn has_path(candidates: Seq<CandidateModel>, path: Seq<char>) -> bool {
    exists|i: int| 0 <= i < candidates.len() && (#[trigger] candidates[i]).display_path == path
}

/// Whether some candidates are exactly the folders of some log files, each once,
/// in the order of their paths, each with the number of log files below it.
pub open spec fn are_folders_of(candidates: Seq<CandidateModel>, sources: Seq<ScopeSource>) -> bool {
    &&& paths_ascend(candidates)
    &&& forall|i: int|
        0 <= i < candidates.len() ==> files_in(sources, (#[trigger] candidates[i]).display_path) > 0
            && candidates[i] == folder_candidate(
            candidates[i].display_path,
            files_in(sources, candidates[i].display_path),
        )
    &&& forall|folder: Seq<char>|
        #[trigger] files_in(sources, folder) > 0 ==> has_path(candidates, folder)
}

/// Whether a log file comes before another: by its path, and by its place where
/// the paths are the same.
pub open spec fn file_comes_before(sources: Seq<ScopeSource>, left: int, right: int) -> bool {
    let left_path = sources[left].relative_path@;
    let right_path = sources[right].relative_path@;
    comes_before(left_path, right_path) || (left_path == right_path && left < right)
}

/// Whether an order holds each of the first log files once, sorted by path, and
/// by place where paths are the same.
pub open spec fn is_file_order(order: Seq<int>, sources: Seq<ScopeSource>, count: int) -> bool {
    &&& order.len() == count
    &&& forall|i: int| 0 <= i < count ==> 0 <= #[trigger] order[i] < count
    &&& forall|i: int, j: int|
        0 <= i < j < count ==> file_comes_before(sources, #[trigger] order[i], #[trigger] order[j])
}

/// Whether some candidates are the log files in a given order.
pub open spec fn files_follow(
    candidates: Seq<CandidateModel>,
    sources: Seq<ScopeSource>,
    order: Seq<int>,
) -> bool {
    &&& candidates.len() == order.len()
    &&& forall|i: int|
        0 <= i < order.len() ==> (#[trigger] candidates[i]) == file_candidate(sources[order[i]])
}

/// Whether some candidates are exactly what can be named of some log files: first
/// the folders, then the files, both in the order of their paths.
pub open spec fn are_candidates_of(
    candidates: Seq<CandidateModel>,
    sources: Seq<ScopeSource>,
) -> bool {
    let split = candidates.len() - sources.len();
    &&& split >= 0
    &&& are_folders_of(candidates.take(split), sources)
    &&& exists|order: Seq<int>| #[trigger]
        is_file_order(order, sources, sources.len() as int) && files_follow(
            candidates.skip(split),
            sources,
            order,
        )
}

proof fn lemma_files_in_bounded(sources: Seq<ScopeSource>, folder: Seq<char>)
    ensures
        files_in(sources, folder) <= sources.len(),
    decreases sources.len(),
{
    if sources.len() > 0 {
        lemma_files_in_bounded(sources.drop_last(), folder);
    }
}

/// How many log files lie below a folder, of the first `count` and, where the
/// folder is short enough, of the one behind them.
spec fn files_so_far(sources: Seq<ScopeSource>, count: int, depth: int, folder: Seq<char>) -> nat {
    files_in(sources.take(count), folder) + (if lies_in(sources[count].relative_path@, folder)
        && folder.len() < depth {
        1nat
    } else {
        0nat
    })
}

/// Whether some candidates are the folders that were met so far.
spec fn are_folders_so_far(
    candidates: Seq<CandidateModel>,
    sources: Seq<ScopeSource>,
    count: int,
    depth: int,
) -> bool {
    &&& paths_ascend(candidates)
    &&& forall|i: int|
        0 <= i < candidates.len() ==> files_so_far(
            sources,
            count,
            depth,
            (#[trigger] candidates[i]).display_path,
        ) > 0 && candidates[i] == folder_candidate(
            candidates[i].display_path,
            files_so_far(sources, count, depth, candidates[i].display_path),
        )
    &&& forall|folder: Seq<char>|
        #[trigger] files_so_far(sources, count, depth, folder) > 0 ==> has_path(candidates, folder)
}

/// What one more folder changes of the counts: only its own, by one.
proof fn lemma_folder_met(sources: Seq<ScopeSource>, count: int, depth: int)
    requires
        0 <= count < sources.len(),
        0 <= depth < sources[count].relative_path@.len(),
        sources[count].relative_path@[depth] == '/',
    ensures
        ({
            let folder = sources[count].relative_path@.take(depth);
            &&& files_so_far(sources, count, depth, folder) <= count
            &&& files_so_far(sources, count, depth + 1, folder) == files_so_far(
                sources,
                count,
                depth,
                folder,
            ) + 1
            &&& forall|other: Seq<char>|
                other != folder ==> #[trigger] files_so_far(sources, count, depth + 1, other)
                    == files_so_far(sources, count, depth, other)
        }),
{
    let path = sources[count].relative_path@;
    let folder = path.take(depth);
    assert(lies_in(path, folder));
    lemma_files_in_bounded(sources.take(count), folder);
    assert forall|other: Seq<char>| other != folder implies #[trigger] files_so_far(
        sources,
        count,
        depth + 1,
        other,
    ) == files_so_far(sources, count, depth, other) by {
        if lies_in(path, other) && other.len() == depth {
            assert(other =~= folder);
        }
    }
}

/// A folder that was met before is counted where it stands.
proof fn lemma_folder_counted(
    before: Seq<CandidateModel>,
    sources: Seq<ScopeSource>,
    count: int,
    depth: int,
    at: int,
)
    requires
        0 <= count < sources.len(),
        0 <= depth < sources[count].relative_path@.len(),
        sources[count].relative_path@[depth] == '/',
        are_folders_so_far(before, sources, count, depth),
        0 <= at < before.len(),
        before[at].display_path == sources[count].relative_path@.take(depth),
    ensures
        are_folders_so_far(
            before.update(
                at,
                folder_candidate(
                    before[at].display_path,
                    files_so_far(sources, count, depth, before[at].display_path) + 1,
                ),
            ),
            sources,
            count,
            depth + 1,
        ),
{
    let folder = before[at].display_path;
    lemma_folder_met(sources, count, depth);
    let after = before.update(
        at,
        folder_candidate(folder, files_so_far(sources, count, depth, folder) + 1),
    );
    assert forall|i: int, j: int| 0 <= i < j < after.len() implies comes_before(
        (#[trigger] after[i]).display_path,
        (#[trigger] after[j]).display_path,
    ) by {
        assert(after[i].display_path == before[i].display_path);
        assert(after[j].display_path == before[j].display_path);
    }
    assert forall|i: int|
        0 <= i < after.len() implies files_so_far(
            sources,
            count,
            depth + 1,
            (#[trigger] after[i]).display_path,
        ) > 0 && after[i] == folder_candidate(
            after[i].display_path,
            files_so_far(sources, count, depth + 1, after[i].display_path),
        ) by {
        if i != at {
            assert(after[i] == before[i]);
            if i < at {
                law_text_order_is_total(before[i].display_path, before[at].display_path);
            } else {
                law_text_order_is_total(before[at].display_path, before[i].display_path);
            }
        }
    }
    assert forall|other: Seq<char>| #[trigger]
        files_so_far(sources, count, depth + 1, other) > 0 implies has_path(after, other) by {
        if other == folder {
            assert(after[at].display_path == folder);
        } else {
            assert(files_so_far(sources, count, depth, other) > 0);
            let i = choose|i: int|
                0 <= i < before.len() && (#[trigger] before[i]).display_path == other;
            assert(after[i].display_path == other);
        }
    }
}

/// A folder that is new goes in where the order wants it.
proof fn lemma_folder_inserted(
    before: Seq<CandidateModel>,
    sources: Seq<ScopeSource>,
    count: int,
    depth: int,
    at: int,
)
    requires
        0 <= count < sources.len(),
        0 <= depth < sources[count].relative_path@.len(),
        sources[count].relative_path@[depth] == '/',
        are_folders_so_far(before, sources, count, depth),
        0 <= at <= before.len(),
        forall|i: int|
            at <= i < before.len() ==> comes_before(
                sources[count].relative_path@.take(depth),
                (#[trigger] before[i]).display_path,
            ),
        at > 0 ==> before[at - 1].display_path != sources[count].relative_path@.take(depth)
            && !comes_before(
            sources[count].relative_path@.take(depth),
            before[at - 1].display_path,
        ),
    ensures
        are_folders_so_far(
            before.insert(at, folder_candidate(sources[count].relative_path@.take(depth), 1)),
            sources,
            count,
            depth + 1,
        ),
{
    let folder = sources[count].relative_path@.take(depth);
    lemma_folder_met(sources, count, depth);
    assert forall|i: int| 0 <= i < at implies comes_before(
        (#[trigger] before[i]).display_path,
        folder,
    ) by {
        law_text_order_is_total(before[at - 1].display_path, folder);
        if i < at - 1 {
            law_text_order_is_transitive(
                before[i].display_path,
                before[at - 1].display_path,
                folder,
            );
        }
    }
    assert forall|i: int| 0 <= i < before.len() implies (#[trigger] before[i]).display_path
        != folder by {
        law_text_order_is_total(before[i].display_path, folder);
        law_text_order_is_total(folder, before[i].display_path);
    }
    if files_so_far(sources, count, depth, folder) > 0 {
        assert(has_path(before, folder));
    }
    let after = before.insert(at, folder_candidate(folder, 1));
    assert forall|i: int, j: int| 0 <= i < j < after.len() implies comes_before(
        (#[trigger] after[i]).display_path,
        (#[trigger] after[j]).display_path,
    ) by {
        if i < at {
            assert(after[i] == before[i]);
        } else if i > at {
            assert(after[i] == before[i - 1]);
        }
        if j < at {
            assert(after[j] == before[j]);
        } else if j > at {
            assert(after[j] == before[j - 1]);
        }
    }
    assert forall|i: int|
        0 <= i < after.len() implies files_so_far(
            sources,
            count,
            depth + 1,
            (#[trigger] after[i]).display_path,
        ) > 0 && after[i] == folder_candidate(
            after[i].display_path,
            files_so_far(sources, count, depth + 1, after[i].display_path),
        ) by {
        if i < at {
            assert(after[i] == before[i]);
        } else if i > at {
            assert(after[i] == before[i - 1]);
        }
    }
    assert forall|other: Seq<char>| #[trigger]
        files_so_far(sources, count, depth + 1, other) > 0 implies has_path(after, other) by {
        if other == folder {
            assert(after[at].display_path == folder);
        } else {
            assert(files_so_far(sources, count, depth, other) > 0);
            let i = choose|i: int|
                0 <= i < before.len() && (#[trigger] before[i]).display_path == other;
            if i < at {
                assert(after[i].display_path == other);
            } else {
                assert(after[i + 1].display_path == other);
            }
        }
    }
}

/// Counts a folder that a log file lies in.
fn count_folder(
    folders: &mut Vec<AssistantMentionCandidate>,
    sources: &Vec<ScopeSource>,
    count: usize,
    depth: usize,
    path: &Vec<char>,
)
    requires
        count < sources@.len(),
        path@ == sources@[count as int].relative_path@,
        depth < path@.len(),
        path@[depth as int] == '/',
        are_folders_so_far(
            candidate_models(old(folders)@),
            sources@,
            count as int,
            depth as int,
        ),
    ensures
        are_folders_so_far(
            candidate_models(final(folders)@),
            sources@,
            count as int,
            depth + 1,
        ),
{
    let ghost before = candidate_models(folders@);
    let ghost folder = path@.take(depth as int);
    let name = string_of(vstd::slice::slice_subrange(path.as_slice(), 0, depth));
    proof {
        assert(path@.subrange(0, depth as int) =~= folder);
        lemma_folder_met(sources@, count as int, depth as int);
    }
    let mut at: usize = folders.len();
    while at > 0 && text_comes_before(name.as_str(), folders[at - 1].display_path.as_str())
        invariant
            at <= folders@.len(),
            before == candidate_models(folders@),
            name@ == folder,
            forall|i: int|
                at <= i < before.len() ==> comes_before(
                    folder,
                    (#[trigger] before[i]).display_path,
                ),
        decreases at,
    {
        proof {
            assert(before[at - 1] == folders@[at - 1]@);
        }
        at -= 1;
    }
    proof {
        if at > 0 {
            assert(before[at - 1] == folders@[at - 1]@);
        }
    }
    if at > 0 && same_text(folders[at - 1].display_path.as_str(), name.as_str()) {
        proof {
            lemma_folder_counted(before, sources@, count as int, depth as int, at - 1);
            assert(before[at - 1] == folder_candidate(
                folder,
                files_so_far(sources@, count as int, depth as int, folder),
            ));
            assert(folders@[at - 1]@.matching_source_count <= count);
            assert(count < sources.len() <= usize::MAX);
        }
        let counted: usize = folders[at - 1].matching_source_count + 1;
        folders[at - 1].matching_source_count = counted;
        proof {
            assert(candidate_models(folders@) =~= before.update(
                at - 1,
                folder_candidate(
                    folder,
                    files_so_far(sources@, count as int, depth as int, folder) + 1,
                ),
            ));
        }
    } else {
        proof {
            lemma_folder_inserted(before, sources@, count as int, depth as int, at as int);
        }
        let search_key = name.as_str().to_lowercase();
        let candidate = AssistantMentionCandidate {
            display_path: name,
            search_key,
            kind: AssistantMentionKind::Folder,
            source_ref: None,
            matching_source_count: 1,
        };
        folders.insert(at, candidate);
        proof {
            assert(candidate@ == folder_candidate(folder, 1));
            assert(candidate_models(folders@) =~= before.insert(
                at as int,
                folder_candidate(folder, 1),
            ));
        }
    }
}

/// Collects the folders of the log files.
fn collect_folders(sources: &Vec<ScopeSource>) -> (result: Vec<AssistantMentionCandidate>)
    ensures
        are_folders_of(candidate_models(result@), sources@),
{
    let mut folders: Vec<AssistantMentionCandidate> = Vec::new();
    let mut count: usize = 0;
    proof {
        assert(sources@.take(0) =~= Seq::empty());
    }
    while count < sources.len()
        invariant
            count <= sources@.len(),
            are_folders_of(candidate_models(folders@), sources@.take(count as int)),
        decreases sources@.len() - count,
    {
        let path = chars_of(sources[count].relative_path.as_str());
        let mut depth: usize = 0;
        proof {
            assert forall|folder: Seq<char>| #[trigger]
                files_so_far(sources@, count as int, 0, folder) == files_in(
                    sources@.take(count as int),
                    folder,
                ) by {}
        }
        while depth < path.len()
            invariant
                count < sources@.len(),
                path@ == sources@[count as int].relative_path@,
                depth <= path@.len(),
                are_folders_so_far(
                    candidate_models(folders@),
                    sources@,
                    count as int,
                    depth as int,
                ),
            decreases path@.len() - depth,
        {
            if path[depth] == '/' {
                count_folder(&mut folders, sources, count, depth, &path);
            } else {
                proof {
                    assert forall|folder: Seq<char>| #[trigger]
                        files_so_far(sources@, count as int, depth + 1, folder) == files_so_far(
                            sources@,
                            count as int,
                            depth as int,
                            folder,
                        ) by {}
                }
            }
            depth += 1;
        }
        proof {
            let next = sources@.take(count + 1);
            assert(next.drop_last() =~= sources@.take(count as int));
            assert forall|folder: Seq<char>| #[trigger]
                files_in(next, folder) == files_so_far(
                    sources@,
                    count as int,
                    depth as int,
                    folder,
                ) by {}
        }
        count += 1;
    }
    proof {
        assert(sources@.take(count as int) =~= sources@);
    }
    folders
}

/// Collects the log files in the order of their paths.
fn collect_files(sources: &Vec<ScopeSource>) -> (result: Vec<AssistantMentionCandidate>)
    ensures
        exists|order: Seq<int>| #[trigger]
            is_file_order(order, sources@, sources@.len() as int) && files_follow(
                candidate_models(result@),
                sources@,
                order,
            ),
{
    let mut files: Vec<AssistantMentionCandidate> = Vec::new();
    let ghost mut order: Seq<int> = Seq::empty();
    let mut count: usize = 0;
    while count < sources.len()
        invariant
            count <= sources@.len(),
            is_file_order(order, sources@, count as int),
            files_follow(candidate_models(files@), sources@, order),
        decreases sources@.len() - count,
    {
        let source = &sources[count];
        let ghost path = source.relative_path@;
        let ghost before = candidate_models(files@);
        let mut at: usize = files.len();
        while at > 0 && text_comes_before(
            source.relative_path.as_str(),
            files[at - 1].display_path.as_str(),
        )
            invariant
                at <= files@.len(),
                count < sources@.len(),
                path == source.relative_path@,
                before == candidate_models(files@),
                is_file_order(order, sources@, count as int),
                files_follow(before, sources@, order),
                forall|i: int|
                    at <= i < order.len() ==> comes_before(
                        path,
                        sources@[#[trigger] order[i]].relative_path@,
                    ),
            decreases at,
        {
            proof {
                assert(before[at - 1] == files@[at - 1]@);
            }
            at -= 1;
        }
        proof {
            if at > 0 {
                assert(before[at - 1] == files@[at - 1]@);
            }
            assert forall|i: int| 0 <= i < at implies file_comes_before(
                sources@,
                #[trigger] order[i],
                count as int,
            ) by {
                let last = sources@[order[at - 1]].relative_path@;
                law_text_order_is_total(last, path);
                if i < at - 1 {
                    assert(file_comes_before(sources@, order[i], order[at - 1]));
                    let here = sources@[order[i]].relative_path@;
                    if comes_before(here, last) && comes_before(last, path) {
                        law_text_order_is_transitive(here, last, path);
                    }
                }
            }
        }
        let candidate = AssistantMentionCandidate {
            display_path: source.relative_path.clone(),
            search_key: source.relative_path.as_str().to_lowercase(),
            kind: AssistantMentionKind::File,
            source_ref: Some(source.source_ref.clone()),
            matching_source_count: 1,
        };
        files.insert(at, candidate);
        proof {
            let after = candidate_models(files@);
            assert(after =~= before.insert(at as int, candidate@));
            assert(candidate@ == file_candidate(*source));
            let longer = order.insert(at as int, count as int);
            assert forall|i: int, j: int| 0 <= i < j < count + 1 implies file_comes_before(
                sources@,
                #[trigger] longer[i],
                #[trigger] longer[j],
            ) by {
                if i < at {
                    assert(longer[i] == order[i]);
                } else if i > at {
                    assert(longer[i] == order[i - 1]);
                }
                if j < at {
                    assert(longer[j] == order[j]);
                } else if j > at {
                    assert(longer[j] == order[j - 1]);
                }
            }
            assert forall|i: int| 0 <= i < longer.len() implies (#[trigger] after[i])
                == file_candidate(sources@[longer[i]]) by {
                if i < at {
                    assert(after[i] == before[i]);
                } else if i > at {
                    assert(after[i] == before[i - 1]);
                }
            }
            assert forall|i: int| 0 <= i < longer.len() implies 0 <= #[trigger] longer[i] < count
                + 1 by {
                if i < at {
                    assert(longer[i] == order[i]);
                } else if i > at {
                    assert(longer[i] == order[i - 1]);
                }
            }
            order = longer;
        }
        count += 1;
    }
    proof {
        assert(is_file_order(order, sources@, sources@.len() as int) && files_follow(
            candidate_models(files@),
            sources@,
            order,
        ));
    }
    files
}

/// Collects what can be named of the scanned sources.
pub fn build_mention_candidates(scope: &SourceScope) -> (result: Vec<AssistantMentionCandidate>)
    ensures
        are_candidates_of(candidate_models(result@), scope.sources@),
{
    let mut candidates = collect_folders(&scope.sources);
    let mut files = collect_files(&scope.sources);
    let ghost folder_models = candidate_models(candidates@);
    let ghost file_models = candidate_models(files@);
    candidates.append(&mut files);
    proof {
        let all = candidate_models(candidates@);
        let split = all.len() - scope.sources@.len();
        assert(all =~= folder_models + file_models);
        assert(all.take(split) =~= folder_models);
        assert(all.skip(split) =~= file_models);
    }
    candidates
}

/// Every folder that a log file lies in can be named, and nothing else that is a
/// folder.
pub proof fn law_every_folder_can_be_named(
    candidates: Seq<CandidateModel>,
    sources: Seq<ScopeSource>,
    folder: Seq<char>,
)
    requires
        are_candidates_of(candidates, sources),
    ensures
        (exists|i: int|
            0 <= i < candidates.len() - sources.len() && (#[trigger] candidates[i]).display_path
                == folder) == (files_in(sources, folder) > 0),
{
    let folders = candidates.take(candidates.len() - sources.len());
    if files_in(sources, folder) > 0 {
        assert(has_path(folders, folder));
        let i = choose|i: int|
            0 <= i < folders.len() && (#[trigger] folders[i]).display_path == folder;
        assert(candidates[i].display_path == folder);
    } else {
        assert forall|i: int| 0 <= i < candidates.len() - sources.len() implies (
        #[trigger] candidates[i]).display_path != folder by {
            assert(folders[i] == candidates[i]);
        }
    }
}

} // verus!
