//! The file-system side of project creation, as data: the actions a caller is
//! asked to carry out, and a mathematical model of the tree they act on.

use crate::text::str_eq;
use vstd::prelude::*;

verus! {

/// One file-system operation that project creation asks for.
#[derive(Debug)]
pub enum FsAction {
    /// Create the directory `path`.
    CreateDir { path: String },
    /// Create the file `path` and write `contents` to it.
    WriteFile { path: String, contents: Vec<u8> },
}

/// The mathematical value of an [`FsAction`].
pub enum FsActionView {
    CreateDir { path: Seq<char> },
    WriteFile { path: Seq<char>, contents: Seq<u8> },
}

impl FsActionView {
    /// The path that the action creates.
    pub open spec fn path(self) -> Seq<char> {
        match self {
            FsActionView::CreateDir { path } => path,
            FsActionView::WriteFile { path, .. } => path,
        }
    }
}

impl View for FsAction {
    type V = FsActionView;

    open spec fn view(&self) -> FsActionView {
        match self {
            FsAction::CreateDir { path } => FsActionView::CreateDir { path: path@ },
            FsAction::WriteFile { path, contents } => FsActionView::WriteFile {
                path: path@,
                contents: contents@,
            },
        }
    }
}

impl DeepView for FsAction {
    type V = FsActionView;

    open spec fn deep_view(&self) -> FsActionView {
        self@
    }
}

impl FsAction {
    /// The path that the action creates.
    pub fn path(&self) -> (path: &str)
        ensures
            path@ == self@.path(),
    {
        match self {
            FsAction::CreateDir { path } => path.as_str(),
            FsAction::WriteFile { path, .. } => path.as_str(),
        }
    }
}

/// The path of `filename` inside the directory `dir`.
pub open spec fn path_in(dir: Seq<char>, filename: Seq<char>) -> Seq<char> {
    dir + "/"@ + filename
}

/// The path of `filename` inside the directory `dir`.
pub fn join_path(dir: &str, filename: &str) -> (path: String)
    ensures
        path@ == path_in(dir@, filename@),
{
    let mut path = dir.to_owned();
    path.append("/");
    path.append(filename);
    path
}

/// Within one directory, different file names give different paths.
pub proof fn lemma_path_in_injective(dir: Seq<char>, a: Seq<char>, b: Seq<char>)
    requires
        path_in(dir, a) == path_in(dir, b),
    ensures
        a == b,
{
    let lead = (dir + "/"@).len() as int;
    assert(path_in(dir, a).subrange(lead, path_in(dir, a).len() as int) =~= a);
    assert(path_in(dir, b).subrange(lead, path_in(dir, b).len() as int) =~= b);
}

/// One of `actions` creates `path`.
pub open spec fn creates(actions: Seq<FsActionView>, path: Seq<char>) -> bool {
    exists|i: int| 0 <= i < actions.len() && (#[trigger] actions[i]).path() == path
}

/// No two of `actions` create the same path.
pub open spec fn distinct_paths(actions: Seq<FsActionView>) -> bool {
    forall|i: int, j: int|
        0 <= i < j < actions.len() ==> (#[trigger] actions[i]).path() != (
        #[trigger] actions[j]).path()
}

/// `kept`, followed by those of `more` that create a path which nothing
/// before them creates: of several actions on one path, the first stays.
pub open spec fn merge_new_paths(kept: Seq<FsActionView>, more: Seq<FsActionView>) -> Seq<
    FsActionView,
>
    decreases more.len(),
{
    if more.len() == 0 {
        kept
    } else {
        let merged = merge_new_paths(kept, more.drop_last());
        if creates(merged, more.last().path()) {
            merged
        } else {
            merged.push(more.last())
        }
    }
}

/// Whether one of `actions` creates `path`.
pub fn creates_path(actions: &Vec<FsAction>, path: &str) -> (found: bool)
    ensures
        found == creates(actions.deep_view(), path@),
{
    let mut i: usize = 0;
    while i < actions.len()
        invariant
            i <= actions.len(),
            forall|k: int| 0 <= k < i ==> (#[trigger] actions.deep_view()[k]).path() != path@,
        decreases actions.len() - i,
    {
        if str_eq(actions[i].path(), path) {
            proof {
                assert(actions.deep_view()[i as int].path() == path@);
            }
            return true;
        }
        i += 1;
    }
    false
}

/// Merging keeps what was there, in place, and adds behind it.
pub proof fn lemma_merge_keeps(kept: Seq<FsActionView>, more: Seq<FsActionView>)
    ensures
        kept.len() <= merge_new_paths(kept, more).len(),
        forall|i: int|
            0 <= i < kept.len() ==> (#[trigger] merge_new_paths(kept, more)[i]) == kept[i],
    decreases more.len(),
{
    if more.len() > 0 {
        lemma_merge_keeps(kept, more.drop_last());
    }
}

/// Merging creates no path twice where none was created twice before.
pub proof fn lemma_merge_distinct(kept: Seq<FsActionView>, more: Seq<FsActionView>)
    requires
        distinct_paths(kept),
    ensures
        distinct_paths(merge_new_paths(kept, more)),
    decreases more.len(),
{
    if more.len() > 0 {
        lemma_merge_distinct(kept, more.drop_last());
    }
}

/// Every action of a merge comes from one of the two lists.
pub proof fn lemma_merge_origin(kept: Seq<FsActionView>, more: Seq<FsActionView>, at: int)
    requires
        0 <= at < merge_new_paths(kept, more).len(),
    ensures
        kept.contains(merge_new_paths(kept, more)[at]) || more.contains(
            merge_new_paths(kept, more)[at],
        ),
    decreases more.len(),
{
    if more.len() == 0 {
        assert(kept[at] == merge_new_paths(kept, more)[at]);
    } else {
        let merged = merge_new_paths(kept, more.drop_last());
        if at < merged.len() {
            lemma_merge_origin(kept, more.drop_last(), at);
            if !kept.contains(merged[at]) {
                let i = choose|i: int|
                    0 <= i < more.drop_last().len() && more.drop_last()[i] == merged[at];
                assert(more[i] == merged[at]);
            }
        } else {
            assert(more[more.len() - 1] == more.last());
        }
    }
}

/// After a merge, every path of either list is created.
pub proof fn lemma_merge_covers(kept: Seq<FsActionView>, more: Seq<FsActionView>, path: Seq<char>)
    requires
        creates(kept, path) || creates(more, path),
    ensures
        creates(merge_new_paths(kept, more), path),
    decreases more.len(),
{
    let result = merge_new_paths(kept, more);
    lemma_merge_keeps(kept, more);
    if creates(kept, path) {
        let i = choose|i: int| 0 <= i < kept.len() && (#[trigger] kept[i]).path() == path;
        assert(result[i].path() == path);
    } else {
        let i = choose|i: int| 0 <= i < more.len() && (#[trigger] more[i]).path() == path;
        let merged = merge_new_paths(kept, more.drop_last());
        if i < more.len() - 1 {
            assert(more.drop_last()[i].path() == path);
            lemma_merge_covers(kept, more.drop_last(), path);
            let j = choose|j: int| 0 <= j < merged.len() && (#[trigger] merged[j]).path() == path;
            assert(result[j].path() == path);
        } else if creates(merged, path) {
        } else {
            assert(result[merged.len() as int].path() == path);
        }
    }
}

/// Where the two lists agree on what is written to a path, a merge holds
/// every one of their actions, and creates its path exactly once.
pub proof fn lemma_merge_holds_once(
    kept: Seq<FsActionView>,
    more: Seq<FsActionView>,
    action: FsActionView,
) -> (at: int)
    requires
        distinct_paths(kept),
        kept.contains(action) || more.contains(action),
        forall|i: int|
            0 <= i < kept.len() && (#[trigger] kept[i]).path() == action.path() ==> kept[i]
                == action,
        forall|i: int|
            0 <= i < more.len() && (#[trigger] more[i]).path() == action.path() ==> more[i]
                == action,
    ensures
        0 <= at < merge_new_paths(kept, more).len(),
        merge_new_paths(kept, more)[at] == action,
        forall|other: int|
            0 <= other < merge_new_paths(kept, more).len() && other != at ==> (
            #[trigger] merge_new_paths(kept, more)[other]).path() != action.path(),
{
    let result = merge_new_paths(kept, more);
    if kept.contains(action) {
        let i = choose|i: int| 0 <= i < kept.len() && kept[i] == action;
        assert(kept[i].path() == action.path());
    } else {
        let i = choose|i: int| 0 <= i < more.len() && more[i] == action;
        assert(more[i].path() == action.path());
    }
    lemma_merge_covers(kept, more, action.path());
    lemma_merge_distinct(kept, more);
    let at = choose|at: int|
        0 <= at < result.len() && (#[trigger] result[at]).path() == action.path();
    lemma_merge_origin(kept, more, at);
    if kept.contains(result[at]) {
        let i = choose|i: int| 0 <= i < kept.len() && kept[i] == result[at];
        assert(kept[i].path() == action.path());
    } else {
        let i = choose|i: int| 0 <= i < more.len() && more[i] == result[at];
        assert(more[i].path() == action.path());
    }
    at
}

/// A model of a directory tree: which directories exist, and which files with
/// what contents. Paths are compared as written.
pub struct Tree {
    pub dirs: Set<Seq<char>>,
    pub files: Map<Seq<char>, Seq<u8>>,
}

impl Tree {
    /// Something, a directory or a file, exists at `path`.
    pub open spec fn exists_at(self, path: Seq<char>) -> bool {
        self.dirs.contains(path) || self.files.contains_key(path)
    }

    /// The tree after one action has succeeded.
    pub open spec fn perform(self, action: FsActionView) -> Tree {
        match action {
            FsActionView::CreateDir { path } => Tree { dirs: self.dirs.insert(path), ..self },
            FsActionView::WriteFile { path, contents } => Tree {
                files: self.files.insert(path, contents),
                ..self
            },
        }
    }

    /// The tree after a sequence of actions has succeeded, first to last.
    pub open spec fn perform_all(self, actions: Seq<FsActionView>) -> Tree
        decreases actions.len(),
    {
        if actions.len() == 0 {
            self
        } else {
            self.perform_all(actions.drop_last()).perform(actions.last())
        }
    }
}

/// The tree holds what `action` creates: the directory, or the file with
/// exactly the action's contents.
pub open spec fn holds(tree: Tree, action: FsActionView) -> bool {
    match action {
        FsActionView::CreateDir { path } => tree.dirs.contains(path),
        FsActionView::WriteFile { path, contents } => tree.files.contains_key(path)
            && tree.files[path] == contents,
    }
}

/// What exists stays: no action removes a path.
pub proof fn lemma_perform_all_keeps(tree: Tree, actions: Seq<FsActionView>, path: Seq<char>)
    requires
        tree.exists_at(path),
    ensures
        tree.perform_all(actions).exists_at(path),
    decreases actions.len(),
{
    if actions.len() > 0 {
        lemma_perform_all_keeps(tree, actions.drop_last(), path);
    }
}

/// Every path that a performed action names exists afterwards.
pub proof fn lemma_perform_all_creates(tree: Tree, actions: Seq<FsActionView>, at: int)
    requires
        0 <= at < actions.len(),
    ensures
        tree.perform_all(actions).exists_at(actions[at].path()),
    decreases actions.len(),
{
    if at < actions.len() - 1 {
        lemma_perform_all_creates(tree, actions.drop_last(), at);
    }
}

/// Nothing appears by itself: what exists afterwards existed before or was
/// created by one of the actions.
pub proof fn lemma_perform_all_exists(tree: Tree, actions: Seq<FsActionView>, path: Seq<char>)
    requires
        tree.perform_all(actions).exists_at(path),
    ensures
        tree.exists_at(path) || creates(actions, path),
    decreases actions.len(),
{
    if actions.len() > 0 {
        let earlier = actions.drop_last();
        if tree.perform_all(earlier).exists_at(path) {
            lemma_perform_all_exists(tree, earlier, path);
            if !tree.exists_at(path) {
                let at = choose|at: int|
                    0 <= at < earlier.len() && (#[trigger] earlier[at]).path() == path;
                assert(actions[at].path() == path);
            }
        } else {
            assert(actions[actions.len() - 1].path() == path);
        }
    }
}

/// After actions that create no path twice, the tree holds what each of them
/// created: nothing was written over.
pub proof fn lemma_perform_all_holds(tree: Tree, actions: Seq<FsActionView>, at: int)
    requires
        distinct_paths(actions),
        0 <= at < actions.len(),
    ensures
        holds(tree.perform_all(actions), actions[at]),
    decreases actions.len(),
{
    if at < actions.len() - 1 {
        let earlier = actions.drop_last();
        assert(distinct_paths(earlier)) by {
            assert forall|i: int, j: int| 0 <= i < j < earlier.len() implies (
            #[trigger] earlier[i]).path() != (#[trigger] earlier[j]).path() by {
                assert(earlier[i] == actions[i] && earlier[j] == actions[j]);
            }
        }
        lemma_perform_all_holds(tree, earlier, at);
        assert(earlier[at] == actions[at]);
        assert(actions[at].path() != actions[actions.len() - 1].path());
    }
}

} // verus!
