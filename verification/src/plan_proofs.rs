//! What holds of every plan: no path is created twice, each resource of the
//! hardware is written exactly once, and hardware without resources gets no
//! resources directory.

use crate::assets::LPF_SUFFIX;
use crate::filesystem::{
    creates, distinct_paths, lemma_merge_distinct, lemma_merge_holds_once, lemma_merge_origin,
    lemma_path_in_injective, merge_new_paths, path_in, FsActionView,
};
use crate::hardware::{
    bundled, lemma_bundled_is_constraint_file, lemma_bundled_name_determines_payload,
    resource_writes, DevBoard, ResourceAssociation, ResourceView, Target, RESOURCES_DIR,
};
use crate::new_command::{
    board_resources, dirs_plan, has_resources, makefile_write, project_plan, resources_dir,
    resources_plan, top_file_write, yosys_script_write, MAKEFILE_NAME,
};
use crate::text::ends_with;
use vstd::prelude::*;

verus! {

/// The paths that every project has: its directory, the resources directory,
/// the top file, the synthesis script and the build file.
pub open spec fn fixed_paths(name: Seq<char>) -> Seq<Seq<char>> {
    seq![
        name,
        resources_dir(name),
        path_in(name, name + ".v"@),
        path_in(name, name + ".ys"@),
        path_in(name, MAKEFILE_NAME@),
    ]
}

/// The five paths that every project has are five different paths.
pub proof fn lemma_fixed_paths_distinct(name: Seq<char>)
    ensures
        fixed_paths(name).no_duplicates(),
{
    reveal_strlit("/");
    reveal_strlit(".v");
    reveal_strlit(".ys");
    reveal_strlit("Makefile");
    reveal_strlit("resources");
    let dir = resources_dir(name);
    let top = name + ".v"@;
    let script = name + ".ys"@;
    assert(path_in(name, top) != dir) by {
        if path_in(name, top) == dir {
            lemma_path_in_injective(name, top, RESOURCES_DIR@);
            assert(top[top.len() - 1] == 'v');
        }
    }
    assert(path_in(name, script) != dir) by {
        if path_in(name, script) == dir {
            lemma_path_in_injective(name, script, RESOURCES_DIR@);
            assert(script[script.len() - 3] == '.');
        }
    }
    assert(path_in(name, top) != path_in(name, MAKEFILE_NAME@)) by {
        if path_in(name, top) == path_in(name, MAKEFILE_NAME@) {
            lemma_path_in_injective(name, top, MAKEFILE_NAME@);
            assert(top[top.len() - 1] == 'v');
        }
    }
    assert(path_in(name, script) != path_in(name, MAKEFILE_NAME@)) by {
        if path_in(name, script) == path_in(name, MAKEFILE_NAME@) {
            lemma_path_in_injective(name, script, MAKEFILE_NAME@);
            assert(script[script.len() - 1] == 's');
        }
    }
    assert(path_in(name, top).len() != path_in(name, script).len());
    assert(dir.len() != path_in(name, MAKEFILE_NAME@).len());
    assert forall|i: int| 1 <= i < 5 implies name.len() < (
    #[trigger] fixed_paths(name)[i]).len() by {}
}

/// The path of a pin-constraint file among a project's resources is none of
/// the five paths that every project has.
pub proof fn lemma_resource_path_apart(name: Seq<char>, filename: Seq<char>)
    requires
        ends_with(filename, LPF_SUFFIX@),
    ensures
        !fixed_paths(name).contains(path_in(resources_dir(name), filename)),
{
    reveal_strlit("/");
    reveal_strlit(".v");
    reveal_strlit(".ys");
    reveal_strlit("Makefile");
    reveal_strlit("resources");
    reveal_strlit(".lpf");
    let path = path_in(resources_dir(name), filename);
    let tail = filename.subrange(filename.len() - 4, filename.len() as int);
    assert(tail[3] == 'f');
    assert(path[path.len() - 1] == 'f');
    let top = path_in(name, name + ".v"@);
    let script = path_in(name, name + ".ys"@);
    let build = path_in(name, MAKEFILE_NAME@);
    assert(top[top.len() - 1] == 'v');
    assert(script[script.len() - 1] == 's');
    assert(build[build.len() - 1] == 'e');
    assert(path.len() > resources_dir(name).len() > name.len());
    assert forall|i: int| 0 <= i < 5 implies (#[trigger] fixed_paths(name)[i]) != path by {}
}

/// The write that puts `resource` among the resources of the project `name`.
pub open spec fn resource_write(name: Seq<char>, resource: ResourceView) -> FsActionView {
    FsActionView::WriteFile {
        path: path_in(resources_dir(name), resource.filename),
        contents: resource.bytes,
    }
}

/// `resource` comes with the project's target or with its board.
pub open spec fn project_resource(
    target: Target,
    dev_board: Option<DevBoard>,
    resource: ResourceView,
) -> bool {
    target.resources().contains(resource) || board_resources(dev_board).contains(resource)
}

/// Every write among a project's resource writes puts a resource of the
/// project's hardware into the resources directory.
pub proof fn lemma_resources_plan_origin(
    name: Seq<char>,
    target: Target,
    dev_board: Option<DevBoard>,
    at: int,
) -> (resource: ResourceView)
    requires
        0 <= at < resources_plan(name, target, dev_board).len(),
    ensures
        project_resource(target, dev_board, resource),
        resources_plan(name, target, dev_board)[at] == resource_write(name, resource),
{
    let dir = resources_dir(name);
    let of_target = resource_writes(dir, target.resources());
    let of_board = resource_writes(dir, board_resources(dev_board));
    let first = merge_new_paths(Seq::empty(), of_target);
    let action = resources_plan(name, target, dev_board)[at];
    lemma_merge_origin(first, of_board, at);
    if first.contains(action) {
        let i = choose|i: int| 0 <= i < first.len() && first[i] == action;
        lemma_merge_origin(Seq::empty(), of_target, i);
        let j = choose|j: int| 0 <= j < of_target.len() && of_target[j] == action;
        assert(target.resources().contains(target.resources()[j]));
        target.resources()[j]
    } else {
        let j = choose|j: int| 0 <= j < of_board.len() && of_board[j] == action;
        assert(board_resources(dev_board).contains(board_resources(dev_board)[j]));
        board_resources(dev_board)[j]
    }
}

/// A resource of a project's hardware comes with the catalog.
pub proof fn lemma_project_resource_bundled(
    target: Target,
    dev_board: Option<DevBoard>,
    resource: ResourceView,
)
    requires
        project_resource(target, dev_board, resource),
    ensures
        bundled(resource),
{
    if target.resources().contains(resource) {
        let i = choose|i: int|
            0 <= i < target.resources().len() && target.resources()[i] == resource;
        assert(target.resources()[i] == resource);
    } else {
        let board = dev_board->0;
        let i = choose|i: int| 0 <= i < board.resources().len() && board.resources()[i] == resource;
        assert(board.resources()[i] == resource);
    }
}

/// A plan creates no path twice: every directory is made once and every
/// file is written once.
pub proof fn lemma_plan_distinct_paths(
    name: Seq<char>,
    target: Target,
    dev_board: Option<DevBoard>,
)
    ensures
        distinct_paths(project_plan(name, target, dev_board)),
{
    let plan = project_plan(name, target, dev_board);
    let dirs = dirs_plan(name, target, dev_board).len() as int;
    let writes = resources_plan(name, target, dev_board);
    let dir = resources_dir(name);
    lemma_fixed_paths_distinct(name);
    lemma_merge_distinct(Seq::empty(), resource_writes(dir, target.resources()));
    lemma_merge_distinct(
        merge_new_paths(Seq::empty(), resource_writes(dir, target.resources())),
        resource_writes(dir, board_resources(dev_board)),
    );
    let fixed = fixed_paths(name);
    assert forall|k: int| 0 <= k < writes.len() implies !fixed.contains(
        (#[trigger] writes[k]).path(),
    ) by {
        let resource = lemma_resources_plan_origin(name, target, dev_board, k);
        lemma_project_resource_bundled(target, dev_board, resource);
        lemma_bundled_is_constraint_file(resource);
        lemma_resource_path_apart(name, resource.filename);
    }
    assert forall|i: int, j: int| 0 <= i < j < plan.len() implies (#[trigger] plan[i]).path() != (
    #[trigger] plan[j]).path() by {
        let slot = |k: int|
            if k < dirs {
                k
            } else if k == dirs {
                2
            } else if k == dirs + 1 {
                3
            } else {
                4
            };
        let inner = |k: int| dirs + 2 <= k < dirs + 2 + writes.len();
        if inner(i) {
            assert(plan[i] == writes[i - dirs - 2]);
        } else {
            assert(plan[i].path() == fixed[slot(i)]);
        }
        if inner(j) {
            assert(plan[j] == writes[j - dirs - 2]);
        } else {
            assert(plan[j].path() == fixed[slot(j)]);
        }
        if inner(i) && !inner(j) {
            assert(fixed.contains(fixed[slot(j)]));
        }
        if !inner(i) && inner(j) {
            assert(fixed.contains(fixed[slot(i)]));
        }
    }
}

/// Each resource of a project's hardware is written exactly once, with its
/// own bytes, under its own name, into the resources directory, and that
/// directory is made before.
pub proof fn lemma_resource_written_once(
    name: Seq<char>,
    target: Target,
    dev_board: Option<DevBoard>,
    resource: ResourceView,
) -> (at: int)
    requires
        project_resource(target, dev_board, resource),
    ensures
        1 < at < project_plan(name, target, dev_board).len(),
        project_plan(name, target, dev_board)[1] == (FsActionView::CreateDir {
            path: resources_dir(name),
        }),
        project_plan(name, target, dev_board)[at] == resource_write(name, resource),
        forall|other: int|
            0 <= other < project_plan(name, target, dev_board).len() && other != at ==> (
            #[trigger] project_plan(name, target, dev_board)[other]).path() != resource_write(
                name,
                resource,
            ).path(),
{
    let plan = project_plan(name, target, dev_board);
    let dir = resources_dir(name);
    let of_target = resource_writes(dir, target.resources());
    let of_board = resource_writes(dir, board_resources(dev_board));
    let first = merge_new_paths(Seq::empty(), of_target);
    let action = resource_write(name, resource);
    lemma_project_resource_bundled(target, dev_board, resource);
    assert forall|i: int|
        0 <= i < of_target.len() && (#[trigger] of_target[i]).path()
            == action.path() implies of_target[i] == action by {
        let other = target.resources()[i];
        assert(target.resources().contains(other));
        lemma_project_resource_bundled(target, dev_board, other);
        lemma_path_in_injective(dir, other.filename, resource.filename);
        lemma_bundled_name_determines_payload(other, resource);
    }
    assert forall|i: int|
        0 <= i < of_board.len() && (#[trigger] of_board[i]).path()
            == action.path() implies of_board[i] == action by {
        let other = board_resources(dev_board)[i];
        assert(board_resources(dev_board).contains(other));
        lemma_project_resource_bundled(target, dev_board, other);
        lemma_path_in_injective(dir, other.filename, resource.filename);
        lemma_bundled_name_determines_payload(other, resource);
    }
    assert forall|i: int|
        0 <= i < first.len() && (#[trigger] first[i]).path() == action.path() implies first[i]
        == action by {
        lemma_merge_origin(Seq::empty(), of_target, i);
        let j = choose|j: int| 0 <= j < of_target.len() && of_target[j] == first[i];
        assert(of_target[j].path() == action.path());
    }
    lemma_merge_distinct(Seq::empty(), of_target);
    if target.resources().contains(resource) {
        let i = choose|i: int|
            0 <= i < target.resources().len() && target.resources()[i] == resource;
        assert(of_target[i] == action);
        let held = lemma_merge_holds_once(Seq::empty(), of_target, action);
        assert(first.contains(action));
    } else {
        let i = choose|i: int|
            0 <= i < board_resources(dev_board).len() && board_resources(dev_board)[i] == resource;
        assert(of_board[i] == action);
    }
    let inner = lemma_merge_holds_once(first, of_board, action);
    let dirs = dirs_plan(name, target, dev_board).len() as int;
    let at = dirs + 2 + inner;
    assert(plan[at] == action);
    lemma_plan_distinct_paths(name, target, dev_board);
    at
}

/// With hardware that comes with no resource, a project is its directory,
/// its top file, its synthesis script and its build file, and nothing is
/// created where the resources directory would be.
pub proof fn lemma_no_resources_no_directory(
    name: Seq<char>,
    target: Target,
    dev_board: Option<DevBoard>,
)
    requires
        !has_resources(target, dev_board),
    ensures
        project_plan(name, target, dev_board) == seq![
            FsActionView::CreateDir { path: name },
            top_file_write(name),
            yosys_script_write(name, target),
            makefile_write(name, target, dev_board),
        ],
        !creates(project_plan(name, target, dev_board), resources_dir(name)),
{
    let plan = project_plan(name, target, dev_board);
    assert(resource_writes(resources_dir(name), target.resources()) =~= Seq::empty());
    assert(resource_writes(resources_dir(name), board_resources(dev_board)) =~= Seq::empty());
    assert(plan =~= seq![
        FsActionView::CreateDir { path: name },
        top_file_write(name),
        yosys_script_write(name, target),
        makefile_write(name, target, dev_board),
    ]);
    lemma_fixed_paths_distinct(name);
    let fixed = fixed_paths(name);
    assert(fixed[1] == resources_dir(name));
    assert(plan[0].path() == fixed[0]);
    assert(plan[1].path() == fixed[2]);
    assert(plan[2].path() == fixed[3]);
    assert(plan[3].path() == fixed[4]);
}

} // verus!
