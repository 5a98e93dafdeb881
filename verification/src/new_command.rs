//! What creating a project asks of the file system: which directories and
//! files, with what contents, in what order.

use crate::filesystem::{join_path, merge_new_paths, path_in, FsAction, FsActionView};
use crate::hardware::{
    resource_writes, DevBoard, ResourceAssociation, ResourceView, Target, RESOURCES_DIR,
};
use crate::templates::{
    makefile, makefile_text, top_file, top_file_text, yosys_script, yosys_script_text,
};
use crate::text::text_bytes;
use vstd::prelude::*;
use vstd::utf8::encode_utf8;

verus! {

/// Name of the build file.
pub const MAKEFILE_NAME: &'static str = "Makefile";

/// What is to be created: a project's name, its chip and, where one was
/// chosen, its board.
#[derive(Debug)]
pub struct ProjectSpec {
    pub project_name: String,
    pub target: Target,
    pub dev_board: Option<DevBoard>,
}

/// Why a project was not created, each with the path at which it went wrong.
#[derive(Debug)]
pub enum NewCommandError {
    /// Something already exists where the project's directory would go.
    DirectoryAlreadyExists { path: String },
    /// The file system did not permit creating a directory.
    InsufficientPermission { path: String },
    /// Creating a directory or writing a file failed for another reason.
    Io { path: String },
}

/// The mathematical value of a [`NewCommandError`].
pub enum NewCommandErrorView {
    DirectoryAlreadyExists { path: Seq<char> },
    InsufficientPermission { path: Seq<char> },
    Io { path: Seq<char> },
}

impl View for NewCommandError {
    type V = NewCommandErrorView;

    open spec fn view(&self) -> NewCommandErrorView {
        match self {
            NewCommandError::DirectoryAlreadyExists { path } => {
                NewCommandErrorView::DirectoryAlreadyExists { path: path@ }
            },
            NewCommandError::InsufficientPermission { path } => {
                NewCommandErrorView::InsufficientPermission { path: path@ }
            },
            NewCommandError::Io { path } => NewCommandErrorView::Io { path: path@ },
        }
    }
}

impl NewCommandErrorView {
    /// The path at which it went wrong.
    pub open spec fn path(self) -> Seq<char> {
        match self {
            NewCommandErrorView::DirectoryAlreadyExists { path } => path,
            NewCommandErrorView::InsufficientPermission { path } => path,
            NewCommandErrorView::Io { path } => path,
        }
    }

    /// The error in words, for the user.
    pub open spec fn text(self) -> Seq<char> {
        match self {
            NewCommandErrorView::DirectoryAlreadyExists { path } => "dir named '"@ + path
                + "' already exists"@,
            NewCommandErrorView::InsufficientPermission { path } => "no permission to create dir '"@
                + path + "'"@,
            NewCommandErrorView::Io { path } => "could not create '"@ + path + "'"@,
        }
    }
}

impl NewCommandError {
    /// The path at which it went wrong.
    pub fn path(&self) -> (path: &str)
        ensures
            path@ == self@.path(),
    {
        match self {
            NewCommandError::DirectoryAlreadyExists { path } => path.as_str(),
            NewCommandError::InsufficientPermission { path } => path.as_str(),
            NewCommandError::Io { path } => path.as_str(),
        }
    }

    /// The error in words, for the user.
    pub fn message(&self) -> (text: String)
        ensures
            text@ == self@.text(),
    {
        match self {
            NewCommandError::DirectoryAlreadyExists { path } => {
                let mut text = "dir named '".to_owned();
                text.append(path.as_str());
                text.append("' already exists");
                text
            },
            NewCommandError::InsufficientPermission { path } => {
                let mut text = "no permission to create dir '".to_owned();
                text.append(path.as_str());
                text.append("'");
                text
            },
            NewCommandError::Io { path } => {
                let mut text = "could not create '".to_owned();
                text.append(path.as_str());
                text.append("'");
                text
            },
        }
    }
}

/// The resources of the board, if one was chosen.
pub open spec fn board_resources(dev_board: Option<DevBoard>) -> Seq<ResourceView> {
    match dev_board {
        Some(board) => board.resources(),
        None => Seq::empty(),
    }
}

/// The project's hardware comes with at least one resource.
pub open spec fn has_resources(target: Target, dev_board: Option<DevBoard>) -> bool {
    target.resources().len() > 0 || board_resources(dev_board).len() > 0
}

/// The directory that holds the resources of the project `name`.
pub open spec fn resources_dir(name: Seq<char>) -> Seq<char> {
    path_in(name, RESOURCES_DIR@)
}

/// The directories of the project `name`: its own, and one for resources
/// where there are any.
pub open spec fn dirs_plan(name: Seq<char>, target: Target, dev_board: Option<DevBoard>) -> Seq<
    FsActionView,
> {
    if has_resources(target, dev_board) {
        seq![
            FsActionView::CreateDir { path: name },
            FsActionView::CreateDir { path: resources_dir(name) },
        ]
    } else {
        seq![FsActionView::CreateDir { path: name }]
    }
}

/// The write of the top file of the project `name`.
pub open spec fn top_file_write(name: Seq<char>) -> FsActionView {
    FsActionView::WriteFile {
        path: path_in(name, name + ".v"@),
        contents: encode_utf8(top_file_text(name)),
    }
}

/// The write of the synthesis script of the project `name`.
pub open spec fn yosys_script_write(name: Seq<char>, target: Target) -> FsActionView {
    FsActionView::WriteFile {
        path: path_in(name, name + ".ys"@),
        contents: encode_utf8(yosys_script_text(name, target)),
    }
}

/// The write of the build file of the project `name`.
pub open spec fn makefile_write(
    name: Seq<char>,
    target: Target,
    dev_board: Option<DevBoard>,
) -> FsActionView {
    FsActionView::WriteFile {
        path: path_in(name, MAKEFILE_NAME@),
        contents: encode_utf8(makefile_text(name, target, dev_board)),
    }
}

/// The writes of the resources of the project `name`: those of the target,
/// then those of the board, each file once.
pub open spec fn resources_plan(
    name: Seq<char>,
    target: Target,
    dev_board: Option<DevBoard>,
) -> Seq<FsActionView> {
    merge_new_paths(
        merge_new_paths(Seq::empty(), resource_writes(resources_dir(name), target.resources())),
        resource_writes(resources_dir(name), board_resources(dev_board)),
    )
}

/// Everything that creating the project `name` does, in order: directories,
/// top file, synthesis script, resources, build file.
pub open spec fn project_plan(
    name: Seq<char>,
    target: Target,
    dev_board: Option<DevBoard>,
) -> Seq<FsActionView> {
    dirs_plan(name, target, dev_board) + seq![
        top_file_write(name),
        yosys_script_write(name, target),
    ] + resources_plan(name, target, dev_board) + seq![makefile_write(name, target, dev_board)]
}

/// The outcome of planning a project, as a value: refused where something
/// exists at the project's path, else the whole plan.
pub open spec fn new_command_outcome(
    name: Seq<char>,
    target: Target,
    dev_board: Option<DevBoard>,
    already_exists: bool,
) -> Result<Seq<FsActionView>, NewCommandErrorView> {
    if already_exists {
        Err(NewCommandErrorView::DirectoryAlreadyExists { path: name })
    } else {
        Ok(project_plan(name, target, dev_board))
    }
}

/// The directories of a project: its own, and one for resources where its
/// hardware comes with any.
pub fn create_dirs(
    project_name: String,
    target: Target,
    dev_board: Option<DevBoard>,
) -> (actions: Vec<FsAction>)
    ensures
        actions.deep_view() == dirs_plan(project_name@, target, dev_board),
{
    let dev_board_has_resources = match dev_board {
        Some(board) => board.associated_resources().is_some(),
        None => false,
    };
    let needs_resources_dir = target.associated_resources().is_some() || dev_board_has_resources;
    let resources = join_path(project_name.as_str(), RESOURCES_DIR);
    let mut actions: Vec<FsAction> = Vec::new();
    actions.push(FsAction::CreateDir { path: project_name });
    if needs_resources_dir {
        actions.push(FsAction::CreateDir { path: resources });
    }
    proof {
        assert(actions.deep_view() =~= dirs_plan(project_name@, target, dev_board));
    }
    actions
}

/// The write of a project's top file.
pub fn create_top_file(project_name: String) -> (action: FsAction)
    ensures
        action@ == top_file_write(project_name@),
{
    let mut filename = project_name.clone();
    filename.append(".v");
    let path = join_path(project_name.as_str(), filename.as_str());
    let text = top_file(project_name.as_str());
    FsAction::WriteFile { path, contents: text_bytes(text.as_str()) }
}

/// The write of a project's synthesis script.
pub fn create_yosys_script(project_name: String, target: Target) -> (action: FsAction)
    ensures
        action@ == yosys_script_write(project_name@, target),
{
    let mut filename = project_name.clone();
    filename.append(".ys");
    let path = join_path(project_name.as_str(), filename.as_str());
    let text = yosys_script(project_name.as_str(), target);
    FsAction::WriteFile { path, contents: text_bytes(text.as_str()) }
}

/// The writes of a project's resources: those of the target, then those of
/// the board, each file once.
pub fn create_resource_files(
    project_name: String,
    target: Target,
    dev_board: Option<DevBoard>,
) -> (actions: Vec<FsAction>)
    ensures
        actions.deep_view() == resources_plan(project_name@, target, dev_board),
{
    let project_resources_dir = join_path(project_name.as_str(), RESOURCES_DIR);
    let mut actions: Vec<FsAction> = Vec::new();
    proof {
        assert(actions.deep_view() =~= Seq::empty());
    }
    target.save_resource_to(project_resources_dir.as_str(), &mut actions);
    match dev_board {
        Some(board) => {
            board.save_resource_to(project_resources_dir.as_str(), &mut actions);
        },
        None => {
            proof {
                assert(resource_writes(resources_dir(project_name@), board_resources(dev_board))
                    =~= Seq::empty());
            }
        },
    }
    actions
}

/// The write of a project's build file.
pub fn create_makefile(
    project_name: String,
    target: Target,
    dev_board: Option<DevBoard>,
) -> (action: FsAction)
    ensures
        action@ == makefile_write(project_name@, target, dev_board),
{
    let path = join_path(project_name.as_str(), MAKEFILE_NAME);
    let text = makefile(project_name.as_str(), target, dev_board);
    FsAction::WriteFile { path, contents: text_bytes(text.as_str()) }
}

/// Plans the creation of a project. `already_exists` says whether anything
/// exists at the path `project_name`. If so, nothing is to be done and the
/// project's path is reported; if not, the plan is the full list of actions,
/// to be carried out in order.
pub fn run_new_command(
    project_name: String,
    target: Target,
    dev_board: Option<DevBoard>,
    already_exists: bool,
) -> (outcome: Result<Vec<FsAction>, NewCommandError>)
    ensures
        outcome matches Ok(actions) ==> new_command_outcome(
            project_name@,
            target,
            dev_board,
            already_exists,
        ) == Ok::<Seq<FsActionView>, NewCommandErrorView>(actions.deep_view()),
        outcome matches Err(error) ==> new_command_outcome(
            project_name@,
            target,
            dev_board,
            already_exists,
        ) == Err::<Seq<FsActionView>, NewCommandErrorView>(error@),
{
    if already_exists {
        return Err(NewCommandError::DirectoryAlreadyExists { path: project_name });
    }
    let mut actions = create_dirs(project_name.clone(), target, dev_board);
    let ghost dirs = actions.deep_view();
    let top = create_top_file(project_name.clone());
    let script = create_yosys_script(project_name.clone(), target);
    let mut resources = create_resource_files(project_name.clone(), target, dev_board);
    let ghost writes = resources.deep_view();
    let build = create_makefile(project_name, target, dev_board);
    actions.push(top);
    actions.push(script);
    actions.append(&mut resources);
    actions.push(build);
    proof {
        assert(actions.deep_view() =~= dirs + seq![top@, script@] + writes + seq![build@]);
    }
    Ok(actions)
}

/// What to tell the user once a project has been created.
pub open spec fn created_text(
    name: Seq<char>,
    target: Target,
    dev_board: Option<DevBoard>,
) -> Seq<char> {
    "new HDL project '"@ + name + "' with target '"@ + target.identifier() + "'"@ + (
    match dev_board {
        Some(board) => " and dev-board '"@ + board.identifier() + "'"@,
        None => Seq::empty(),
    })
}

/// What to tell the user once a project has been created.
pub fn created_message(
    project_name: &str,
    target: Target,
    dev_board: Option<DevBoard>,
) -> (message: String)
    ensures
        message@ == created_text(project_name@, target, dev_board),
{
    let mut text = "new HDL project '".to_owned();
    text.append(project_name);
    text.append("' with target '");
    text.append(target.as_ref());
    text.append("'");
    let ghost head = text@;
    match dev_board {
        Some(board) => {
            text.append(" and dev-board '");
            text.append(board.as_ref());
            text.append("'");
            proof {
                assert(text@ =~= head + (" and dev-board '"@ + board.identifier() + "'"@));
            }
        },
        None => {
            proof {
                assert(text@ =~= head + Seq::empty());
            }
        },
    }
    text
}

} // verus!
