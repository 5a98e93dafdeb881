//! What the command line means: the names of the commands, and how the raw
//! values of their arguments are read.

use crate::config::{named_dev_board, named_target, text_of};
use crate::hardware::{DevBoard, Target};
use vstd::prelude::*;

verus! {

/// The command that creates a project.
pub const NEW_COMMAND_NAME: &'static str = "new";

/// The command that lists the supported chips.
pub const TARGETS_HELP_COMMAND_NAME: &'static str = "targets-help";

/// The command that lists the supported boards.
pub const DEV_BOARDS_HELP_COMMAND_NAME: &'static str = "dev-boards-help";

/// The argument that names the project.
pub const PROJECT_NAME_ARG_NAME: &'static str = "name";

/// The argument that names the chip.
pub const TARGET_ARG_NAME: &'static str = "target";

/// The argument that names the board.
pub const DEV_BOARD_ARG_NAME: &'static str = "dev-board";

/// The board that the board argument names; none where the argument is
/// absent or names no board.
pub fn dev_board_arg(raw: Option<&str>) -> (board: Option<DevBoard>)
    ensures
        board == named_dev_board(text_of(raw)),
{
    match raw {
        Some(text) => match DevBoard::from_str(text) {
            Ok(board) => Some(board),
            Err(_) => None,
        },
        None => None,
    }
}

/// The project name that the name argument gives, if it is present.
pub fn name_arg(raw: Option<&str>) -> (name: Option<String>)
    ensures
        name is Some <==> raw is Some,
        name matches Some(text) ==> Some(text@) == text_of(raw),
{
    match raw {
        Some(text) => Some(text.to_owned()),
        None => None,
    }
}

/// The chip that the target argument names; none where the argument is
/// absent or names no chip.
pub fn target_arg(raw: Option<&str>) -> (target: Option<Target>)
    ensures
        target == named_target(text_of(raw)),
{
    match raw {
        Some(text) => match Target::from_str(text) {
            Ok(target) => Some(target),
            Err(_) => None,
        },
        None => None,
    }
}

} // verus!
