//! Defaults from the user's configuration, and how they combine with what
//! the command line gives into the description of one project.

use crate::hardware::{DevBoard, StrParseError, Target};
use crate::new_command::ProjectSpec;
use vstd::prelude::*;

verus! {

/// Name of the configuration file in the user's home directory.
pub const CONFIG_FILE_NAME: &'static str = ".hdlman.toml";

/// What the configuration says where its file cannot be named.
pub const UNKNOWN_CONFIG_PATH: &'static str = "unknown (please file a bug)";

/// The hardware to use where the command line names none.
#[derive(Clone, Copy, Debug)]
pub struct Config {
    pub default_target: Option<Target>,
    pub default_dev_board: Option<DevBoard>,
}

/// The text of an optional string.
pub open spec fn text_of(raw: Option<&str>) -> Option<Seq<char>> {
    match raw {
        Some(s) => Some(s@),
        None => None,
    }
}

/// The chip that an optional identifier names; none where there is no
/// identifier or it names no chip.
pub open spec fn named_target(raw: Option<Seq<char>>) -> Option<Target> {
    match raw {
        Some(s) => Target::parse(s),
        None => None,
    }
}

/// The board that an optional identifier names; none where there is no
/// identifier or it names no board.
pub open spec fn named_dev_board(raw: Option<Seq<char>>) -> Option<DevBoard> {
    match raw {
        Some(s) => DevBoard::parse(s),
        None => None,
    }
}

/// The defaults that a configuration with these two entries gives. An entry
/// that names nothing in the catalog makes the configuration malformed: the
/// result is then the offending text, that of the target first.
pub open spec fn config_of(
    default_target: Option<Seq<char>>,
    default_dev_board: Option<Seq<char>>,
) -> Result<Config, Seq<char>> {
    if default_target is Some && named_target(default_target) is None {
        Err(default_target->0)
    } else if default_dev_board is Some && named_dev_board(default_dev_board) is None {
        Err(default_dev_board->0)
    } else {
        Ok(
            Config {
                default_target: named_target(default_target),
                default_dev_board: named_dev_board(default_dev_board),
            },
        )
    }
}

/// The first of two choices that is made.
pub open spec fn first_of<T>(given: Option<T>, default: Option<T>) -> Option<T> {
    match given {
        Some(_) => given,
        None => default,
    }
}

impl Config {
    /// The configuration without defaults: what holds where there is no
    /// configuration file, or a malformed one.
    pub fn none() -> (config: Config)
        ensures
            config.default_target is None,
            config.default_dev_board is None,
    {
        Config { default_target: None, default_dev_board: None }
    }

    /// Reads the two entries of a configuration file.
    pub fn from_identifiers(default_target: Option<&str>, default_dev_board: Option<&str>) -> (read:
        Result<Config, StrParseError>)
        ensures
            read matches Ok(config) ==> config_of(
                text_of(default_target),
                text_of(default_dev_board),
            ) == Ok::<Config, Seq<char>>(config),
            read matches Err(error) ==> config_of(
                text_of(default_target),
                text_of(default_dev_board),
            ) == Err::<Config, Seq<char>>(error.received@),
    {
        let target = match default_target {
            Some(raw) => match Target::from_str(raw) {
                Ok(target) => Some(target),
                Err(error) => {
                    return Err(error);
                },
            },
            None => None,
        };
        let dev_board = match default_dev_board {
            Some(raw) => match DevBoard::from_str(raw) {
                Ok(board) => Some(board),
                Err(error) => {
                    return Err(error);
                },
            },
            None => None,
        };
        Ok(Config { default_target: target, default_dev_board: dev_board })
    }

    /// The project that a command line asks for: the hardware it names, and
    /// the defaults where it names none. Without any target there is no
    /// project.
    pub fn resolve(
        &self,
        project_name: String,
        target: Option<Target>,
        dev_board: Option<DevBoard>,
    ) -> (resolved: Option<ProjectSpec>)
        ensures
            resolved is Some <==> first_of(target, self.default_target) is Some,
            resolved matches Some(spec) ==> {
                &&& spec.project_name@ == project_name@
                &&& Some(spec.target) == first_of(target, self.default_target)
                &&& spec.dev_board == first_of(dev_board, self.default_dev_board)
            },
    {
        let target = match target {
            Some(_) => target,
            None => self.default_target,
        };
        let dev_board = match dev_board {
            Some(_) => dev_board,
            None => self.default_dev_board,
        };
        match target {
            Some(target) => Some(ProjectSpec { project_name, target, dev_board }),
            None => None,
        }
    }
}

/// Where the defaults were found, as the messages say it.
pub open spec fn config_source_text(config_path: Option<Seq<char>>) -> Seq<char> {
    "from config file '"@ + (match config_path {
        Some(path) => path,
        None => UNKNOWN_CONFIG_PATH@,
    }) + "'"@
}

/// What to tell the user of the defaults that the configuration gave:
/// nothing where it gave none.
pub open spec fn config_fields_text(
    target: Option<Target>,
    dev_board: Option<DevBoard>,
    config_path: Option<Seq<char>>,
) -> Option<Seq<char>> {
    match (target, dev_board) {
        (Some(target), Some(board)) => Some(
            "found default target '"@ + target.identifier() + "' and default dev-board '"@
                + board.identifier() + "' "@ + config_source_text(config_path),
        ),
        (Some(target), None) => Some(
            "found default target '"@ + target.identifier() + "' "@ + config_source_text(
                config_path,
            ),
        ),
        (None, Some(board)) => Some(
            "found default dev-board '"@ + board.identifier() + "' "@ + config_source_text(
                config_path,
            ),
        ),
        (None, None) => None,
    }
}

/// What to tell the user of the defaults that the configuration gave.
pub fn config_fields_message(
    target: Option<Target>,
    dev_board: Option<DevBoard>,
    config_path: Option<&str>,
) -> (message: Option<String>)
    ensures
        message is Some <==> config_fields_text(target, dev_board, text_of(config_path)) is Some,
        message matches Some(text) ==> Some(text@) == config_fields_text(
            target,
            dev_board,
            text_of(config_path),
        ),
{
    let mut source = "from config file '".to_owned();
    match config_path {
        Some(path) => source.append(path),
        None => source.append(UNKNOWN_CONFIG_PATH),
    }
    source.append("'");
    match (target, dev_board) {
        (Some(target), Some(board)) => {
            let mut text = "found default target '".to_owned();
            text.append(target.as_ref());
            text.append("' and default dev-board '");
            text.append(board.as_ref());
            text.append("' ");
            text.append(source.as_str());
            Some(text)
        },
        (Some(target), None) => {
            let mut text = "found default target '".to_owned();
            text.append(target.as_ref());
            text.append("' ");
            text.append(source.as_str());
            Some(text)
        },
        (None, Some(board)) => {
            let mut text = "found default dev-board '".to_owned();
            text.append(board.as_ref());
            text.append("' ");
            text.append(source.as_str());
            Some(text)
        },
        (None, None) => None,
    }
}

} // verus!
