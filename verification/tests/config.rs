use hdlman::cli::{
    dev_board_arg, name_arg, target_arg, DEV_BOARDS_HELP_COMMAND_NAME, NEW_COMMAND_NAME,
    TARGETS_HELP_COMMAND_NAME,
};
use hdlman::config::{config_fields_message, Config, CONFIG_FILE_NAME};
use hdlman::hardware::{DevBoard, Target};
use hdlman::new_command::created_message;

#[test]
fn config_reads_both_entries() {
    let config = Config::from_identifiers(Some("ecp5-85k"), Some("ulx3s")).unwrap();
    assert_eq!(config.default_target, Some(Target::ECP5_85k));
    assert_eq!(config.default_dev_board, Some(DevBoard::ULX3S));
}

#[test]
fn config_entries_are_optional() {
    let config = Config::from_identifiers(None, None).unwrap();
    assert_eq!(config.default_target, None);
    assert_eq!(config.default_dev_board, None);
    let config = Config::from_identifiers(Some("ecp5-85k"), None).unwrap();
    assert_eq!(config.default_target, Some(Target::ECP5_85k));
    assert_eq!(config.default_dev_board, None);
    let config = Config::from_identifiers(None, Some("ulx3s")).unwrap();
    assert_eq!(config.default_target, None);
    assert_eq!(config.default_dev_board, Some(DevBoard::ULX3S));
    let none = Config::none();
    assert_eq!(none.default_target, None);
    assert_eq!(none.default_dev_board, None);
}

#[test]
fn malformed_config_names_the_offending_text() {
    match Config::from_identifiers(Some("ice40"), Some("ulx3s")) {
        Ok(_) => panic!("accepted a target that does not exist"),
        Err(error) => assert_eq!(error.received, "ice40"),
    }
    match Config::from_identifiers(Some("ecp5-85k"), Some("icebreaker")) {
        Ok(_) => panic!("accepted a board that does not exist"),
        Err(error) => assert_eq!(error.received, "icebreaker"),
    }
    match Config::from_identifiers(Some("ice40"), Some("icebreaker")) {
        Ok(_) => panic!("accepted hardware that does not exist"),
        Err(error) => assert_eq!(error.received, "ice40"),
    }
    match Config::from_identifiers(None, Some("")) {
        Ok(_) => panic!("accepted an empty identifier"),
        Err(error) => assert_eq!(error.received, ""),
    }
}

#[test]
fn command_line_wins_over_defaults() {
    let config = Config { default_target: Some(Target::ECP5_85k), default_dev_board: None };
    let spec = config
        .resolve("blinky".to_owned(), Some(Target::ECP5_85k), Some(DevBoard::ULX3S))
        .unwrap();
    assert_eq!(spec.project_name, "blinky");
    assert_eq!(spec.target, Target::ECP5_85k);
    assert_eq!(spec.dev_board, Some(DevBoard::ULX3S));
}

#[test]
fn defaults_fill_what_the_command_line_leaves_open() {
    let config = Config {
        default_target: Some(Target::ECP5_85k),
        default_dev_board: Some(DevBoard::ULX3S),
    };
    let spec = config.resolve("blinky".to_owned(), None, None).unwrap();
    assert_eq!(spec.project_name, "blinky");
    assert_eq!(spec.target, Target::ECP5_85k);
    assert_eq!(spec.dev_board, Some(DevBoard::ULX3S));
    let spec = Config::none().resolve("blinky".to_owned(), Some(Target::ECP5_85k), None).unwrap();
    assert_eq!(spec.dev_board, None);
}

#[test]
fn no_target_no_project() {
    assert!(Config::none().resolve("blinky".to_owned(), None, None).is_none());
    assert!(Config::none().resolve("blinky".to_owned(), None, Some(DevBoard::ULX3S)).is_none());
    let only_board = Config { default_target: None, default_dev_board: Some(DevBoard::ULX3S) };
    assert!(only_board.resolve("blinky".to_owned(), None, None).is_none());
}

#[test]
fn arguments_are_read_through_the_catalog() {
    assert_eq!(target_arg(Some("ecp5-85k")), Some(Target::ECP5_85k));
    assert_eq!(target_arg(Some("ulx3s")), None);
    assert_eq!(target_arg(Some("")), None);
    assert_eq!(target_arg(None), None);
    assert_eq!(dev_board_arg(Some("ulx3s")), Some(DevBoard::ULX3S));
    assert_eq!(dev_board_arg(Some("ecp5-85k")), None);
    assert_eq!(dev_board_arg(None), None);
    assert_eq!(name_arg(Some("blinky")), Some("blinky".to_owned()));
    assert_eq!(name_arg(Some("")), Some(String::new()));
    assert_eq!(name_arg(None), None);
}

#[test]
fn command_names() {
    assert_eq!(NEW_COMMAND_NAME, "new");
    assert_eq!(TARGETS_HELP_COMMAND_NAME, "targets-help");
    assert_eq!(DEV_BOARDS_HELP_COMMAND_NAME, "dev-boards-help");
    assert_eq!(CONFIG_FILE_NAME, ".hdlman.toml");
}

#[test]
fn config_messages() {
    let path = Some("/home/u/.hdlman.toml");
    assert_eq!(
        config_fields_message(Some(Target::ECP5_85k), Some(DevBoard::ULX3S), path),
        Some(
            "found default target 'ecp5-85k' and default dev-board 'ulx3s' from config file '/home/u/.hdlman.toml'"
                .to_owned()
        )
    );
    assert_eq!(
        config_fields_message(Some(Target::ECP5_85k), None, path),
        Some("found default target 'ecp5-85k' from config file '/home/u/.hdlman.toml'".to_owned())
    );
    assert_eq!(
        config_fields_message(None, Some(DevBoard::ULX3S), path),
        Some("found default dev-board 'ulx3s' from config file '/home/u/.hdlman.toml'".to_owned())
    );
    assert_eq!(config_fields_message(None, None, path), None);
    assert_eq!(config_fields_message(None, None, None), None);
    assert_eq!(
        config_fields_message(Some(Target::ECP5_85k), None, None),
        Some(
            "found default target 'ecp5-85k' from config file 'unknown (please file a bug)'"
                .to_owned()
        )
    );
}

#[test]
fn created_messages() {
    assert_eq!(
        created_message("blinky", Target::ECP5_85k, Some(DevBoard::ULX3S)),
        "new HDL project 'blinky' with target 'ecp5-85k' and dev-board 'ulx3s'"
    );
    assert_eq!(
        created_message("blinky", Target::ECP5_85k, None),
        "new HDL project 'blinky' with target 'ecp5-85k'"
    );
}
