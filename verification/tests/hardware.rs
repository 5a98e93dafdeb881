use hdlman::assets::ULX3S_LPF;
use hdlman::filesystem::{join_path, FsAction};
use hdlman::hardware::{
    entity_names, supported_dev_boards, supported_targets, DevBoard, Resource,
    ResourceAssociation, StrParseError, SupportedEntity, Target,
};
use hdlman::text::{copy_bytes, str_eq};

#[test]
fn target_round_trip() {
    let all = Target::variants();
    assert_eq!(all, vec![Target::ECP5_85k]);
    for target in all {
        let parsed = Target::from_str(target.as_ref());
        assert!(matches!(parsed, Ok(found) if found == target));
    }
}

#[test]
fn dev_board_round_trip() {
    let all = DevBoard::variants();
    assert_eq!(all, vec![DevBoard::ULX3S]);
    for board in all {
        let parsed = DevBoard::from_str(board.as_ref());
        assert!(matches!(parsed, Ok(found) if found == board));
    }
}

#[test]
fn identifiers_are_the_documented_ones() {
    assert_eq!(Target::ECP5_85k.as_ref(), "ecp5-85k");
    assert_eq!(DevBoard::ULX3S.as_ref(), "ulx3s");
    let through_trait: &str = AsRef::<str>::as_ref(&Target::ECP5_85k);
    assert_eq!(through_trait, "ecp5-85k");
    let through_trait: &str = AsRef::<str>::as_ref(&DevBoard::ULX3S);
    assert_eq!(through_trait, "ulx3s");
}

#[test]
fn parse_goes_through_the_std_trait_too() {
    let target: Result<Target, StrParseError> = "ecp5-85k".parse();
    assert!(matches!(target, Ok(Target::ECP5_85k)));
    let board: Result<DevBoard, StrParseError> = "ulx3s".parse();
    assert!(matches!(board, Ok(DevBoard::ULX3S)));
    let wrong: Result<DevBoard, StrParseError> = "ecp5-85k".parse();
    assert!(wrong.is_err());
}

#[test]
fn unrecognized_target_carries_the_text() {
    match Target::from_str("not-a-real-chip") {
        Ok(_) => panic!("accepted an identifier that names no chip"),
        Err(error) => assert_eq!(error.received, "not-a-real-chip"),
    }
}

#[test]
fn unrecognized_dev_board_carries_the_text() {
    match DevBoard::from_str("not-a-real-board") {
        Ok(_) => panic!("accepted an identifier that names no board"),
        Err(error) => assert_eq!(error.received, "not-a-real-board"),
    }
}

#[test]
fn parsing_is_exact_and_case_sensitive() {
    for raw in ["", "ECP5-85K", "Ecp5-85k", "ecp5-85k ", " ecp5-85k", "ecp5", "ecp5-85", "ulx3s"] {
        match Target::from_str(raw) {
            Ok(_) => panic!("accepted {:?}", raw),
            Err(error) => assert_eq!(error.received, raw),
        }
    }
    for raw in ["", "ULX3S", "ulx3s\n", "ulx3", "ulx3ss", "ecp5-85k"] {
        match DevBoard::from_str(raw) {
            Ok(_) => panic!("accepted {:?}", raw),
            Err(error) => assert_eq!(error.received, raw),
        }
    }
}

#[test]
fn target_has_no_resources() {
    assert!(Target::ECP5_85k.associated_resources().is_none());
}

#[test]
fn ulx3s_brings_its_constraints() {
    let resources: Vec<Resource> = DevBoard::ULX3S.associated_resources().unwrap();
    assert_eq!(resources.len(), 1);
    assert_eq!(resources[0].filename, "ulx3s_v20.lpf");
    assert_eq!(resources[0].bytes, ULX3S_LPF.as_bytes());
    assert!(!resources[0].bytes.is_empty());
    assert_eq!(DevBoard::ULX3S.constraint_filename(), "ulx3s_v20.lpf");
}

#[test]
fn constraints_cover_the_ports_of_the_top_file() {
    for port in ["clk_25mhz", "btn[0]", "btn[6]", "led[0]", "led[7]", "wifi_gpio0"] {
        let line = format!("LOCATE COMP \"{}\" SITE", port);
        assert!(ULX3S_LPF.contains(&line), "no site for {}", port);
    }
    assert!(ULX3S_LPF.is_ascii());
    assert!(ULX3S_LPF.ends_with("DRIVE=4;\n"));
}

#[test]
fn toolchain_fragments_are_total_and_exact() {
    for target in Target::variants() {
        assert_eq!(target.toolchain_fragment(), "synth_ecp5");
        assert_eq!(target.place_and_route_fragment(), "nextpnr-ecp5 --85k");
        let _ = target.associated_resources();
    }
    for board in DevBoard::variants() {
        assert_eq!(board.toolchain_fragment(), "--lpf resources/ulx3s_v20.lpf");
        let _ = board.associated_resources();
    }
}

#[test]
fn listings_follow_the_catalog() {
    let targets: Vec<SupportedEntity<'static>> = supported_targets();
    assert_eq!(targets.len(), 1);
    assert_eq!(targets[0].name, "ecp5-85k");
    assert_eq!(
        targets[0].description,
        "The 85k LUT variant of the Lattice ECP5 chip.\nhttps://www.latticesemi.com/Products/FPGAandCPLD/ECP5\n"
    );
    let boards = supported_dev_boards();
    assert_eq!(boards.len(), 1);
    assert_eq!(boards[0].name, "ulx3s");
    assert_eq!(
        boards[0].description,
        "The ULX3s dev-board made by Radiona.\nhttps://radiona.org/ulx3s/\n"
    );
    assert_eq!(Target::ECP5_85k.entity().name, "ecp5-85k");
    assert_eq!(DevBoard::ULX3S.entity().description, DevBoard::ULX3S.description());
}

#[test]
fn listed_names_are_exactly_the_accepted_ones() {
    let names = entity_names(&supported_targets());
    assert_eq!(names, vec!["ecp5-85k"]);
    for name in names {
        assert!(Target::from_str(name).is_ok());
    }
    let names = entity_names(&supported_dev_boards());
    assert_eq!(names, vec!["ulx3s"]);
    for name in names {
        assert!(DevBoard::from_str(name).is_ok());
    }
    let none: Vec<&str> = entity_names(&[]);
    assert!(none.is_empty());
}

#[test]
fn str_eq_is_exact() {
    assert!(str_eq("", ""));
    assert!(str_eq("ulx3s", "ulx3s"));
    assert!(!str_eq("ulx3s", "ulx3S"));
    assert!(!str_eq("ulx3s", "ulx3"));
    assert!(!str_eq("ulx3", "ulx3s"));
    assert!(!str_eq("", "a"));
    assert!(str_eq("caf\u{e9}", "caf\u{e9}"));
    assert!(!str_eq("caf\u{e9}", "cafe\u{301}"));
}

#[test]
fn join_path_puts_one_slash_between() {
    assert_eq!(join_path("blinky", "Makefile"), "blinky/Makefile");
    assert_eq!(join_path("a/b", "c"), "a/b/c");
    assert_eq!(join_path("", ""), "/");
}

#[test]
fn save_resource_to_writes_each_file_once() {
    let mut writes: Vec<FsAction> = Vec::new();
    Target::ECP5_85k.save_resource_to("p/resources", &mut writes);
    assert!(writes.is_empty());
    DevBoard::ULX3S.save_resource_to("p/resources", &mut writes);
    assert_eq!(writes.len(), 1);
    match &writes[0] {
        FsAction::WriteFile { path, contents } => {
            assert_eq!(path, "p/resources/ulx3s_v20.lpf");
            assert_eq!(contents.as_slice(), ULX3S_LPF.as_bytes());
        }
        FsAction::CreateDir { .. } => panic!("a resource is a file"),
    }
    DevBoard::ULX3S.save_resource_to("p/resources", &mut writes);
    assert_eq!(writes.len(), 1);
    DevBoard::ULX3S.save_resource_to("q/resources", &mut writes);
    assert_eq!(writes.len(), 2);
    assert_eq!(writes[1].path(), "q/resources/ulx3s_v20.lpf");
}

#[test]
fn save_resource_to_keeps_what_was_planned_first() {
    let mut writes = vec![FsAction::WriteFile {
        path: "p/resources/ulx3s_v20.lpf".to_owned(),
        contents: vec![1, 2, 3],
    }];
    DevBoard::ULX3S.save_resource_to("p/resources", &mut writes);
    assert_eq!(writes.len(), 1);
    match &writes[0] {
        FsAction::WriteFile { contents, .. } => assert_eq!(contents, &vec![1, 2, 3]),
        FsAction::CreateDir { .. } => panic!("a resource is a file"),
    }
}

#[test]
fn copy_bytes_copies() {
    assert_eq!(copy_bytes(&[]), Vec::<u8>::new());
    assert_eq!(copy_bytes(&[0, 255, 7]), vec![0, 255, 7]);
    assert_eq!(copy_bytes(ULX3S_LPF.as_bytes()), ULX3S_LPF.as_bytes().to_vec());
}
