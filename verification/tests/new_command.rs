use hdlman::assets::ULX3S_LPF;
use hdlman::filesystem::{creates_path, FsAction};
use hdlman::hardware::{DevBoard, ResourceAssociation, Target};
use hdlman::materializer::{action_failure, IoFailure, Materializer};
use hdlman::new_command::{
    create_dirs, create_makefile, create_resource_files, create_top_file, create_yosys_script,
    run_new_command, NewCommandError, ProjectSpec,
};
use hdlman::text::text_bytes;
use hdlman::templates::{makefile, top_file, yosys_script};
use std::collections::BTreeMap;
use std::collections::BTreeSet;

fn dir_path(action: &FsAction) -> &str {
    match action {
        FsAction::CreateDir { path } => path,
        FsAction::WriteFile { .. } => panic!("expected a directory"),
    }
}

fn file(action: &FsAction) -> (&str, &[u8]) {
    match action {
        FsAction::WriteFile { path, contents } => (path, contents),
        FsAction::CreateDir { .. } => panic!("expected a file"),
    }
}

fn project(name: &str, target: Target, dev_board: Option<DevBoard>) -> ProjectSpec {
    ProjectSpec { project_name: name.to_owned(), target, dev_board }
}

fn text(bytes: &[u8]) -> &str {
    std::str::from_utf8(bytes).unwrap()
}

/// Carries a creation out on a tree kept in memory, failing at `fail_at` if given.
fn materialize(
    dirs: &mut BTreeSet<String>,
    files: &mut BTreeMap<String, Vec<u8>>,
    name: &str,
    target: Target,
    dev_board: Option<DevBoard>,
    fail_at: Option<(usize, IoFailure)>,
) -> Result<(), NewCommandError> {
    let exists = dirs.contains(name) || files.contains_key(name);
    let mut state = Materializer::begin(project(name, target, dev_board), exists);
    let mut step: usize = 0;
    loop {
        let answer = match state.next_action() {
            None => break,
            Some(action) => match fail_at {
                Some((at, failure)) if at == step => Err(failure),
                _ => {
                    match action {
                        FsAction::CreateDir { path } => {
                            dirs.insert(path.clone());
                        }
                        FsAction::WriteFile { path, contents } => {
                            files.insert(path.clone(), contents.clone());
                        }
                    }
                    Ok(())
                }
            },
        };
        state.record(answer);
        step += 1;
    }
    state.outcome().unwrap()
}

#[test]
fn blinky_on_ulx3s() {
    let plan = run_new_command(
        "blinky".to_owned(),
        Target::ECP5_85k,
        Some(DevBoard::ULX3S),
        false,
    )
    .unwrap();
    assert_eq!(plan.len(), 6);
    assert_eq!(dir_path(&plan[0]), "blinky");
    assert_eq!(dir_path(&plan[1]), "blinky/resources");
    let (path, contents) = file(&plan[2]);
    assert_eq!(path, "blinky/blinky.v");
    assert!(text(contents).contains("module blinky(input i_clk, input [6:0] btn, output [7:0] o_led);"));
    let (path, contents) = file(&plan[3]);
    assert_eq!(path, "blinky/blinky.ys");
    assert!(text(contents).contains("synth_ecp5"));
    assert!(text(contents).contains(Target::ECP5_85k.toolchain_fragment()));
    let (path, contents) = file(&plan[4]);
    assert_eq!(path, "blinky/resources/ulx3s_v20.lpf");
    assert_eq!(contents, ULX3S_LPF.as_bytes());
    assert_eq!(contents, DevBoard::ULX3S.associated_resources().unwrap()[0].bytes);
    let (path, contents) = file(&plan[5]);
    assert_eq!(path, "blinky/Makefile");
    assert!(text(contents).contains("nextpnr-ecp5 --85k"));
    assert!(text(contents).contains(Target::ECP5_85k.place_and_route_fragment()));
    assert!(text(contents).contains("--lpf resources/ulx3s_v20.lpf"));
    assert!(text(contents).contains(&DevBoard::ULX3S.toolchain_fragment()));
    assert!(text(contents).contains("TOPMOD  := blinky\n"));
}

#[test]
fn blinky_without_a_board() {
    let plan = run_new_command("blinky".to_owned(), Target::ECP5_85k, None, false).unwrap();
    assert_eq!(plan.len(), 4);
    assert_eq!(dir_path(&plan[0]), "blinky");
    assert_eq!(file(&plan[1]).0, "blinky/blinky.v");
    assert_eq!(file(&plan[2]).0, "blinky/blinky.ys");
    let (path, contents) = file(&plan[3]);
    assert_eq!(path, "blinky/Makefile");
    assert!(!text(contents).contains("--lpf"));
    assert!(!text(contents).contains("resources"));
    assert!(text(contents).contains(
        "\t\tnextpnr-ecp5 --85k --json build/blinky.json \\\n\t\t--textcfg build/$(TOPMOD)_out.config \n"
    ));
    for action in &plan {
        assert!(!action.path().contains("resources"));
    }
    assert!(!creates_path(&plan, "blinky/resources"));
    assert!(creates_path(&plan, "blinky/Makefile"));
}

#[test]
fn existing_path_is_refused() {
    for dev_board in [None, Some(DevBoard::ULX3S)] {
        match run_new_command("blinky".to_owned(), Target::ECP5_85k, dev_board, true) {
            Ok(_) => panic!("planned over something that exists"),
            Err(NewCommandError::DirectoryAlreadyExists { path }) => assert_eq!(path, "blinky"),
            Err(other) => panic!("wrong error: {:?}", other),
        }
    }
}

#[test]
fn second_run_is_rejected() {
    let mut dirs = BTreeSet::new();
    let mut files = BTreeMap::new();
    let first = materialize(&mut dirs, &mut files, "blinky", Target::ECP5_85k, None, None);
    assert!(first.is_ok());
    let before = (dirs.clone(), files.clone());
    for dev_board in [None, Some(DevBoard::ULX3S)] {
        match materialize(&mut dirs, &mut files, "blinky", Target::ECP5_85k, dev_board, None) {
            Err(NewCommandError::DirectoryAlreadyExists { path }) => assert_eq!(path, "blinky"),
            other => panic!("second run was not refused: {:?}", other),
        }
        assert_eq!((dirs.clone(), files.clone()), before);
    }
}

#[test]
fn second_run_is_rejected_after_a_partial_first_run() {
    let mut dirs = BTreeSet::new();
    let mut files = BTreeMap::new();
    let first = materialize(
        &mut dirs,
        &mut files,
        "blinky",
        Target::ECP5_85k,
        Some(DevBoard::ULX3S),
        Some((3, IoFailure::Other)),
    );
    match first {
        Err(NewCommandError::Io { path }) => assert_eq!(path, "blinky/blinky.ys"),
        other => panic!("wrong outcome: {:?}", other),
    }
    // nothing is rolled back
    assert!(dirs.contains("blinky"));
    assert!(dirs.contains("blinky/resources"));
    assert!(files.contains_key("blinky/blinky.v"));
    assert!(!files.contains_key("blinky/blinky.ys"));
    assert!(!files.contains_key("blinky/Makefile"));
    match materialize(&mut dirs, &mut files, "blinky", Target::ECP5_85k, None, None) {
        Err(NewCommandError::DirectoryAlreadyExists { path }) => assert_eq!(path, "blinky"),
        other => panic!("second run was not refused: {:?}", other),
    }
}

#[test]
fn materialized_tree_with_board() {
    let mut dirs = BTreeSet::new();
    let mut files = BTreeMap::new();
    materialize(&mut dirs, &mut files, "blinky", Target::ECP5_85k, Some(DevBoard::ULX3S), None)
        .unwrap();
    let made: Vec<&str> = dirs.iter().map(|d| d.as_str()).collect();
    assert_eq!(made, vec!["blinky", "blinky/resources"]);
    let written: Vec<&str> = files.keys().map(|f| f.as_str()).collect();
    assert_eq!(
        written,
        vec![
            "blinky/Makefile",
            "blinky/blinky.v",
            "blinky/blinky.ys",
            "blinky/resources/ulx3s_v20.lpf"
        ]
    );
    assert_eq!(files["blinky/resources/ulx3s_v20.lpf"], ULX3S_LPF.as_bytes());
}

#[test]
fn materialized_tree_without_board() {
    let mut dirs = BTreeSet::new();
    let mut files = BTreeMap::new();
    materialize(&mut dirs, &mut files, "blinky", Target::ECP5_85k, None, None).unwrap();
    let made: Vec<&str> = dirs.iter().map(|d| d.as_str()).collect();
    assert_eq!(made, vec!["blinky"]);
    let written: Vec<&str> = files.keys().map(|f| f.as_str()).collect();
    assert_eq!(written, vec!["blinky/Makefile", "blinky/blinky.v", "blinky/blinky.ys"]);
}

#[test]
fn denied_directory_is_a_permission_error() {
    let mut dirs = BTreeSet::new();
    let mut files = BTreeMap::new();
    let outcome = materialize(
        &mut dirs,
        &mut files,
        "blinky",
        Target::ECP5_85k,
        Some(DevBoard::ULX3S),
        Some((0, IoFailure::PermissionDenied)),
    );
    match outcome {
        Err(NewCommandError::InsufficientPermission { path }) => assert_eq!(path, "blinky"),
        other => panic!("wrong outcome: {:?}", other),
    }
    assert!(dirs.is_empty() && files.is_empty());
    let outcome = materialize(
        &mut dirs,
        &mut files,
        "blinky",
        Target::ECP5_85k,
        Some(DevBoard::ULX3S),
        Some((1, IoFailure::PermissionDenied)),
    );
    match outcome {
        Err(NewCommandError::InsufficientPermission { path }) => {
            assert_eq!(path, "blinky/resources")
        }
        other => panic!("wrong outcome: {:?}", other),
    }
}

#[test]
fn failures_carry_the_path() {
    let dir = FsAction::CreateDir { path: "p".to_owned() };
    let write = FsAction::WriteFile { path: "p/Makefile".to_owned(), contents: vec![] };
    assert!(matches!(
        action_failure(&dir, IoFailure::PermissionDenied),
        NewCommandError::InsufficientPermission { path } if path == "p"
    ));
    assert!(matches!(
        action_failure(&dir, IoFailure::Other),
        NewCommandError::Io { path } if path == "p"
    ));
    assert!(matches!(
        action_failure(&write, IoFailure::PermissionDenied),
        NewCommandError::Io { path } if path == "p/Makefile"
    ));
    assert!(matches!(
        action_failure(&write, IoFailure::Other),
        NewCommandError::Io { path } if path == "p/Makefile"
    ));
}

#[test]
fn materializer_steps_through_the_plan() {
    let mut state = Materializer::begin(project("p", Target::ECP5_85k, None), false);
    let plan = run_new_command("p".to_owned(), Target::ECP5_85k, None, false).unwrap();
    for expected in &plan {
        let next = state.next_action().unwrap();
        assert_eq!(next.path(), expected.path());
        state.record(Ok(()));
    }
    assert!(state.next_action().is_none());
    // an answer that nothing waits for changes nothing
    state.record(Err(IoFailure::Other));
    assert!(state.next_action().is_none());
    assert!(matches!(state.outcome(), Some(Ok(()))));
}

#[test]
fn materializer_has_no_outcome_while_an_action_waits() {
    let mut state = Materializer::begin(project("p", Target::ECP5_85k, None), false);
    state.record(Ok(()));
    assert!(state.next_action().is_some());
    assert!(state.outcome().is_none());
}

#[test]
fn materializer_stops_at_the_first_failure() {
    let mut state =
        Materializer::begin(project("p", Target::ECP5_85k, Some(DevBoard::ULX3S)), false);
    state.record(Ok(()));
    state.record(Ok(()));
    assert_eq!(state.next_action().unwrap().path(), "p/p.v");
    state.record(Err(IoFailure::PermissionDenied));
    assert!(state.next_action().is_none());
    state.record(Ok(()));
    assert!(state.next_action().is_none());
    match state.outcome() {
        Some(Err(NewCommandError::Io { path })) => assert_eq!(path, "p/p.v"),
        other => panic!("wrong outcome: {:?}", other),
    }
}

#[test]
fn materializer_refuses_at_once_what_exists() {
    let state = Materializer::begin(project("p", Target::ECP5_85k, Some(DevBoard::ULX3S)), true);
    assert!(state.next_action().is_none());
    match state.outcome() {
        Some(Err(NewCommandError::DirectoryAlreadyExists { path })) => assert_eq!(path, "p"),
        other => panic!("wrong outcome: {:?}", other),
    }
}

#[test]
fn create_dirs_makes_resources_only_where_needed() {
    let dirs = create_dirs("p".to_owned(), Target::ECP5_85k, None);
    assert_eq!(dirs.len(), 1);
    assert_eq!(dir_path(&dirs[0]), "p");
    let dirs = create_dirs("p".to_owned(), Target::ECP5_85k, Some(DevBoard::ULX3S));
    assert_eq!(dirs.len(), 2);
    assert_eq!(dir_path(&dirs[0]), "p");
    assert_eq!(dir_path(&dirs[1]), "p/resources");
}

#[test]
fn create_resource_files_by_hardware() {
    assert!(create_resource_files("p".to_owned(), Target::ECP5_85k, None).is_empty());
    let writes = create_resource_files("p".to_owned(), Target::ECP5_85k, Some(DevBoard::ULX3S));
    assert_eq!(writes.len(), 1);
    let (path, contents) = file(&writes[0]);
    assert_eq!(path, "p/resources/ulx3s_v20.lpf");
    assert_eq!(contents, ULX3S_LPF.as_bytes());
}

#[test]
fn yosys_script_is_exact() {
    assert_eq!(
        yosys_script("blinky", Target::ECP5_85k),
        "read_verilog blinky.v\nsynth_ecp5 -noccu2 -nomux -nodram -json build/blinky.json\n    "
    );
    let action = create_yosys_script("blinky".to_owned(), Target::ECP5_85k);
    let (path, contents) = file(&action);
    assert_eq!(path, "blinky/blinky.ys");
    assert_eq!(text(contents), yosys_script("blinky", Target::ECP5_85k));
}

#[test]
fn top_file_names_its_module_after_the_project() {
    let top = top_file("counter");
    assert!(top.starts_with(
        "`ifdef VERILATOR\n/* verilator lint_off UNUSED */\nmodule counter(input i_clk, input [6:0] btn, output [7:0] o_led);\n"
    ));
    assert!(top.ends_with("    end\nendmodule\n    "));
    assert_eq!(top.matches("counter").count(), 1);
    assert_eq!(top.lines().count(), 33);
    assert_eq!(top.len(), 740);
    let action = create_top_file("counter".to_owned());
    let (path, contents) = file(&action);
    assert_eq!(path, "counter/counter.v");
    assert_eq!(text(contents), top);
}

#[test]
fn makefile_place_and_route_with_and_without_board() {
    let with = makefile("blinky", Target::ECP5_85k, Some(DevBoard::ULX3S));
    let without = makefile("blinky", Target::ECP5_85k, None);
    let constraint_line = "\n\t\t--lpf resources/ulx3s_v20.lpf \\";
    assert!(with.contains(
        "build/$(TOPMOD)_out.config: build/$(TOPMOD).json | build_dir\n\t\tnextpnr-ecp5 --85k --json build/blinky.json \\\n\t\t--lpf resources/ulx3s_v20.lpf \\\n\t\t--textcfg build/$(TOPMOD)_out.config \n"
    ));
    assert_eq!(with.replacen(constraint_line, "", 1), without);
    assert_eq!(with.len(), without.len() + constraint_line.len());
    assert!(with.starts_with(".PHONY: all\n.DELETE_ON_ERROR:\nTOPMOD  := blinky\nVLOGFIL := $(TOPMOD).v\n"));
    assert!(with.ends_with("build_dir:\n\tmkdir -p build\n    "));
    assert!(with.contains("sed -e \"s/^.*=\\s*//\"')\n"));
    assert!(with.contains("$(VINC)/verilated.cpp\t\t\t\t\\\n"));
    assert_eq!(without.lines().count(), 79);
    assert_eq!(without.len(), 2190);
    let action = create_makefile("blinky".to_owned(), Target::ECP5_85k, Some(DevBoard::ULX3S));
    let (path, contents) = file(&action);
    assert_eq!(path, "blinky/Makefile");
    assert_eq!(text(contents), with);
}

#[test]
fn text_bytes_is_utf8() {
    assert_eq!(text_bytes(""), Vec::<u8>::new());
    assert_eq!(text_bytes("a\n"), vec![b'a', b'\n']);
    assert_eq!(text_bytes("\u{e9}"), vec![0xc3, 0xa9]);
    let plan = run_new_command("caf\u{e9}".to_owned(), Target::ECP5_85k, None, false).unwrap();
    let (path, contents) = file(&plan[1]);
    assert_eq!(path, "caf\u{e9}/caf\u{e9}.v");
    assert!(text(contents).contains("module caf\u{e9}("));
}

#[test]
fn no_path_is_created_twice() {
    for name in ["blinky", "resources", "resources/x", "", "a.v"] {
        for dev_board in [None, Some(DevBoard::ULX3S)] {
            let plan = run_new_command(name.to_owned(), Target::ECP5_85k, dev_board, false).unwrap();
            let paths: BTreeSet<&str> = plan.iter().map(|action| action.path()).collect();
            assert_eq!(paths.len(), plan.len());
        }
    }
}

#[test]
fn error_messages() {
    let exists = NewCommandError::DirectoryAlreadyExists { path: "blinky".to_owned() };
    assert_eq!(exists.message(), "dir named 'blinky' already exists");
    assert_eq!(exists.path(), "blinky");
    let denied = NewCommandError::InsufficientPermission { path: "blinky".to_owned() };
    assert_eq!(denied.message(), "no permission to create dir 'blinky'");
    assert_eq!(denied.path(), "blinky");
    let failed = NewCommandError::Io { path: "blinky/Makefile".to_owned() };
    assert_eq!(failed.message(), "could not create 'blinky/Makefile'");
    assert_eq!(failed.path(), "blinky/Makefile");
}
