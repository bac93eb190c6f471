use solc::compile::plan_compile;
use solc::discovery::is_sol_file;
use solc::discovery::sol_files;
use solc::invocation::execution_failure_message;
use solc::invocation::process_outcome;
use solc::invocation::solc;
use solc::invocation::OrchestrationError;
use solc::invocation::Stage;
use solc::link::plan_link;

fn s(x: &str) -> String {
    x.to_string()
}

#[test]
fn source_suffix_is_recognized_exactly() {
    assert!(is_sol_file("Token.sol"));
    assert!(is_sol_file(".sol"));
    assert!(!is_sol_file("sol"));
    assert!(!is_sol_file("Token.SOL"));
    assert!(!is_sol_file("Token.solc"));
    assert!(!is_sol_file("Token.txt"));
    assert!(!is_sol_file(""));
    // Only the suffix is consulted: a directory named like a source file
    // would be selected too.
    assert!(is_sol_file("nested.sol"));
}

#[test]
fn discovery_filters_by_suffix_and_preserves_order() {
    let entries = vec![
        Some(s("B.sol")),
        Some(s("README.md")),
        None,
        Some(s("A.sol")),
        Some(s("A.bin")),
    ];
    assert_eq!(sol_files(&entries), vec!["B.sol", "A.sol"]);
}

#[test]
fn discovery_of_no_entries_selects_nothing() {
    let entries: Vec<Option<String>> = Vec::new();
    assert_eq!(sol_files(&entries), Vec::<String>::new());
}

#[test]
fn direct_invocation_names_the_compiler() {
    let inv = solc(false);
    assert_eq!(inv.program, "solc");
    assert_eq!(inv.args, Vec::<String>::new());
    assert!(!inv.silence_output);
}

#[test]
fn shell_wrapped_invocation_goes_through_the_shell() {
    let inv = solc(true);
    assert_eq!(inv.program, "cmd.exe");
    assert_eq!(inv.args, vec!["/c", "solc.cmd"]);
    assert!(!inv.silence_output);
}

#[test]
fn compile_plans_one_positional_argument_per_source() {
    let entries = vec![Some(s("A.sol")), Some(s("B.sol")), Some(s("out.bin"))];
    let inv = plan_compile(s("contracts"), Some(s("/work/contracts")), Some(entries), false)
        .expect("both resolution steps succeeded");
    assert_eq!(inv.program, "solc");
    assert_eq!(
        inv.args,
        vec!["--bin", "--abi", "--overwrite", "--optimize", "-o", "/work/contracts", "A.sol", "B.sol"]
    );
    assert_eq!(inv.working_dir, "contracts");
    assert!(!inv.silence_output);
}

#[test]
fn compile_always_permits_overwriting_artifacts() {
    // Pre-existing .bin/.abi entries change nothing: the overwrite flag is
    // part of every compile invocation.
    let entries = vec![Some(s("A.sol")), Some(s("A.bin")), Some(s("A.abi"))];
    let inv = plan_compile(s("d"), Some(s("/d")), Some(entries), false).expect("planned");
    assert!(inv.args.iter().any(|a| a == "--overwrite"));
    let no_entries: Vec<Option<String>> = Vec::new();
    let inv2 = plan_compile(s("d"), Some(s("/d")), Some(no_entries), true).expect("planned");
    assert!(inv2.args.iter().any(|a| a == "--overwrite"));
}

#[test]
fn compile_with_zero_sources_still_plans_a_full_invocation() {
    let entries = vec![Some(s("README.md")), None];
    let inv = plan_compile(s("d"), Some(s("/d")), Some(entries), false)
        .expect("an empty job is not short-circuited");
    assert_eq!(inv.args, vec!["--bin", "--abi", "--overwrite", "--optimize", "-o", "/d"]);
}

#[test]
fn compile_refuses_before_any_process_exists_when_path_resolution_fails() {
    match plan_compile(s("d"), None, Some(vec![Some(s("A.sol"))]), false) {
        Err(e) => assert_eq!(e, OrchestrationError::Resolution),
        Ok(_) => panic!("an uncanonicalizable path must refuse the operation"),
    }
}

#[test]
fn compile_refuses_before_any_process_exists_when_directory_is_unreadable() {
    match plan_compile(s("d"), Some(s("/d")), None, false) {
        Err(e) => assert_eq!(e, OrchestrationError::Resolution),
        Ok(_) => panic!("an unreadable directory must refuse the operation"),
    }
}

#[test]
fn shell_wrapped_compile_keeps_the_script_before_the_flags() {
    let entries = vec![Some(s("A.sol"))];
    let inv = plan_compile(s("d"), Some(s("/d")), Some(entries), true).expect("planned");
    assert_eq!(inv.program, "cmd.exe");
    assert_eq!(
        inv.args,
        vec!["/c", "solc.cmd", "--bin", "--abi", "--overwrite", "--optimize", "-o", "/d", "A.sol"]
    );
}

#[test]
fn link_plans_one_flag_pair_per_specifier_in_caller_order() {
    let libs = vec![s("test.sol:LibB:0xbb"), s("test.sol:LibA:0xaa")];
    let inv = plan_link(&libs, s("Target.bin"), s("contracts"), false);
    assert_eq!(inv.program, "solc");
    assert_eq!(
        inv.args,
        vec![
            "--link",
            "--libraries",
            "test.sol:LibB:0xbb",
            "--libraries",
            "test.sol:LibA:0xaa",
            "Target.bin"
        ]
    );
    assert_eq!(inv.working_dir, "contracts");
    assert!(inv.silence_output);
}

#[test]
fn link_without_specifiers_still_names_the_target_last() {
    let libs: Vec<String> = Vec::new();
    let inv = plan_link(&libs, s("Target.bin"), s("d"), false);
    assert_eq!(inv.args, vec!["--link", "Target.bin"]);
}

#[test]
fn outcome_rests_on_the_exit_status_alone() {
    // A specifier that matched no placeholder changes nothing here: the
    // judgement takes only the exit status, and a successful exit is a
    // successful link.
    assert_eq!(process_outcome(Some(true)), Ok(()));
    assert_eq!(process_outcome(Some(false)), Err(OrchestrationError::Execution));
    assert_eq!(process_outcome(None), Err(OrchestrationError::Spawn));
}

#[test]
fn execution_failure_names_the_failing_stage() {
    assert_eq!(
        execution_failure_message(Stage::Compile),
        "There was an error while compiling contracts code."
    );
    assert_eq!(
        execution_failure_message(Stage::Link),
        "There was an error while linking contracts code."
    );
}
