use dwarf_support::patcher::{check_strip_outcome, strip_command_args, PatchError, StripOutcome};

#[test]
fn clean_exit_lets_the_patch_proceed() {
    let r = check_strip_outcome(StripOutcome::Completed(Some(0)));
    assert!(matches!(r, Ok(())));
}

#[test]
fn failed_launch_is_a_process_launch_error() {
    let r = check_strip_outcome(StripOutcome::LaunchFailed(
        "No such file or directory".to_string(),
    ));
    match r {
        Err(PatchError::ProcessLaunchError(msg)) => {
            assert_eq!(msg, "No such file or directory");
        }
        _ => panic!("expected a process launch error"),
    }
}

#[test]
fn non_zero_exit_is_an_unhandled_strip_failure() {
    let r = check_strip_outcome(StripOutcome::Completed(Some(1)));
    match r {
        Err(PatchError::UnhandledStripFailure(code)) => assert_eq!(code, Some(1)),
        _ => panic!("expected an unhandled strip failure"),
    }
}

#[test]
fn exit_by_signal_is_an_unhandled_strip_failure() {
    let r = check_strip_outcome(StripOutcome::Completed(None));
    match r {
        Err(PatchError::UnhandledStripFailure(code)) => assert_eq!(code, None),
        _ => panic!("expected an unhandled strip failure"),
    }
}

#[test]
fn stripper_arguments_are_input_output_and_the_debug_glob() {
    let args: Vec<String> = strip_command_args("app.wasm", "app-stripped.wasm");
    assert_eq!(args.len(), 3);
    assert_eq!(args[0], "app.wasm");
    assert_eq!(args[1], "app-stripped.wasm");
    assert_eq!(args[2], "--remove-section=.debug*");
}
