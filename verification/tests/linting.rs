use rua::lint::{
    shellcheck, shellcheck_command, shellcheck_script, shellcheck_wrapper, LintAction, LintError,
    LintEvent, LintStage,
};

fn strings(v: &[&str]) -> Vec<String> {
    v.iter().map(|s| s.to_string()).collect()
}

fn target(path: &str) -> Option<String> {
    Some(path.to_string())
}

#[test]
fn wrapper_holds_the_placeholder_once() {
    assert_eq!(shellcheck_wrapper().matches("%PKGBUILD%").count(), 1);
    assert!(shellcheck_wrapper().starts_with("#!/bin/bash\n"));
    assert!(shellcheck_wrapper().contains("${pkgname[@]}"));
}

#[test]
fn script_holds_the_recipe_in_the_place_of_the_placeholder() {
    let recipe = "pkgname=foo\npkgver=1\n";
    let script = shellcheck_script(recipe);
    assert_eq!(script, shellcheck_wrapper().replace("%PKGBUILD%", recipe));
    assert!(script.contains("\npkgname=foo\npkgver=1\n\n"));
    assert!(!script.contains("%PKGBUILD%"));
}

#[test]
fn script_keeps_a_placeholder_that_the_recipe_holds() {
    let script = shellcheck_script("echo %PKGBUILD%");
    assert_eq!(script.matches("%PKGBUILD%").count(), 1);
    assert!(script.contains("echo %PKGBUILD%"));
}

#[test]
fn analysis_runs_with_everything_unshared() {
    let c = shellcheck_command();
    assert_eq!(c.program, "bwrap");
    assert_eq!(
        c.args,
        strings(&[
            "--ro-bind", "/usr", "/usr", "--symlink", "usr/bin", "/bin", "--symlink", "usr/lib",
            "/lib", "--symlink", "usr/lib", "/lib64", "--proc", "/proc", "--dev", "/dev",
            "--unshare-all", "shellcheck", "--norc", "/dev/stdin"
        ])
    );
}

#[test]
fn analysis_does_not_see_the_host_root() {
    let c = shellcheck_command();
    assert!(!c.args.iter().any(|a| a == "/"));
    assert!(!c.args.iter().any(|a| a == "--bind" || a == "--dev-bind"));
    let binds: Vec<usize> =
        c.args.iter().enumerate().filter(|(_, a)| *a == "--ro-bind").map(|(i, _)| i).collect();
    assert_eq!(binds, vec![0]);
    assert_eq!(c.args[1], "/usr");
    assert!(c.args.iter().any(|a| a == "--unshare-all"));
}

#[test]
fn without_a_target_standard_input_is_read() {
    let (stage, action) = shellcheck(&None, LintStage::Start, LintEvent::Begin);
    match stage {
        LintStage::Reading { path } => assert_eq!(path, "/dev/stdin"),
        _ => panic!("reading was expected"),
    }
    match action {
        LintAction::Read { path } => assert_eq!(path, "/dev/stdin"),
        _ => panic!("reading was expected"),
    }
}

#[test]
fn a_directory_stands_for_the_recipe_inside_it() {
    let t = target("/pkg/foo");
    let (stage, action) = shellcheck(&t, LintStage::Start, LintEvent::Begin);
    assert!(matches!(stage, LintStage::Resolving));
    match action {
        LintAction::Inspect { path } => assert_eq!(path, "/pkg/foo"),
        _ => panic!("a look at the target was expected"),
    }
    let (_, action) = shellcheck(&t, stage, LintEvent::IsDirectory(true));
    match action {
        LintAction::Read { path } => assert_eq!(path, "/pkg/foo/PKGBUILD"),
        _ => panic!("reading was expected"),
    }
}

#[test]
fn a_file_is_read_as_it_is() {
    let t = target("/pkg/foo/PKGBUILD.new");
    let (stage, action) = shellcheck(&t, LintStage::Resolving, LintEvent::IsDirectory(false));
    match stage {
        LintStage::Reading { path } => assert_eq!(path, "/pkg/foo/PKGBUILD.new"),
        _ => panic!("reading was expected"),
    }
    match action {
        LintAction::Read { path } => assert_eq!(path, "/pkg/foo/PKGBUILD.new"),
        _ => panic!("reading was expected"),
    }
}

#[test]
fn unreadable_recipe_is_reported_with_its_path() {
    let (stage, action) = shellcheck(
        &target("/x"),
        LintStage::Reading { path: "/x".to_string() },
        LintEvent::Unreadable("No such file or directory (os error 2)".to_string()),
    );
    assert!(matches!(stage, LintStage::Ended));
    match action {
        LintAction::Fail(e) => assert_eq!(
            e.message(),
            "Failed to open \"/x\" for reading: No such file or directory (os error 2)"
        ),
        _ => panic!("a failure was expected"),
    }
}

#[test]
fn sandbox_is_made_sure_of_before_the_tool_runs() {
    let t = target("/x");
    let (stage, action) = shellcheck(
        &t,
        LintStage::Reading { path: "/x".to_string() },
        LintEvent::Contents("pkgname=foo\n".to_string()),
    );
    assert!(matches!(action, LintAction::Secure));
    match &stage {
        LintStage::Securing { recipe } => assert_eq!(recipe, "pkgname=foo\n"),
        _ => panic!("the sandbox was expected"),
    }
    let (stage, action) = shellcheck(&t, stage, LintEvent::SandboxReady);
    assert!(matches!(stage, LintStage::Running));
    match action {
        LintAction::Run { command, script } => {
            assert_eq!(command.program, "bwrap");
            assert_eq!(command.args, shellcheck_command().args);
            assert_eq!(script, shellcheck_script("pkgname=foo\n"));
        }
        _ => panic!("the tool was expected"),
    }
}

#[test]
fn exit_status_decides() {
    let (stage, action) = shellcheck(&None, LintStage::Running, LintEvent::Exited(Some(0)));
    assert!(matches!(stage, LintStage::Ended));
    match action {
        LintAction::Pass { message } => {
            assert_eq!(message, "Good job, shellcheck didn't find problems in the PKGBUILD.")
        }
        _ => panic!("a pass was expected"),
    }
    for code in [Some(1), Some(2), None] {
        let (stage, action) = shellcheck(&None, LintStage::Running, LintEvent::Exited(code));
        assert!(matches!(stage, LintStage::Ended));
        match action {
            LintAction::Fail(e) => {
                assert!(matches!(e, LintError::Rejected));
                assert_eq!(e.message(), "");
            }
            _ => panic!("a failure was expected"),
        }
    }
}

#[test]
fn tool_that_cannot_be_started_is_reported_as_not_installed() {
    let (_, action) = shellcheck(&None, LintStage::Running, LintEvent::NotSpawned);
    match action {
        LintAction::Fail(e) => {
            assert!(matches!(e, LintError::NotInstalled));
            assert_eq!(
                e.message(),
                "Failed to spawn shellcheck process. Do you have shellcheck installed?\
                 sudo pacman -S --needed shellcheck"
            );
        }
        _ => panic!("a failure was expected"),
    }
}

#[test]
fn pipe_failures_are_reported() {
    let (_, action) = shellcheck(&None, LintStage::Running, LintEvent::NoStdin);
    match action {
        LintAction::Fail(e) => assert_eq!(e.message(), "Failed to open stdin for shellcheck"),
        _ => panic!("a failure was expected"),
    }
    let (_, action) =
        shellcheck(&None, LintStage::Running, LintEvent::WriteFailed("Broken pipe".to_string()));
    match action {
        LintAction::Fail(e) => assert_eq!(
            e.message(),
            "Failed to write shellcheck wrapper script to shellcheck-s stdin, Broken pipe"
        ),
        _ => panic!("a failure was expected"),
    }
    let (_, action) =
        shellcheck(&None, LintStage::Running, LintEvent::WaitFailed("interrupted".to_string()));
    match action {
        LintAction::Fail(e) => {
            assert_eq!(e.message(), "Failed waiting for shellcheck to exit: interrupted")
        }
        _ => panic!("a failure was expected"),
    }
}

#[test]
fn ended_analysis_asks_for_nothing() {
    let (stage, action) = shellcheck(&None, LintStage::Ended, LintEvent::Begin);
    assert!(matches!(stage, LintStage::Ended));
    assert!(matches!(action, LintAction::Done));
}

#[test]
fn lint_events_out_of_turn_end_the_analysis() {
    let (stage, action) = shellcheck(&None, LintStage::Start, LintEvent::SandboxReady);
    assert!(matches!(stage, LintStage::Ended));
    match action {
        LintAction::Fail(e) => {
            assert!(matches!(e, LintError::OutOfTurn));
            assert_eq!(e.message(), "shellcheck was reported out of turn");
        }
        _ => panic!("a failure was expected"),
    }
    let (_, action) = shellcheck(&None, LintStage::Running, LintEvent::Begin);
    assert!(matches!(action, LintAction::Fail(LintError::OutOfTurn)));
}
