use rua::building::BuildStep;
use rua::command::CommandOutput;
use rua::orchestrator::{
    action_builddir, build_report, exit_report, expected_artifacts, failed_checks, BuildAction,
    BuildEvent, BuildFailure, BuildRequest, BuildStage, VerificationResult,
};
use rua::metadata::{Metadata, MetadataError, Package};
use rua::sandbox::{Access, NetworkMode, RuaDirs};

const INFO: &str = "pkgbase = foo
\tpkgver = 1.0
\tpkgrel = 1
\tarch = x86_64

pkgname = foo

pkgname = foo-data
\tarch = any
";

fn request(offline: bool, force: bool) -> BuildRequest {
    BuildRequest {
        dir: "/pkg/foo".to_string(),
        dirs: RuaDirs { wrapper_bwrap_script: "wrap.sh".to_string() },
        offline,
        force,
        host_arch: "x86_64".to_string(),
        extension: ".pkg.tar.zst".to_string(),
    }
}

fn captured(code: Option<i32>, stdout: &[u8]) -> BuildEvent {
    BuildEvent::Captured(CommandOutput { code, stdout: stdout.to_vec(), stderr: Vec::new() })
}

/// Feeds `events` one after the other and gives back a short name of
/// each action together with the last stage.
fn run(request: &BuildRequest, events: Vec<BuildEvent>) -> (Vec<String>, BuildStage) {
    let mut stage = BuildStage::Start;
    let mut seen = Vec::new();
    for event in events {
        let (next, action) = action_builddir(request, stage, event);
        seen.push(match &action {
            BuildAction::Step(BuildStep::WriteStaticRecipe { path, .. }) => format!("write {}", path),
            BuildAction::Step(BuildStep::FetchSources(inv)) => format!("fetch {:?}", inv.network),
            BuildAction::Step(BuildStep::RemoveStaticRecipe { path }) => format!("remove {}", path),
            BuildAction::Step(BuildStep::Build(inv)) => {
                format!("build {:?} {}", inv.network, inv.command.join(" "))
            }
            BuildAction::ReadMetadata(inv) => format!("metadata {:?}", inv.network),
            BuildAction::VerifyArchive { path } => format!("verify {}", path),
            BuildAction::Report { results } => {
                let verdicts: Vec<String> =
                    results.iter().map(|r| format!("{}={}", r.path, r.passed)).collect();
                format!("report {}", verdicts.join(" "))
            }
            BuildAction::Exit { status, code } => format!("exit {:?} {}", status, code),
            BuildAction::Abort(failure) => format!("abort {}", failure.message(&request.dir)),
            BuildAction::Done => "done".to_string(),
        });
        stage = next;
    }
    (seen, stage)
}

#[test]
fn build_with_network_runs_one_step_then_reads_metadata_and_checks() {
    let (seen, stage) = run(
        &request(false, false),
        vec![
            BuildEvent::Begin,
            BuildEvent::Exited(Some(0)),
            captured(Some(0), INFO.as_bytes()),
            BuildEvent::Checked(true),
            BuildEvent::Checked(true),
            BuildEvent::Begin,
        ],
    );
    assert_eq!(
        seen,
        vec![
            "build Allowed makepkg",
            "metadata Isolated",
            "verify /pkg/foo/foo-1.0-1-x86_64.pkg.tar.zst",
            "verify /pkg/foo/foo-data-1.0-1-any.pkg.tar.zst",
            "report /pkg/foo/foo-1.0-1-x86_64.pkg.tar.zst=true \
             /pkg/foo/foo-data-1.0-1-any.pkg.tar.zst=true",
            "done",
        ]
    );
    assert!(matches!(stage, BuildStage::Finished));
}

#[test]
fn offline_forced_build_fetches_first_and_builds_isolated() {
    let (seen, stage) = run(
        &request(true, true),
        vec![
            BuildEvent::Begin,
            BuildEvent::Succeeded,
            BuildEvent::Exited(Some(0)),
            BuildEvent::Succeeded,
            BuildEvent::Exited(Some(0)),
            captured(Some(0), INFO.as_bytes()),
            BuildEvent::Checked(false),
            BuildEvent::Checked(true),
        ],
    );
    assert_eq!(
        seen,
        vec![
            "write /pkg/foo/PKGBUILD.static",
            "fetch Allowed",
            "remove /pkg/foo/PKGBUILD.static",
            "build Isolated makepkg --force",
            "metadata Isolated",
            "verify /pkg/foo/foo-1.0-1-x86_64.pkg.tar.zst",
            "verify /pkg/foo/foo-data-1.0-1-any.pkg.tar.zst",
            "report /pkg/foo/foo-1.0-1-x86_64.pkg.tar.zst=false \
             /pkg/foo/foo-data-1.0-1-any.pkg.tar.zst=true",
        ]
    );
    assert!(matches!(stage, BuildStage::Finished));
}

#[test]
fn metadata_is_read_without_network_whatever_the_request() {
    for offline in [false, true] {
        for force in [false, true] {
            let req = request(offline, force);
            let last = if offline { 3 } else { 0 };
            let (_, action) =
                action_builddir(&req, BuildStage::Preparing(last), BuildEvent::Exited(Some(0)));
            match action {
                BuildAction::ReadMetadata(inv) => {
                    assert_eq!(inv.network, NetworkMode::Isolated);
                    assert_eq!(inv.binds.len(), 1);
                    assert_eq!(inv.binds[0].access, Access::ReadOnly);
                    assert_eq!(inv.output_dir, "/tmp");
                }
                _ => panic!("the metadata was expected"),
            }
        }
    }
}

#[test]
fn failed_build_exits_with_the_tools_code() {
    let (seen, stage) =
        run(&request(false, false), vec![BuildEvent::Begin, BuildEvent::Exited(Some(12))]);
    assert_eq!(seen[1], "exit Some(12) 12");
    assert!(matches!(stage, BuildStage::Aborted));
    let (seen, _) = run(&request(false, false), vec![BuildEvent::Begin, BuildEvent::Exited(None)]);
    assert_eq!(seen[1], "exit None 1");
}

#[test]
fn failed_fetch_removes_the_static_recipe_and_stops_before_the_build() {
    let (seen, stage) = run(
        &request(true, false),
        vec![
            BuildEvent::Begin,
            BuildEvent::Succeeded,
            BuildEvent::Exited(Some(1)),
            BuildEvent::Succeeded,
            BuildEvent::Begin,
        ],
    );
    assert_eq!(
        seen,
        vec![
            "write /pkg/foo/PKGBUILD.static",
            "fetch Allowed",
            "remove /pkg/foo/PKGBUILD.static",
            "abort Failed to download PKGBUILD sources",
            "done",
        ]
    );
    assert!(matches!(stage, BuildStage::Aborted));
}

#[test]
fn fetch_that_cannot_start_removes_the_static_recipe() {
    let (seen, stage) = run(
        &request(true, false),
        vec![
            BuildEvent::Begin,
            BuildEvent::Succeeded,
            BuildEvent::Failed("gone".to_string()),
            BuildEvent::Succeeded,
        ],
    );
    assert_eq!(
        seen[2..],
        [
            "remove /pkg/foo/PKGBUILD.static",
            "abort Failed to fetch dependencies in directory /pkg/foo, gone",
        ]
    );
    assert!(matches!(stage, BuildStage::Aborted));
}

#[test]
fn missing_metadata_file_stops_the_fetch_and_names_the_directory() {
    let (seen, stage) = run(
        &request(true, false),
        vec![
            BuildEvent::Begin,
            BuildEvent::Unresolved("No such file or directory (os error 2)".to_string()),
            BuildEvent::Succeeded,
            BuildEvent::Begin,
        ],
    );
    assert_eq!(
        seen,
        vec![
            "write /pkg/foo/PKGBUILD.static",
            "remove /pkg/foo/PKGBUILD.static",
            "abort Cannot resolve .SRCINFO path in /pkg/foo, \
             No such file or directory (os error 2)",
            "done",
        ]
    );
    assert!(matches!(stage, BuildStage::Aborted));
}

#[test]
fn static_recipe_that_cannot_be_filled_is_removed() {
    let (seen, _) = run(
        &request(true, false),
        vec![BuildEvent::Begin, BuildEvent::Unwritten("disk full".to_string()), BuildEvent::Succeeded],
    );
    assert_eq!(
        seen[1..],
        [
            "remove /pkg/foo/PKGBUILD.static",
            "abort cannot write to PKGBUILD.static: disk full",
        ]
    );
}

#[test]
fn failed_removal_after_a_failed_fetch_reports_both() {
    let (seen, stage) = run(
        &request(true, false),
        vec![
            BuildEvent::Begin,
            BuildEvent::Succeeded,
            BuildEvent::Exited(None),
            BuildEvent::Failed("busy".to_string()),
        ],
    );
    assert_eq!(
        seen[3],
        "abort Failed to download PKGBUILD sources\nFailed to clean up PKGBUILD.static: busy"
    );
    assert!(matches!(stage, BuildStage::Aborted));
}

#[test]
fn fetch_phase_never_gives_up_without_asking_for_the_removal() {
    let req = request(true, false);
    for k in [0, 1] {
        let events = vec![
            BuildEvent::Begin,
            BuildEvent::Failed("x".to_string()),
            BuildEvent::Unresolved("x".to_string()),
            BuildEvent::Unwritten("x".to_string()),
            BuildEvent::Exited(Some(2)),
            BuildEvent::Exited(None),
            BuildEvent::Checked(true),
        ];
        for event in events {
            let (stage, action) = action_builddir(&req, BuildStage::Preparing(k), event);
            assert!(matches!(stage, BuildStage::CleaningUp { .. }));
            match action {
                BuildAction::Step(BuildStep::RemoveStaticRecipe { path }) => {
                    assert_eq!(path, "/pkg/foo/PKGBUILD.static")
                }
                _ => panic!("the removal was expected"),
            }
        }
    }
}

#[test]
fn file_and_start_failures_are_reported_with_their_reason() {
    let req = request(true, false);
    let (seen, _) = run(
        &req,
        vec![BuildEvent::Begin, BuildEvent::Failed("denied".to_string()), BuildEvent::Succeeded],
    );
    assert_eq!(seen[1], "remove /pkg/foo/PKGBUILD.static");
    assert_eq!(seen[2], "abort Cannot create /pkg/foo/PKGBUILD.static, denied");
    let (_, action) =
        action_builddir(&req, BuildStage::Preparing(2), BuildEvent::Failed("busy".to_string()));
    match action {
        BuildAction::Abort(f) => {
            assert_eq!(f.message("/pkg/foo"), "Failed to clean up PKGBUILD.static: busy")
        }
        _ => panic!("a failure was expected"),
    }
    let (_, action) =
        action_builddir(&req, BuildStage::Preparing(3), BuildEvent::Failed("nope".to_string()));
    match action {
        BuildAction::Abort(f) => assert_eq!(
            f.message("/pkg/foo"),
            "Failed to execute ~/.config/rua/.system/wrap.sh, nope"
        ),
        _ => panic!("a failure was expected"),
    }
}

#[test]
fn missing_metadata_gives_the_build_up() {
    let req = request(false, false);
    let (stage, action) =
        action_builddir(&req, BuildStage::ReadingMetadata, captured(Some(1), b"x"));
    assert!(matches!(stage, BuildStage::Aborted));
    match action {
        BuildAction::Abort(f) => {
            assert!(matches!(f, BuildFailure::NoMetadata(MetadataError::ToolFailed { .. })));
            assert_eq!(
                f.message("/pkg/foo"),
                "Failed to obtain SRCINFO: makepkg failed to execute, Stdout:\nx\n\nStderr:\n\n"
            );
        }
        _ => panic!("a failure was expected"),
    }
    let (_, action) =
        action_builddir(&req, BuildStage::ReadingMetadata, captured(Some(0), b"not metadata"));
    assert!(matches!(
        action,
        BuildAction::Abort(BuildFailure::NoMetadata(MetadataError::Unparsable { .. }))
    ));
    let (_, action) = action_builddir(
        &req,
        BuildStage::ReadingMetadata,
        BuildEvent::Failed("no wrapper".to_string()),
    );
    assert!(matches!(
        action,
        BuildAction::Abort(BuildFailure::NoMetadata(MetadataError::NotExecuted { .. }))
    ));
}

#[test]
fn a_recipe_without_packages_is_reported_at_once() {
    let req = request(false, false);
    let info = "pkgbase = foo\n\tpkgver = 1\n\tpkgrel = 1\n";
    let (stage, action) =
        action_builddir(&req, BuildStage::ReadingMetadata, captured(Some(0), info.as_bytes()));
    if "pkgbase = foo\n\tpkgver = 1\n\tpkgrel = 1\n".parse::<srcinfo::Srcinfo>().is_ok() {
        assert!(matches!(stage, BuildStage::Finished));
        match action {
            BuildAction::Report { results } => assert!(results.is_empty()),
            _ => panic!("a report was expected"),
        }
    } else {
        assert!(matches!(action, BuildAction::Abort(BuildFailure::NoMetadata(_))));
    }
}

#[test]
fn events_out_of_turn_give_the_build_up() {
    let req = request(false, false);
    let (stage, action) = action_builddir(&req, BuildStage::Start, BuildEvent::Succeeded);
    assert!(matches!(stage, BuildStage::Aborted));
    assert!(matches!(action, BuildAction::Abort(BuildFailure::OutOfTurn)));
    let (_, action) = action_builddir(&req, BuildStage::Preparing(0), BuildEvent::Succeeded);
    assert!(matches!(action, BuildAction::Abort(BuildFailure::OutOfTurn)));
    let (_, action) = action_builddir(&req, BuildStage::Preparing(1), BuildEvent::Exited(Some(0)));
    assert!(matches!(action, BuildAction::Abort(BuildFailure::OutOfTurn)));
    let offline = request(true, false);
    let (_, action) = action_builddir(&offline, BuildStage::Preparing(2), BuildEvent::Begin);
    assert!(matches!(action, BuildAction::Abort(BuildFailure::OutOfTurn)));
    let (_, action) = action_builddir(
        &offline,
        BuildStage::CleaningUp { failure: BuildFailure::SourcesNotFetched },
        BuildEvent::Exited(Some(0)),
    );
    assert!(matches!(action, BuildAction::Abort(BuildFailure::OutOfTurn)));
    let (_, action) = action_builddir(&req, BuildStage::ReadingMetadata, BuildEvent::Checked(true));
    assert!(matches!(action, BuildAction::Abort(BuildFailure::OutOfTurn)));
    let (_, action) = action_builddir(
        &req,
        BuildStage::Verifying { paths: vec!["a".to_string()], verdicts: vec![true] },
        BuildEvent::Checked(true),
    );
    assert!(matches!(action, BuildAction::Abort(BuildFailure::OutOfTurn)));
}

#[test]
fn expected_artifacts_lie_in_the_build_directory() {
    let m = Metadata {
        epoch: Some("3".to_string()),
        pkgver: "1.0".to_string(),
        pkgrel: "2".to_string(),
        pkgs: vec![Package { pkgname: "foo".to_string(), arch: vec!["i686".to_string()] }],
    };
    assert_eq!(
        expected_artifacts(&request(false, false), &m),
        vec!["/pkg/foo/foo-3:1.0-2-any.pkg.tar.zst".to_string()]
    );
}

#[test]
fn reports_name_the_directory() {
    assert_eq!(exit_report(Some(2), "/pkg/foo"), "Build failed with exit code 2 in /pkg/foo");
    assert_eq!(exit_report(None, "/pkg/foo"), "Build failed with exit code ??? in /pkg/foo");
    assert_eq!(
        build_report("/pkg/foo"),
        vec![
            "Package built and checked in: /pkg/foo".to_string(),
            "If you want to install the built artifacts, do it manually.".to_string(),
        ]
    );
}

#[test]
fn a_failed_check_does_not_stop_the_build() {
    let req = request(false, false);
    for passed in [false, true] {
        let stage = BuildStage::Verifying {
            paths: vec!["/p/a".to_string(), "/p/b".to_string()],
            verdicts: Vec::new(),
        };
        let (stage, action) = action_builddir(&req, stage, BuildEvent::Checked(passed));
        match action {
            BuildAction::VerifyArchive { path } => assert_eq!(path, "/p/b"),
            _ => panic!("the next check was expected"),
        }
        match &stage {
            BuildStage::Verifying { verdicts, .. } => assert_eq!(verdicts, &vec![passed]),
            _ => panic!("checking goes on"),
        }
        let (stage, action) = action_builddir(&req, stage, BuildEvent::Checked(!passed));
        assert!(matches!(stage, BuildStage::Finished));
        match action {
            BuildAction::Report { results } => {
                assert_eq!(results.len(), 2);
                assert_eq!(results[0].path, "/p/a");
                assert_eq!(results[0].passed, passed);
                assert_eq!(results[1].path, "/p/b");
                assert_eq!(results[1].passed, !passed);
            }
            _ => panic!("a report was expected"),
        }
    }
}

#[test]
fn every_build_failure_has_its_words() {
    assert_eq!(BuildFailure::OutOfTurn.message("/d"), "the build was reported out of turn");
    assert_eq!(BuildFailure::SourcesNotFetched.message("/d"), "Failed to download PKGBUILD sources");
    let unparsable = BuildFailure::NoMetadata(MetadataError::Unparsable {
        text: "x".to_string(),
        reason: "bad".to_string(),
    });
    assert_eq!(
        unparsable.message("/d"),
        "Failed to obtain SRCINFO: Failed to parse SRCINFO:\nx\nError is: bad"
    );
}

#[test]
fn failed_checks_are_named_in_order() {
    let results = vec![
        VerificationResult { path: "/p/a".to_string(), passed: false },
        VerificationResult { path: "/p/b".to_string(), passed: true },
        VerificationResult { path: "/p/c".to_string(), passed: false },
    ];
    assert_eq!(failed_checks(&results), vec!["/p/a".to_string(), "/p/c".to_string()]);
    assert!(failed_checks(&results[1..2].iter().map(|r| VerificationResult {
        path: r.path.clone(),
        passed: r.passed,
    })
    .collect())
    .is_empty());
    assert!(failed_checks(&Vec::new()).is_empty());
}
