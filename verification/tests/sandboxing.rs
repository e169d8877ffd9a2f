use rua::sandbox::{
    check_bubblewrap_runnable, unusable_explanation, wrap_yes_internet, Access, BindMount,
    Capability, CapabilityAction, CapabilityEvent, NetworkMode, RuaDirs, SandboxInvocation,
    EXIT_SANDBOX_UNUSABLE,
};

fn dirs() -> RuaDirs {
    RuaDirs { wrapper_bwrap_script: "/home/u/.config/rua/.system/wrap.sh".to_string() }
}

fn strings(v: &[&str]) -> Vec<String> {
    v.iter().map(|s| s.to_string()).collect()
}

#[test]
fn new_invocation_allows_the_network_and_binds_nothing() {
    let inv = wrap_yes_internet(&dirs(), "/work", "/out");
    assert_eq!(inv.wrapper, "/home/u/.config/rua/.system/wrap.sh");
    assert_eq!(inv.working_dir, "/work");
    assert_eq!(inv.output_dir, "/out");
    assert_eq!(inv.network, NetworkMode::Allowed);
    assert!(inv.binds.is_empty());
    assert!(inv.command.is_empty());
}

#[test]
fn all_five_destinations_point_at_one_directory() {
    let inv = wrap_yes_internet(&dirs(), "/work", "/out");
    let env = inv.environment();
    let names: Vec<&str> = env.iter().map(|e| e.name.as_str()).collect();
    assert_eq!(names, vec!["PKGDEST", "SRCDEST", "SRCPKGDEST", "LOGDEST", "BUILDDIR"]);
    for e in &env {
        assert_eq!(e.value, "/out");
    }
}

#[test]
fn command_line_puts_network_then_binds_then_command() {
    let inv = SandboxInvocation {
        wrapper: "wrap.sh".to_string(),
        working_dir: "/w".to_string(),
        output_dir: "/w".to_string(),
        network: NetworkMode::Isolated,
        binds: vec![
            BindMount { host: "/a".to_string(), guest: "/b".to_string(), access: Access::ReadOnly },
            BindMount { host: "/c".to_string(), guest: "/d".to_string(), access: Access::ReadWrite },
        ],
        command: strings(&["makepkg", "--force"]),
    };
    let c = inv.command_line();
    assert_eq!(c.program, "wrap.sh");
    assert_eq!(
        c.args,
        strings(&[
            "--unshare-net", "--ro-bind", "/a", "/b", "--bind", "/c", "/d", "makepkg", "--force"
        ])
    );
}

#[test]
fn command_line_with_the_network_has_no_network_flag() {
    let mut inv = wrap_yes_internet(&dirs(), "/w", "/w");
    inv.command = strings(&["true"]);
    let c = inv.command_line();
    assert_eq!(c.args, strings(&["true"]));
}

#[test]
fn first_request_starts_the_probe() {
    let (state, action) = check_bubblewrap_runnable(Capability::Unknown, CapabilityEvent::Requested);
    assert_eq!(state, Capability::Probing);
    match action {
        CapabilityAction::Probe(c) => {
            assert_eq!(c.program, "bwrap");
            assert_eq!(c.args, strings(&["--ro-bind", "/", "/", "true"]));
        }
        _ => panic!("a probe was expected"),
    }
}

#[test]
fn successful_probe_makes_the_sandbox_usable() {
    let (state, action) =
        check_bubblewrap_runnable(Capability::Probing, CapabilityEvent::ProbeExited(Some(0)));
    assert_eq!(state, Capability::Usable);
    assert!(matches!(action, CapabilityAction::Proceed));
}

#[test]
fn failed_probe_ends_with_the_reserved_code() {
    assert_eq!(EXIT_SANDBOX_UNUSABLE, 4);
    for code in [Some(1), Some(255), None] {
        let (state, action) =
            check_bubblewrap_runnable(Capability::Probing, CapabilityEvent::ProbeExited(code));
        assert_eq!(state, Capability::Unusable);
        assert!(matches!(action, CapabilityAction::Exit(4)));
    }
}

#[test]
fn missing_primitive_ends_with_the_reserved_code() {
    let (state, action) =
        check_bubblewrap_runnable(Capability::Probing, CapabilityEvent::ProbeMissing);
    assert_eq!(state, Capability::Missing);
    assert!(matches!(action, CapabilityAction::Exit(4)));
    let (state, action) = check_bubblewrap_runnable(state, CapabilityEvent::Requested);
    assert_eq!(state, Capability::Missing);
    assert!(matches!(action, CapabilityAction::Exit(4)));
}

#[test]
fn first_call_without_the_primitive_probes_once_and_exits() {
    let (state, action) = check_bubblewrap_runnable(Capability::Unknown, CapabilityEvent::Requested);
    assert!(matches!(action, CapabilityAction::Probe(_)));
    let (state, action) = check_bubblewrap_runnable(state, CapabilityEvent::ProbeMissing);
    assert!(matches!(action, CapabilityAction::Exit(EXIT_SANDBOX_UNUSABLE)));
    assert_eq!(
        unusable_explanation(state),
        vec!["bwrap binary not found. RUA uses bubblewrap for security isolation.".to_string()]
    );
}

#[test]
fn later_requests_are_answered_from_what_is_known() {
    let mut state = Capability::Unknown;
    let mut probes = 0;
    let events = [
        CapabilityEvent::Requested,
        CapabilityEvent::ProbeExited(Some(0)),
        CapabilityEvent::Requested,
        CapabilityEvent::Requested,
        CapabilityEvent::ProbeExited(Some(1)),
        CapabilityEvent::Requested,
    ];
    for event in events {
        let (next, action) = check_bubblewrap_runnable(state, event);
        if matches!(action, CapabilityAction::Probe(_)) {
            probes += 1;
        }
        state = next;
    }
    assert_eq!(probes, 1);
    assert_eq!(state, Capability::Usable);
}

#[test]
fn a_request_during_the_probe_waits() {
    let (state, action) = check_bubblewrap_runnable(Capability::Probing, CapabilityEvent::Requested);
    assert_eq!(state, Capability::Probing);
    assert!(matches!(action, CapabilityAction::Wait));
    let (state, action) =
        check_bubblewrap_runnable(Capability::Unknown, CapabilityEvent::ProbeExited(Some(0)));
    assert_eq!(state, Capability::Unknown);
    assert!(matches!(action, CapabilityAction::Wait));
}

#[test]
fn unusable_stays_unusable() {
    let (state, action) =
        check_bubblewrap_runnable(Capability::Unusable, CapabilityEvent::Requested);
    assert_eq!(state, Capability::Unusable);
    assert!(matches!(action, CapabilityAction::Exit(4)));
}

#[test]
fn explanations_name_the_likely_cause() {
    let lines = unusable_explanation(Capability::Unusable);
    assert_eq!(lines.len(), 3);
    assert_eq!(lines[0], "Failed to run bwrap.");
    assert!(lines[1].contains("run in jail"));
    assert_eq!(lines[2], "If so, see https://github.com/vn971/rua/issues/8");
    assert!(unusable_explanation(Capability::Usable).is_empty());
    assert!(unusable_explanation(Capability::Unknown).is_empty());
    assert!(unusable_explanation(Capability::Probing).is_empty());
}
