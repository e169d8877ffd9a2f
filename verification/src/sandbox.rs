//! Sandbox invocations: what is handed to the isolation wrapper, and the
//! one-time check that the isolation primitive can be used at all.

use crate::command::{exit_success, is_exit_success, CommandLine, CommandLineView};
use crate::text::views;
use vstd::prelude::*;
use vstd::string::*;

verus! {

/// The exit code reserved for an isolation primitive that cannot be used.
pub const EXIT_SANDBOX_UNUSABLE: i32 = 4;

/// The files of this program that a build needs.
pub struct RuaDirs {
    /// The script that sets up the sandbox and runs a command inside it.
    pub wrapper_bwrap_script: String,
}

/// Whether a sandboxed command can reach the network.
#[derive(Clone, Copy, PartialEq, Eq, Debug, Structural)]
pub enum NetworkMode {
    Isolated,
    Allowed,
}

/// Whether a sandboxed command may write to a bound directory.
#[derive(Clone, Copy, PartialEq, Eq, Debug, Structural)]
pub enum Access {
    ReadOnly,
    ReadWrite,
}

/// A host path made visible inside the sandbox.
pub struct BindMount {
    pub host: String,
    pub guest: String,
    pub access: Access,
}

/// The mathematical value of a [`BindMount`].
pub struct BindMountView {
    pub host: Seq<char>,
    pub guest: Seq<char>,
    pub access: Access,
}

impl View for BindMount {
    type V = BindMountView;

    open spec fn view(&self) -> BindMountView {
        BindMountView { host: self.host@, guest: self.guest@, access: self.access }
    }
}

/// A variable of the environment and its value.
pub struct EnvVar {
    pub name: String,
    pub value: String,
}

impl View for EnvVar {
    type V = (Seq<char>, Seq<char>);

    open spec fn view(&self) -> (Seq<char>, Seq<char>) {
        (self.name@, self.value@)
    }
}

/// One run of a command inside the sandbox.
pub struct SandboxInvocation {
    /// The program that sets up the sandbox.
    pub wrapper: String,
    /// The directory the command starts in.
    pub working_dir: String,
    /// The one directory that takes packages, sources, source packages,
    /// logs and the build tree.
    pub output_dir: String,
    pub network: NetworkMode,
    pub binds: Vec<BindMount>,
    /// The program to run inside the sandbox, followed by its arguments.
    pub command: Vec<String>,
}

/// The mathematical value of a [`SandboxInvocation`].
pub struct SandboxInvocationView {
    pub wrapper: Seq<char>,
    pub working_dir: Seq<char>,
    pub output_dir: Seq<char>,
    pub network: NetworkMode,
    pub binds: Seq<BindMountView>,
    pub command: Seq<Seq<char>>,
}

/// The views of a sequence of bind mounts.
pub open spec fn bind_views(v: Seq<BindMount>) -> Seq<BindMountView> {
    Seq::new(v.len(), |i: int| v[i]@)
}

/// The views of a sequence of variables.
pub open spec fn env_views(v: Seq<EnvVar>) -> Seq<(Seq<char>, Seq<char>)> {
    Seq::new(v.len(), |i: int| v[i]@)
}

impl View for SandboxInvocation {
    type V = SandboxInvocationView;

    open spec fn view(&self) -> SandboxInvocationView {
        SandboxInvocationView {
            wrapper: self.wrapper@,
            working_dir: self.working_dir@,
            output_dir: self.output_dir@,
            network: self.network,
            binds: bind_views(self.binds@),
            command: views(self.command@),
        }
    }
}

/// The variables that tell the build tool where to put what it makes.
pub open spec fn destination_variables() -> Seq<Seq<char>> {
    seq!["PKGDEST"@, "SRCDEST"@, "SRCPKGDEST"@, "LOGDEST"@, "BUILDDIR"@]
}

/// The environment of an invocation: every destination variable, set to
/// the invocation's output directory.
pub open spec fn environment_of(inv: SandboxInvocationView) -> Seq<(Seq<char>, Seq<char>)> {
    Seq::new(5, |i: int| (destination_variables()[i], inv.output_dir))
}

/// The wrapper's flag for a bind mount.
pub open spec fn bind_flag(access: Access) -> Seq<char> {
    match access {
        Access::ReadOnly => "--ro-bind"@,
        Access::ReadWrite => "--bind"@,
    }
}

/// The wrapper's arguments for bind mounts: for each its flag, the host
/// path and the guest path.
pub open spec fn bind_arguments(binds: Seq<BindMountView>) -> Seq<Seq<char>>
    decreases binds.len(),
{
    if binds.len() == 0 {
        Seq::empty()
    } else {
        bind_arguments(binds.drop_last()) + seq![
            bind_flag(binds.last().access),
            binds.last().host,
            binds.last().guest,
        ]
    }
}

/// The wrapper's arguments for a network mode.
pub open spec fn network_arguments(network: NetworkMode) -> Seq<Seq<char>> {
    match network {
        NetworkMode::Isolated => seq!["--unshare-net"@],
        NetworkMode::Allowed => Seq::empty(),
    }
}

/// The arguments handed to the wrapper: the network flag, the bind
/// mounts, then the command.
pub open spec fn arguments_of(inv: SandboxInvocationView) -> Seq<Seq<char>> {
    network_arguments(inv.network) + bind_arguments(inv.binds) + inv.command
}

/// The command line that starts an invocation.
pub open spec fn command_line_of(inv: SandboxInvocationView) -> CommandLineView {
    CommandLineView { program: inv.wrapper, args: arguments_of(inv) }
}

/// An invocation with the network allowed, nothing bound and no command
/// yet.
pub open spec fn open_invocation(
    dirs: Seq<char>,
    cur_dir: Seq<char>,
    makepkg_dir: Seq<char>,
) -> SandboxInvocationView {
    SandboxInvocationView {
        wrapper: dirs,
        working_dir: cur_dir,
        output_dir: makepkg_dir,
        network: NetworkMode::Allowed,
        binds: Seq::empty(),
        command: Seq::empty(),
    }
}

/// Starts an invocation of the wrapper script in `cur_dir`, with every
/// destination variable set to `makepkg_dir` and the network allowed.
pub fn wrap_yes_internet(dirs: &RuaDirs, cur_dir: &str, makepkg_dir: &str) -> (r:
    SandboxInvocation)
    ensures
        r@ == open_invocation(dirs.wrapper_bwrap_script@, cur_dir@, makepkg_dir@),
{
    let r = SandboxInvocation {
        wrapper: dirs.wrapper_bwrap_script.clone(),
        working_dir: cur_dir.to_owned(),
        output_dir: makepkg_dir.to_owned(),
        network: NetworkMode::Allowed,
        binds: Vec::new(),
        command: Vec::new(),
    };
    assert(bind_views(r.binds@) =~= Seq::empty());
    assert(views(r.command@) =~= Seq::empty());
    r
}

impl SandboxInvocation {
    /// The environment to start the wrapper with.
    pub fn environment(&self) -> (r: Vec<EnvVar>)
        ensures
            env_views(r@) == environment_of(self@),
    {
        let mut r: Vec<EnvVar> = Vec::new();
        r.push(EnvVar { name: "PKGDEST".to_owned(), value: self.output_dir.clone() });
        r.push(EnvVar { name: "SRCDEST".to_owned(), value: self.output_dir.clone() });
        r.push(EnvVar { name: "SRCPKGDEST".to_owned(), value: self.output_dir.clone() });
        r.push(EnvVar { name: "LOGDEST".to_owned(), value: self.output_dir.clone() });
        r.push(EnvVar { name: "BUILDDIR".to_owned(), value: self.output_dir.clone() });
        assert(env_views(r@) =~= environment_of(self@));
        r
    }

    /// The command line that starts the wrapper.
    pub fn command_line(&self) -> (r: CommandLine)
        ensures
            r@ == command_line_of(self@),
    {
        let mut args: Vec<String> = Vec::new();
        match self.network {
            NetworkMode::Isolated => {
                args.push("--unshare-net".to_owned());
            },
            NetworkMode::Allowed => {},
        }
        assert(views(args@) =~= network_arguments(self.network));
        let mut i: usize = 0;
        assert(bind_views(self.binds@).take(0) =~= Seq::empty());
        while i < self.binds.len()
            invariant
                i <= self.binds.len(),
                views(args@) == network_arguments(self.network) + bind_arguments(
                    bind_views(self.binds@).take(i as int),
                ),
            decreases self.binds.len() - i,
        {
            let ghost before = views(args@);
            let ghost upto = bind_views(self.binds@).take(i + 1);
            let bind = &self.binds[i];
            let flag = match bind.access {
                Access::ReadOnly => "--ro-bind",
                Access::ReadWrite => "--bind",
            };
            args.push(flag.to_owned());
            args.push(bind.host.clone());
            args.push(bind.guest.clone());
            proof {
                assert(upto.drop_last() =~= bind_views(self.binds@).take(i as int));
                assert(upto.last() == bind@);
                assert(views(args@) =~= before + seq![bind_flag(bind.access), bind.host@,
                    bind.guest@]);
            }
            i += 1;
        }
        assert(bind_views(self.binds@).take(self.binds.len() as int) =~= bind_views(self.binds@));
        let mut j: usize = 0;
        while j < self.command.len()
            invariant
                j <= self.command.len(),
                views(args@) == network_arguments(self.network) + bind_arguments(
                    bind_views(self.binds@),
                ) + views(self.command@).take(j as int),
            decreases self.command.len() - j,
        {
            let ghost before = views(args@);
            args.push(self.command[j].clone());
            assert(views(args@) =~= before + seq![self.command@[j as int]@]);
            assert(views(self.command@).take(j + 1) =~= views(self.command@).take(j as int)
                + seq![self.command@[j as int]@]);
            j += 1;
        }
        assert(views(self.command@).take(self.command.len() as int) =~= views(self.command@));
        CommandLine { program: self.wrapper.clone(), args }
    }
}

/// Every destination variable of an invocation points at its one output
/// directory, and the five variables are all there.
pub proof fn lemma_destinations_agree(inv: SandboxInvocationView)
    ensures
        environment_of(inv).len() == 5,
        forall|i: int|
            0 <= i < 5 ==> (#[trigger] environment_of(inv)[i]).1 == inv.output_dir
                && environment_of(inv)[i].0 == destination_variables()[i],
{
}

/// What is known of the isolation primitive.
#[derive(Clone, Copy, PartialEq, Eq, Debug, Structural)]
pub enum Capability {
    /// Nothing yet: no probe was started.
    Unknown,
    /// A probe was started and has not reported.
    Probing,
    /// The probe succeeded.
    Usable,
    /// The probe ran and failed.
    Unusable,
    /// The probe could not be started: the isolation primitive is not
    /// there.
    Missing,
}

/// What is reported to the capability check.
#[derive(Clone, Copy, PartialEq, Eq, Debug, Structural)]
pub enum CapabilityEvent {
    /// A caller is about to use the sandbox.
    Requested,
    /// The probe could not be started.
    ProbeMissing,
    /// The probe ran and ended with this exit code.
    ProbeExited(Option<i32>),
}

/// What the capability check asks for.
pub enum CapabilityAction {
    /// Run this command and report how it ended.
    Probe(CommandLine),
    /// A probe is under way: wait for it.
    Wait,
    /// The sandbox can be used.
    Proceed,
    /// End the process with this exit code, after explaining why the
    /// sandbox cannot be entered.
    Exit(i32),
}

/// The mathematical value of a [`CapabilityAction`].
pub enum CapabilityActionView {
    Probe(CommandLineView),
    Wait,
    Proceed,
    Exit(i32),
}

impl View for CapabilityAction {
    type V = CapabilityActionView;

    open spec fn view(&self) -> CapabilityActionView {
        match self {
            CapabilityAction::Probe(c) => CapabilityActionView::Probe(c@),
            CapabilityAction::Wait => CapabilityActionView::Wait,
            CapabilityAction::Proceed => CapabilityActionView::Proceed,
            CapabilityAction::Exit(code) => CapabilityActionView::Exit(*code),
        }
    }
}

/// The probe: the isolation primitive binds the whole file system
/// read-only and runs a command that does nothing.
pub open spec fn probe_command() -> CommandLineView {
    CommandLineView { program: "bwrap"@, args: seq!["--ro-bind"@, "/"@, "/"@, "true"@] }
}

/// What is known after `event`.
pub open spec fn capability_after(state: Capability, event: CapabilityEvent) -> Capability {
    match (state, event) {
        (Capability::Unknown, CapabilityEvent::Requested) => Capability::Probing,
        (Capability::Probing, CapabilityEvent::ProbeExited(code)) => if exit_success(code) {
            Capability::Usable
        } else {
            Capability::Unusable
        },
        (Capability::Probing, CapabilityEvent::ProbeMissing) => Capability::Missing,
        _ => state,
    }
}

/// What is asked for on `event`. An isolation primitive that is missing
/// and one that does not work end the process alike, with the reserved
/// exit code.
pub open spec fn capability_action(
    state: Capability,
    event: CapabilityEvent,
) -> CapabilityActionView {
    match (state, event) {
        (Capability::Unknown, CapabilityEvent::Requested) => CapabilityActionView::Probe(
            probe_command(),
        ),
        _ => match capability_after(state, event) {
            Capability::Unknown => CapabilityActionView::Wait,
            Capability::Probing => CapabilityActionView::Wait,
            Capability::Usable => CapabilityActionView::Proceed,
            Capability::Unusable => CapabilityActionView::Exit(EXIT_SANDBOX_UNUSABLE),
            Capability::Missing => CapabilityActionView::Exit(EXIT_SANDBOX_UNUSABLE),
        },
    }
}

/// One step of the capability check. The first request starts the probe;
/// its result is recorded once; every later request is answered from
/// what was recorded.
pub fn check_bubblewrap_runnable(state: Capability, event: CapabilityEvent) -> (r: (
    Capability,
    CapabilityAction,
))
    ensures
        r.0 == capability_after(state, event),
        r.1@ == capability_action(state, event),
{
    match (state, event) {
        (Capability::Unknown, CapabilityEvent::Requested) => {
            let mut args: Vec<String> = Vec::new();
            args.push("--ro-bind".to_owned());
            args.push("/".to_owned());
            args.push("/".to_owned());
            args.push("true".to_owned());
            assert(views(args@) =~= probe_command().args);
            let probe = CommandLine { program: "bwrap".to_owned(), args };
            (Capability::Probing, CapabilityAction::Probe(probe))
        },
        (Capability::Probing, CapabilityEvent::ProbeMissing) => (
            Capability::Missing,
            CapabilityAction::Exit(EXIT_SANDBOX_UNUSABLE),
        ),
        (Capability::Probing, CapabilityEvent::ProbeExited(code)) => {
            if is_exit_success(code) {
                (Capability::Usable, CapabilityAction::Proceed)
            } else {
                (Capability::Unusable, CapabilityAction::Exit(EXIT_SANDBOX_UNUSABLE))
            }
        },
        (Capability::Unknown, _) => (state, CapabilityAction::Wait),
        (Capability::Probing, _) => (state, CapabilityAction::Wait),
        (Capability::Usable, _) => (state, CapabilityAction::Proceed),
        (Capability::Unusable, _) => (state, CapabilityAction::Exit(EXIT_SANDBOX_UNUSABLE)),
        (Capability::Missing, _) => (state, CapabilityAction::Exit(EXIT_SANDBOX_UNUSABLE)),
    }
}

/// What the user is told when the probe has failed: that it failed,
/// and that this program may itself be running inside a sandbox.
pub open spec fn unusable_text() -> Seq<Seq<char>> {
    seq![
        "Failed to run bwrap."@,
        "A possible cause is if RUA itself is run in jail (docker, bwrap, firejail,..)."@,
        "If so, see https://github.com/vn971/rua/issues/8"@,
    ]
}

/// What the user is told when the isolation primitive is not there.
pub open spec fn missing_text() -> Seq<Seq<char>> {
    seq!["bwrap binary not found. RUA uses bubblewrap for security isolation."@]
}

/// What the user is told before the process ends because the sandbox
/// cannot be entered; nothing in any other state.
pub open spec fn explanation_of(state: Capability) -> Seq<Seq<char>> {
    match state {
        Capability::Unusable => unusable_text(),
        Capability::Missing => missing_text(),
        _ => Seq::empty(),
    }
}

/// What the user is told before the process ends in `state`, line by
/// line.
pub fn unusable_explanation(state: Capability) -> (r: Vec<String>)
    ensures
        views(r@) == explanation_of(state),
{
    let mut r: Vec<String> = Vec::new();
    match state {
        Capability::Unusable => {
            r.push("Failed to run bwrap.".to_owned());
            r.push(
                "A possible cause is if RUA itself is run in jail (docker, bwrap, firejail,..).".to_owned(),
            );
            r.push("If so, see https://github.com/vn971/rua/issues/8".to_owned());
        },
        Capability::Missing => {
            r.push(
                "bwrap binary not found. RUA uses bubblewrap for security isolation.".to_owned(),
            );
        },
        _ => {},
    }
    assert(views(r@) =~= explanation_of(state));
    r
}

/// How many probes a run of events asks for, starting from `state`.
pub open spec fn probes_asked(state: Capability, events: Seq<CapabilityEvent>) -> nat
    decreases events.len(),
{
    if events.len() == 0 {
        0
    } else {
        let now: nat = if capability_action(state, events[0]) is Probe {
            1
        } else {
            0
        };
        now + probes_asked(capability_after(state, events[0]), events.drop_first())
    }
}

/// Whatever is reported and in whatever order, the probe is asked for at
/// most once, and never again once anything but `Unknown` is recorded.
pub proof fn lemma_probe_at_most_once(state: Capability, events: Seq<CapabilityEvent>)
    ensures
        probes_asked(state, events) <= 1,
        state != Capability::Unknown ==> probes_asked(state, events) == 0,
    decreases events.len(),
{
    if events.len() > 0 {
        lemma_probe_at_most_once(capability_after(state, events[0]), events.drop_first());
    }
}

/// Once the sandbox is known to be usable, every request is answered at
/// once, and the answer stays the same.
pub proof fn lemma_capability_idempotent(event: CapabilityEvent)
    ensures
        capability_after(Capability::Usable, event) == Capability::Usable,
        capability_action(Capability::Usable, event) == CapabilityActionView::Proceed,
{
}


/// An isolation primitive that cannot be used ends the process with the
/// reserved exit code, whether the probe failed or could not even be
/// started; and so does every later request.
pub proof fn lemma_unusable_sandbox_exits(code: Option<i32>, later: CapabilityEvent)
    ensures
        capability_action(Capability::Probing, CapabilityEvent::ProbeMissing)
            == CapabilityActionView::Exit(EXIT_SANDBOX_UNUSABLE),
        !exit_success(code) ==> capability_action(
            Capability::Probing,
            CapabilityEvent::ProbeExited(code),
        ) == CapabilityActionView::Exit(EXIT_SANDBOX_UNUSABLE),
        capability_action(Capability::Missing, later) == CapabilityActionView::Exit(
            EXIT_SANDBOX_UNUSABLE,
        ),
        capability_action(Capability::Unusable, later) == CapabilityActionView::Exit(
            EXIT_SANDBOX_UNUSABLE,
        ),
        EXIT_SANDBOX_UNUSABLE == 4,
{
}

} // verus!
