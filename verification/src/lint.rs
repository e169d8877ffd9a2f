//! Static analysis of a recipe: the recipe is wrapped into a script that
//! gives the analysis tool its context, and the tool reads the script
//! inside a sandbox that shows it nothing else.

use crate::building::{join_path, path_join};
use crate::command::{exit_success, is_exit_success, CommandLine, CommandLineView};
use crate::text::{replace_placeholder, substitute, views};
use vstd::prelude::*;
use vstd::string::*;

verus! {

/// The place in the wrapper script that the recipe is put at.
pub open spec fn placeholder() -> Seq<char> {
    "%PKGBUILD%"@
}

/// The wrapper script. It sets what the build tool sets before it reads
/// a recipe, holds the recipe, and then uses what the build tool reads
/// from a recipe, the package name as a list, so that the analysis tool
/// sees every variable of a recipe both set and used.
pub open spec fn wrapper_script() -> Seq<char> {
    "#!/bin/bash\n\
# shellcheck disable=SC2034,SC2154,SC2164\n\
srcdir=\"\"\n\
pkgdir=\"\"\n\
startdir=\"\"\n\
\n\
%PKGBUILD%\n\
\n\
printf '%s\\n' \"${pkgname[@]}\" \"${pkgver}\" \"${pkgrel}\" \"${arch[@]}\"\n"@
}

/// The wrapper script.
pub fn shellcheck_wrapper() -> (r: &'static str)
    ensures
        r@ == wrapper_script(),
{
    "#!/bin/bash\n\
# shellcheck disable=SC2034,SC2154,SC2164\n\
srcdir=\"\"\n\
pkgdir=\"\"\n\
startdir=\"\"\n\
\n\
%PKGBUILD%\n\
\n\
printf '%s\\n' \"${pkgname[@]}\" \"${pkgver}\" \"${pkgrel}\" \"${arch[@]}\"\n"
}

/// The script that the analysis tool reads for `recipe`: the wrapper
/// script with the recipe in the place of the placeholder.
pub open spec fn lint_script(recipe: Seq<char>) -> Seq<char> {
    substitute(wrapper_script(), placeholder(), recipe)
}

/// The script that the analysis tool reads for `recipe`.
pub fn shellcheck_script(recipe: &str) -> (r: String)
    ensures
        r@ == lint_script(recipe@),
{
    replace_placeholder(shellcheck_wrapper(), "%PKGBUILD%", recipe)
}

/// The command that runs the analysis tool. The isolation primitive
/// makes a file system of its own for it, which holds the installed
/// programs and libraries, read-only, and nothing else of the host: no
/// home, no configuration, no build directory. Everything that can be
/// unshared is, the network among it, and the tool reads its standard
/// input.
pub open spec fn lint_command() -> CommandLineView {
    CommandLineView {
        program: "bwrap"@,
        args: seq![
            "--ro-bind"@,
            "/usr"@,
            "/usr"@,
            "--symlink"@,
            "usr/bin"@,
            "/bin"@,
            "--symlink"@,
            "usr/lib"@,
            "/lib"@,
            "--symlink"@,
            "usr/lib"@,
            "/lib64"@,
            "--proc"@,
            "/proc"@,
            "--dev"@,
            "/dev"@,
            "--unshare-all"@,
            "shellcheck"@,
            "--norc"@,
            "/dev/stdin"@,
        ],
    }
}

/// The command that runs the analysis tool.
pub fn shellcheck_command() -> (r: CommandLine)
    ensures
        r@ == lint_command(),
{
    let mut args: Vec<String> = Vec::new();
    args.push("--ro-bind".to_owned());
    args.push("/usr".to_owned());
    args.push("/usr".to_owned());
    args.push("--symlink".to_owned());
    args.push("usr/bin".to_owned());
    args.push("/bin".to_owned());
    args.push("--symlink".to_owned());
    args.push("usr/lib".to_owned());
    args.push("/lib".to_owned());
    args.push("--symlink".to_owned());
    args.push("usr/lib".to_owned());
    args.push("/lib64".to_owned());
    args.push("--proc".to_owned());
    args.push("/proc".to_owned());
    args.push("--dev".to_owned());
    args.push("/dev".to_owned());
    args.push("--unshare-all".to_owned());
    args.push("shellcheck".to_owned());
    args.push("--norc".to_owned());
    args.push("/dev/stdin".to_owned());
    assert(views(args@) =~= lint_command().args);
    CommandLine { program: "bwrap".to_owned(), args }
}

/// The analysis tool does not see the host's file system: the root is
/// not among the arguments of its command, so it is bound nowhere;
/// nothing is bound writable; and the one bind there is shows the
/// installed programs read-only.
pub proof fn lemma_lint_hides_the_host()
    ensures
        !lint_command().args.contains("/"@),
        !lint_command().args.contains("--bind"@),
        !lint_command().args.contains("--dev-bind"@),
        forall|i: int|
            0 <= i < lint_command().args.len() && #[trigger] lint_command().args[i]
                == "--ro-bind"@ ==> i == 0,
        lint_command().args[1] == "/usr"@,
        lint_command().args.contains("--unshare-all"@),
{
    reveal_strlit("/");
    reveal_strlit("--bind");
    reveal_strlit("--dev-bind");
    reveal_strlit("--ro-bind");
    reveal_strlit("/usr");
    reveal_strlit("--symlink");
    reveal_strlit("usr/bin");
    reveal_strlit("/bin");
    reveal_strlit("usr/lib");
    reveal_strlit("/lib");
    reveal_strlit("/lib64");
    reveal_strlit("--proc");
    reveal_strlit("/proc");
    reveal_strlit("--dev");
    reveal_strlit("/dev");
    reveal_strlit("--unshare-all");
    reveal_strlit("shellcheck");
    reveal_strlit("--norc");
    reveal_strlit("/dev/stdin");
    let args = lint_command().args;
    assert(args.len() == 20);
    assert(args[16] == "--unshare-all"@);
    assert forall|i: int| 0 <= i < 20 implies args[i] != "/"@ && args[i] != "--bind"@ && args[i]
        != "--dev-bind"@ && (args[i] == "--ro-bind"@ ==> i == 0) by {
        let a = args[i];
        assert(a.len() != 1);
        assert(a.len() == 6 ==> a[2] != 'b');
        assert(a.len() == 10 ==> a[2] != 'd');
        assert(a.len() == 9 && i != 0 ==> a[2] != 'r');
    }
}

/// The file that is read for a target: standard input where none is
/// given, the recipe inside a directory, else the target itself.
pub open spec fn lint_target(target: Option<Seq<char>>, is_dir: bool) -> Seq<char> {
    match target {
        None => "/dev/stdin"@,
        Some(path) => if is_dir {
            path_join(path, "PKGBUILD"@)
        } else {
            path
        },
    }
}

/// How far the analysis has come.
pub enum LintStage {
    /// Nothing was asked for yet.
    Start,
    /// The target is being looked at: is it a directory?
    Resolving,
    /// The file at `path` is being read.
    Reading { path: String },
    /// The sandbox is being made sure of; `recipe` was read.
    Securing { recipe: String },
    /// The analysis tool is running.
    Running,
    /// The analysis has ended.
    Ended,
}

/// The mathematical value of a [`LintStage`].
pub enum LintStageView {
    Start,
    Resolving,
    Reading { path: Seq<char> },
    Securing { recipe: Seq<char> },
    Running,
    Ended,
}

impl View for LintStage {
    type V = LintStageView;

    open spec fn view(&self) -> LintStageView {
        match self {
            LintStage::Start => LintStageView::Start,
            LintStage::Resolving => LintStageView::Resolving,
            LintStage::Reading { path } => LintStageView::Reading { path: path@ },
            LintStage::Securing { recipe } => LintStageView::Securing { recipe: recipe@ },
            LintStage::Running => LintStageView::Running,
            LintStage::Ended => LintStageView::Ended,
        }
    }
}

/// What the caller reports after carrying out an action.
pub enum LintEvent {
    /// The analysis is to begin.
    Begin,
    /// Whether the target is a directory.
    IsDirectory(bool),
    /// The file was read and holds this text.
    Contents(String),
    /// The file could not be read; the text says why.
    Unreadable(String),
    /// The sandbox can be used.
    SandboxReady,
    /// The analysis tool could not be started.
    NotSpawned,
    /// The analysis tool was started without a standard input to write
    /// to.
    NoStdin,
    /// The script could not be written to the tool; the text says why.
    WriteFailed(String),
    /// The tool's end could not be waited for; the text says why.
    WaitFailed(String),
    /// The analysis tool ended with this exit code.
    Exited(Option<i32>),
}

/// The mathematical value of a [`LintEvent`].
pub enum LintEventView {
    Begin,
    IsDirectory(bool),
    Contents(Seq<char>),
    Unreadable(Seq<char>),
    SandboxReady,
    NotSpawned,
    NoStdin,
    WriteFailed(Seq<char>),
    WaitFailed(Seq<char>),
    Exited(Option<i32>),
}

impl View for LintEvent {
    type V = LintEventView;

    open spec fn view(&self) -> LintEventView {
        match self {
            LintEvent::Begin => LintEventView::Begin,
            LintEvent::IsDirectory(b) => LintEventView::IsDirectory(*b),
            LintEvent::Contents(text) => LintEventView::Contents(text@),
            LintEvent::Unreadable(why) => LintEventView::Unreadable(why@),
            LintEvent::SandboxReady => LintEventView::SandboxReady,
            LintEvent::NotSpawned => LintEventView::NotSpawned,
            LintEvent::NoStdin => LintEventView::NoStdin,
            LintEvent::WriteFailed(why) => LintEventView::WriteFailed(why@),
            LintEvent::WaitFailed(why) => LintEventView::WaitFailed(why@),
            LintEvent::Exited(code) => LintEventView::Exited(*code),
        }
    }
}

/// Why an analysis did not pass.
pub enum LintError {
    /// The recipe could not be read.
    Unreadable { path: String, reason: String },
    /// The analysis tool could not be started: it may not be installed.
    NotInstalled,
    /// The analysis tool has no standard input to write to.
    NoStdin,
    /// The script could not be written to the analysis tool.
    WriteFailed(String),
    /// The end of the analysis tool could not be waited for.
    WaitFailed(String),
    /// The analysis tool found fault with the recipe, and has said so
    /// itself.
    Rejected,
    /// Something was reported that the last action cannot report.
    OutOfTurn,
}

/// The mathematical value of a [`LintError`].
pub enum LintErrorView {
    Unreadable { path: Seq<char>, reason: Seq<char> },
    NotInstalled,
    NoStdin,
    WriteFailed(Seq<char>),
    WaitFailed(Seq<char>),
    Rejected,
    OutOfTurn,
}

impl View for LintError {
    type V = LintErrorView;

    open spec fn view(&self) -> LintErrorView {
        match self {
            LintError::Unreadable { path, reason } => LintErrorView::Unreadable {
                path: path@,
                reason: reason@,
            },
            LintError::NotInstalled => LintErrorView::NotInstalled,
            LintError::NoStdin => LintErrorView::NoStdin,
            LintError::WriteFailed(why) => LintErrorView::WriteFailed(why@),
            LintError::WaitFailed(why) => LintErrorView::WaitFailed(why@),
            LintError::Rejected => LintErrorView::Rejected,
            LintError::OutOfTurn => LintErrorView::OutOfTurn,
        }
    }
}

/// What an error is reported with. Of a rejected recipe nothing more is
/// said: the analysis tool has said it.
pub open spec fn lint_message(error: LintErrorView) -> Seq<char> {
    match error {
        LintErrorView::Unreadable { path, reason } => "Failed to open \""@ + path
            + "\" for reading: "@ + reason,
        LintErrorView::NotInstalled =>
            "Failed to spawn shellcheck process. Do you have shellcheck installed?sudo pacman -S --needed shellcheck"@,
        LintErrorView::NoStdin => "Failed to open stdin for shellcheck"@,
        LintErrorView::WriteFailed(why) =>
            "Failed to write shellcheck wrapper script to shellcheck-s stdin, "@ + why,
        LintErrorView::WaitFailed(why) => "Failed waiting for shellcheck to exit: "@ + why,
        LintErrorView::Rejected => ""@,
        LintErrorView::OutOfTurn => "shellcheck was reported out of turn"@,
    }
}

impl LintError {
    /// What the error is reported with.
    pub fn message(&self) -> (r: String)
        ensures
            r@ == lint_message(self@),
    {
        match self {
            LintError::Unreadable { path, reason } => {
                let mut r = "Failed to open \"".to_owned();
                r.append(path.as_str());
                r.append("\" for reading: ");
                r.append(reason.as_str());
                r
            },
            LintError::NotInstalled =>
                "Failed to spawn shellcheck process. Do you have shellcheck installed?sudo pacman -S --needed shellcheck".to_owned(),
            LintError::NoStdin => "Failed to open stdin for shellcheck".to_owned(),
            LintError::WriteFailed(why) => {
                let mut r =
                    "Failed to write shellcheck wrapper script to shellcheck-s stdin, ".to_owned();
                r.append(why.as_str());
                r
            },
            LintError::WaitFailed(why) => {
                let mut r = "Failed waiting for shellcheck to exit: ".to_owned();
                r.append(why.as_str());
                r
            },
            LintError::Rejected => "".to_owned(),
            LintError::OutOfTurn => "shellcheck was reported out of turn".to_owned(),
        }
    }
}

/// What the caller is asked to do next.
pub enum LintAction {
    /// Report whether `path` is a directory.
    Inspect { path: String },
    /// Read the file at `path` as text and report what it holds.
    Read { path: String },
    /// Make sure that the sandbox can be used, and report.
    Secure,
    /// Start `command`, write `script` to its standard input, wait for
    /// it and report how it ended.
    Run { command: CommandLine, script: String },
    /// Tell the user that the recipe passed.
    Pass { message: String },
    /// The analysis did not pass.
    Fail(LintError),
    /// Nothing: the analysis has ended.
    Done,
}

/// The mathematical value of a [`LintAction`].
pub enum LintActionView {
    Inspect { path: Seq<char> },
    Read { path: Seq<char> },
    Secure,
    Run { command: CommandLineView, script: Seq<char> },
    Pass { message: Seq<char> },
    Fail(LintErrorView),
    Done,
}

impl View for LintAction {
    type V = LintActionView;

    open spec fn view(&self) -> LintActionView {
        match self {
            LintAction::Inspect { path } => LintActionView::Inspect { path: path@ },
            LintAction::Read { path } => LintActionView::Read { path: path@ },
            LintAction::Secure => LintActionView::Secure,
            LintAction::Run { command, script } => LintActionView::Run {
                command: command@,
                script: script@,
            },
            LintAction::Pass { message } => LintActionView::Pass { message: message@ },
            LintAction::Fail(error) => LintActionView::Fail(error@),
            LintAction::Done => LintActionView::Done,
        }
    }
}

/// The analysis ends with `error`.
pub open spec fn lint_failed(error: LintErrorView) -> (LintStageView, LintActionView) {
    (LintStageView::Ended, LintActionView::Fail(error))
}

/// The file for the target is read.
pub open spec fn lint_read(target: Option<Seq<char>>, is_dir: bool) -> (
    LintStageView,
    LintActionView,
) {
    let path = lint_target(target, is_dir);
    (LintStageView::Reading { path }, LintActionView::Read { path })
}

/// The transition of the analysis of `target`: the stage that follows
/// `stage` on `event`, and the action asked for. The result of the
/// analysis is the exit status of the tool and nothing else.
pub open spec fn lint_transition(
    target: Option<Seq<char>>,
    stage: LintStageView,
    event: LintEventView,
) -> (LintStageView, LintActionView) {
    match (stage, event) {
        (LintStageView::Ended, _) => (LintStageView::Ended, LintActionView::Done),
        (LintStageView::Start, LintEventView::Begin) => match target {
            None => lint_read(target, false),
            Some(path) => (LintStageView::Resolving, LintActionView::Inspect { path }),
        },
        (LintStageView::Resolving, LintEventView::IsDirectory(is_dir)) => lint_read(target, is_dir),
        (LintStageView::Reading { path }, LintEventView::Contents(recipe)) => (
            LintStageView::Securing { recipe },
            LintActionView::Secure,
        ),
        (LintStageView::Reading { path }, LintEventView::Unreadable(reason)) => lint_failed(
            LintErrorView::Unreadable { path, reason },
        ),
        (LintStageView::Securing { recipe }, LintEventView::SandboxReady) => (
            LintStageView::Running,
            LintActionView::Run { command: lint_command(), script: lint_script(recipe) },
        ),
        (LintStageView::Running, LintEventView::NotSpawned) => lint_failed(
            LintErrorView::NotInstalled,
        ),
        (LintStageView::Running, LintEventView::NoStdin) => lint_failed(LintErrorView::NoStdin),
        (LintStageView::Running, LintEventView::WriteFailed(why)) => lint_failed(
            LintErrorView::WriteFailed(why),
        ),
        (LintStageView::Running, LintEventView::WaitFailed(why)) => lint_failed(
            LintErrorView::WaitFailed(why),
        ),
        (LintStageView::Running, LintEventView::Exited(code)) => if exit_success(code) {
            (
                LintStageView::Ended,
                LintActionView::Pass {
                    message: "Good job, shellcheck didn't find problems in the PKGBUILD."@,
                },
            )
        } else {
            lint_failed(LintErrorView::Rejected)
        },
        _ => lint_failed(LintErrorView::OutOfTurn),
    }
}

/// Ends the analysis with `error`.
fn fail(error: LintError) -> (r: (LintStage, LintAction))
    ensures
        (r.0@, r.1@) == lint_failed(error@),
{
    (LintStage::Ended, LintAction::Fail(error))
}

/// Has the file for the target read.
fn read(target: &Option<String>, is_dir: bool) -> (r: (LintStage, LintAction))
    ensures
        (r.0@, r.1@) == lint_read(
            match target {
                Some(path) => Some(path@),
                None => None,
            },
            is_dir,
        ),
{
    let path = match target {
        None => "/dev/stdin".to_owned(),
        Some(path) => if is_dir {
            join_path(path.as_str(), "PKGBUILD")
        } else {
            path.clone()
        },
    };
    (LintStage::Reading { path: path.clone() }, LintAction::Read { path })
}

/// One step of the analysis of the recipe that `target` names: takes
/// the stage the analysis is in and what the last action reported, and
/// answers with the stage that follows and the next action. The
/// analysis begins in [`LintStage::Start`] with [`LintEvent::Begin`].
pub fn shellcheck(target: &Option<String>, stage: LintStage, event: LintEvent) -> (r: (
    LintStage,
    LintAction,
))
    ensures
        (r.0@, r.1@) == lint_transition(
            match target {
                Some(path) => Some(path@),
                None => None,
            },
            stage@,
            event@,
        ),
{
    match stage {
        LintStage::Ended => (LintStage::Ended, LintAction::Done),
        LintStage::Start => match event {
            LintEvent::Begin => match target {
                None => read(target, false),
                Some(path) => (LintStage::Resolving, LintAction::Inspect { path: path.clone() }),
            },
            _ => fail(LintError::OutOfTurn),
        },
        LintStage::Resolving => match event {
            LintEvent::IsDirectory(is_dir) => read(target, is_dir),
            _ => fail(LintError::OutOfTurn),
        },
        LintStage::Reading { path } => match event {
            LintEvent::Contents(recipe) => (LintStage::Securing { recipe }, LintAction::Secure),
            LintEvent::Unreadable(reason) => fail(LintError::Unreadable { path, reason }),
            _ => fail(LintError::OutOfTurn),
        },
        LintStage::Securing { recipe } => match event {
            LintEvent::SandboxReady => (
                LintStage::Running,
                LintAction::Run {
                    command: shellcheck_command(),
                    script: shellcheck_script(recipe.as_str()),
                },
            ),
            _ => fail(LintError::OutOfTurn),
        },
        LintStage::Running => match event {
            LintEvent::NotSpawned => fail(LintError::NotInstalled),
            LintEvent::NoStdin => fail(LintError::NoStdin),
            LintEvent::WriteFailed(why) => fail(LintError::WriteFailed(why)),
            LintEvent::WaitFailed(why) => fail(LintError::WaitFailed(why)),
            LintEvent::Exited(code) => if is_exit_success(code) {
                (
                    LintStage::Ended,
                    LintAction::Pass {
                        message: "Good job, shellcheck didn't find problems in the PKGBUILD.".to_owned(),
                    },
                )
            } else {
                fail(LintError::Rejected)
            },
            _ => fail(LintError::OutOfTurn),
        },
    }
}

/// The analysis tool is started only once the sandbox is known to be
/// usable, and it is given the wrapped recipe and nothing else.
pub proof fn lemma_lint_runs_sandboxed(
    target: Option<Seq<char>>,
    stage: LintStageView,
    event: LintEventView,
)
    requires
        lint_transition(target, stage, event).1 is Run,
    ensures
        stage is Securing,
        event == LintEventView::SandboxReady,
        lint_transition(target, stage, event).1 == (LintActionView::Run {
            command: lint_command(),
            script: lint_script(stage->recipe),
        }),
        lint_command().program == "bwrap"@,
{
}

} // verus!
