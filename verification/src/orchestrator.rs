//! The build of one directory as a state machine: each call takes what
//! the last action reported and answers with the next action. The
//! caller carries the actions out; the decisions are made here.

use crate::building::{
    build_directory, build_failure, build_steps, failure_exit_code, join_path, path_join,
    static_recipe_after, static_recipe_name, step_views, BuildStep, BuildStepView,
};
use crate::command::{exit_success, is_exit_success, CommandOutput, CommandOutputView};
use crate::metadata::{
    archive_names, archive_names_of, generate_srcinfo, metadata_error_message,
    metadata_invocation, metadata_of_run, run_view, srcinfo_invocation, Metadata, MetadataError,
    MetadataErrorView, MetadataView,
};
use crate::sandbox::{NetworkMode, RuaDirs, SandboxInvocation, SandboxInvocationView};
use crate::text::{decimal, decimal_text, views};
use vstd::prelude::*;
use vstd::string::*;

verus! {

/// What is to be built, and for which host.
pub struct BuildRequest {
    /// The directory that holds the recipe; the artifacts appear in it.
    pub dir: String,
    pub dirs: RuaDirs,
    /// Build without the network, after fetching the sources with it.
    pub offline: bool,
    /// Build again over an earlier result.
    pub force: bool,
    /// The architecture of the host.
    pub host_arch: String,
    /// The suffix of package archives.
    pub extension: String,
}

/// The mathematical value of a [`BuildRequest`].
pub struct BuildRequestView {
    pub dir: Seq<char>,
    pub wrapper: Seq<char>,
    pub offline: bool,
    pub force: bool,
    pub host_arch: Seq<char>,
    pub extension: Seq<char>,
}

impl View for BuildRequest {
    type V = BuildRequestView;

    open spec fn view(&self) -> BuildRequestView {
        BuildRequestView {
            dir: self.dir@,
            wrapper: self.dirs.wrapper_bwrap_script@,
            offline: self.offline,
            force: self.force,
            host_arch: self.host_arch@,
            extension: self.extension@,
        }
    }
}

/// How far a build has come.
pub enum BuildStage {
    /// Nothing was asked for yet.
    Start,
    /// The step with this index was asked for and has not reported.
    Preparing(usize),
    /// The metadata invocation was asked for and has not reported.
    ReadingMetadata,
    /// The artifacts at `paths` are being checked: `verdicts` holds the
    /// verdicts on the first of them, and the check of the next one was
    /// asked for and has not reported.
    Verifying { paths: Vec<String>, verdicts: Vec<bool> },
    /// The fetch phase has failed with `failure`; the removal of the
    /// static recipe was asked for and has not reported.
    CleaningUp { failure: BuildFailure },
    /// The build is done and was reported.
    Finished,
    /// The build was given up.
    Aborted,
}

/// The mathematical value of a [`BuildStage`].
pub enum BuildStageView {
    Start,
    Preparing(usize),
    ReadingMetadata,
    Verifying { paths: Seq<Seq<char>>, verdicts: Seq<bool> },
    CleaningUp { failure: BuildFailureView },
    Finished,
    Aborted,
}

impl View for BuildStage {
    type V = BuildStageView;

    open spec fn view(&self) -> BuildStageView {
        match self {
            BuildStage::Start => BuildStageView::Start,
            BuildStage::Preparing(k) => BuildStageView::Preparing(*k),
            BuildStage::ReadingMetadata => BuildStageView::ReadingMetadata,
            BuildStage::Verifying { paths, verdicts } => BuildStageView::Verifying {
                paths: views(paths@),
                verdicts: verdicts@,
            },
            BuildStage::CleaningUp { failure } => BuildStageView::CleaningUp {
                failure: failure@,
            },
            BuildStage::Finished => BuildStageView::Finished,
            BuildStage::Aborted => BuildStageView::Aborted,
        }
    }
}

/// What the caller reports after carrying out an action.
pub enum BuildEvent {
    /// The build is to begin.
    Begin,
    /// A file was written or removed.
    Succeeded,
    /// The action could not be carried out; the text says why. Of the
    /// writing of the static recipe it says that the file could not be
    /// created.
    Failed(String),
    /// The static recipe was created, but the metadata file that it is
    /// derived from could not be resolved; the text says why.
    Unresolved(String),
    /// The static recipe was created, but could not be filled; the text
    /// says why.
    Unwritten(String),
    /// A sandboxed command ended with this exit code.
    Exited(Option<i32>),
    /// A sandboxed command ended and this is what it left behind.
    Captured(CommandOutput),
    /// An artifact was checked; the flag tells whether it passed.
    Checked(bool),
}

/// The mathematical value of a [`BuildEvent`].
pub enum BuildEventView {
    Begin,
    Succeeded,
    Failed(Seq<char>),
    Unresolved(Seq<char>),
    Unwritten(Seq<char>),
    Exited(Option<i32>),
    Captured(CommandOutputView),
    Checked(bool),
}

impl View for BuildEvent {
    type V = BuildEventView;

    open spec fn view(&self) -> BuildEventView {
        match self {
            BuildEvent::Begin => BuildEventView::Begin,
            BuildEvent::Succeeded => BuildEventView::Succeeded,
            BuildEvent::Failed(why) => BuildEventView::Failed(why@),
            BuildEvent::Unresolved(why) => BuildEventView::Unresolved(why@),
            BuildEvent::Unwritten(why) => BuildEventView::Unwritten(why@),
            BuildEvent::Exited(code) => BuildEventView::Exited(*code),
            BuildEvent::Captured(output) => BuildEventView::Captured(output@),
            BuildEvent::Checked(passed) => BuildEventView::Checked(*passed),
        }
    }
}

/// Why a build was given up.
pub enum BuildFailure {
    /// The static recipe could not be created.
    StaticRecipeNotCreated(String),
    /// The metadata file that the static recipe is derived from could
    /// not be resolved.
    MetadataFileUnresolved(String),
    /// The static recipe could not be filled.
    StaticRecipeNotWritten(String),
    /// The build tool failed to fetch the sources.
    SourcesNotFetched,
    /// The static recipe could not be removed.
    StaticRecipeNotRemoved(String),
    /// The sandbox that fetches the sources could not be started.
    FetchNotStarted(String),
    /// The sandbox that builds could not be started.
    BuildNotStarted(String),
    /// No metadata could be had after the build.
    NoMetadata(MetadataError),
    /// The fetch phase failed, and the static recipe could not be
    /// removed after it: `cause` is the report of the first failure,
    /// `why` says what went wrong with the removal.
    StaticRecipeLeftBehind { cause: String, why: String },
    /// Something was reported that the last action cannot report.
    OutOfTurn,
}

/// The mathematical value of a [`BuildFailure`].
pub enum BuildFailureView {
    StaticRecipeNotCreated(Seq<char>),
    MetadataFileUnresolved(Seq<char>),
    StaticRecipeNotWritten(Seq<char>),
    SourcesNotFetched,
    StaticRecipeNotRemoved(Seq<char>),
    FetchNotStarted(Seq<char>),
    BuildNotStarted(Seq<char>),
    NoMetadata(MetadataErrorView),
    StaticRecipeLeftBehind { cause: Seq<char>, why: Seq<char> },
    OutOfTurn,
}

impl View for BuildFailure {
    type V = BuildFailureView;

    open spec fn view(&self) -> BuildFailureView {
        match self {
            BuildFailure::StaticRecipeNotCreated(why) => BuildFailureView::StaticRecipeNotCreated(
                why@,
            ),
            BuildFailure::MetadataFileUnresolved(why) => BuildFailureView::MetadataFileUnresolved(
                why@,
            ),
            BuildFailure::StaticRecipeNotWritten(why) => BuildFailureView::StaticRecipeNotWritten(
                why@,
            ),
            BuildFailure::SourcesNotFetched => BuildFailureView::SourcesNotFetched,
            BuildFailure::StaticRecipeNotRemoved(why) => BuildFailureView::StaticRecipeNotRemoved(
                why@,
            ),
            BuildFailure::FetchNotStarted(why) => BuildFailureView::FetchNotStarted(why@),
            BuildFailure::BuildNotStarted(why) => BuildFailureView::BuildNotStarted(why@),
            BuildFailure::NoMetadata(e) => BuildFailureView::NoMetadata(e@),
            BuildFailure::StaticRecipeLeftBehind {
                cause,
                why,
            } => BuildFailureView::StaticRecipeLeftBehind { cause: cause@, why: why@ },
            BuildFailure::OutOfTurn => BuildFailureView::OutOfTurn,
        }
    }
}

/// What a failure of the build in `dir` is reported with.
pub open spec fn build_failure_message(failure: BuildFailureView, dir: Seq<char>) -> Seq<char> {
    match failure {
        BuildFailureView::StaticRecipeNotCreated(why) => "Cannot create "@ + dir
            + "/PKGBUILD.static, "@ + why,
        BuildFailureView::MetadataFileUnresolved(why) => "Cannot resolve .SRCINFO path in "@ + dir
            + ", "@ + why,
        BuildFailureView::StaticRecipeNotWritten(why) => "cannot write to PKGBUILD.static: "@
            + why,
        BuildFailureView::SourcesNotFetched => "Failed to download PKGBUILD sources"@,
        BuildFailureView::StaticRecipeNotRemoved(why) => "Failed to clean up PKGBUILD.static: "@
            + why,
        BuildFailureView::FetchNotStarted(why) => "Failed to fetch dependencies in directory "@
            + dir + ", "@ + why,
        BuildFailureView::BuildNotStarted(why) =>
            "Failed to execute ~/.config/rua/.system/wrap.sh, "@ + why,
        BuildFailureView::NoMetadata(e) => "Failed to obtain SRCINFO: "@ + metadata_error_message(
            e,
        ),
        BuildFailureView::StaticRecipeLeftBehind { cause, why } => cause
            + "\nFailed to clean up PKGBUILD.static: "@ + why,
        BuildFailureView::OutOfTurn => "the build was reported out of turn"@,
    }
}

impl BuildFailure {
    /// What the failure is reported with, `dir` being the directory of
    /// the build.
    pub fn message(&self, dir: &str) -> (r: String)
        ensures
            r@ == build_failure_message(self@, dir@),
    {
        match self {
            BuildFailure::StaticRecipeNotCreated(why) => {
                let mut r = "Cannot create ".to_owned();
                r.append(dir);
                r.append("/PKGBUILD.static, ");
                r.append(why.as_str());
                assert(r@ =~= build_failure_message(self@, dir@));
                r
            },
            BuildFailure::MetadataFileUnresolved(why) => {
                let mut r = "Cannot resolve .SRCINFO path in ".to_owned();
                r.append(dir);
                r.append(", ");
                r.append(why.as_str());
                assert(r@ =~= build_failure_message(self@, dir@));
                r
            },
            BuildFailure::StaticRecipeNotWritten(why) => {
                let mut r = "cannot write to PKGBUILD.static: ".to_owned();
                r.append(why.as_str());
                r
            },
            BuildFailure::StaticRecipeLeftBehind { cause, why } => {
                let mut r = cause.clone();
                r.append("\nFailed to clean up PKGBUILD.static: ");
                r.append(why.as_str());
                assert(r@ =~= build_failure_message(self@, dir@));
                r
            },
            BuildFailure::SourcesNotFetched => "Failed to download PKGBUILD sources".to_owned(),
            BuildFailure::StaticRecipeNotRemoved(why) => {
                let mut r = "Failed to clean up PKGBUILD.static: ".to_owned();
                r.append(why.as_str());
                r
            },
            BuildFailure::FetchNotStarted(why) => {
                let mut r = "Failed to fetch dependencies in directory ".to_owned();
                r.append(dir);
                r.append(", ");
                r.append(why.as_str());
                assert(r@ =~= build_failure_message(self@, dir@));
                r
            },
            BuildFailure::BuildNotStarted(why) => {
                let mut r = "Failed to execute ~/.config/rua/.system/wrap.sh, ".to_owned();
                r.append(why.as_str());
                r
            },
            BuildFailure::NoMetadata(e) => {
                let mut r = "Failed to obtain SRCINFO: ".to_owned();
                r.append(e.message().as_str());
                r
            },
            BuildFailure::OutOfTurn => "the build was reported out of turn".to_owned(),
        }
    }
}

/// What the user is told when the build tool fails: the exit code, or
/// question marks where there is none, and the directory.
pub open spec fn exit_report_text(status: Option<i32>, dir: Seq<char>) -> Seq<char> {
    "Build failed with exit code "@ + (match status {
        Some(c) => decimal(c as int),
        None => "???"@,
    }) + " in "@ + dir
}

/// What the user is told when the build tool has failed with `status`
/// in `dir`.
pub fn exit_report(status: Option<i32>, dir: &str) -> (r: String)
    ensures
        r@ == exit_report_text(status, dir@),
{
    let mut r = "Build failed with exit code ".to_owned();
    match status {
        Some(c) => {
            r.append(decimal_text(c).as_str());
        },
        None => {
            r.append("???");
        },
    }
    r.append(" in ");
    r.append(dir);
    assert(r@ =~= exit_report_text(status, dir@));
    r
}

/// What the user is told at the end of a build: where the artifacts
/// are, and that installing them is left to the user.
pub open spec fn build_report_text(dir: Seq<char>) -> Seq<Seq<char>> {
    seq![
        "Package built and checked in: "@ + dir,
        "If you want to install the built artifacts, do it manually."@,
    ]
}

/// What the user is told at the end of the build in `dir`, line by
/// line.
pub fn build_report(dir: &str) -> (r: Vec<String>)
    ensures
        views(r@) == build_report_text(dir@),
{
    let mut first = "Package built and checked in: ".to_owned();
    first.append(dir);
    let mut r: Vec<String> = Vec::new();
    r.push(first);
    r.push("If you want to install the built artifacts, do it manually.".to_owned());
    assert(views(r@) =~= build_report_text(dir@));
    r
}

/// The verdict on one artifact.
pub struct VerificationResult {
    /// The path of the artifact.
    pub path: String,
    /// Whether the artifact passed the check.
    pub passed: bool,
}

impl View for VerificationResult {
    type V = (Seq<char>, bool);

    open spec fn view(&self) -> (Seq<char>, bool) {
        (self.path@, self.passed)
    }
}

/// The views of a sequence of verdicts.
pub open spec fn result_views(v: Seq<VerificationResult>) -> Seq<(Seq<char>, bool)> {
    Seq::new(v.len(), |i: int| v[i]@)
}

/// The paths of the artifacts that did not pass their check, in order.
pub open spec fn failed_paths(results: Seq<(Seq<char>, bool)>) -> Seq<Seq<char>>
    decreases results.len(),
{
    if results.len() == 0 {
        Seq::empty()
    } else if results.last().1 {
        failed_paths(results.drop_last())
    } else {
        failed_paths(results.drop_last()).push(results.last().0)
    }
}

/// The paths of the artifacts that did not pass their check. A failed
/// check does not fail the build; it is the caller who tells the user
/// of each, and who decides what follows from it.
pub fn failed_checks(results: &Vec<VerificationResult>) -> (r: Vec<String>)
    ensures
        views(r@) == failed_paths(result_views(results@)),
{
    let mut r: Vec<String> = Vec::new();
    let mut i: usize = 0;
    assert(result_views(results@).take(0) =~= Seq::empty());
    while i < results.len()
        invariant
            i <= results.len(),
            views(r@) == failed_paths(result_views(results@).take(i as int)),
        decreases results.len() - i,
    {
        let ghost before = views(r@);
        let ghost upto = result_views(results@).take(i + 1);
        assert(upto.drop_last() =~= result_views(results@).take(i as int));
        assert(upto.last() == results@[i as int]@);
        if !results[i].passed {
            r.push(results[i].path.clone());
            assert(views(r@) =~= before.push(results@[i as int].path@));
        }
        i += 1;
    }
    assert(result_views(results@).take(results.len() as int) =~= result_views(results@));
    r
}

/// What the caller is asked to do next.
pub enum BuildAction {
    /// Carry out this step and report how it went.
    Step(BuildStep),
    /// Run this invocation, capture what it prints and report it.
    ReadMetadata(SandboxInvocation),
    /// Check the artifact at `path` and report the verdict.
    VerifyArchive { path: String },
    /// Tell the user that the artifacts were built and checked, and that
    /// installing them is left to the user. `results` holds the verdict
    /// on each artifact; a failed check has not stopped the build, and
    /// what to make of it is the caller's to decide.
    Report { results: Vec<VerificationResult> },
    /// Tell the user that the build failed with `status`, and end the
    /// process with `code`.
    Exit { status: Option<i32>, code: i32 },
    /// Give up for this reason.
    Abort(BuildFailure),
    /// Nothing: the build has ended.
    Done,
}

/// The mathematical value of a [`BuildAction`].
pub enum BuildActionView {
    Step(BuildStepView),
    ReadMetadata(SandboxInvocationView),
    VerifyArchive { path: Seq<char> },
    Report { results: Seq<(Seq<char>, bool)> },
    Exit { status: Option<i32>, code: i32 },
    Abort(BuildFailureView),
    Done,
}

impl View for BuildAction {
    type V = BuildActionView;

    open spec fn view(&self) -> BuildActionView {
        match self {
            BuildAction::Step(step) => BuildActionView::Step(step@),
            BuildAction::ReadMetadata(inv) => BuildActionView::ReadMetadata(inv@),
            BuildAction::VerifyArchive { path } => BuildActionView::VerifyArchive { path: path@ },
            BuildAction::Report { results } => BuildActionView::Report {
                results: result_views(results@),
            },
            BuildAction::Exit { status, code } => BuildActionView::Exit {
                status: *status,
                code: *code,
            },
            BuildAction::Abort(failure) => BuildActionView::Abort(failure@),
            BuildAction::Done => BuildActionView::Done,
        }
    }
}

/// The steps of the build that `request` asks for.
pub open spec fn steps_of(request: BuildRequestView) -> Seq<BuildStepView> {
    build_steps(request.dir, request.wrapper, request.offline, request.force)
}

/// What follows when the metadata invocation has reported `run`: the
/// artifacts that the metadata names are checked, or the build is
/// given up where no metadata could be read.
pub open spec fn after_metadata_run(
    request: BuildRequestView,
    run: Result<CommandOutputView, Seq<char>>,
) -> (BuildStageView, BuildActionView) {
    match metadata_of_run(run) {
        Ok(m) => proceed_to_check(artifact_paths(request, m), Seq::empty()),
        Err(e) => give_up(BuildFailureView::NoMetadata(e)),
    }
}

/// The paths of the artifacts that the build of `request` produces
/// according to the metadata `m`.
pub open spec fn artifact_paths(request: BuildRequestView, m: MetadataView) -> Seq<Seq<char>> {
    let names = archive_names_of(m, request.host_arch, request.extension);
    Seq::new(names.len(), |i: int| path_join(request.dir, names[i]))
}

/// Where the build stands and what it asks for once the steps before
/// step `k` have succeeded.
pub open spec fn proceed_to_step(request: BuildRequestView, k: int) -> (
    BuildStageView,
    BuildActionView,
) {
    let steps = steps_of(request);
    if 0 <= k < steps.len() {
        (BuildStageView::Preparing(k as usize), BuildActionView::Step(steps[k]))
    } else {
        (
            BuildStageView::ReadingMetadata,
            BuildActionView::ReadMetadata(metadata_invocation(request.dir, request.wrapper)),
        )
    }
}

/// The verdicts on the artifacts at `paths`, each with its path.
pub open spec fn collected(paths: Seq<Seq<char>>, verdicts: Seq<bool>) -> Seq<(Seq<char>, bool)> {
    Seq::new(verdicts.len(), |i: int| (paths[i], verdicts[i]))
}

/// Where the build stands and what it asks for once `verdicts` have
/// come in on the first of the artifacts at `paths`: the next artifact
/// is checked, or, where none is left, the verdicts are reported.
pub open spec fn proceed_to_check(paths: Seq<Seq<char>>, verdicts: Seq<bool>) -> (
    BuildStageView,
    BuildActionView,
) {
    if verdicts.len() < paths.len() {
        (
            BuildStageView::Verifying { paths: paths, verdicts: verdicts },
            BuildActionView::VerifyArchive { path: paths[verdicts.len() as int] },
        )
    } else {
        (BuildStageView::Finished, BuildActionView::Report { results: collected(paths, verdicts) })
    }
}

/// The build is given up for `failure`.
pub open spec fn give_up(failure: BuildFailureView) -> (BuildStageView, BuildActionView) {
    (BuildStageView::Aborted, BuildActionView::Abort(failure))
}

/// Why the writing of the static recipe has failed, going by what it
/// reported.
pub open spec fn write_failure(event: BuildEventView) -> BuildFailureView {
    match event {
        BuildEventView::Failed(why) => BuildFailureView::StaticRecipeNotCreated(why),
        BuildEventView::Unresolved(why) => BuildFailureView::MetadataFileUnresolved(why),
        BuildEventView::Unwritten(why) => BuildFailureView::StaticRecipeNotWritten(why),
        _ => BuildFailureView::OutOfTurn,
    }
}

/// Why the fetching of the sources has failed, going by what it
/// reported.
pub open spec fn fetch_failure(event: BuildEventView) -> BuildFailureView {
    match event {
        BuildEventView::Exited(_) => BuildFailureView::SourcesNotFetched,
        BuildEventView::Failed(why) => BuildFailureView::FetchNotStarted(why),
        _ => BuildFailureView::OutOfTurn,
    }
}

/// The fetch phase has failed with `failure`: before the build is given
/// up, the static recipe is removed.
pub open spec fn clean_up(request: BuildRequestView, failure: BuildFailureView) -> (
    BuildStageView,
    BuildActionView,
) {
    (
        BuildStageView::CleaningUp { failure },
        BuildActionView::Step(
            BuildStepView::RemoveStaticRecipe {
                path: path_join(request.dir, static_recipe_name()),
            },
        ),
    )
}

/// What follows when `step` reports `event`, `k` being the step's index.
/// The two steps that come before the removal of the static recipe go
/// on to the next step where they succeeded, and to the removal of the
/// static recipe in every other case.
pub open spec fn after_step(
    request: BuildRequestView,
    k: int,
    step: BuildStepView,
    event: BuildEventView,
) -> (BuildStageView, BuildActionView) {
    match step {
        BuildStepView::WriteStaticRecipe { .. } => match event {
            BuildEventView::Succeeded => proceed_to_step(request, k + 1),
            _ => clean_up(request, write_failure(event)),
        },
        BuildStepView::FetchSources(_) => match event {
            BuildEventView::Exited(code) => if exit_success(code) {
                proceed_to_step(request, k + 1)
            } else {
                clean_up(request, fetch_failure(event))
            },
            _ => clean_up(request, fetch_failure(event)),
        },
        BuildStepView::RemoveStaticRecipe { .. } => match event {
            BuildEventView::Succeeded => proceed_to_step(request, k + 1),
            BuildEventView::Failed(why) => give_up(BuildFailureView::StaticRecipeNotRemoved(why)),
            _ => give_up(BuildFailureView::OutOfTurn),
        },
        BuildStepView::Build(_) => match event {
            BuildEventView::Exited(code) => if exit_success(code) {
                proceed_to_step(request, k + 1)
            } else {
                (
                    BuildStageView::Aborted,
                    BuildActionView::Exit { status: code, code: failure_exit_code(code) },
                )
            },
            BuildEventView::Failed(why) => give_up(BuildFailureView::BuildNotStarted(why)),
            _ => give_up(BuildFailureView::OutOfTurn),
        },
    }
}

/// What follows when the removal of the static recipe after a failed
/// fetch phase has reported: the build is given up for the failure of
/// the fetch phase, and where the removal has failed too, for both.
pub open spec fn after_clean_up(
    request: BuildRequestView,
    failure: BuildFailureView,
    event: BuildEventView,
) -> (BuildStageView, BuildActionView) {
    match event {
        BuildEventView::Succeeded => give_up(failure),
        BuildEventView::Failed(why) => give_up(
            BuildFailureView::StaticRecipeLeftBehind {
                cause: build_failure_message(failure, request.dir),
                why,
            },
        ),
        _ => give_up(BuildFailureView::OutOfTurn),
    }
}

/// The transition of the build: the stage that follows `stage` on
/// `event`, and the action asked for. A failed check of an artifact does
/// not stop the build: the verdict is taken and the next artifact is
/// checked.
pub open spec fn build_transition(
    request: BuildRequestView,
    stage: BuildStageView,
    event: BuildEventView,
) -> (BuildStageView, BuildActionView) {
    match (stage, event) {
        (BuildStageView::Start, BuildEventView::Begin) => proceed_to_step(request, 0),
        (BuildStageView::Preparing(k), _) => if k < steps_of(request).len() {
            after_step(request, k as int, steps_of(request)[k as int], event)
        } else {
            give_up(BuildFailureView::OutOfTurn)
        },
        (BuildStageView::ReadingMetadata, BuildEventView::Captured(output)) => after_metadata_run(
            request,
            Ok(output),
        ),
        (BuildStageView::ReadingMetadata, BuildEventView::Failed(why)) => after_metadata_run(
            request,
            Err(why),
        ),
        (
            BuildStageView::Verifying { paths, verdicts },
            BuildEventView::Checked(passed),
        ) => if verdicts.len() < paths.len() {
            proceed_to_check(paths, verdicts.push(passed))
        } else {
            give_up(BuildFailureView::OutOfTurn)
        },
        (BuildStageView::CleaningUp { failure }, _) => after_clean_up(request, failure, event),
        (BuildStageView::Finished, _) => (BuildStageView::Finished, BuildActionView::Done),
        (BuildStageView::Aborted, _) => (BuildStageView::Aborted, BuildActionView::Done),
        _ => give_up(BuildFailureView::OutOfTurn),
    }
}

/// Goes on with step `k`, or with the metadata where no step is left.
fn proceed_step(request: &BuildRequest, k: usize) -> (r: (BuildStage, BuildAction))
    ensures
        (r.0@, r.1@) == proceed_to_step(request@, k as int),
{
    let mut steps = build_directory(
        request.dir.as_str(),
        &request.dirs,
        request.offline,
        request.force,
    );
    if k < steps.len() {
        let step = steps.remove(k);
        (BuildStage::Preparing(k), BuildAction::Step(step))
    } else {
        let inv = srcinfo_invocation(request.dir.as_str(), &request.dirs);
        (BuildStage::ReadingMetadata, BuildAction::ReadMetadata(inv))
    }
}

/// Goes on with the check of the next artifact, or with the report
/// where no artifact is left.
fn proceed_check(paths: Vec<String>, verdicts: Vec<bool>) -> (r: (BuildStage, BuildAction))
    requires
        verdicts.len() <= paths.len(),
    ensures
        (r.0@, r.1@) == proceed_to_check(views(paths@), verdicts@),
{
    if verdicts.len() < paths.len() {
        let path = paths[verdicts.len()].clone();
        (BuildStage::Verifying { paths, verdicts }, BuildAction::VerifyArchive { path })
    } else {
        let mut results: Vec<VerificationResult> = Vec::new();
        let mut i: usize = 0;
        while i < verdicts.len()
            invariant
                i <= verdicts.len() <= paths.len(),
                results.len() == i,
                forall|k: int|
                    0 <= k < i ==> (#[trigger] results@[k])@ == (paths@[k]@, verdicts@[k]),
            decreases verdicts.len() - i,
        {
            results.push(VerificationResult { path: paths[i].clone(), passed: verdicts[i] });
            i += 1;
        }
        assert(result_views(results@) =~= collected(views(paths@), verdicts@));
        (BuildStage::Finished, BuildAction::Report { results })
    }
}

/// Has the static recipe removed before the build is given up for
/// `failure`.
fn clean(request: &BuildRequest, failure: BuildFailure) -> (r: (BuildStage, BuildAction))
    ensures
        (r.0@, r.1@) == clean_up(request@, failure@),
{
    let path = join_path(request.dir.as_str(), "PKGBUILD.static");
    (
        BuildStage::CleaningUp { failure },
        BuildAction::Step(BuildStep::RemoveStaticRecipe { path }),
    )
}

/// Gives the build up for `failure`.
fn abort(failure: BuildFailure) -> (r: (BuildStage, BuildAction))
    ensures
        (r.0@, r.1@) == give_up(failure@),
        r.1 == BuildAction::Abort(failure),
{
    (BuildStage::Aborted, BuildAction::Abort(failure))
}

/// The paths of the artifacts that the build of `request` produces
/// according to `metadata`.
pub fn expected_artifacts(request: &BuildRequest, metadata: &Metadata) -> (r: Vec<String>)
    ensures
        views(r@) == artifact_paths(request@, metadata@),
{
    let names = archive_names(metadata, request.host_arch.as_str(), request.extension.as_str());
    let mut r: Vec<String> = Vec::new();
    let mut i: usize = 0;
    while i < names.len()
        invariant
            i <= names.len(),
            r.len() == i,
            views(names@) == archive_names_of(metadata@, request.host_arch@, request.extension@),
            forall|k: int| 0 <= k < i ==> r@[k]@ == path_join(request.dir@, views(names@)[k]),
        decreases names.len() - i,
    {
        assert(views(names@)[i as int] == names@[i as int]@);
        r.push(join_path(request.dir.as_str(), names[i].as_str()));
        i += 1;
    }
    assert(views(r@) =~= artifact_paths(request@, metadata@));
    r
}

/// What follows when the metadata invocation has reported `run`.
fn after_metadata(request: &BuildRequest, run: Result<CommandOutput, String>) -> (r: (
    BuildStage,
    BuildAction,
))
    ensures
        (r.0@, r.1@) == after_metadata_run(request@, run_view(run)),
{
    match generate_srcinfo(run) {
        Ok(metadata) => {
            let paths = expected_artifacts(request, &metadata);
            proceed_check(paths, Vec::new())
        },
        Err(e) => abort(BuildFailure::NoMetadata(e)),
    }
}

/// What follows when step `k` of the build, `step`, has reported
/// `event`.
fn step_reported(request: &BuildRequest, k: usize, step: &BuildStep, event: BuildEvent) -> (r: (
    BuildStage,
    BuildAction,
))
    requires
        k < steps_of(request@).len(),
    ensures
        (r.0@, r.1@) == after_step(request@, k as int, step@, event@),
{
    match step {
        BuildStep::WriteStaticRecipe { .. } => match event {
            BuildEvent::Succeeded => proceed_step(request, k + 1),
            BuildEvent::Failed(why) => clean(request, BuildFailure::StaticRecipeNotCreated(why)),
            BuildEvent::Unresolved(why) => clean(
                request,
                BuildFailure::MetadataFileUnresolved(why),
            ),
            BuildEvent::Unwritten(why) => clean(request, BuildFailure::StaticRecipeNotWritten(why)),
            _ => clean(request, BuildFailure::OutOfTurn),
        },
        BuildStep::FetchSources(_) => match event {
            BuildEvent::Exited(code) => if is_exit_success(code) {
                proceed_step(request, k + 1)
            } else {
                clean(request, BuildFailure::SourcesNotFetched)
            },
            BuildEvent::Failed(why) => clean(request, BuildFailure::FetchNotStarted(why)),
            _ => clean(request, BuildFailure::OutOfTurn),
        },
        BuildStep::RemoveStaticRecipe { .. } => match event {
            BuildEvent::Succeeded => proceed_step(request, k + 1),
            BuildEvent::Failed(why) => abort(BuildFailure::StaticRecipeNotRemoved(why)),
            _ => abort(BuildFailure::OutOfTurn),
        },
        BuildStep::Build(_) => match event {
            BuildEvent::Exited(code) => match build_failure(code) {
                None => proceed_step(request, k + 1),
                Some(exit) => (
                    BuildStage::Aborted,
                    BuildAction::Exit { status: code, code: exit },
                ),
            },
            BuildEvent::Failed(why) => abort(BuildFailure::BuildNotStarted(why)),
            _ => abort(BuildFailure::OutOfTurn),
        },
    }
}

/// One step of the build of a directory: takes the stage the build is
/// in and what the last action reported, and answers with the stage
/// that follows and the next action. The build begins in
/// [`BuildStage::Start`] with [`BuildEvent::Begin`].
pub fn action_builddir(request: &BuildRequest, stage: BuildStage, event: BuildEvent) -> (r: (
    BuildStage,
    BuildAction,
))
    ensures
        (r.0@, r.1@) == build_transition(request@, stage@, event@),
{
    match stage {
        BuildStage::Start => match event {
            BuildEvent::Begin => proceed_step(request, 0),
            _ => abort(BuildFailure::OutOfTurn),
        },
        BuildStage::Preparing(k) => {
            let steps = build_directory(
                request.dir.as_str(),
                &request.dirs,
                request.offline,
                request.force,
            );
            if k < steps.len() {
                assert(step_views(steps@)[k as int] == steps@[k as int]@);
                step_reported(request, k, &steps[k], event)
            } else {
                abort(BuildFailure::OutOfTurn)
            }
        },
        BuildStage::ReadingMetadata => match event {
            BuildEvent::Captured(output) => after_metadata(request, Ok(output)),
            BuildEvent::Failed(why) => after_metadata(request, Err(why)),
            _ => abort(BuildFailure::OutOfTurn),
        },
        BuildStage::Verifying { paths, verdicts } => match event {
            BuildEvent::Checked(passed) => if verdicts.len() < paths.len() {
                let mut verdicts = verdicts;
                verdicts.push(passed);
                proceed_check(paths, verdicts)
            } else {
                abort(BuildFailure::OutOfTurn)
            },
            _ => abort(BuildFailure::OutOfTurn),
        },
        BuildStage::CleaningUp { failure } => match event {
            BuildEvent::Succeeded => abort(failure),
            BuildEvent::Failed(why) => {
                let cause = failure.message(request.dir.as_str());
                abort(BuildFailure::StaticRecipeLeftBehind { cause, why })
            },
            _ => abort(BuildFailure::OutOfTurn),
        },
        BuildStage::Finished => (BuildStage::Finished, BuildAction::Done),
        BuildStage::Aborted => (BuildStage::Aborted, BuildAction::Done),
    }
}

/// Metadata is never read with the network: whatever the request says
/// of the network, and in whatever stage and on whatever event, an
/// invocation that is to print metadata has the network cut off and
/// binds the directory read-only.
pub proof fn lemma_metadata_without_network(
    request: BuildRequestView,
    stage: BuildStageView,
    event: BuildEventView,
)
    ensures
        build_transition(request, stage, event).1 matches BuildActionView::ReadMetadata(inv)
            ==> inv.network == NetworkMode::Isolated && inv == metadata_invocation(
            request.dir,
            request.wrapper,
        ) && inv.binds.len() == 1 && inv.binds[0].access == crate::sandbox::Access::ReadOnly,
{
}

/// A failed check does not stop the build. Whatever the verdict on an
/// artifact, the next artifact is checked, or the build is reported
/// where none is left; the verdict is only taken down. The report
/// holds the verdict on every artifact, in order.
pub proof fn lemma_verdict_is_not_fatal(
    request: BuildRequestView,
    paths: Seq<Seq<char>>,
    verdicts: Seq<bool>,
    passed: bool,
)
    requires
        verdicts.len() < paths.len(),
    ensures
        ({
            let (stage, action) = build_transition(
                request,
                BuildStageView::Verifying { paths, verdicts },
                BuildEventView::Checked(passed),
            );
            if verdicts.len() + 1 < paths.len() {
                &&& stage == (BuildStageView::Verifying { paths, verdicts: verdicts.push(passed) })
                &&& action == (BuildActionView::VerifyArchive {
                    path: paths[verdicts.len() as int + 1],
                })
            } else {
                &&& stage == BuildStageView::Finished
                &&& action matches BuildActionView::Report { results }
                &&& results.len() == paths.len()
                &&& results.last() == (paths.last(), passed)
                &&& forall|i: int|
                    0 <= i < verdicts.len() ==> #[trigger] results[i] == (paths[i], verdicts[i])
            }
        }),
{
}

/// A step is asked for only when the step before it has succeeded: the
/// first on `Begin`, every other one on the success of its predecessor.
/// So the build proper begins only after the fetch phase has ended.
pub proof fn lemma_steps_in_order(
    request: BuildRequestView,
    stage: BuildStageView,
    event: BuildEventView,
)
    ensures
        build_transition(request, stage, event).0 matches BuildStageView::Preparing(k) ==> {
            &&& k < steps_of(request).len()
            &&& build_transition(request, stage, event).1 == BuildActionView::Step(
                steps_of(request)[k as int],
            )
            &&& if k == 0 {
                stage == BuildStageView::Start && event == BuildEventView::Begin
            } else {
                &&& stage == BuildStageView::Preparing((k - 1) as usize)
                &&& match event {
                    BuildEventView::Succeeded => true,
                    BuildEventView::Exited(code) => exit_success(code),
                    _ => false,
                }
            }
        },
{
    lemma_step_count(request);
}

/// A build has one step or four.
pub proof fn lemma_step_count(request: BuildRequestView)
    ensures
        steps_of(request).len() == if request.offline {
            4nat
        } else {
            1nat
        },
{
}

/// A build tool that fails ends the build with the tool's own exit
/// code, or with 1 where it has none.
pub proof fn lemma_failed_build_exits(request: BuildRequestView, k: usize, code: Option<i32>)
    requires
        k < steps_of(request).len(),
        steps_of(request)[k as int] is Build,
        !exit_success(code),
    ensures
        build_transition(request, BuildStageView::Preparing(k), BuildEventView::Exited(code)) == (
            BuildStageView::Aborted,
            BuildActionView::Exit { status: code, code: failure_exit_code(code) },
        ),
{
}

/// A fetch phase that fails leaves no static recipe behind. Whatever
/// the writing of the static recipe or the fetching of the sources
/// reports, short of success, the next thing asked for is the removal
/// of the static recipe, and nothing else is asked for before it has
/// reported. The build is given up only then, and once the removal has
/// succeeded the file is gone, whether or not it was ever written.
pub proof fn lemma_failed_fetch_cleans_up(
    request: BuildRequestView,
    k: usize,
    event: BuildEventView,
    present: bool,
)
    requires
        k < steps_of(request).len(),
        steps_of(request)[k as int] is WriteStaticRecipe || steps_of(request)[k as int]
            is FetchSources,
    ensures
        ({
            let (stage, action) = build_transition(request, BuildStageView::Preparing(k), event);
            let removal = BuildStepView::RemoveStaticRecipe {
                path: path_join(request.dir, static_recipe_name()),
            };
            ||| stage == BuildStageView::Preparing((k + 1) as usize)
            ||| {
                &&& stage is CleaningUp
                &&& action == BuildActionView::Step(removal)
                &&& !static_recipe_after(removal, request.dir, present)
                &&& build_transition(request, stage, BuildEventView::Succeeded) == give_up(
                    stage->failure,
                )
                &&& build_transition(request, stage, BuildEventView::Succeeded).0
                    == BuildStageView::Aborted
            }
        }),
{
    lemma_step_count(request);
}

/// The build is given up in the fetch phase only after the static
/// recipe's removal has reported: an action that gives the build up
/// never answers the writing of the static recipe or the fetching of
/// the sources.
pub proof fn lemma_no_abort_before_clean_up(
    request: BuildRequestView,
    k: usize,
    event: BuildEventView,
)
    requires
        k < steps_of(request).len(),
        steps_of(request)[k as int] is WriteStaticRecipe || steps_of(request)[k as int]
            is FetchSources,
    ensures
        !(build_transition(request, BuildStageView::Preparing(k), event).1 is Abort),
        !(build_transition(request, BuildStageView::Preparing(k), event).1 is Exit),
        build_transition(request, BuildStageView::Preparing(k), event).0
            != BuildStageView::Aborted,
{
    lemma_step_count(request);
}

} // verus!
