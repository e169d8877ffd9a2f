//! The two-phase build: sources are fetched with the network and without
//! the recipe's own code, then the recipe is built, without the network
//! where the caller asks for that.

use crate::command::{exit_success, is_exit_success};
use crate::sandbox::{
    bind_views, wrap_yes_internet, Access, BindMount, BindMountView, NetworkMode, RuaDirs,
    SandboxInvocation, SandboxInvocationView,
};
use crate::text::{chars_of, views};
use vstd::prelude::*;
use vstd::string::*;

verus! {

/// The path of `name` inside `dir`: `name` itself where it starts at the
/// root, else `dir`, a separator unless `dir` is empty or ends in one,
/// and `name`.
pub open spec fn path_join(dir: Seq<char>, name: Seq<char>) -> Seq<char> {
    if name.len() > 0 && name[0] == '/' {
        name
    } else if dir.len() == 0 || dir.last() == '/' {
        dir + name
    } else {
        dir + "/"@ + name
    }
}

/// The path of `name` inside `dir`.
pub fn join_path(dir: &str, name: &str) -> (r: String)
    ensures
        r@ == path_join(dir@, name@),
{
    proof {
        reveal_strlit("/");
    }
    let name_chars = chars_of(name);
    if name_chars.len() > 0 && name_chars[0] == '/' {
        return name.to_owned();
    }
    let dir_chars = chars_of(dir);
    let mut r = dir.to_owned();
    if dir_chars.len() > 0 && dir_chars[dir_chars.len() - 1] != '/' {
        r.append("/");
    }
    r.append(name);
    r
}

/// The name of the static recipe, which only fetches sources.
pub open spec fn static_recipe_name() -> Seq<char> {
    "PKGBUILD.static"@
}

/// The name of the file that holds a recipe's metadata.
pub open spec fn metadata_file_name() -> Seq<char> {
    ".SRCINFO"@
}

/// One step of a build.
pub enum BuildStep {
    /// Create the file at `path`, resolve the metadata file at
    /// `srcinfo_path`, derive the static recipe from it and write it to
    /// the file.
    WriteStaticRecipe { path: String, srcinfo_path: String },
    /// Run the build tool on the static recipe: it fetches and verifies
    /// the sources.
    FetchSources(SandboxInvocation),
    /// Remove the static recipe at `path`.
    RemoveStaticRecipe { path: String },
    /// Run the build tool on the recipe.
    Build(SandboxInvocation),
}

/// The mathematical value of a [`BuildStep`].
pub enum BuildStepView {
    WriteStaticRecipe { path: Seq<char>, srcinfo_path: Seq<char> },
    FetchSources(SandboxInvocationView),
    RemoveStaticRecipe { path: Seq<char> },
    Build(SandboxInvocationView),
}

impl View for BuildStep {
    type V = BuildStepView;

    open spec fn view(&self) -> BuildStepView {
        match self {
            BuildStep::WriteStaticRecipe { path, srcinfo_path } => BuildStepView::WriteStaticRecipe {
                path: path@,
                srcinfo_path: srcinfo_path@,
            },
            BuildStep::FetchSources(inv) => BuildStepView::FetchSources(inv@),
            BuildStep::RemoveStaticRecipe { path } => BuildStepView::RemoveStaticRecipe {
                path: path@,
            },
            BuildStep::Build(inv) => BuildStepView::Build(inv@),
        }
    }
}

/// The views of a sequence of steps.
pub open spec fn step_views(v: Seq<BuildStep>) -> Seq<BuildStepView> {
    Seq::new(v.len(), |i: int| v[i]@)
}

/// The invocation that fetches the sources of the recipe in `dir`: the
/// network allowed, the directory writable, the build tool told to
/// verify the sources of the static recipe and to do nothing else.
pub open spec fn fetch_invocation(dir: Seq<char>, wrapper: Seq<char>) -> SandboxInvocationView {
    SandboxInvocationView {
        wrapper: wrapper,
        working_dir: dir,
        output_dir: dir,
        network: NetworkMode::Allowed,
        binds: seq![BindMountView { host: dir, guest: dir, access: Access::ReadWrite }],
        command: seq!["makepkg"@, "-f"@, "--verifysource"@, "-p"@, static_recipe_name()],
    }
}

/// The invocation that builds the recipe in `dir`: the network cut off
/// exactly where the build is to be `offline`, the directory writable,
/// and the build tool told to build again over an earlier result
/// exactly where `force` is set.
pub open spec fn build_invocation(
    dir: Seq<char>,
    wrapper: Seq<char>,
    offline: bool,
    force: bool,
) -> SandboxInvocationView {
    SandboxInvocationView {
        wrapper: wrapper,
        working_dir: dir,
        output_dir: dir,
        network: if offline {
            NetworkMode::Isolated
        } else {
            NetworkMode::Allowed
        },
        binds: seq![BindMountView { host: dir, guest: dir, access: Access::ReadWrite }],
        command: if force {
            seq!["makepkg"@, "--force"@]
        } else {
            seq!["makepkg"@]
        },
    }
}

/// The steps that fetch the sources of the recipe in `dir`.
pub open spec fn fetch_steps(dir: Seq<char>, wrapper: Seq<char>) -> Seq<BuildStepView> {
    seq![
        BuildStepView::WriteStaticRecipe {
            path: path_join(dir, static_recipe_name()),
            srcinfo_path: path_join(dir, metadata_file_name()),
        },
        BuildStepView::FetchSources(fetch_invocation(dir, wrapper)),
        BuildStepView::RemoveStaticRecipe { path: path_join(dir, static_recipe_name()) },
    ]
}

/// The steps of a build of the recipe in `dir`: for an offline build the
/// sources are fetched first; then the recipe is built.
pub open spec fn build_steps(
    dir: Seq<char>,
    wrapper: Seq<char>,
    offline: bool,
    force: bool,
) -> Seq<BuildStepView> {
    let build = seq![BuildStepView::Build(build_invocation(dir, wrapper, offline, force))];
    if offline {
        fetch_steps(dir, wrapper) + build
    } else {
        build
    }
}

/// An invocation on `dir` with the directory bound writable and taking
/// all output, the network allowed and no command yet.
fn writable_invocation(dir: &str, dirs: &RuaDirs) -> (r: SandboxInvocation)
    ensures
        r@.wrapper == dirs.wrapper_bwrap_script@,
        r@.working_dir == dir@,
        r@.output_dir == dir@,
        r@.network == NetworkMode::Allowed,
        r@.binds == seq![BindMountView { host: dir@, guest: dir@, access: Access::ReadWrite }],
        r.command@.len() == 0,
{
    let mut r = wrap_yes_internet(dirs, dir, dir);
    assert(views(r.command@).len() == 0);
    r.binds.push(
        BindMount { host: dir.to_owned(), guest: dir.to_owned(), access: Access::ReadWrite },
    );
    assert(bind_views(r.binds@) =~= seq![
        BindMountView { host: dir@, guest: dir@, access: Access::ReadWrite },
    ]);
    r
}

/// The steps that fetch the sources of the recipe in `dir`: write the
/// static recipe, run the build tool on it with the network allowed,
/// remove the static recipe.
pub fn download_srcinfo_sources(dir: &str, dirs: &RuaDirs) -> (r: Vec<BuildStep>)
    ensures
        step_views(r@) == fetch_steps(dir@, dirs.wrapper_bwrap_script@),
{
    let mut inv = writable_invocation(dir, dirs);
    inv.command.push("makepkg".to_owned());
    inv.command.push("-f".to_owned());
    inv.command.push("--verifysource".to_owned());
    inv.command.push("-p".to_owned());
    inv.command.push("PKGBUILD.static".to_owned());
    assert(views(inv.command@) =~= fetch_invocation(dir@, dirs.wrapper_bwrap_script@).command);
    let mut r: Vec<BuildStep> = Vec::new();
    r.push(
        BuildStep::WriteStaticRecipe {
            path: join_path(dir, "PKGBUILD.static"),
            srcinfo_path: join_path(dir, ".SRCINFO"),
        },
    );
    r.push(BuildStep::FetchSources(inv));
    r.push(BuildStep::RemoveStaticRecipe { path: join_path(dir, "PKGBUILD.static") });
    assert(step_views(r@) =~= fetch_steps(dir@, dirs.wrapper_bwrap_script@));
    r
}

/// The invocation that builds the recipe in `dir`.
pub fn build_local(dir: &str, dirs: &RuaDirs, offline: bool, force: bool) -> (r: SandboxInvocation)
    ensures
        r@ == build_invocation(dir@, dirs.wrapper_bwrap_script@, offline, force),
{
    let mut inv = writable_invocation(dir, dirs);
    if offline {
        inv.network = NetworkMode::Isolated;
    }
    inv.command.push("makepkg".to_owned());
    if force {
        inv.command.push("--force".to_owned());
    }
    assert(views(inv.command@) =~= build_invocation(
        dir@,
        dirs.wrapper_bwrap_script@,
        offline,
        force,
    ).command);
    inv
}

/// The steps of a build of the recipe in `dir`, in the order in which
/// they are carried out. Each has to succeed before the next begins;
/// where one of the first two fails, the removal of the static recipe
/// is the only step that still follows.
pub fn build_directory(dir: &str, project_dirs: &RuaDirs, offline: bool, force: bool) -> (r: Vec<
    BuildStep,
>)
    ensures
        step_views(r@) == build_steps(dir@, project_dirs.wrapper_bwrap_script@, offline, force),
{
    let mut r: Vec<BuildStep> = if offline {
        download_srcinfo_sources(dir, project_dirs)
    } else {
        Vec::new()
    };
    let ghost before = step_views(r@);
    let build = build_local(dir, project_dirs, offline, force);
    r.push(BuildStep::Build(build));
    assert(step_views(r@) =~= before + seq![
        BuildStepView::Build(
            build_invocation(dir@, project_dirs.wrapper_bwrap_script@, offline, force),
        ),
    ]);
    assert(!offline ==> before =~= Seq::empty());
    r
}

/// The exit code that a failed build passes on: the tool's own, or 1
/// where the tool did not exit by itself.
pub open spec fn failure_exit_code(code: Option<i32>) -> i32 {
    match code {
        Some(c) => c,
        None => 1,
    }
}

/// Judges how the build tool ended: nothing for a success, else the exit
/// code to end with.
pub fn build_failure(code: Option<i32>) -> (r: Option<i32>)
    ensures
        r == if exit_success(code) {
            None
        } else {
            Some(failure_exit_code(code))
        },
{
    if is_exit_success(code) {
        None
    } else {
        match code {
            Some(c) => Some(c),
            None => Some(1),
        }
    }
}

/// Whether the static recipe of `dir` is there once `step` has
/// succeeded, given whether it was there before: writing it puts it
/// there, removing it takes it away, and the sandboxed commands are
/// taken to leave it alone.
pub open spec fn static_recipe_after(step: BuildStepView, dir: Seq<char>, present: bool) -> bool {
    match step {
        BuildStepView::WriteStaticRecipe { path, .. } => present || path == path_join(
            dir,
            static_recipe_name(),
        ),
        BuildStepView::RemoveStaticRecipe { path } => present && path != path_join(
            dir,
            static_recipe_name(),
        ),
        _ => present,
    }
}

/// Whether the static recipe of `dir` is there once all of `steps` have
/// succeeded, one after the other.
pub open spec fn static_recipe_after_all(
    steps: Seq<BuildStepView>,
    dir: Seq<char>,
    present: bool,
) -> bool
    decreases steps.len(),
{
    if steps.len() == 0 {
        present
    } else {
        static_recipe_after(
            steps.last(),
            dir,
            static_recipe_after_all(steps.drop_last(), dir, present),
        )
    }
}

/// Fetching the sources leaves no static recipe behind. Once the three
/// steps have succeeded the file is gone, whether or not one was there
/// before, and it is the file that the first step wrote. And where an
/// earlier step has failed, the removal alone is enough: once it has
/// succeeded the file is gone, whatever was written before.
pub proof fn lemma_static_recipe_removed(dir: Seq<char>, wrapper: Seq<char>, present: bool)
    ensures
        !static_recipe_after_all(fetch_steps(dir, wrapper), dir, present),
        fetch_steps(dir, wrapper).len() == 3,
        fetch_steps(dir, wrapper)[0] matches BuildStepView::WriteStaticRecipe { path, .. }
            && fetch_steps(dir, wrapper)[2] == (BuildStepView::RemoveStaticRecipe { path }),
        !static_recipe_after(fetch_steps(dir, wrapper)[2], dir, present),
        !static_recipe_after(
            fetch_steps(dir, wrapper)[2],
            dir,
            static_recipe_after(fetch_steps(dir, wrapper)[0], dir, present),
        ),
{
    let steps = fetch_steps(dir, wrapper);
    let two = steps.drop_last();
    let one = two.drop_last();
    assert(one.drop_last().len() == 0);
    assert(static_recipe_after_all(one, dir, present));
    assert(static_recipe_after_all(two, dir, present));
}

/// The same holds of a whole offline build: when its last step, the
/// build itself, begins, the static recipe is gone.
pub proof fn lemma_offline_build_is_clean(
    dir: Seq<char>,
    wrapper: Seq<char>,
    force: bool,
    present: bool,
)
    ensures
        !static_recipe_after_all(build_steps(dir, wrapper, true, force).drop_last(), dir, present),
        !static_recipe_after_all(build_steps(dir, wrapper, true, force), dir, present),
{
    lemma_static_recipe_removed(dir, wrapper, present);
    let steps = build_steps(dir, wrapper, true, force);
    assert(steps.drop_last() =~= fetch_steps(dir, wrapper));
}

/// The shape of a build. With the network allowed throughout there is
/// one step, the build, and nothing is fetched beforehand. An offline
/// build fetches the sources first, with the network allowed, and then
/// builds without it. Either way the last step is the build, and the
/// build tool is told to build again exactly where `force` is set.
pub proof fn lemma_build_plan(dir: Seq<char>, wrapper: Seq<char>, offline: bool, force: bool)
    ensures
        !offline ==> build_steps(dir, wrapper, offline, force) == seq![
            BuildStepView::Build(build_invocation(dir, wrapper, false, force)),
        ],
        !offline ==> build_invocation(dir, wrapper, offline, force).network
            == NetworkMode::Allowed,
        offline ==> build_steps(dir, wrapper, offline, force).len() == 4,
        offline ==> build_steps(dir, wrapper, offline, force)[1] == BuildStepView::FetchSources(
            fetch_invocation(dir, wrapper),
        ),
        offline ==> fetch_invocation(dir, wrapper).network == NetworkMode::Allowed,
        offline ==> build_invocation(dir, wrapper, offline, force).network
            == NetworkMode::Isolated,
        build_steps(dir, wrapper, offline, force).last() == BuildStepView::Build(
            build_invocation(dir, wrapper, offline, force),
        ),
        build_invocation(dir, wrapper, offline, force).command.contains("--force"@) == force,
{
    reveal_strlit("--force");
    reveal_strlit("makepkg");
    let command = build_invocation(dir, wrapper, offline, force).command;
    if force {
        assert(command[1] == "--force"@);
    } else {
        assert("makepkg"@[0] != "--force"@[0]);
    }
}

} // verus!
