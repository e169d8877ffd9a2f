//! The review gate: a recipe is fetched into a scratch directory and
//! stays there until a human has approved it.

use crate::building::{join_path, path_join};
use crate::command::{
    assert_command_success, command_failure_message, exit_success, failure_text, CommandLine, CommandLineView, CommandOutput, CommandOutputView,
};
use crate::text::{chars_of, trim, trim_bounds, utf8_lossy, views};
use directories::ProjectDirs;
use regex::Regex;
use vstd::prelude::*;
use vstd::string::*;

verus! {

/// A character that a package name may begin with: an ASCII letter.
pub open spec fn is_name_start(c: char) -> bool {
    ('a' <= c && c <= 'z') || ('A' <= c && c <= 'Z')
}

/// A character that a package name may hold after its first: an ASCII
/// letter or digit, a dot, a hyphen or an underscore.
pub open spec fn is_name_char(c: char) -> bool {
    is_name_start(c) || ('0' <= c && c <= '9') || c == '.' || c == '-' || c == '_'
}

/// A package name: a letter, then letters, digits, dots, hyphens and
/// underscores, and nothing else.
pub open spec fn is_package_name(name: Seq<char>) -> bool {
    &&& name.len() > 0
    &&& is_name_start(name[0])
    &&& forall|i: int| 1 <= i < name.len() ==> is_name_char(#[trigger] name[i])
}

/// The regular expression that a package name matches from its first
/// character to its last.
pub open spec fn name_pattern() -> Seq<char> {
    "\\A[a-zA-Z][a-zA-Z0-9._-]*\\z"@
}

/// Compiles `pattern` with `Regex::new` of the `regex` crate and asks
/// `Regex::is_match` whether `name` matches. Trusted, for the one
/// pattern of package names: the answer is yes exactly where the whole
/// of `name` is a letter followed by letters, digits, dots, hyphens and
/// underscores, which is how the crate reads the anchors and the two
/// character classes of that pattern.
#[verifier::external_body]
fn matches_pattern(pattern: &str, name: &str) -> (b: bool)
    requires
        pattern@ == name_pattern(),
    ensures
        b == is_package_name(name@),
{
    match Regex::new(pattern) {
        Ok(re) => re.is_match(name),
        Err(_) => false,
    }
}

/// Tells whether `name` is a package name.
pub fn is_valid_package_name(name: &str) -> (b: bool)
    ensures
        b == is_package_name(name@),
{
    matches_pattern("\\A[a-zA-Z][a-zA-Z0-9._-]*\\z", name)
}

/// No package name holds a slash, a space or any other character
/// outside the letters, digits, dot, hyphen and underscore.
pub proof fn lemma_name_characters(name: Seq<char>, i: int)
    requires
        is_package_name(name),
        0 <= i < name.len(),
    ensures
        is_name_char(name[i]),
        name[i] != '/',
        name[i] != ' ',
{
}

/// What the user can ask for.
#[derive(Clone, Copy, PartialEq, Eq, Debug, Structural)]
pub enum ReviewChoice {
    /// Show the recipe.
    View,
    /// Edit the recipe in place.
    Edit,
    /// Open a shell in the recipe's directory.
    Inspect,
    /// Accept the recipe as it is.
    Approve,
}

/// The choice that a line of input stands for: after trimming, the one
/// letter `v`, `e`, `i` or `o`, in either case.
pub open spec fn choice_of(line: Seq<char>) -> Option<ReviewChoice> {
    let t = trim(line);
    if t.len() != 1 {
        None
    } else if t[0] == 'v' || t[0] == 'V' {
        Some(ReviewChoice::View)
    } else if t[0] == 'e' || t[0] == 'E' {
        Some(ReviewChoice::Edit)
    } else if t[0] == 'i' || t[0] == 'I' {
        Some(ReviewChoice::Inspect)
    } else if t[0] == 'o' || t[0] == 'O' {
        Some(ReviewChoice::Approve)
    } else {
        None
    }
}

/// Reads a line of input as a choice.
pub fn parse_choice(line: &str) -> (r: Option<ReviewChoice>)
    ensures
        r == choice_of(line@),
{
    let chars = chars_of(line);
    let (a, b) = trim_bounds(&chars, 0, chars.len());
    assert(chars@.subrange(0, chars.len() as int) =~= line@);
    if b - a != 1 {
        return None;
    }
    let c = chars[a];
    assert(trim(line@)[0] == c);
    if c == 'v' || c == 'V' {
        Some(ReviewChoice::View)
    } else if c == 'e' || c == 'E' {
        Some(ReviewChoice::Edit)
    } else if c == 'i' || c == 'I' {
        Some(ReviewChoice::Inspect)
    } else if c == 'o' || c == 'O' {
        Some(ReviewChoice::Approve)
    } else {
        None
    }
}

/// How far the review of a package has come.
#[derive(Clone, Copy, PartialEq, Eq, Debug, Structural)]
pub enum ReviewStage {
    /// Nothing was asked for yet.
    Start,
    /// The package's cache directory is being looked at.
    Locating,
    /// The recipe is being cloned into the scratch directory.
    Fetching,
    /// The clone is there; the recipe file is being looked for.
    Fetched,
    /// The user was prompted and has not answered.
    AwaitingReview,
    /// A command that the user asked for is running.
    Reviewing,
    /// The user approved; the scratch directory is being renamed.
    Approving,
    /// An approved copy is in place.
    Approved,
    /// The review was given up.
    Aborted,
}

/// What the caller reports after carrying out an action.
pub enum ReviewEvent {
    /// The review is to begin.
    Begin,
    /// The cache directory is there; the flags tell whether it holds an
    /// entry named `build` and one named `target`.
    Located { build: bool, target: bool },
    /// The clone ended and this is what it left behind.
    Cloned(CommandOutput),
    /// Whether the recipe file is in the clone.
    RecipeFound(bool),
    /// The user entered this line.
    Answered(String),
    /// No line could be read from the console.
    NoAnswer,
    /// The user's command has ended, or could not be run.
    ToolReturned,
    /// The scratch directory was renamed.
    Promoted,
    /// The action could not be carried out; the text says why.
    Failed(String),
}

/// The mathematical value of a [`ReviewEvent`].
pub enum ReviewEventView {
    Begin,
    Located { build: bool, target: bool },
    Cloned(CommandOutputView),
    RecipeFound(bool),
    Answered(Seq<char>),
    NoAnswer,
    ToolReturned,
    Promoted,
    Failed(Seq<char>),
}

impl View for ReviewEvent {
    type V = ReviewEventView;

    open spec fn view(&self) -> ReviewEventView {
        match self {
            ReviewEvent::Begin => ReviewEventView::Begin,
            ReviewEvent::Located { build, target } => ReviewEventView::Located {
                build: *build,
                target: *target,
            },
            ReviewEvent::Cloned(output) => ReviewEventView::Cloned(output@),
            ReviewEvent::RecipeFound(found) => ReviewEventView::RecipeFound(*found),
            ReviewEvent::Answered(line) => ReviewEventView::Answered(line@),
            ReviewEvent::NoAnswer => ReviewEventView::NoAnswer,
            ReviewEvent::ToolReturned => ReviewEventView::ToolReturned,
            ReviewEvent::Promoted => ReviewEventView::Promoted,
            ReviewEvent::Failed(why) => ReviewEventView::Failed(why@),
        }
    }
}

/// Why a review was given up.
pub enum ReviewFailure {
    /// The name is no package name.
    InvalidName,
    /// The cache directory has no name that can be written as text.
    NoCacheDir,
    /// The clone failed.
    CloneFailed(CommandOutput),
    /// The clone holds no recipe: the package may not exist upstream.
    RecipeMissing,
    /// The user cannot be asked.
    NoConsole,
    /// An action could not be carried out.
    Failed(String),
    /// Something was reported that the last action cannot report.
    OutOfTurn,
}

/// The mathematical value of a [`ReviewFailure`].
pub enum ReviewFailureView {
    InvalidName,
    NoCacheDir,
    CloneFailed(CommandOutputView),
    RecipeMissing,
    NoConsole,
    Failed(Seq<char>),
    OutOfTurn,
}

impl View for ReviewFailure {
    type V = ReviewFailureView;

    open spec fn view(&self) -> ReviewFailureView {
        match self {
            ReviewFailure::InvalidName => ReviewFailureView::InvalidName,
            ReviewFailure::NoCacheDir => ReviewFailureView::NoCacheDir,
            ReviewFailure::CloneFailed(output) => ReviewFailureView::CloneFailed(output@),
            ReviewFailure::RecipeMissing => ReviewFailureView::RecipeMissing,
            ReviewFailure::NoConsole => ReviewFailureView::NoConsole,
            ReviewFailure::Failed(why) => ReviewFailureView::Failed(why@),
            ReviewFailure::OutOfTurn => ReviewFailureView::OutOfTurn,
        }
    }
}

/// What a failure of the review of the package `name` is reported
/// with.
pub open spec fn review_failure_message(failure: ReviewFailureView, name: Seq<char>) -> Seq<char> {
    match failure {
        ReviewFailureView::InvalidName => "unexpected package name "@ + name,
        ReviewFailureView::NoCacheDir => "the cache directory has no name that is text"@,
        ReviewFailureView::CloneFailed(output) => failure_text(
            output.code,
            utf8_lossy(output.stderr),
            utf8_lossy(output.stdout),
        ),
        ReviewFailureView::RecipeMissing => "PKGBUILD not found for package "@ + name
            + ". Does this package really exist in AUR?"@,
        ReviewFailureView::NoConsole => "RUA requires console to ask confirmation."@,
        ReviewFailureView::Failed(why) => why,
        ReviewFailureView::OutOfTurn => "the review was reported out of turn"@,
    }
}

impl ReviewFailure {
    /// What the failure is reported with, `name` being the package
    /// under review.
    pub fn message(&self, name: &str) -> (r: String)
        ensures
            r@ == review_failure_message(self@, name@),
    {
        match self {
            ReviewFailure::InvalidName => {
                let mut r = "unexpected package name ".to_owned();
                r.append(name);
                r
            },
            ReviewFailure::NoCacheDir => "the cache directory has no name that is text".to_owned(),
            ReviewFailure::CloneFailed(output) => command_failure_message(output),
            ReviewFailure::RecipeMissing => {
                let mut r = "PKGBUILD not found for package ".to_owned();
                r.append(name);
                r.append(". Does this package really exist in AUR?");
                r
            },
            ReviewFailure::NoConsole => "RUA requires console to ask confirmation.".to_owned(),
            ReviewFailure::Failed(why) => why.clone(),
            ReviewFailure::OutOfTurn => "the review was reported out of turn".to_owned(),
        }
    }
}

/// What the caller is asked to do next.
pub enum ReviewAction {
    /// Create `dir` with its parents, make it the working directory and
    /// report whether it holds entries named `build` and `target`.
    Locate { dir: String, build: String, target: String },
    /// Remove `scratch` if it is there, run `command` and report what it
    /// left behind.
    Clone { scratch: String, command: CommandLine },
    /// Make `dir` the working directory and report whether it holds
    /// `recipe`.
    FindRecipe { dir: String, recipe: String },
    /// Show `text` and report the line that the user enters.
    Prompt { text: String },
    /// Show `notice`, if there is one; run the command that the
    /// variable `variable` holds, or `fallback` where it holds none,
    /// with `arguments` at its end; tell the user if it could not be
    /// run; report when it has ended.
    RunTool { notice: Option<String>, variable: String, fallback: String, arguments: Vec<String> },
    /// Go up one directory, rename `from` to `to`, and report.
    Promote { from: String, to: String },
    /// Give up for this reason.
    Abort(ReviewFailure),
    /// Nothing: an approved copy is in place, or the review was given
    /// up.
    Done,
}

/// The mathematical value of a [`ReviewAction`].
pub enum ReviewActionView {
    Locate { dir: Seq<char>, build: Seq<char>, target: Seq<char> },
    Clone { scratch: Seq<char>, command: CommandLineView },
    FindRecipe { dir: Seq<char>, recipe: Seq<char> },
    Prompt { text: Seq<char> },
    RunTool {
        notice: Option<Seq<char>>,
        variable: Seq<char>,
        fallback: Seq<char>,
        arguments: Seq<Seq<char>>,
    },
    Promote { from: Seq<char>, to: Seq<char> },
    Abort(ReviewFailureView),
    Done,
}

impl View for ReviewAction {
    type V = ReviewActionView;

    open spec fn view(&self) -> ReviewActionView {
        match self {
            ReviewAction::Locate { dir, build, target } => ReviewActionView::Locate {
                dir: dir@,
                build: build@,
                target: target@,
            },
            ReviewAction::Clone { scratch, command } => ReviewActionView::Clone {
                scratch: scratch@,
                command: command@,
            },
            ReviewAction::FindRecipe { dir, recipe } => ReviewActionView::FindRecipe {
                dir: dir@,
                recipe: recipe@,
            },
            ReviewAction::Prompt { text } => ReviewActionView::Prompt { text: text@ },
            ReviewAction::RunTool {
                notice,
                variable,
                fallback,
                arguments,
            } => ReviewActionView::RunTool {
                notice: match notice {
                    Some(n) => Some(n@),
                    None => None,
                },
                variable: variable@,
                fallback: fallback@,
                arguments: views(arguments@),
            },
            ReviewAction::Promote { from, to } => ReviewActionView::Promote {
                from: from@,
                to: to@,
            },
            ReviewAction::Abort(failure) => ReviewActionView::Abort(failure@),
            ReviewAction::Done => ReviewActionView::Done,
        }
    }
}

/// The name of the recipe file.
pub open spec fn recipe_name() -> Seq<char> {
    "PKGBUILD"@
}

/// The name of the scratch directory that an unreviewed recipe is
/// cloned into.
pub open spec fn scratch_name() -> Seq<char> {
    "aur.tmp"@
}

/// The name of the directory that holds an approved recipe.
pub open spec fn approved_name() -> Seq<char> {
    "build"@
}

/// The address that the recipe of `name` is cloned from.
pub open spec fn clone_address(name: Seq<char>) -> Seq<char> {
    "https://aur.archlinux.org/"@ + name + ".git"@
}

/// The command that clones the recipe of `name` into the scratch
/// directory.
pub open spec fn clone_command(name: Seq<char>) -> CommandLineView {
    CommandLineView { program: "git"@, args: seq!["clone"@, clone_address(name), scratch_name()] }
}

/// What the user is asked.
pub open spec fn prompt_text(name: Seq<char>) -> Seq<char> {
    "Downloaded "@ + name
        + ". V=view PKGBUILD, E=edit PKGBUILD, I=run shell to inspect, O=ok, use the file: "@
}

/// The prompt for the user.
pub open spec fn prompt(name: Seq<char>) -> (ReviewStage, ReviewActionView) {
    (ReviewStage::AwaitingReview, ReviewActionView::Prompt { text: prompt_text(name) })
}

/// The review is given up for `failure`.
pub open spec fn refuse(failure: ReviewFailureView) -> (ReviewStage, ReviewActionView) {
    (ReviewStage::Aborted, ReviewActionView::Abort(failure))
}

/// What a choice of the user leads to: a pager, an editor or a
/// shell, each taken from a variable that may override it, or the
/// renaming of the scratch directory.
pub open spec fn chosen(choice: ReviewChoice) -> (ReviewStage, ReviewActionView) {
    match choice {
        ReviewChoice::View => (
            ReviewStage::Reviewing,
            ReviewActionView::RunTool {
                notice: None,
                variable: "PAGER"@,
                fallback: "less"@,
                arguments: seq![recipe_name()],
            },
        ),
        ReviewChoice::Edit => (
            ReviewStage::Reviewing,
            ReviewActionView::RunTool {
                notice: None,
                variable: "EDITOR"@,
                fallback: "nano"@,
                arguments: seq![recipe_name()],
            },
        ),
        ReviewChoice::Inspect => (
            ReviewStage::Reviewing,
            ReviewActionView::RunTool {
                notice: Some("Exit the shell with `logout` or Ctrl-D..."@),
                variable: "SHELL"@,
                fallback: "bash"@,
                arguments: Seq::empty(),
            },
        ),
        ReviewChoice::Approve => (
            ReviewStage::Approving,
            ReviewActionView::Promote { from: scratch_name(), to: approved_name() },
        ),
    }
}

/// How a review begins: a name that is no package name ends it before
/// anything is touched; else the package's directory in the cache is
/// looked at.
pub open spec fn review_start(name: Seq<char>, cache: Option<Seq<char>>) -> (
    ReviewStage,
    ReviewActionView,
) {
    if !is_package_name(name) {
        refuse(ReviewFailureView::InvalidName)
    } else {
        match cache {
            None => refuse(ReviewFailureView::NoCacheDir),
            Some(c) => (
                ReviewStage::Locating,
                ReviewActionView::Locate {
                    dir: path_join(c, name),
                    build: approved_name(),
                    target: "target"@,
                },
            ),
        }
    }
}

/// The transition of the review of the package `name`, whose cache
/// lies under `cache`: the stage that follows `stage` on `event`, and
/// the action asked for.
pub open spec fn review_transition(
    name: Seq<char>,
    cache: Option<Seq<char>>,
    stage: ReviewStage,
    event: ReviewEventView,
) -> (ReviewStage, ReviewActionView) {
    match (stage, event) {
        (ReviewStage::Approved, _) => (ReviewStage::Approved, ReviewActionView::Done),
        (ReviewStage::Aborted, _) => (ReviewStage::Aborted, ReviewActionView::Done),
        (ReviewStage::Start, ReviewEventView::Begin) => review_start(name, cache),
        (ReviewStage::Locating, ReviewEventView::Located { build, target }) => if build || target {
            (ReviewStage::Approved, ReviewActionView::Done)
        } else {
            (
                ReviewStage::Fetching,
                ReviewActionView::Clone { scratch: scratch_name(), command: clone_command(name) },
            )
        },
        (ReviewStage::Fetching, ReviewEventView::Cloned(output)) => if exit_success(output.code) {
            (
                ReviewStage::Fetched,
                ReviewActionView::FindRecipe { dir: scratch_name(), recipe: recipe_name() },
            )
        } else {
            refuse(ReviewFailureView::CloneFailed(output))
        },
        (ReviewStage::Fetched, ReviewEventView::RecipeFound(found)) => if found {
            prompt(name)
        } else {
            refuse(ReviewFailureView::RecipeMissing)
        },
        (ReviewStage::AwaitingReview, ReviewEventView::Answered(line)) => match choice_of(line) {
            Some(choice) => chosen(choice),
            None => prompt(name),
        },
        (ReviewStage::AwaitingReview, ReviewEventView::NoAnswer) => refuse(
            ReviewFailureView::NoConsole,
        ),
        (ReviewStage::Reviewing, ReviewEventView::ToolReturned) => prompt(name),
        (ReviewStage::Reviewing, ReviewEventView::Failed(_)) => prompt(name),
        (ReviewStage::Approving, ReviewEventView::Promoted) => (
            ReviewStage::Approved,
            ReviewActionView::Done,
        ),
        (_, ReviewEventView::Failed(why)) => refuse(ReviewFailureView::Failed(why)),
        _ => refuse(ReviewFailureView::OutOfTurn),
    }
}

/// Asks the user.
fn ask(name: &str) -> (r: (ReviewStage, ReviewAction))
    ensures
        (r.0, r.1@) == prompt(name@),
{
    let mut text = "Downloaded ".to_owned();
    text.append(name);
    text.append(". V=view PKGBUILD, E=edit PKGBUILD, I=run shell to inspect, O=ok, use the file: ");
    (ReviewStage::AwaitingReview, ReviewAction::Prompt { text })
}

/// Gives the review up for `failure`.
fn give_up(failure: ReviewFailure) -> (r: (ReviewStage, ReviewAction))
    ensures
        (r.0, r.1@) == refuse(failure@),
{
    (ReviewStage::Aborted, ReviewAction::Abort(failure))
}

/// What `choice` leads to.
fn follow(choice: ReviewChoice) -> (r: (ReviewStage, ReviewAction))
    ensures
        (r.0, r.1@) == chosen(choice),
{
    match choice {
        ReviewChoice::View => {
            let mut arguments: Vec<String> = Vec::new();
            arguments.push("PKGBUILD".to_owned());
            assert(views(arguments@) =~= seq![recipe_name()]);
            (
                ReviewStage::Reviewing,
                ReviewAction::RunTool {
                    notice: None,
                    variable: "PAGER".to_owned(),
                    fallback: "less".to_owned(),
                    arguments,
                },
            )
        },
        ReviewChoice::Edit => {
            let mut arguments: Vec<String> = Vec::new();
            arguments.push("PKGBUILD".to_owned());
            assert(views(arguments@) =~= seq![recipe_name()]);
            (
                ReviewStage::Reviewing,
                ReviewAction::RunTool {
                    notice: None,
                    variable: "EDITOR".to_owned(),
                    fallback: "nano".to_owned(),
                    arguments,
                },
            )
        },
        ReviewChoice::Inspect => {
            let arguments: Vec<String> = Vec::new();
            assert(views(arguments@) =~= Seq::empty());
            (
                ReviewStage::Reviewing,
                ReviewAction::RunTool {
                    notice: Some("Exit the shell with `logout` or Ctrl-D...".to_owned()),
                    variable: "SHELL".to_owned(),
                    fallback: "bash".to_owned(),
                    arguments,
                },
            )
        },
        ReviewChoice::Approve => (
            ReviewStage::Approving,
            ReviewAction::Promote { from: "aur.tmp".to_owned(), to: "build".to_owned() },
        ),
    }
}

/// Begins the review of `name`.
fn begin(name: &str, cache: Option<&str>) -> (r: (ReviewStage, ReviewAction))
    ensures
        (r.0, r.1@) == review_start(
            name@,
            match cache {
                Some(c) => Some(c@),
                None => None,
            },
        ),
{
    if !is_valid_package_name(name) {
        return give_up(ReviewFailure::InvalidName);
    }
    match cache {
        None => give_up(ReviewFailure::NoCacheDir),
        Some(c) => (
            ReviewStage::Locating,
            ReviewAction::Locate {
                dir: join_path(c, name),
                build: "build".to_owned(),
                target: "target".to_owned(),
            },
        ),
    }
}

/// The command that clones the recipe of `name`.
fn clone_recipe(name: &str) -> (r: (ReviewStage, ReviewAction))
    ensures
        r.0 == ReviewStage::Fetching,
        r.1@ == (ReviewActionView::Clone { scratch: scratch_name(), command: clone_command(name@) }),
{
    let mut address = "https://aur.archlinux.org/".to_owned();
    address.append(name);
    address.append(".git");
    let mut args: Vec<String> = Vec::new();
    args.push("clone".to_owned());
    args.push(address);
    args.push("aur.tmp".to_owned());
    assert(views(args@) =~= clone_command(name@).args);
    (
        ReviewStage::Fetching,
        ReviewAction::Clone {
            scratch: "aur.tmp".to_owned(),
            command: CommandLine { program: "git".to_owned(), args },
        },
    )
}

/// One step of the review of the package `name`, whose cache lies under
/// `cache`: takes the stage the review is in and what the last action
/// reported, and answers with the stage that follows and the next
/// action. The review begins in [`ReviewStage::Start`] with
/// [`ReviewEvent::Begin`]; `cache` is looked at in that step alone.
pub fn review_step(name: &str, cache: Option<&str>, stage: ReviewStage, event: ReviewEvent) -> (r: (
    ReviewStage,
    ReviewAction,
))
    ensures
        (r.0, r.1@) == review_transition(
            name@,
            match cache {
                Some(c) => Some(c@),
                None => None,
            },
            stage,
            event@,
        ),
{
    match stage {
        ReviewStage::Approved => (ReviewStage::Approved, ReviewAction::Done),
        ReviewStage::Aborted => (ReviewStage::Aborted, ReviewAction::Done),
        ReviewStage::Start => match event {
            ReviewEvent::Begin => begin(name, cache),
            ReviewEvent::Failed(why) => give_up(ReviewFailure::Failed(why)),
            _ => give_up(ReviewFailure::OutOfTurn),
        },
        ReviewStage::Locating => match event {
            ReviewEvent::Located { build, target } => if build || target {
                (ReviewStage::Approved, ReviewAction::Done)
            } else {
                clone_recipe(name)
            },
            ReviewEvent::Failed(why) => give_up(ReviewFailure::Failed(why)),
            _ => give_up(ReviewFailure::OutOfTurn),
        },
        ReviewStage::Fetching => match event {
            ReviewEvent::Cloned(output) => match assert_command_success(output) {
                Ok(_) => (
                    ReviewStage::Fetched,
                    ReviewAction::FindRecipe {
                        dir: "aur.tmp".to_owned(),
                        recipe: "PKGBUILD".to_owned(),
                    },
                ),
                Err(failed) => give_up(ReviewFailure::CloneFailed(failed)),
            },
            ReviewEvent::Failed(why) => give_up(ReviewFailure::Failed(why)),
            _ => give_up(ReviewFailure::OutOfTurn),
        },
        ReviewStage::Fetched => match event {
            ReviewEvent::RecipeFound(found) => if found {
                ask(name)
            } else {
                give_up(ReviewFailure::RecipeMissing)
            },
            ReviewEvent::Failed(why) => give_up(ReviewFailure::Failed(why)),
            _ => give_up(ReviewFailure::OutOfTurn),
        },
        ReviewStage::AwaitingReview => match event {
            ReviewEvent::Answered(line) => match parse_choice(line.as_str()) {
                Some(choice) => follow(choice),
                None => ask(name),
            },
            ReviewEvent::NoAnswer => give_up(ReviewFailure::NoConsole),
            ReviewEvent::Failed(why) => give_up(ReviewFailure::Failed(why)),
            _ => give_up(ReviewFailure::OutOfTurn),
        },
        ReviewStage::Reviewing => match event {
            ReviewEvent::ToolReturned => ask(name),
            ReviewEvent::Failed(_) => ask(name),
            _ => give_up(ReviewFailure::OutOfTurn),
        },
        ReviewStage::Approving => match event {
            ReviewEvent::Promoted => (ReviewStage::Approved, ReviewAction::Done),
            ReviewEvent::Failed(why) => give_up(ReviewFailure::Failed(why)),
            _ => give_up(ReviewFailure::OutOfTurn),
        },
    }
}

/// The project directories of the `directories` crate.
#[verifier::external_type_specification]
#[verifier::external_body]
pub struct ExProjectDirs(ProjectDirs);

/// The cache directory that project directories name, as text, or
/// nothing where its path cannot be written as text.
pub uninterp spec fn cache_dir_of(dirs: ProjectDirs) -> Option<Seq<char>>;

/// Calls `ProjectDirs::cache_dir` of the `directories` crate, which
/// hands out a path that `dirs` holds, and writes the path as text,
/// where it can be written so. Trusted: the result is the one that
/// `cache_dir_of` names for `dirs`. Nothing is claimed of what the path
/// is: that was settled by the user and the environment when `dirs` was
/// made.
#[verifier::external_body]
fn cache_dir_text(dirs: &ProjectDirs) -> (r: Option<String>)
    ensures
        match r {
            Some(path) => cache_dir_of(*dirs) == Some(path@),
            None => cache_dir_of(*dirs) is None,
        },
{
    dirs.cache_dir().to_str().map(str::to_owned)
}

/// One step of the review of the package `name`, with the cache that
/// `dirs` names: [`review_step`] on that cache.
pub fn download_if_absent(name: &str, dirs: &ProjectDirs, stage: ReviewStage, event: ReviewEvent) -> (r:
    (ReviewStage, ReviewAction))
    ensures
        (r.0, r.1@) == review_transition(name@, cache_dir_of(*dirs), stage, event@),
{
    let cache = cache_dir_text(dirs);
    match &cache {
        Some(c) => review_step(name, Some(c.as_str()), stage, event),
        None => review_step(name, None, stage, event),
    }
}

/// An approved copy is kept: whenever the cache directory of a package
/// holds one, under either name, the review ends at once. From the
/// first step to the last nothing is cloned and nothing is asked: the
/// first step looks at the cache or gives up, the second ends the
/// review, and from then on nothing more is asked for. The answer does
/// not depend on what went before, so it is the same every time.
pub proof fn lemma_approved_copy_is_kept(
    name: Seq<char>,
    cache: Option<Seq<char>>,
    build: bool,
    target: bool,
)
    requires
        build || target,
    ensures
        review_transition(name, cache, ReviewStage::Start, ReviewEventView::Begin).1 is Locate
            || review_transition(name, cache, ReviewStage::Start, ReviewEventView::Begin).1
            is Abort,
        review_transition(
            name,
            cache,
            ReviewStage::Locating,
            ReviewEventView::Located { build, target },
        ) == (ReviewStage::Approved, ReviewActionView::Done),
        forall|event: ReviewEventView|
            review_transition(name, cache, ReviewStage::Approved, event) == (
                ReviewStage::Approved,
                ReviewActionView::Done,
            ),
{
}

/// A name that is no package name ends the review in its first step:
/// the only action ever asked for is to give up, so nothing is created,
/// removed, cloned or run.
pub proof fn lemma_invalid_name_aborts(
    name: Seq<char>,
    cache: Option<Seq<char>>,
    event: ReviewEventView,
)
    requires
        !is_package_name(name),
    ensures
        review_transition(name, cache, ReviewStage::Start, ReviewEventView::Begin) == refuse(
            ReviewFailureView::InvalidName,
        ),
        review_transition(name, cache, ReviewStage::Aborted, event) == (
            ReviewStage::Aborted,
            ReviewActionView::Done,
        ),
{
}

/// A name with a slash in it is no package name.
pub proof fn lemma_slash_is_refused(name: Seq<char>)
    requires
        name.contains('/'),
    ensures
        !is_package_name(name),
{
    let i = choose|i: int| 0 <= i < name.len() && name[i] == '/';
    if is_package_name(name) {
        lemma_name_characters(name, i);
    }
}

/// The recipe is approved by the user alone. The stage `Approving` is
/// entered only from `AwaitingReview`, on a line that stands for
/// approval; and the stage `Approved` is entered only from there, once
/// the scratch directory has been renamed, or where an approved copy
/// was found in the cache.
pub proof fn lemma_approval_is_explicit(
    name: Seq<char>,
    cache: Option<Seq<char>>,
    stage: ReviewStage,
    event: ReviewEventView,
)
    ensures
        review_transition(name, cache, stage, event).0 == ReviewStage::Approving ==> stage
            == ReviewStage::AwaitingReview && (event matches ReviewEventView::Answered(line)
            && choice_of(line) == Some(ReviewChoice::Approve)),
        review_transition(name, cache, stage, event).0 == ReviewStage::Approved ==> {
            ||| stage == ReviewStage::Approved
            ||| stage == ReviewStage::Approving && event == ReviewEventView::Promoted
            ||| stage == ReviewStage::Locating && (event matches ReviewEventView::Located {
                build,
                target,
            } && (build || target))
        },
{
}

} // verus!
