//! Package metadata: how it is obtained from the build tool inside the
//! sandbox, and the artifact names that follow from it.

use crate::command::{exit_success, is_exit_success, CommandOutput, CommandOutputView};
use crate::sandbox::{
    bind_views, wrap_yes_internet, Access, BindMount, BindMountView, NetworkMode, RuaDirs,
    SandboxInvocation, SandboxInvocationView,
};
use crate::text::{contains_string, lossy_text, utf8_lossy, views};
use srcinfo::Srcinfo;
use std::str::FromStr;
use vstd::prelude::*;
use vstd::string::*;
use vstd::utf8::{decode_utf8, valid_utf8};

verus! {

/// One package that a recipe produces.
pub struct Package {
    pub pkgname: String,
    /// The architectures the package can be built for.
    pub arch: Vec<String>,
}

/// The mathematical value of a [`Package`].
pub struct PackageView {
    pub pkgname: Seq<char>,
    pub arch: Seq<Seq<char>>,
}

impl View for Package {
    type V = PackageView;

    open spec fn view(&self) -> PackageView {
        PackageView { pkgname: self.pkgname@, arch: views(self.arch@) }
    }
}

/// What a recipe says of the packages it produces.
pub struct Metadata {
    pub epoch: Option<String>,
    pub pkgver: String,
    pub pkgrel: String,
    /// The packages, in the order the recipe names them.
    pub pkgs: Vec<Package>,
}

/// The mathematical value of a [`Metadata`].
pub struct MetadataView {
    pub epoch: Option<Seq<char>>,
    pub pkgver: Seq<char>,
    pub pkgrel: Seq<char>,
    pub pkgs: Seq<PackageView>,
}

/// The views of a sequence of packages.
pub open spec fn package_views(v: Seq<Package>) -> Seq<PackageView> {
    Seq::new(v.len(), |i: int| v[i]@)
}

impl View for Metadata {
    type V = MetadataView;

    open spec fn view(&self) -> MetadataView {
        MetadataView {
            epoch: match self.epoch {
                Some(e) => Some(e@),
                None => None,
            },
            pkgver: self.pkgver@,
            pkgrel: self.pkgrel@,
            pkgs: package_views(self.pkgs@),
        }
    }
}

/// The full version of the packages: the epoch and a colon where there is
/// an epoch, then the version, a hyphen and the release.
pub open spec fn version_of(m: MetadataView) -> Seq<char> {
    match m.epoch {
        Some(epoch) => epoch + ":"@ + m.pkgver + "-"@ + m.pkgrel,
        None => m.pkgver + "-"@ + m.pkgrel,
    }
}

impl Metadata {
    /// The full version of the packages.
    pub fn version(&self) -> (r: String)
        ensures
            r@ == version_of(self@),
    {
        let mut r = String::new();
        match &self.epoch {
            Some(epoch) => {
                r.append(epoch.as_str());
                r.append(":");
            },
            None => {},
        }
        r.append(self.pkgver.as_str());
        r.append("-");
        r.append(self.pkgrel.as_str());
        assert(r@ =~= version_of(self@));
        r
    }
}

/// The token that stands for "any architecture" in an artifact's name.
pub open spec fn any_architecture() -> Seq<char> {
    "any"@
}

/// The architecture in the name of a package's artifact: the host's, if
/// the package supports it, else the token for any architecture.
pub open spec fn archive_arch(arch: Seq<Seq<char>>, host: Seq<char>) -> Seq<char> {
    if arch.contains(host) {
        host
    } else {
        any_architecture()
    }
}

/// The file name of a package's artifact.
pub open spec fn archive_name_of(
    package: PackageView,
    version: Seq<char>,
    host: Seq<char>,
    extension: Seq<char>,
) -> Seq<char> {
    package.pkgname + "-"@ + version + "-"@ + archive_arch(package.arch, host) + extension
}

/// The file names of all artifacts of a recipe, in the order of its
/// packages.
pub open spec fn archive_names_of(
    m: MetadataView,
    host: Seq<char>,
    extension: Seq<char>,
) -> Seq<Seq<char>> {
    Seq::new(m.pkgs.len(), |i: int| archive_name_of(m.pkgs[i], version_of(m), host, extension))
}

/// The file name of the artifact of `package` at `version`, built on a
/// host of architecture `host`, with the archive suffix `extension`.
pub fn archive_name(package: &Package, version: &str, host: &str, extension: &str) -> (r: String)
    ensures
        r@ == archive_name_of(package@, version@, host@, extension@),
{
    let mut r = package.pkgname.clone();
    r.append("-");
    r.append(version);
    r.append("-");
    if contains_string(&package.arch, host) {
        r.append(host);
    } else {
        r.append("any");
    }
    r.append(extension);
    assert(r@ =~= archive_name_of(package@, version@, host@, extension@));
    r
}

/// The file names of the artifacts that a build of the recipe behind
/// `metadata` produces on a host of architecture `host`.
pub fn archive_names(metadata: &Metadata, host: &str, extension: &str) -> (r: Vec<String>)
    ensures
        views(r@) == archive_names_of(metadata@, host@, extension@),
{
    let version = metadata.version();
    let mut r: Vec<String> = Vec::new();
    let mut i: usize = 0;
    while i < metadata.pkgs.len()
        invariant
            i <= metadata.pkgs.len(),
            r.len() == i,
            version@ == version_of(metadata@),
            forall|k: int|
                0 <= k < i ==> r@[k]@ == archive_name_of(
                    #[trigger] metadata.pkgs@[k]@,
                    version@,
                    host@,
                    extension@,
                ),
        decreases metadata.pkgs.len() - i,
    {
        r.push(archive_name(&metadata.pkgs[i], version.as_str(), host, extension));
        i += 1;
    }
    assert(views(r@) =~= archive_names_of(metadata@, host@, extension@));
    r
}

/// What the parser of the `srcinfo` crate makes of a text: the metadata
/// it reads from it, or, where it rejects the text, the words it
/// describes its error with.
pub uninterp spec fn srcinfo_parse(text: Seq<char>) -> Result<MetadataView, Seq<char>>;

/// Calls `Srcinfo::from_str` of the `srcinfo` crate. Of the metadata it
/// returns, the epoch, version and release and each package's name and
/// architectures are kept; of an error, its description. Trusted: the
/// result is the one that `srcinfo_parse` names for this text.
#[verifier::external_body]
fn parse_srcinfo(text: &str) -> (r: Result<Metadata, String>)
    ensures
        match r {
            Ok(m) => srcinfo_parse(text@) == Ok::<MetadataView, Seq<char>>(m@),
            Err(reason) => srcinfo_parse(text@) == Err::<MetadataView, Seq<char>>(reason@),
        },
{
    match Srcinfo::from_str(text) {
        Ok(info) => Ok(
            Metadata {
                epoch: info.base.epoch,
                pkgver: info.base.pkgver,
                pkgrel: info.base.pkgrel,
                pkgs: info.pkgs.into_iter().map(
                    |p| Package { pkgname: p.pkgname, arch: p.arch },
                ).collect(),
            },
        ),
        Err(e) => Err(e.to_string()),
    }
}

/// Calls `std::str::from_utf8`. Trusted: the bytes are returned as text
/// exactly where they are valid UTF-8, and the text is what they decode
/// to.
#[verifier::external_body]
fn text_of(bytes: &[u8]) -> (r: Option<&str>)
    ensures
        r is Some == valid_utf8(bytes@),
        r matches Some(s) ==> s@ == decode_utf8(bytes@),
{
    std::str::from_utf8(bytes).ok()
}

/// Why no metadata could be had.
pub enum MetadataError {
    /// The build tool could not be started.
    NotExecuted { reason: String },
    /// The build tool ended with a failure.
    ToolFailed { stdout: Vec<u8>, stderr: Vec<u8> },
    /// The build tool printed something that is not text.
    NotText { stdout: Vec<u8> },
    /// The build tool printed text that is not metadata.
    Unparsable { text: String, reason: String },
}

/// The mathematical value of a [`MetadataError`].
pub enum MetadataErrorView {
    NotExecuted { reason: Seq<char> },
    ToolFailed { stdout: Seq<u8>, stderr: Seq<u8> },
    NotText { stdout: Seq<u8> },
    Unparsable { text: Seq<char>, reason: Seq<char> },
}

impl View for MetadataError {
    type V = MetadataErrorView;

    open spec fn view(&self) -> MetadataErrorView {
        match self {
            MetadataError::NotExecuted { reason } => MetadataErrorView::NotExecuted {
                reason: reason@,
            },
            MetadataError::ToolFailed { stdout, stderr } => MetadataErrorView::ToolFailed {
                stdout: stdout@,
                stderr: stderr@,
            },
            MetadataError::NotText { stdout } => MetadataErrorView::NotText { stdout: stdout@ },
            MetadataError::Unparsable { text, reason } => MetadataErrorView::Unparsable {
                text: text@,
                reason: reason@,
            },
        }
    }
}

/// The report of a build tool that failed, given what it wrote as text.
pub open spec fn tool_failure_text(stdout: Seq<char>, stderr: Seq<char>) -> Seq<char> {
    "makepkg failed to execute, Stdout:\n"@ + stdout + "\n\nStderr:\n"@ + stderr + "\n"@
}

/// What an error is reported with. Each report holds what the build
/// tool printed; what is no text in it is shown with a replacement
/// character in its place.
pub open spec fn metadata_error_message(error: MetadataErrorView) -> Seq<char> {
    match error {
        MetadataErrorView::NotExecuted { reason } =>
            "cannot execute makepkg --holdver --printsrcinfo, "@ + reason,
        MetadataErrorView::ToolFailed { stdout, stderr } => tool_failure_text(
            utf8_lossy(stdout),
            utf8_lossy(stderr),
        ),
        MetadataErrorView::NotText { stdout } =>
            "Non-UTF8 in output of makepkg --holdver --printsrcinfo, Stdout:\n"@ + utf8_lossy(
            stdout,
        ),
        MetadataErrorView::Unparsable { text, reason } => "Failed to parse SRCINFO:\n"@ + text
            + "\nError is: "@ + reason,
    }
}

/// The report of a build tool that failed and wrote `stdout` and
/// `stderr`.
pub fn tool_failure_message(stdout: &str, stderr: &str) -> (r: String)
    ensures
        r@ == tool_failure_text(stdout@, stderr@),
{
    let mut r = "makepkg failed to execute, Stdout:\n".to_owned();
    r.append(stdout);
    r.append("\n\nStderr:\n");
    r.append(stderr);
    r.append("\n");
    assert(r@ =~= tool_failure_text(stdout@, stderr@));
    r
}

impl MetadataError {
    /// What the error is reported with.
    pub fn message(&self) -> (r: String)
        ensures
            r@ == metadata_error_message(self@),
    {
        match self {
            MetadataError::NotExecuted { reason } => {
                let mut r = "cannot execute makepkg --holdver --printsrcinfo, ".to_owned();
                r.append(reason.as_str());
                r
            },
            MetadataError::ToolFailed { stdout, stderr } => {
                let out = lossy_text(stdout.as_slice());
                let err = lossy_text(stderr.as_slice());
                tool_failure_message(out.as_str(), err.as_str())
            },
            MetadataError::NotText { stdout } => {
                let mut r =
                    "Non-UTF8 in output of makepkg --holdver --printsrcinfo, Stdout:\n".to_owned();
                r.append(lossy_text(stdout.as_slice()).as_str());
                r
            },
            MetadataError::Unparsable { text, reason } => {
                let mut r = "Failed to parse SRCINFO:\n".to_owned();
                r.append(text.as_str());
                r.append("\nError is: ");
                r.append(reason.as_str());
                assert(r@ =~= metadata_error_message(self@));
                r
            },
        }
    }
}

/// The sandbox invocation that prints a recipe's metadata: the recipe's
/// directory bound read-only, the network cut off, output kept away from
/// the directory.
pub open spec fn metadata_invocation(dir: Seq<char>, wrapper: Seq<char>) -> SandboxInvocationView {
    SandboxInvocationView {
        wrapper: wrapper,
        working_dir: dir,
        output_dir: "/tmp"@,
        network: NetworkMode::Isolated,
        binds: seq![BindMountView { host: dir, guest: dir, access: Access::ReadOnly }],
        command: seq!["makepkg"@, "--holdver"@, "--printsrcinfo"@],
    }
}

/// The sandbox invocation that prints the metadata of the recipe in
/// `dir`. Whatever the caller builds with, it never has the network.
pub fn srcinfo_invocation(dir: &str, dirs: &RuaDirs) -> (r: SandboxInvocation)
    ensures
        r@ == metadata_invocation(dir@, dirs.wrapper_bwrap_script@),
        r@.network == NetworkMode::Isolated,
{
    let mut r = wrap_yes_internet(dirs, dir, "/tmp");
    r.network = NetworkMode::Isolated;
    r.binds.push(BindMount { host: dir.to_owned(), guest: dir.to_owned(), access: Access::ReadOnly });
    assert(views(r.command@).len() == 0);
    r.command.push("makepkg".to_owned());
    r.command.push("--holdver".to_owned());
    r.command.push("--printsrcinfo".to_owned());
    assert(bind_views(r.binds@) =~= metadata_invocation(dir@, dirs.wrapper_bwrap_script@).binds);
    assert(views(r.command@) =~= metadata_invocation(dir@, dirs.wrapper_bwrap_script@).command);
    r
}

/// What was read, or why nothing was, as mathematical values.
pub open spec fn outcome_view(r: Result<Metadata, MetadataError>) -> Result<
    MetadataView,
    MetadataErrorView,
> {
    match r {
        Ok(m) => Ok(m@),
        Err(e) => Err(e@),
    }
}

/// What reading a text as metadata gives: the metadata that the parser
/// reads from it, or an error that carries the text and the parser's
/// description of what is wrong with it.
pub open spec fn metadata_of_text(text: Seq<char>) -> Result<MetadataView, MetadataErrorView> {
    match srcinfo_parse(text) {
        Ok(m) => Ok(m),
        Err(reason) => Err(MetadataErrorView::Unparsable { text, reason }),
    }
}

/// What a run of the metadata invocation gives. A command that could
/// not be started, a command that failed, output that is no text and
/// text that is no metadata are each an error, and each error carries
/// what the command left behind. Nothing is made up in the place of
/// metadata that could not be read.
pub open spec fn metadata_of_run(run: Result<CommandOutputView, Seq<char>>) -> Result<
    MetadataView,
    MetadataErrorView,
> {
    match run {
        Err(reason) => Err(MetadataErrorView::NotExecuted { reason }),
        Ok(output) => if !exit_success(output.code) {
            Err(MetadataErrorView::ToolFailed { stdout: output.stdout, stderr: output.stderr })
        } else if !valid_utf8(output.stdout) {
            Err(MetadataErrorView::NotText { stdout: output.stdout })
        } else {
            metadata_of_text(decode_utf8(output.stdout))
        },
    }
}

/// A finished command, or the reason why it could not be started, as
/// mathematical values.
pub open spec fn run_view(run: Result<CommandOutput, String>) -> Result<
    CommandOutputView,
    Seq<char>,
> {
    match run {
        Ok(output) => Ok(output@),
        Err(why) => Err(why@),
    }
}

/// Reads `text` as metadata.
pub fn read_metadata(text: &str) -> (r: Result<Metadata, MetadataError>)
    ensures
        outcome_view(r) == metadata_of_text(text@),
{
    match parse_srcinfo(text) {
        Ok(m) => Ok(m),
        Err(reason) => Err(MetadataError::Unparsable { text: text.to_owned(), reason }),
    }
}

/// Turns what the metadata invocation reported into metadata. `run` is
/// the output of the finished command, or the reason why it could not be
/// started.
pub fn generate_srcinfo(run: Result<CommandOutput, String>) -> (r: Result<Metadata, MetadataError>)
    ensures
        outcome_view(r) == metadata_of_run(run_view(run)),
{
    match run {
        Err(why) => Err(MetadataError::NotExecuted { reason: why }),
        Ok(output) => {
            if !is_exit_success(output.code) {
                return Err(
                    MetadataError::ToolFailed { stdout: output.stdout, stderr: output.stderr },
                );
            }
            match text_of(output.stdout.as_slice()) {
                Some(text) => read_metadata(text),
                None => Err(MetadataError::NotText { stdout: output.stdout }),
            }
        },
    }
}

} // verus!
