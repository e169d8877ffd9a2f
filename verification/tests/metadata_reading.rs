use rua::command::CommandOutput;
use rua::metadata::{
    archive_name, archive_names, generate_srcinfo, read_metadata, srcinfo_invocation,
    tool_failure_message, Metadata, MetadataError, Package,
};
use rua::sandbox::{Access, NetworkMode, RuaDirs};
use srcinfo::Srcinfo;

fn strings(v: &[&str]) -> Vec<String> {
    v.iter().map(|s| s.to_string()).collect()
}

fn package(name: &str, arch: &[&str]) -> Package {
    Package { pkgname: name.to_string(), arch: strings(arch) }
}

fn metadata(epoch: Option<&str>, pkgver: &str, pkgrel: &str, pkgs: Vec<Package>) -> Metadata {
    Metadata {
        epoch: epoch.map(|e| e.to_string()),
        pkgver: pkgver.to_string(),
        pkgrel: pkgrel.to_string(),
        pkgs,
    }
}

const SPLIT: &str = "pkgbase = tools
\tpkgver = 2.5
\tpkgrel = 3
\tepoch = 1
\tarch = x86_64
\tarch = aarch64

pkgname = tools

pkgname = tools-doc
\tarch = any
";

#[test]
fn artifact_name_uses_the_host_architecture_where_it_is_supported() {
    let p = package("foo", &["x86_64"]);
    assert_eq!(archive_name(&p, "1.0-1", "x86_64", ".pkg.tar.zst"), "foo-1.0-1-x86_64.pkg.tar.zst");
}

#[test]
fn artifact_name_uses_any_where_the_host_is_not_supported() {
    let p = package("foo", &["armv7h"]);
    assert_eq!(archive_name(&p, "1.0-1", "x86_64", ".pkg.tar.zst"), "foo-1.0-1-any.pkg.tar.zst");
}

#[test]
fn artifact_name_of_a_package_for_any_architecture() {
    let p = package("foo-doc", &["any"]);
    assert_eq!(archive_name(&p, "2-1", "x86_64", ".pkg.tar.xz"), "foo-doc-2-1-any.pkg.tar.xz");
    let none = package("bare", &[]);
    assert_eq!(archive_name(&none, "2-1", "x86_64", ".pkg.tar"), "bare-2-1-any.pkg.tar");
}

#[test]
fn artifact_names_follow_the_packages_in_order() {
    let m = metadata(
        None,
        "1.0",
        "1",
        vec![package("foo", &["x86_64"]), package("foo-arm", &["armv7h"])],
    );
    assert_eq!(
        archive_names(&m, "x86_64", ".pkg.tar.zst"),
        strings(&["foo-1.0-1-x86_64.pkg.tar.zst", "foo-arm-1.0-1-any.pkg.tar.zst"])
    );
    assert_eq!(archive_names(&metadata(None, "1", "1", Vec::new()), "x86_64", ".z"), strings(&[]));
}

#[test]
fn version_joins_version_and_release() {
    assert_eq!(metadata(None, "1.0", "1", Vec::new()).version(), "1.0-1");
}

#[test]
fn version_leads_with_the_epoch() {
    assert_eq!(metadata(Some("2"), "1.0", "1", Vec::new()).version(), "2:1.0-1");
}

#[test]
fn version_agrees_with_the_parser() {
    let parsed: Srcinfo = SPLIT.parse().expect("valid metadata");
    let read = read_metadata(SPLIT).ok().expect("valid metadata");
    assert_eq!(read.version(), parsed.version());
    assert_eq!(read.version(), "1:2.5-3");
}

#[test]
fn read_metadata_keeps_names_and_architectures() {
    let m = read_metadata(SPLIT).ok().expect("valid metadata");
    assert_eq!(m.epoch, Some("1".to_string()));
    assert_eq!(m.pkgver, "2.5");
    assert_eq!(m.pkgrel, "3");
    assert_eq!(m.pkgs.len(), 2);
    assert_eq!(m.pkgs[0].pkgname, "tools");
    assert_eq!(m.pkgs[0].arch, strings(&["x86_64", "aarch64"]));
    assert_eq!(m.pkgs[1].pkgname, "tools-doc");
    assert_eq!(m.pkgs[1].arch, strings(&["any"]));
    assert_eq!(
        archive_names(&m, "aarch64", ".pkg.tar.zst"),
        strings(&["tools-1:2.5-3-aarch64.pkg.tar.zst", "tools-doc-1:2.5-3-any.pkg.tar.zst"])
    );
}

#[test]
fn read_metadata_rejects_what_the_parser_rejects() {
    let text = "pkgname = early\n";
    assert!(text.parse::<Srcinfo>().is_err());
    match read_metadata(text) {
        Err(MetadataError::Unparsable { text: carried, reason }) => {
            assert_eq!(carried, text);
            assert_eq!(reason, text.parse::<Srcinfo>().err().expect("an error").to_string());
        }
        _ => panic!("a parse error was expected"),
    }
}

#[test]
fn metadata_invocation_is_isolated_and_read_only() {
    let dirs = RuaDirs { wrapper_bwrap_script: "wrap.sh".to_string() };
    let inv = srcinfo_invocation("/pkg/foo", &dirs);
    assert_eq!(inv.network, NetworkMode::Isolated);
    assert_eq!(inv.working_dir, "/pkg/foo");
    assert_eq!(inv.output_dir, "/tmp");
    assert_eq!(inv.binds.len(), 1);
    assert_eq!(inv.binds[0].host, "/pkg/foo");
    assert_eq!(inv.binds[0].guest, "/pkg/foo");
    assert_eq!(inv.binds[0].access, Access::ReadOnly);
    assert_eq!(inv.command, strings(&["makepkg", "--holdver", "--printsrcinfo"]));
    let line = inv.command_line();
    assert_eq!(line.program, "wrap.sh");
    assert_eq!(
        line.args,
        strings(&[
            "--unshare-net", "--ro-bind", "/pkg/foo", "/pkg/foo", "makepkg", "--holdver",
            "--printsrcinfo"
        ])
    );
}

#[test]
fn generate_srcinfo_reads_the_output_of_a_successful_run() {
    let run = Ok(CommandOutput {
        code: Some(0),
        stdout: SPLIT.as_bytes().to_vec(),
        stderr: b"warnings".to_vec(),
    });
    let m = generate_srcinfo(run).ok().expect("metadata");
    assert_eq!(m.pkgs.len(), 2);
    assert_eq!(m.version(), "1:2.5-3");
}

#[test]
fn generate_srcinfo_reports_a_command_that_did_not_start() {
    match generate_srcinfo(Err("No such file or directory".to_string())) {
        Err(e) => {
            assert!(matches!(e, MetadataError::NotExecuted { .. }));
            assert_eq!(
                e.message(),
                "cannot execute makepkg --holdver --printsrcinfo, No such file or directory"
            );
        }
        Ok(_) => panic!("an error was expected"),
    }
}

#[test]
fn generate_srcinfo_reports_a_failed_tool_with_its_output() {
    let run = Ok(CommandOutput {
        code: Some(1),
        stdout: SPLIT.as_bytes().to_vec(),
        stderr: b"==> ERROR".to_vec(),
    });
    match generate_srcinfo(run) {
        Err(MetadataError::ToolFailed { stdout, stderr }) => {
            assert_eq!(stdout, SPLIT.as_bytes().to_vec());
            assert_eq!(stderr, b"==> ERROR".to_vec());
        }
        _ => panic!("a tool failure was expected"),
    }
    let killed = Ok(CommandOutput { code: None, stdout: Vec::new(), stderr: Vec::new() });
    assert!(matches!(generate_srcinfo(killed), Err(MetadataError::ToolFailed { .. })));
}

#[test]
fn generate_srcinfo_reports_output_that_is_no_text() {
    let run = Ok(CommandOutput { code: Some(0), stdout: vec![b'p', 0xC3, 0x28], stderr: Vec::new() });
    match generate_srcinfo(run) {
        Err(e) => {
            assert_eq!(
                e.message(),
                "Non-UTF8 in output of makepkg --holdver --printsrcinfo, Stdout:\np\u{FFFD}("
            );
            match e {
                MetadataError::NotText { stdout } => assert_eq!(stdout, vec![b'p', 0xC3, 0x28]),
                _ => panic!("output that is no text was expected"),
            }
        }
        Ok(_) => panic!("an error was expected"),
    }
}

#[test]
fn generate_srcinfo_reports_text_that_is_no_metadata() {
    let run = Ok(CommandOutput { code: Some(0), stdout: b"hello".to_vec(), stderr: Vec::new() });
    match generate_srcinfo(run) {
        Err(e) => {
            let message = e.message();
            match e {
                MetadataError::Unparsable { text, reason } => {
                    assert_eq!(text, "hello");
                    assert_eq!(
                        message,
                        format!("Failed to parse SRCINFO:\nhello\nError is: {}", reason)
                    );
                }
                _ => panic!("a parse error was expected"),
            }
        }
        Ok(_) => panic!("an error was expected"),
    }
}

#[test]
fn tool_failure_message_shows_both_streams() {
    assert_eq!(
        tool_failure_message("out", "err"),
        "makepkg failed to execute, Stdout:\nout\n\nStderr:\nerr\n"
    );
    let e = MetadataError::ToolFailed { stdout: vec![b'o', 0xFF], stderr: b"e".to_vec() };
    assert_eq!(e.message(), "makepkg failed to execute, Stdout:\no\u{FFFD}\n\nStderr:\ne\n");
}
