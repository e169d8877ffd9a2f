//! Command lines as plain values, and what a finished command reports.

use crate::text::{
    chars_of, copy_strings, decimal, decimal_text, lossy_text, trim, trim_bounds, utf8_lossy, views,
};
use vstd::prelude::*;
use vstd::string::*;

verus! {

/// A program and the arguments it is started with.
pub struct CommandLine {
    pub program: String,
    pub args: Vec<String>,
}

/// The mathematical value of a [`CommandLine`].
pub struct CommandLineView {
    pub program: Seq<char>,
    pub args: Seq<Seq<char>>,
}

impl View for CommandLine {
    type V = CommandLineView;

    open spec fn view(&self) -> CommandLineView {
        CommandLineView { program: self.program@, args: views(self.args@) }
    }
}

/// What a finished command left behind: its exit code, if it exited by
/// itself, and what it wrote.
pub struct CommandOutput {
    pub code: Option<i32>,
    pub stdout: Vec<u8>,
    pub stderr: Vec<u8>,
}

/// The mathematical value of a [`CommandOutput`].
pub struct CommandOutputView {
    pub code: Option<i32>,
    pub stdout: Seq<u8>,
    pub stderr: Seq<u8>,
}

impl View for CommandOutput {
    type V = CommandOutputView;

    open spec fn view(&self) -> CommandOutputView {
        CommandOutputView { code: self.code, stdout: self.stdout@, stderr: self.stderr@ }
    }
}

/// An exit code that stands for success.
pub open spec fn exit_success(code: Option<i32>) -> bool {
    code == Some(0i32)
}

/// Tells whether `code` stands for success.
pub fn is_exit_success(code: Option<i32>) -> (b: bool)
    ensures
        b == exit_success(code),
{
    match code {
        Some(c) => c == 0,
        None => false,
    }
}

/// Lets a finished command pass where it succeeded, and hands it back as
/// the error where it failed.
pub fn assert_command_success(command: CommandOutput) -> (r: Result<(), CommandOutput>)
    ensures
        r == if exit_success(command.code) {
            Ok::<(), CommandOutput>(())
        } else {
            Err(command)
        },
{
    if is_exit_success(command.code) {
        Ok(())
    } else {
        Err(command)
    }
}

/// An exit code as it is shown in a report: `Some(..)` around the
/// number, or `None`.
pub open spec fn exit_code_shown(code: Option<i32>) -> Seq<char> {
    match code {
        Some(c) => "Some("@ + decimal(c as int) + ")"@,
        None => "None"@,
    }
}

/// The report of a failed command: its exit code and what it wrote, as
/// text.
pub open spec fn failure_text(code: Option<i32>, stderr: Seq<char>, stdout: Seq<char>) -> Seq<
    char,
> {
    "Command failed with exit code "@ + exit_code_shown(code) + "\nStderr: "@ + stderr
        + "\nStdout: "@ + stdout
}

/// The report of a command that failed with `code` and wrote `stderr`
/// and `stdout`.
pub fn command_failure_text(code: Option<i32>, stderr: &str, stdout: &str) -> (r: String)
    ensures
        r@ == failure_text(code, stderr@, stdout@),
{
    let mut r = "Command failed with exit code ".to_owned();
    match code {
        Some(c) => {
            r.append("Some(");
            r.append(decimal_text(c).as_str());
            r.append(")");
        },
        None => {
            r.append("None");
        },
    }
    r.append("\nStderr: ");
    r.append(stderr);
    r.append("\nStdout: ");
    r.append(stdout);
    assert(r@ =~= failure_text(code, stderr@, stdout@));
    r
}

/// The report of a failed command; what it wrote is shown as text, with
/// a replacement character where it is none.
pub fn command_failure_message(output: &CommandOutput) -> (r: String)
    ensures
        r@ == failure_text(output.code, utf8_lossy(output.stderr@), utf8_lossy(output.stdout@)),
{
    let stderr = lossy_text(output.stderr.as_slice());
    let stdout = lossy_text(output.stdout.as_slice());
    command_failure_text(output.code, stderr.as_str(), stdout.as_str())
}

/// How many characters stand before the first space of `s`.
pub open spec fn first_space(s: Seq<char>) -> nat
    decreases s.len(),
{
    if s.len() == 0 || s[0] == ' ' {
        0
    } else {
        1 + first_space(s.drop_first())
    }
}

/// The pieces of `s` between its spaces, each trimmed, the empty ones
/// left out.
pub open spec fn words(s: Seq<char>) -> Seq<Seq<char>>
    decreases s.len(),
{
    let i = first_space(s) as int;
    let piece = trim(s.take(i));
    let head = if piece.len() > 0 {
        seq![piece]
    } else {
        Seq::empty()
    };
    if i >= s.len() {
        head
    } else {
        head + words(s.skip(i + 1))
    }
}

/// The words of a command given as one line of text.
pub open spec fn command_words(value: Seq<char>) -> Seq<Seq<char>> {
    words(trim(value))
}

/// With no space among the first `n` characters of `s`, and a space or the
/// end after them, the first space is at `n`.
pub proof fn lemma_first_space(s: Seq<char>, n: int)
    requires
        0 <= n <= s.len(),
        forall|k: int| 0 <= k < n ==> #[trigger] s[k] != ' ',
        n < s.len() ==> s[n] == ' ',
    ensures
        first_space(s) == n,
    decreases n,
{
    if n > 0 {
        let t = s.drop_first();
        assert forall|k: int| 0 <= k < n - 1 implies #[trigger] t[k] != ' ' by {
            assert(t[k] == s[k + 1]);
        }
        if n - 1 < t.len() {
            assert(t[n - 1] == s[n]);
        }
        lemma_first_space(t, n - 1);
    }
}

/// Splits a command given as one line of text into its words.
pub fn split_words(value: &str) -> (r: Vec<String>)
    ensures
        views(r@) == command_words(value@),
{
    let chars = chars_of(value);
    let (lo, hi) = trim_bounds(&chars, 0, chars.len());
    assert(chars@.subrange(0, chars.len() as int) =~= value@);
    let mut out: Vec<String> = Vec::new();
    let mut pos: usize = lo;
    let mut more = true;
    assert(views(out@) + words(chars@.subrange(pos as int, hi as int)) =~= words(
        chars@.subrange(lo as int, hi as int),
    ));
    while more
        invariant
            lo <= pos <= hi <= chars.len(),
            chars@ == value@,
            more ==> views(out@) + words(chars@.subrange(pos as int, hi as int)) == words(
                chars@.subrange(lo as int, hi as int),
            ),
            !more ==> views(out@) == words(chars@.subrange(lo as int, hi as int)),
        decreases
                (if more {
                    hi - pos + 1
                } else {
                    0
                }),
    {
        let ghost rest = chars@.subrange(pos as int, hi as int);
        let ghost before = views(out@);
        let mut j: usize = pos;
        while j < hi && chars[j] != ' '
            invariant
                pos <= j <= hi <= chars.len(),
                forall|k: int| pos <= k < j ==> #[trigger] chars@[k] != ' ',
            decreases hi - j,
        {
            j += 1;
        }
        proof {
            assert forall|k: int| 0 <= k < j - pos implies #[trigger] rest[k] != ' ' by {
                assert(rest[k] == chars@[pos + k]);
            }
            lemma_first_space(rest, j - pos);
            assert(rest.take(j - pos) =~= chars@.subrange(pos as int, j as int));
        }
        let (a, b) = trim_bounds(&chars, pos, j);
        if a < b {
            let word = value.substring_char(a, b).to_owned();
            out.push(word);
            assert(views(out@) =~= before + seq![chars@.subrange(a as int, b as int)]);
        }
        if j >= hi {
            more = false;
            assert(views(out@) =~= before + words(rest));
        } else {
            assert(rest.skip(j - pos + 1) =~= chars@.subrange(j + 1, hi as int));
            assert(views(out@) + words(chars@.subrange(j + 1, hi as int)) =~= before + words(
                rest,
            ));
            pos = j + 1;
        }
    }
    out
}

/// The command that stands for an optional override and a fallback
/// program: the override's first word is the program and its other words
/// come before `arguments`; without an override, or with one that holds
/// no word, the program is `alternative`.
pub open spec fn resolved_command(
    chosen: Option<Seq<char>>,
    alternative: Seq<char>,
    arguments: Seq<Seq<char>>,
) -> CommandLineView {
    let given = match chosen {
        Some(value) => command_words(value),
        None => Seq::empty(),
    };
    if given.len() > 0 {
        CommandLineView { program: given[0], args: given.skip(1) + arguments }
    } else {
        CommandLineView { program: alternative, args: arguments }
    }
}

/// Resolves the command to run for a review action: `chosen` is the value
/// of the variable that may override the program, `alternative` the
/// program to fall back to, `arguments` what is appended either way.
pub fn run_env_command(chosen: Option<&str>, alternative: &str, arguments: &Vec<String>) -> (r:
    CommandLine)
    ensures
        r@ == resolved_command(
            match chosen {
                Some(value) => Some(value@),
                None => None,
            },
            alternative@,
            views(arguments@),
        ),
{
    let mut given: Vec<String> = match chosen {
        Some(value) => split_words(value),
        None => Vec::new(),
    };
    let ghost words_given = views(given@);
    if given.len() > 0 {
        let program = given.remove(0);
        assert(views(given@) =~= words_given.skip(1));
        let mut args = given;
        let mut i: usize = 0;
        while i < arguments.len()
            invariant
                i <= arguments.len(),
                views(args@) == words_given.skip(1) + views(arguments@).take(i as int),
            decreases arguments.len() - i,
        {
            let ghost before = views(args@);
            args.push(arguments[i].clone());
            assert(views(args@) =~= before + seq![arguments@[i as int]@]);
            assert(views(arguments@).take(i + 1) =~= views(arguments@).take(i as int) + seq![
                arguments@[i as int]@,
            ]);
            i += 1;
        }
        assert(views(arguments@).take(arguments.len() as int) =~= views(arguments@));
        CommandLine { program, args }
    } else {
        CommandLine { program: alternative.to_owned(), args: copy_strings(arguments) }
    }
}

} // verus!
