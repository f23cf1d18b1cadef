//! Which kind of shell a command line belongs to.

use crate::error::{KubieError, KubieErrorView};
use crate::search::{first_position, last_position, lemma_first_position, lemma_last_position};
use crate::text::{after_last, chars_of, is_char, is_newline, is_not_char, option_str, str_eq};
use crate::text::{trim, trim_start, trimmed, up_to};
use vstd::prelude::*;
use vstd::string::StrSliceExecFns;

verus! {

/// The kinds of shell that can be spawned.
#[derive(Clone, Copy, Debug, PartialEq, Eq, Structural)]
pub enum ShellKind {
    Bash,
    Fish,
    Xonsh,
    Zsh,
    Nu,
}

/// The kind of the shell whose program is named `name`.
pub open spec fn shell_kind_of(name: Seq<char>) -> Option<ShellKind> {
    if name == "bash"@ || name == "dash"@ {
        Some(ShellKind::Bash)
    } else if name == "fish"@ {
        Some(ShellKind::Fish)
    } else if name == "xonsh"@ || name == "python"@ {
        Some(ShellKind::Xonsh)
    } else if name == "zsh"@ {
        Some(ShellKind::Zsh)
    } else if name == "nu"@ {
        Some(ShellKind::Nu)
    } else {
        None
    }
}

impl ShellKind {
    /// The kind of the shell whose program is named `name`, if it is the
    /// name of a shell that is known.
    pub fn from_str(name: &str) -> (r: Option<ShellKind>)
        ensures
            r == shell_kind_of(name@),
    {
        if str_eq(name, "bash") || str_eq(name, "dash") {
            Some(ShellKind::Bash)
        } else if str_eq(name, "fish") {
            Some(ShellKind::Fish)
        } else if str_eq(name, "xonsh") || str_eq(name, "python") {
            Some(ShellKind::Xonsh)
        } else if str_eq(name, "zsh") {
            Some(ShellKind::Zsh)
        } else if str_eq(name, "nu") {
            Some(ShellKind::Nu)
        } else {
            None
        }
    }
}

/// Whether `c` can stand in a version number: a digit or a dot.
pub open spec fn is_version_char(c: char) -> bool {
    ('0' <= c && c <= '9') || c == '.'
}

/// The characters that cannot stand in a version number.
pub open spec fn is_not_version_char() -> spec_fn(char) -> bool {
    |x: char| !is_version_char(x)
}

/// The name of the program of the command line `cmd`: the first word of
/// the line, without the directories that lead to the program, without
/// leading hyphens, which mark a login shell, and without a version number
/// at its end.
pub open spec fn program_name(cmd: Seq<char>) -> Seq<char> {
    let word = cmd.take(first_position(cmd, is_char(' ')));
    let binary = word.skip(last_position(word, is_char('/')) + 1);
    let plain = binary.skip(first_position(binary, is_not_char('-')));
    plain.take(last_position(plain, is_not_version_char()) + 1)
}

/// Whether `c` is a digit or a dot.
fn version_char(c: char) -> (r: bool)
    ensures
        r == is_version_char(c),
{
    ('0' <= c && c <= '9') || c == '.'
}

/// `s` without the digits and dots at its end.
fn trim_version<'a>(s: &'a str) -> (r: &'a str)
    ensures
        r@ == s@.take(last_position(s@, is_not_version_char()) + 1),
{
    let n = s.unicode_len();
    let mut i: usize = n;
    while i > 0 && version_char(s.get_char(i - 1))
        invariant
            n == s@.len(),
            i <= n,
            forall|j: int| i <= j < n ==> !is_not_version_char()(#[trigger] s@[j]),
        decreases i,
    {
        i -= 1;
    }
    proof {
        lemma_last_position(s@, is_not_version_char(), i as int - 1);
    }
    s.substring_char(0, i)
}

/// The name of the program of the command line `cmd`.
pub fn parse_command<'a>(cmd: &'a str) -> (r: &'a str)
    ensures
        r@ == program_name(cmd@),
{
    let word = up_to(cmd, ' ');
    let binary = after_last(word, '/');
    let plain = trim_start(binary, '-');
    trim_version(plain)
}

/// The characters that are no newline.
pub open spec fn is_not_newline() -> spec_fn(char) -> bool {
    |c: char| c != '\n'
}

/// The first line of `text` that is not empty, without its line ending.
pub open spec fn first_line(text: Seq<char>) -> Option<Seq<char>> {
    let start = first_position(text, is_not_newline());
    if start >= text.len() {
        None
    } else {
        let rest = text.skip(start);
        Some(rest.take(first_position(rest, is_newline())))
    }
}

/// The first line of `text` that is not empty.
fn first_line_of<'a>(text: &'a str) -> (r: Option<&'a str>)
    ensures
        option_str(r) == first_line(text@),
{
    let chars = chars_of(text);
    let n = chars.len();
    let mut start: usize = 0;
    while start < n && chars[start] == '\n'
        invariant
            chars@ == text@,
            n == text@.len(),
            start <= n,
            forall|j: int| 0 <= j < start ==> !is_not_newline()(#[trigger] text@[j]),
        decreases n - start,
    {
        start += 1;
    }
    proof {
        lemma_first_position(text@, is_not_newline(), start as int);
    }
    if start == n {
        return None;
    }
    let mut end: usize = start;
    while end < n && chars[end] != '\n'
        invariant
            chars@ == text@,
            n == text@.len(),
            start <= end <= n,
            forall|j: int| start <= j < end ==> text@[j] != '\n',
        decreases n - end,
    {
        end += 1;
    }
    proof {
        let rest = text@.skip(start as int);
        assert forall|j: int| 0 <= j < end - start implies !is_newline()(#[trigger] rest[j]) by {
            assert(rest[j] == text@[start + j]);
        }
        if end < n {
            assert(rest[end - start] == text@[end as int]);
        }
        lemma_first_position(rest, is_newline(), end - start);
        assert(text@.subrange(start as int, end as int) =~= rest.take(end - start));
    }
    Some(text.substring_char(start, end))
}

/// The process id that `ps` printed when it was asked for the parent of a
/// process: the first line of its output that is not empty, without the
/// white space around it.
pub fn parent_of(output: &str) -> (r: Option<String>)
    ensures
        crate::text::option_text(r) == match first_line(output@) {
            Some(line) => Some(trimmed(line)),
            None => None,
        },
{
    match first_line_of(output) {
        Some(line) => Some(trim(line).to_owned()),
        None => None,
    }
}

/// The command line that `ps` printed when it was asked for the command of
/// a process: the first line of its output that is not empty.
pub fn command_of(output: &str) -> (r: Option<String>)
    ensures
        crate::text::option_text(r) == first_line(output@),
{
    match first_line_of(output) {
        Some(line) => Some(line.to_owned()),
        None => None,
    }
}

/// What the search for the shell in use does next.
#[derive(Clone, Copy, Debug, PartialEq, Eq, Structural)]
pub enum DetectAction {
    /// It asks for the command line of the process.
    QueryCommand,
    /// It goes on with the parent of the process.
    QueryParent,
    /// It ends: this is the shell in use.
    Done(ShellKind),
}

/// The step of the search at the process `pid`, where `command` is its
/// command line once that is known.
///
/// The search goes up from the parent of the tool. It fails at the process
/// 1, which has no parent. Of any other process it asks for the command
/// line; a shell that is known ends the search, and anything else sends it
/// on to the parent.
pub open spec fn detect_step(pid: Seq<char>, command: Option<Seq<char>>) -> Result<
    DetectAction,
    KubieErrorView,
> {
    if pid == "1"@ {
        Err(KubieErrorView::ShellNotDetected)
    } else {
        match command {
            None => Ok(DetectAction::QueryCommand),
            Some(command) => match shell_kind_of(program_name(command)) {
                Some(kind) => Ok(DetectAction::Done(kind)),
                None => Ok(DetectAction::QueryParent),
            },
        }
    }
}

/// The step of the search for the shell in use at the process `pid`.
pub fn detect(pid: &str, command: Option<&str>) -> (r: Result<DetectAction, KubieError>)
    ensures
        match r {
            Ok(action) => detect_step(pid@, crate::text::option_str(command)) == Ok::<
                DetectAction,
                KubieErrorView,
            >(action),
            Err(e) => detect_step(pid@, crate::text::option_str(command)) == Err::<
                DetectAction,
                KubieErrorView,
            >(e@),
        },
{
    if str_eq(pid, "1") {
        return Err(KubieError::ShellNotDetected);
    }
    match command {
        None => Ok(DetectAction::QueryCommand),
        Some(command) => match ShellKind::from_str(parse_command(command)) {
            Some(kind) => Ok(DetectAction::Done(kind)),
            None => Ok(DetectAction::QueryParent),
        },
    }
}

} // verus!
