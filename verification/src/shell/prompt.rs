//! The prompt that a spawned shell shows: the context, the namespace and
//! the depth of nesting, each in its colour.

use crate::settings::Settings;
use crate::shell::detect::ShellKind;
use crate::text::{concat2, concat3, decimal, decimal_string};
use vstd::prelude::*;
use vstd::string::StringExecFns;

verus! {

/// The colour of the context.
pub const RED: u32 = 31;

/// The colour of the namespace.
pub const GREEN: u32 = 32;

/// The colour of the depth.
pub const BLUE: u32 = 34;

/// A command whose output the shell puts in its place.
pub struct Command {
    pub content: String,
    pub shell_kind: ShellKind,
}

/// The text by which the shell of kind `kind` substitutes the output of
/// the command `content`.
pub open spec fn substitution(content: Seq<char>, kind: ShellKind) -> Seq<char> {
    match kind {
        ShellKind::Fish => "("@ + content + ")"@,
        _ => "$("@ + content + ")"@,
    }
}

impl Command {
    pub fn new(content: &str, shell_kind: ShellKind) -> (r: Command)
        ensures
            r.content@ == content@,
            r.shell_kind == shell_kind,
    {
        Command { content: content.to_owned(), shell_kind }
    }

    /// The command as the shell is to read it.
    pub fn render(&self) -> (r: String)
        ensures
            r@ == substitution(self.content@, self.shell_kind),
    {
        match self.shell_kind {
            ShellKind::Fish => concat3("(", self.content.as_str(), ")"),
            _ => concat3("$(", self.content.as_str(), ")"),
        }
    }
}

/// `content` marked for the shell of kind `kind` as taking no room on the
/// line, so that the shell does not count it into the length of the
/// prompt.
pub open spec fn isolated(content: Seq<char>, kind: ShellKind) -> Seq<char> {
    match kind {
        ShellKind::Fish => content,
        ShellKind::Zsh => "%{"@ + content + "%}"@,
        _ => "\\["@ + content + "\\]"@,
    }
}

/// The escape sequence that switches to the colour `color`.
pub open spec fn color_start(color: u32, kind: ShellKind) -> Seq<char> {
    isolated("\\e["@ + decimal(color as nat) + "m"@, kind)
}

/// The escape sequence that switches colours off.
pub open spec fn color_end(kind: ShellKind) -> Seq<char> {
    isolated("\\e[0m"@, kind)
}

/// `content` in the colour `color`.
pub open spec fn colored(color: u32, content: Seq<char>, kind: ShellKind) -> Seq<char> {
    color_start(color, kind) + content + color_end(kind)
}

/// A text in a colour.
pub struct Color {
    pub color: u32,
    pub content: String,
    pub shell_kind: ShellKind,
}

impl Color {
    pub fn new(color: u32, content: String, shell_kind: ShellKind) -> (r: Color)
        ensures
            r.color == color,
            r.content == content,
            r.shell_kind == shell_kind,
    {
        Color { color, content, shell_kind }
    }

    /// `content` marked as taking no room on the line.
    pub fn isolate(&self, content: &str) -> (r: String)
        ensures
            r@ == isolated(content@, self.shell_kind),
    {
        match self.shell_kind {
            ShellKind::Fish => content.to_owned(),
            ShellKind::Zsh => concat3("%{", content, "%}"),
            _ => concat3("\\[", content, "\\]"),
        }
    }

    /// The escape sequence that switches to the colour `color`.
    pub fn start_color(&self, color: u32) -> (r: String)
        ensures
            r@ == color_start(color, self.shell_kind),
    {
        let number = decimal_string(color);
        let sequence = concat3("\\e[", number.as_str(), "m");
        self.isolate(sequence.as_str())
    }

    /// The escape sequence that switches colours off.
    pub fn end_color(&self) -> (r: String)
        ensures
            r@ == color_end(self.shell_kind),
    {
        self.isolate("\\e[0m")
    }

    /// The text in its colour.
    pub fn render(&self) -> (r: String)
        ensures
            r@ == colored(self.color, self.content@, self.shell_kind),
    {
        let mut r = self.start_color(self.color);
        r.append(self.content.as_str());
        let end = self.end_color();
        r.append(end.as_str());
        r
    }
}

/// The part of the prompt that shows the context: the output of the tool's
/// own `info ctx`, in red.
pub open spec fn context_part(exe: Seq<char>, kind: ShellKind) -> Seq<char> {
    colored(RED, substitution(exe + " info ctx"@, kind), kind)
}

/// The part of the prompt that shows the namespace: the output of the
/// tool's own `info ns`, in green.
pub open spec fn namespace_part(exe: Seq<char>, kind: ShellKind) -> Seq<char> {
    colored(GREEN, substitution(exe + " info ns"@, kind), kind)
}

/// The prompt of a shell of kind `kind` at depth `depth`, where `exe` is
/// the path of the tool: the context and the namespace, and the depth
/// where it is shown and greater than 1, between brackets and with bars
/// between them.
pub open spec fn ps1(show_depth: bool, depth: u32, kind: ShellKind, exe: Seq<char>) -> Seq<char> {
    let parts = "["@ + context_part(exe, kind) + "|"@ + namespace_part(exe, kind);
    if show_depth && depth > 1 {
        parts + "|"@ + colored(BLUE, decimal(depth as nat), kind) + "]"@
    } else {
        parts + "]"@
    }
}

/// The prompt of a shell of kind `shell_kind` at depth `depth`, where
/// `exe` is the path of the tool.
pub fn generate_ps1(settings: &Settings, depth: u32, shell_kind: ShellKind, exe: &str) -> (r:
    String)
    ensures
        r@ == ps1(settings.prompt.show_depth, depth, shell_kind, exe@),
{
    let context_command = Command::new(concat2(exe, " info ctx").as_str(), shell_kind);
    let context = Color::new(RED, context_command.render(), shell_kind).render();
    let namespace_command = Command::new(concat2(exe, " info ns").as_str(), shell_kind);
    let namespace = Color::new(GREEN, namespace_command.render(), shell_kind).render();
    let mut r = concat3("[", context.as_str(), "|");
    r.append(namespace.as_str());
    if settings.prompt.show_depth && depth > 1 {
        let level = Color::new(BLUE, decimal_string(depth), shell_kind).render();
        r.append("|");
        r.append(level.as_str());
    }
    r.append("]");
    r
}

} // verus!
