//! The shell that is spawned: which kind it is and what it is handed.

use crate::error::{KubieError, KubieErrorView};
use crate::pairs::{distinct_keys, lemma_pairs_map_update, pairs_map};
use crate::settings::Settings;
use crate::shell::detect::{shell_kind_of, ShellKind};
use crate::shell::prompt::{generate_ps1, ps1};
use crate::text::{decimal, decimal_string, str_eq};
use vstd::prelude::*;

pub mod detect;
pub mod prompt;

verus! {

/// The view of a list of variables.
pub open spec fn variable_views(pairs: Seq<(String, String)>) -> Seq<(Seq<char>, Seq<char>)> {
    pairs.map_values(|p: (String, String)| (p.0@, p.1@))
}

/// The variables that a spawned process is handed, each with its value.
pub struct EnvVars {
    vars: Vec<(String, String)>,
}

impl View for EnvVars {
    type V = Map<Seq<char>, Seq<char>>;

    closed spec fn view(&self) -> Map<Seq<char>, Seq<char>> {
        pairs_map(variable_views(self.vars@))
    }
}

impl EnvVars {
    /// No variable occurs twice.
    #[verifier::type_invariant]
    closed spec fn well_formed(self) -> bool {
        distinct_keys(variable_views(self.vars@))
    }

    /// No variables.
    pub fn new() -> (r: EnvVars)
        ensures
            r@ == Map::<Seq<char>, Seq<char>>::empty(),
    {
        let r = EnvVars { vars: Vec::new() };
        proof {
            assert(variable_views(r.vars@) =~= Seq::empty());
        }
        r
    }

    /// The position of the variable `name`.
    fn position(&self, name: &str) -> (r: Option<usize>)
        ensures
            match r {
                Some(i) => i < self.vars@.len() && self.vars@[i as int].0@ == name@,
                None => forall|i: int|
                    0 <= i < self.vars@.len() ==> (#[trigger] variable_views(self.vars@)[i]).0
                        != name@,
            },
    {
        let mut i: usize = 0;
        while i < self.vars.len()
            invariant
                i <= self.vars.len(),
                forall|j: int|
                    0 <= j < i ==> (#[trigger] variable_views(self.vars@)[j]).0 != name@,
            decreases self.vars.len() - i,
        {
            if str_eq(self.vars[i].0.as_str(), name) {
                return Some(i);
            }
            i += 1;
        }
        None
    }

    /// Sets the variable `name` to `value`, in place of the value it had.
    pub fn insert(&mut self, name: &str, value: &str)
        ensures
            final(self)@ == old(self)@.insert(name@, value@),
    {
        proof {
            use_type_invariant(&*self);
        }
        let ghost before = variable_views(self.vars@);
        let found = self.position(name);
        let mut vars: Vec<(String, String)> = Vec::new();
        proof {
            assert(variable_views(vars@) =~= Seq::empty());
        }
        std::mem::swap(&mut self.vars, &mut vars);
        match found {
            Some(i) => {
                proof {
                    lemma_pairs_map_update(before, i as int, value@);
                }
                vars.set(i, (name.to_owned(), value.to_owned()));
                proof {
                    assert(variable_views(vars@) =~= before.update(
                        i as int,
                        (before[i as int].0, value@),
                    ));
                    assert forall|a: int, b: int| 0 <= a < b < before.len() implies (
                    #[trigger] variable_views(vars@)[a]).0 != (#[trigger] variable_views(
                        vars@,
                    )[b]).0 by {
                        assert(before[a].0 != before[b].0);
                    }
                }
            },
            None => {
                vars.push((name.to_owned(), value.to_owned()));
                proof {
                    let after = variable_views(vars@);
                    assert(after.drop_last() =~= before);
                    assert forall|a: int, b: int| 0 <= a < b < after.len() implies (
                    #[trigger] after[a]).0 != (#[trigger] after[b]).0 by {
                        if b < before.len() {
                            assert(before[a].0 != before[b].0);
                        } else {
                            assert(before[a].0 != name@);
                        }
                    }
                }
            },
        }
        std::mem::swap(&mut self.vars, &mut vars);
    }

    /// The variables to apply to a command, each once.
    pub fn apply(&self) -> (r: &Vec<(String, String)>)
        ensures
            pairs_map(variable_views(r@)) == self@,
            distinct_keys(variable_views(r@)),
    {
        proof {
            use_type_invariant(self);
        }
        &self.vars
    }
}

/// What a shell is spawned with.
pub struct ShellSpawnInfo {
    pub kind: ShellKind,
    pub env_vars: EnvVars,
    pub prompt: String,
}

/// The name by which the shell of kind `kind` is told which shell it is.
pub open spec fn shell_name(kind: ShellKind) -> Seq<char> {
    match kind {
        ShellKind::Bash => "bash"@,
        ShellKind::Fish => "fish"@,
        ShellKind::Xonsh => "xonsh"@,
        ShellKind::Zsh => "zsh"@,
        ShellKind::Nu => "nu"@,
    }
}

/// `1` for a switch that is on, `0` for one that is off.
pub open spec fn switch(on: bool) -> Seq<char> {
    if on {
        "1"@
    } else {
        "0"@
    }
}

/// The variables that a shell of kind `kind` is spawned with at depth
/// `depth`: where its configuration, its session and the shared state lie,
/// that the tool is active, how deeply the shell is nested, which kind of
/// shell it is, and how the prompt is to be shown.
pub open spec fn shell_environment(
    disable_prompt: bool,
    zsh_use_rps1: bool,
    fish_use_rprompt: bool,
    kind: ShellKind,
    depth: u32,
    config_path: Seq<char>,
    session_path: Seq<char>,
    state_path: Seq<char>,
) -> Map<Seq<char>, Seq<char>> {
    Map::<Seq<char>, Seq<char>>::empty().insert("KUBECONFIG"@, config_path).insert(
        "KUBIE_ACTIVE"@,
        "1"@,
    ).insert("KUBIE_DEPTH"@, decimal(depth as nat)).insert("KUBIE_KUBECONFIG"@, config_path).insert(
        "KUBIE_SESSION"@,
        session_path,
    ).insert("KUBIE_STATE"@, state_path).insert("KUBIE_PROMPT_DISABLE"@, switch(disable_prompt)).insert(
        "KUBIE_ZSH_USE_RPS1"@,
        switch(zsh_use_rps1),
    ).insert("KUBIE_FISH_USE_RPROMPT"@, switch(fish_use_rprompt)).insert(
        "KUBIE_SHELL"@,
        shell_name(kind),
    )
}

/// `1` for a switch that is on, `0` for one that is off.
fn switch_text(on: bool) -> (r: &'static str)
    ensures
        r@ == switch(on),
{
    if on {
        "1"
    } else {
        "0"
    }
}

/// The kind of shell that the settings ask for: none where they leave it
/// to be detected. A name that is no shell's is refused.
pub fn configured_shell(settings: &Settings) -> (r: Result<Option<ShellKind>, KubieError>)
    ensures
        match settings.shell {
            None => r == Ok::<Option<ShellKind>, KubieError>(None),
            Some(name) => match shell_kind_of(name@) {
                Some(kind) => r == Ok::<Option<ShellKind>, KubieError>(Some(kind)),
                None => r matches Err(e) && e@ == KubieErrorView::InvalidShell(name@),
            },
        },
{
    match &settings.shell {
        None => Ok(None),
        Some(name) => match ShellKind::from_str(name.as_str()) {
            Some(kind) => Ok(Some(kind)),
            None => Err(KubieError::InvalidShell(name.clone())),
        },
    }
}

/// What a shell of kind `kind` is spawned with, one level below `depth`:
/// its variables and its prompt. `exe` is the path of the tool itself.
pub fn spawn_shell(
    settings: &Settings,
    kind: ShellKind,
    depth: u32,
    config_path: &str,
    session_path: &str,
    state_path: &str,
    exe: &str,
) -> (r: ShellSpawnInfo)
    requires
        depth < u32::MAX,
    ensures
        r.kind == kind,
        r.env_vars@ == shell_environment(
            settings.prompt.disable,
            settings.prompt.zsh_use_rps1,
            settings.prompt.fish_use_rprompt,
            kind,
            (depth + 1) as u32,
            config_path@,
            session_path@,
            state_path@,
        ),
        r.prompt@ == ps1(settings.prompt.show_depth, (depth + 1) as u32, kind, exe@),
{
    let next_depth: u32 = depth + 1;
    let mut env_vars = EnvVars::new();
    env_vars.insert("KUBECONFIG", config_path);
    env_vars.insert("KUBIE_ACTIVE", "1");
    env_vars.insert("KUBIE_DEPTH", decimal_string(next_depth).as_str());
    env_vars.insert("KUBIE_KUBECONFIG", config_path);
    env_vars.insert("KUBIE_SESSION", session_path);
    env_vars.insert("KUBIE_STATE", state_path);
    env_vars.insert("KUBIE_PROMPT_DISABLE", switch_text(settings.prompt.disable));
    env_vars.insert("KUBIE_ZSH_USE_RPS1", switch_text(settings.prompt.zsh_use_rps1));
    env_vars.insert("KUBIE_FISH_USE_RPROMPT", switch_text(settings.prompt.fish_use_rprompt));
    match kind {
        ShellKind::Bash => env_vars.insert("KUBIE_SHELL", "bash"),
        ShellKind::Fish => env_vars.insert("KUBIE_SHELL", "fish"),
        ShellKind::Xonsh => env_vars.insert("KUBIE_SHELL", "xonsh"),
        ShellKind::Zsh => env_vars.insert("KUBIE_SHELL", "zsh"),
        ShellKind::Nu => env_vars.insert("KUBIE_SHELL", "nu"),
    }
    let prompt = generate_ps1(settings, next_depth, kind, exe);
    ShellSpawnInfo { kind, env_vars, prompt }
}

} // verus!
