//! Running a command in the contexts that a pattern matches.

use crate::error::{KubieError, KubieErrorView};
use crate::kubeconfig::{context_matching, ref_views, Installed, NamedContext, Sourced};
use crate::shell::EnvVars;
use crate::text::{decimal, decimal_string};
use vstd::prelude::*;

verus! {

/// The contexts to run in: those whose name the wildcard pattern
/// `context_name` matches, in catalog order. It is a failure if there is
/// none.
pub fn matching_contexts<'a>(installed: &'a Installed, context_name: &str) -> (r: Result<
    Vec<&'a Sourced<NamedContext>>,
    KubieError,
>)
    ensures
        match r {
            Ok(matching) => matching@.len() > 0 && ref_views(matching@)
                == installed@.contexts.filter(context_matching(context_name@)),
            Err(e) => installed@.contexts.filter(context_matching(context_name@)).len() == 0 && e@
                == KubieErrorView::NoContextMatching(context_name@),
        },
{
    let matching = installed.get_contexts_matching(context_name);
    assert(ref_views(matching@).len() == matching@.len());
    if matching.len() == 0 {
        Err(KubieError::NoContextMatching(context_name.to_owned()))
    } else {
        Ok(matching)
    }
}

/// The variables that a command run at depth `depth` is handed: where its
/// configuration lies, that the tool is active, and the depth.
pub open spec fn command_environment(depth: u32, config_path: Seq<char>) -> Map<
    Seq<char>,
    Seq<char>,
> {
    Map::<Seq<char>, Seq<char>>::empty().insert("KUBECONFIG"@, config_path).insert(
        "KUBIE_KUBECONFIG"@,
        config_path,
    ).insert("KUBIE_ACTIVE"@, "1"@).insert("KUBIE_DEPTH"@, decimal(depth as nat))
}

/// The variables that a command is run with one level below `depth`, with
/// its configuration at `config_path`.
pub fn run_in_context(depth: u32, config_path: &str) -> (r: EnvVars)
    requires
        depth < u32::MAX,
    ensures
        r@ == command_environment((depth + 1) as u32, config_path@),
{
    let next_depth: u32 = depth + 1;
    let mut env_vars = EnvVars::new();
    env_vars.insert("KUBECONFIG", config_path);
    env_vars.insert("KUBIE_KUBECONFIG", config_path);
    env_vars.insert("KUBIE_ACTIVE", "1");
    env_vars.insert("KUBIE_DEPTH", decimal_string(next_depth).as_str());
    env_vars
}

/// Whether the run stops after a command that ended with `return_code`: a
/// command that failed stops it where stopping early is asked for.
pub fn stops_after(return_code: i32, exit_early: bool) -> (r: bool)
    ensures
        r == (return_code != 0 && exit_early),
{
    return_code != 0 && exit_early
}

} // verus!
