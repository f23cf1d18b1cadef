//! Entering a context.

use crate::cmd::SelectResult;
use crate::error::{KubieError, KubieErrorView};
use crate::kubeconfig::{override_view, Installed, KubeConfig};
use crate::session::{previous_context, HistoryEntryView, Session};
use crate::settings::{Settings, ValidateNamespacesBehavior};
use crate::state::{State, StateView};
use crate::text::{option_str, option_text, option_to_owned, str_eq};
use vstd::prelude::*;

verus! {

/// A context that was entered.
pub struct Entered {
    /// The configuration composed for the context.
    pub kubeconfig: KubeConfig,
    /// The namespace that was asked for, where it is to be checked against
    /// the namespaces of the cluster. A namespace that the cluster does not
    /// have is entered all the same; the user is warned.
    pub namespace_to_check: Option<String>,
}

/// The context to compose and the override of its namespace, when
/// `context_name` is to be entered.
///
/// The name `-` stands for the previous context of the session, with the
/// namespace it was left with. For any other name, the namespace is the one
/// asked for, or else what the shared state records for the context.
pub open spec fn entry_target(
    history: Seq<HistoryEntryView>,
    state: StateView,
    context_name: Seq<char>,
    namespace_name: Option<Seq<char>>,
) -> Result<(Seq<char>, Option<Option<Seq<char>>>), KubieErrorView> {
    if context_name == "-"@ {
        match previous_context(history) {
            Some(previous) => Ok((previous.context, Some(previous.namespace))),
            None => Err(KubieErrorView::NoPreviousContext),
        }
    } else {
        Ok(
            (
                context_name,
                match namespace_name {
                    Some(namespace) => Some(Some(namespace)),
                    None => state.namespace_override(context_name),
                },
            ),
        )
    }
}

/// The namespace to check against the namespaces of the cluster: the one
/// asked for, or else the one that the shared state records for the
/// context; none where namespaces are not validated.
pub open spec fn namespace_to_check(
    validate: ValidateNamespacesBehavior,
    state: StateView,
    context_name: Seq<char>,
    namespace_name: Option<Seq<char>>,
) -> Option<Seq<char>> {
    if validate == ValidateNamespacesBehavior::False {
        None
    } else {
        match namespace_name {
            Some(namespace) => Some(namespace),
            None => state.namespace_for(context_name),
        }
    }
}

/// The view of an owned override.
pub open spec fn owned_override_view(o: Option<Option<String>>) -> Option<Option<Seq<char>>> {
    match o {
        Some(n) => Some(option_text(n)),
        None => None,
    }
}

/// An owned override, borrowed.
fn borrowed_override(o: &Option<Option<String>>) -> (r: Option<Option<&str>>)
    ensures
        override_view(r) == owned_override_view(*o),
{
    match o {
        Some(Some(n)) => Some(Some(n.as_str())),
        Some(None) => Some(None),
        None => None,
    }
}

/// Enters the context `context_name`: composes its configuration, adds the
/// entry to the history of the session and records it in the shared state.
///
/// The result is `None` where the configuration cannot be composed because
/// the file of the context lies in no directory or a certificate or key
/// entry is no text. Where nothing is entered, the session and the state
/// stay as they are.
pub fn enter_context(
    settings: &Settings,
    installed: &Installed,
    state: &mut State,
    session: &mut Session,
    context_name: &str,
    namespace_name: Option<&str>,
) -> (r: Option<Result<Entered, KubieError>>)
    ensures
        match entry_target(
            old(session)@,
            old(state)@,
            context_name@,
            option_str(namespace_name),
        ) {
            Err(e) => r matches Some(Err(failure)) && failure@ == e && final(session)@ == old(
                session,
            )@ && final(state)@ == old(state)@,
            Ok((target, namespace)) => if !installed@.composable(target) {
                r is None && final(session)@ == old(session)@ && final(state)@ == old(state)@
            } else {
                match installed@.compose(target, namespace) {
                    Err(e) => r matches Some(Err(failure)) && failure@ == e && final(session)@
                        == old(session)@ && final(state)@ == old(state)@,
                    Ok(composed) => {
                        &&& r matches Some(Ok(entered))
                        &&& entered.kubeconfig@ == composed
                        &&& option_text(entered.namespace_to_check) == namespace_to_check(
                            settings.behavior.validate_namespaces,
                            old(state)@,
                            context_name@,
                            option_str(namespace_name),
                        )
                        &&& final(session)@ == old(session)@.push(
                            HistoryEntryView {
                                context: composed.contexts[0].name,
                                namespace: composed.contexts[0].context.namespace,
                            },
                        )
                        &&& final(state)@ == old(state)@.with_context_entry(
                            composed.contexts[0].name,
                            composed.contexts[0].context.namespace,
                            settings.behavior.track_last_used,
                        )
                    },
                }
            },
        },
{
    let target: String;
    let namespace: Option<Option<String>>;
    if str_eq(context_name, "-") {
        match session.get_last_context() {
            Some(previous) => {
                target = previous.context.clone();
                namespace = Some(previous.namespace.clone());
            },
            None => {
                return Some(Err(KubieError::NoPreviousContext));
            },
        }
    } else {
        target = context_name.to_owned();
        namespace = match namespace_name {
            Some(n) => Some(Some(n.to_owned())),
            None => match state.namespace_override(context_name) {
                Some(n) => Some(option_to_owned(n)),
                None => None,
            },
        };
    }
    let to_check: Option<String> = match settings.behavior.validate_namespaces {
        ValidateNamespacesBehavior::False => None,
        _ => match namespace_name {
            Some(n) => Some(n.to_owned()),
            None => option_to_owned(state.namespace_for(context_name)),
        },
    };

    let composed = match installed.try_make_kubeconfig_for_context(
        target.as_str(),
        borrowed_override(&namespace),
    ) {
        Some(composed) => composed,
        None => {
            return None;
        },
    };
    let kubeconfig = match composed {
        Ok(kubeconfig) => kubeconfig,
        Err(e) => {
            return Some(Err(e));
        },
    };
    assert(kubeconfig@.contexts.len() == 1);
    let entered_namespace: Option<&str> = match &kubeconfig.contexts[0].context.namespace {
        Some(n) => Some(n.as_str()),
        None => None,
    };
    session.record_context_entry(
        state,
        kubeconfig.contexts[0].name.as_str(),
        entered_namespace,
        settings.behavior.track_last_used,
    );
    Some(Ok(Entered { kubeconfig, namespace_to_check: to_check }))
}

/// What the `ctx` command enters: the context that was named, with the
/// namespace that was named; or else the context that the user selected,
/// with no namespace named. Nothing is entered after a selection that was
/// given up, and after a listing.
pub fn context(
    context_name: Option<String>,
    namespace_name: Option<String>,
    selection: Option<SelectResult>,
) -> (r: Option<(String, Option<String>)>)
    ensures
        r == match context_name {
            Some(name) => Some((name, namespace_name)),
            None => match selection {
                Some(SelectResult::Selected(name)) => Some((name, None::<String>)),
                _ => None,
            },
        },
{
    match context_name {
        Some(name) => Some((name, namespace_name)),
        None => match selection {
            Some(SelectResult::Selected(name)) => Some((name, None)),
            _ => None,
        },
    }
}

/// Whether the configuration of the running shell is replaced, rather than
/// a new shell spawned: inside a shell of this tool, unless a new shell is
/// asked for.
pub fn replaces_current_shell(active: bool, recursive: bool) -> (r: bool)
    ensures
        r == (active && !recursive),
{
    active && !recursive
}

} // verus!
