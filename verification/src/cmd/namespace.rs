//! Changing the namespace of the shell.

use crate::error::{KubieError, KubieErrorView};
use crate::kubeconfig::{ContextView, KubeConfig, NamedContextView};
use crate::search::lemma_filter_step;
use crate::session::{previous_namespace, HistoryEntryView, Session};
use crate::settings::{Settings, ValidateNamespacesBehavior};
use crate::state::State;
use crate::text::{contains, has_substring, list_contains, option_str, option_to_owned};
use crate::text::{str_eq, texts};
use vstd::prelude::*;

verus! {

/// How a change of namespace goes on.
pub enum NamespacePlan {
    /// The namespace is entered; `None` unsets the namespace.
    Enter(Option<String>),
    /// The namespaces of the cluster are listed, and the name is resolved
    /// against them.
    Resolve(String),
    /// The namespaces of the cluster are listed, and the user selects one.
    Select,
}

/// The model of a [`NamespacePlan`].
pub enum NamespacePlanView {
    Enter(Option<Seq<char>>),
    Resolve(Seq<char>),
    Select,
}

impl View for NamespacePlan {
    type V = NamespacePlanView;

    open spec fn view(&self) -> NamespacePlanView {
        match *self {
            NamespacePlan::Enter(namespace) => NamespacePlanView::Enter(
                crate::text::option_text(namespace),
            ),
            NamespacePlan::Resolve(name) => NamespacePlanView::Resolve(name@),
            NamespacePlan::Select => NamespacePlanView::Select,
        }
    }
}

/// The view of the result of planning.
pub open spec fn plan_view(r: Result<NamespacePlan, KubieError>) -> Result<
    NamespacePlanView,
    KubieErrorView,
> {
    match r {
        Ok(plan) => Ok(plan@),
        Err(e) => Err(e@),
    }
}

/// How a change of namespace goes on.
///
/// Without a name, the namespace is unset where that is asked for, and
/// selected by the user otherwise. The name `-` stands for the previous
/// namespace of the session. Any other name is entered as it is where
/// names are not validated, and resolved against the namespaces of the
/// cluster where they are.
pub open spec fn namespace_plan(
    history: Seq<HistoryEntryView>,
    validate: ValidateNamespacesBehavior,
    name: Option<Seq<char>>,
    unset: bool,
) -> Result<NamespacePlanView, KubieErrorView> {
    match name {
        None => if unset {
            Ok(NamespacePlanView::Enter(None))
        } else {
            Ok(NamespacePlanView::Select)
        },
        Some(name) => if name == "-"@ {
            match previous_namespace(history) {
                Some(previous) => Ok(NamespacePlanView::Enter(Some(previous))),
                None => Err(KubieErrorView::NoPreviousNamespace),
            }
        } else if validate == ValidateNamespacesBehavior::False {
            Ok(NamespacePlanView::Enter(Some(name)))
        } else {
            Ok(NamespacePlanView::Resolve(name))
        },
    }
}

/// Decides how the change to the namespace `namespace_name` goes on.
pub fn namespace(
    settings: &Settings,
    session: &Session,
    namespace_name: Option<&str>,
    unset: bool,
) -> (r: Result<NamespacePlan, KubieError>)
    ensures
        plan_view(r) == namespace_plan(
            session@,
            settings.behavior.validate_namespaces,
            option_str(namespace_name),
            unset,
        ),
{
    let name = match namespace_name {
        Some(name) => name,
        None => {
            if unset {
                return Ok(NamespacePlan::Enter(None));
            } else {
                return Ok(NamespacePlan::Select);
            }
        },
    };
    if str_eq(name, "-") {
        match session.get_last_namespace() {
            Some(previous) => Ok(NamespacePlan::Enter(Some(previous.to_owned()))),
            None => Err(KubieError::NoPreviousNamespace),
        }
    } else {
        match settings.behavior.validate_namespaces {
            ValidateNamespacesBehavior::False => Ok(NamespacePlan::Enter(Some(name.to_owned()))),
            _ => Ok(NamespacePlan::Resolve(name.to_owned())),
        }
    }
}

/// What a name resolves to.
pub enum NamespaceResolution {
    /// This namespace.
    Enter(String),
    /// One of these namespaces, which the user selects.
    SelectAmong(Vec<String>),
}

/// The model of a [`NamespaceResolution`].
pub enum NamespaceResolutionView {
    Enter(Seq<char>),
    SelectAmong(Seq<Seq<char>>),
}

impl View for NamespaceResolution {
    type V = NamespaceResolutionView;

    open spec fn view(&self) -> NamespaceResolutionView {
        match *self {
            NamespaceResolution::Enter(name) => NamespaceResolutionView::Enter(name@),
            NamespaceResolution::SelectAmong(names) => NamespaceResolutionView::SelectAmong(
                texts(names@),
            ),
        }
    }
}

/// The view of the result of a resolution.
pub open spec fn resolution_view(r: Result<NamespaceResolution, KubieError>) -> Result<
    NamespaceResolutionView,
    KubieErrorView,
> {
    match r {
        Ok(resolution) => Ok(resolution@),
        Err(e) => Err(e@),
    }
}

/// The namespaces that `name` is a part of.
pub open spec fn holding(name: Seq<char>) -> spec_fn(Seq<char>) -> bool {
    |namespace: Seq<char>| has_substring(namespace, name)
}

/// What `name` resolves to among the namespaces of the cluster.
///
/// A name that is not validated, and the name of a namespace, stand for
/// themselves. Any other name is refused under exact validation. Under
/// partial validation it stands for the namespaces that it is a part of:
/// it is refused where there is none, stands for the one where there is
/// one, and leaves the choice to the user where there are more.
pub open spec fn resolution(
    validate: ValidateNamespacesBehavior,
    name: Seq<char>,
    namespaces: Seq<Seq<char>>,
) -> Result<NamespaceResolutionView, KubieErrorView> {
    if validate == ValidateNamespacesBehavior::False || namespaces.contains(name) {
        Ok(NamespaceResolutionView::Enter(name))
    } else if validate == ValidateNamespacesBehavior::True {
        Err(KubieErrorView::InvalidNamespace(name))
    } else {
        let matches = namespaces.filter(holding(name));
        if matches.len() == 0 {
            Err(KubieErrorView::InvalidNamespace(name))
        } else if matches.len() == 1 {
            Ok(NamespaceResolutionView::Enter(matches[0]))
        } else {
            Ok(NamespaceResolutionView::SelectAmong(matches))
        }
    }
}

/// Resolves `name` against the namespaces of the cluster.
pub fn resolve_namespace(
    validate: ValidateNamespacesBehavior,
    name: &str,
    namespaces: &Vec<String>,
) -> (r: Result<NamespaceResolution, KubieError>)
    ensures
        resolution_view(r) == resolution(validate, name@, texts(namespaces@)),
{
    match validate {
        ValidateNamespacesBehavior::False => {
            return Ok(NamespaceResolution::Enter(name.to_owned()));
        },
        _ => {},
    }
    if list_contains(namespaces, name) {
        return Ok(NamespaceResolution::Enter(name.to_owned()));
    }
    match validate {
        ValidateNamespacesBehavior::True => {
            return Err(KubieError::InvalidNamespace(name.to_owned()));
        },
        _ => {},
    }
    let mut matches: Vec<String> = Vec::new();
    let mut i: usize = 0;
    proof {
        reveal(Seq::filter);
        assert(texts(namespaces@).take(0) =~= Seq::empty());
        assert(texts(matches@) =~= Seq::empty());
    }
    while i < namespaces.len()
        invariant
            i <= namespaces.len(),
            texts(matches@) == texts(namespaces@).take(i as int).filter(holding(name@)),
        decreases namespaces.len() - i,
    {
        proof {
            lemma_filter_step(texts(namespaces@), holding(name@), i as int);
        }
        if contains(namespaces[i].as_str(), name) {
            let ghost before = matches@;
            let kept = namespaces[i].clone();
            matches.push(kept);
            assert(texts(matches@) =~= texts(before).push(kept@));
        }
        i += 1;
    }
    proof {
        assert(texts(namespaces@).take(i as int) =~= texts(namespaces@));
    }
    if matches.len() == 0 {
        Err(KubieError::InvalidNamespace(name.to_owned()))
    } else if matches.len() == 1 {
        let only = matches[0].clone();
        Ok(NamespaceResolution::Enter(only))
    } else {
        Ok(NamespaceResolution::SelectAmong(matches))
    }
}

/// The first context of a configuration with its namespace set to
/// `namespace`, or unset.
pub open spec fn with_namespace(
    contexts: Seq<NamedContextView>,
    namespace: Option<Seq<char>>,
) -> Seq<NamedContextView> {
    contexts.update(
        0,
        NamedContextView {
            name: contexts[0].name,
            context: ContextView {
                cluster: contexts[0].context.cluster,
                namespace,
                user: contexts[0].context.user,
            },
        },
    )
}

/// Enters the namespace `namespace_name`, or unsets the namespace, in the
/// configuration of the shell: the namespace of its context is set, the
/// shared state records the namespace for the context, and the history of
/// the session gets an entry.
pub fn enter_namespace(
    config: &mut KubeConfig,
    state: &mut State,
    session: &mut Session,
    namespace_name: Option<&str>,
)
    requires
        old(config).contexts@.len() > 0,
    ensures
        final(config)@.contexts == with_namespace(old(config)@.contexts, option_str(namespace_name)),
        final(config)@.clusters == old(config)@.clusters,
        final(config)@.users == old(config)@.users,
        final(config)@.current_context == old(config)@.current_context,
        final(config)@.others == old(config)@.others,
        final(state)@ == old(state)@.with_namespace(
            old(config)@.contexts[0].name,
            option_str(namespace_name),
        ),
        final(session)@ == old(session)@.push(
            HistoryEntryView {
                context: old(config)@.contexts[0].name,
                namespace: option_str(namespace_name),
            },
        ),
{
    let ghost before = config.contexts@;
    let mut first = config.contexts[0].clone();
    first.context.namespace = option_to_owned(namespace_name);
    state.record_namespace(first.name.as_str(), namespace_name);
    session.add_history_entry(first.name.as_str(), namespace_name);
    config.contexts.set(0, first);
    proof {
        assert(config.contexts@ =~= before.update(0, config.contexts@[0]));
        assert(config@.contexts =~= with_namespace(
            crate::kubeconfig::views(before),
            option_str(namespace_name),
        ));
    }
}

} // verus!
