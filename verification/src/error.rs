//! The failures that the library reports.

use crate::text::{concat2, concat3};
use vstd::prelude::*;
use vstd::string::StringExecFns;

verus! {

/// Why an operation of the library failed.
pub enum KubieError {
    /// No context of the catalog has this name.
    ContextNotFound(String),
    /// The context refers to a cluster that no file of the catalog holds.
    ClusterNotFound { cluster: String, context: String },
    /// The context refers to a user that no file of the catalog holds.
    UserNotFound { user: String, context: String },
    /// The files that were loaded hold no context: the files that the user
    /// named where `in_given_files` is set, the files that the settings
    /// point at otherwise.
    NoContextsFound { in_given_files: bool },
    /// There is no context to select from.
    NoContextsToSelect,
    /// There is no namespace to select from.
    NoNamespacesToSelect,
    /// No context matches this pattern.
    NoContextMatching(String),
    /// The history of the session holds no other context to go back to.
    NoPreviousContext,
    /// The history of the session holds no other namespace to go back to.
    NoPreviousNamespace,
    /// The cluster has no namespace of this name.
    InvalidNamespace(String),
    /// The settings name a shell that is not known.
    InvalidShell(String),
    /// No ancestor of the process is a shell that is known.
    ShellNotDetected,
    /// The session is to be saved, and neither a path was given nor one
    /// inherited from the shell.
    MissingSessionPath,
    /// The command works only inside a shell that this tool spawned.
    NotInKubieShell,
}

/// The model of a [`KubieError`].
pub enum KubieErrorView {
    ContextNotFound(Seq<char>),
    ClusterNotFound { cluster: Seq<char>, context: Seq<char> },
    UserNotFound { user: Seq<char>, context: Seq<char> },
    NoContextsFound { in_given_files: bool },
    NoContextsToSelect,
    NoNamespacesToSelect,
    NoContextMatching(Seq<char>),
    NoPreviousContext,
    NoPreviousNamespace,
    InvalidNamespace(Seq<char>),
    InvalidShell(Seq<char>),
    ShellNotDetected,
    MissingSessionPath,
    NotInKubieShell,
}

impl View for KubieError {
    type V = KubieErrorView;

    open spec fn view(&self) -> KubieErrorView {
        match *self {
            KubieError::ContextNotFound(name) => KubieErrorView::ContextNotFound(name@),
            KubieError::ClusterNotFound { cluster, context } => KubieErrorView::ClusterNotFound {
                cluster: cluster@,
                context: context@,
            },
            KubieError::UserNotFound { user, context } => KubieErrorView::UserNotFound {
                user: user@,
                context: context@,
            },
            KubieError::NoContextsFound { in_given_files } => KubieErrorView::NoContextsFound {
                in_given_files,
            },
            KubieError::NoContextsToSelect => KubieErrorView::NoContextsToSelect,
            KubieError::NoNamespacesToSelect => KubieErrorView::NoNamespacesToSelect,
            KubieError::NoContextMatching(pattern) => KubieErrorView::NoContextMatching(pattern@),
            KubieError::NoPreviousContext => KubieErrorView::NoPreviousContext,
            KubieError::NoPreviousNamespace => KubieErrorView::NoPreviousNamespace,
            KubieError::InvalidNamespace(name) => KubieErrorView::InvalidNamespace(name@),
            KubieError::InvalidShell(name) => KubieErrorView::InvalidShell(name@),
            KubieError::ShellNotDetected => KubieErrorView::ShellNotDetected,
            KubieError::MissingSessionPath => KubieErrorView::MissingSessionPath,
            KubieError::NotInKubieShell => KubieErrorView::NotInKubieShell,
        }
    }
}

impl KubieErrorView {
    /// The sentence that tells the user of the failure. Where something
    /// was not found, the sentence names it.
    pub open spec fn message(self) -> Seq<char> {
        match self {
            KubieErrorView::ContextNotFound(name) => "Could not find context "@ + name,
            KubieErrorView::ClusterNotFound { cluster, context } => "Could not find cluster "@
                + cluster + " referenced by context "@ + context,
            KubieErrorView::UserNotFound { user, context } => "Could not find user "@ + user
                + " referenced by context "@ + context,
            KubieErrorView::NoContextsFound { in_given_files } => if in_given_files {
                "Could not find any contexts in the given set of files!"@
            } else {
                "Could not find any contexts in the Kubie kubeconfig directories!"@
            },
            KubieErrorView::NoContextsToSelect => "No contexts found"@,
            KubieErrorView::NoNamespacesToSelect => "No namespaces found"@,
            KubieErrorView::NoContextMatching(pattern) => "No context matching "@ + pattern,
            KubieErrorView::NoPreviousContext => "There is no previous context to switch to."@,
            KubieErrorView::NoPreviousNamespace => "There is not previous namespace to switch to"@,
            KubieErrorView::InvalidNamespace(name) => "'"@ + name
                + "' is not a valid namespace for the context"@,
            KubieErrorView::InvalidShell(name) => "Invalid shell setting: "@ + name,
            KubieErrorView::ShellNotDetected => "Could not detect shell in use"@,
            KubieErrorView::MissingSessionPath => "KUBIE_SESSION env variable missing"@,
            KubieErrorView::NotInKubieShell => "Not in a kubie shell!"@,
        }
    }
}

impl KubieError {
    /// The sentence that tells the user of the failure.
    pub fn message(&self) -> (r: String)
        ensures
            r@ == self@.message(),
    {
        match self {
            KubieError::ContextNotFound(name) => concat2("Could not find context ", name.as_str()),
            KubieError::ClusterNotFound { cluster, context } => {
                let mut r = concat3(
                    "Could not find cluster ",
                    cluster.as_str(),
                    " referenced by context ",
                );
                r.append(context.as_str());
                r
            },
            KubieError::UserNotFound { user, context } => {
                let mut r = concat3(
                    "Could not find user ",
                    user.as_str(),
                    " referenced by context ",
                );
                r.append(context.as_str());
                r
            },
            KubieError::NoContextsFound { in_given_files } => if *in_given_files {
                String::from_str("Could not find any contexts in the given set of files!")
            } else {
                String::from_str("Could not find any contexts in the Kubie kubeconfig directories!")
            },
            KubieError::NoContextsToSelect => String::from_str("No contexts found"),
            KubieError::NoNamespacesToSelect => String::from_str("No namespaces found"),
            KubieError::NoContextMatching(pattern) => concat2(
                "No context matching ",
                pattern.as_str(),
            ),
            KubieError::NoPreviousContext => String::from_str(
                "There is no previous context to switch to.",
            ),
            KubieError::NoPreviousNamespace => String::from_str(
                "There is not previous namespace to switch to",
            ),
            KubieError::InvalidNamespace(name) => concat3(
                "'",
                name.as_str(),
                "' is not a valid namespace for the context",
            ),
            KubieError::InvalidShell(name) => concat2("Invalid shell setting: ", name.as_str()),
            KubieError::ShellNotDetected => String::from_str("Could not detect shell in use"),
            KubieError::MissingSessionPath => String::from_str(
                "KUBIE_SESSION env variable missing",
            ),
            KubieError::NotInKubieShell => String::from_str("Not in a kubie shell!"),
        }
    }
}

} // verus!
