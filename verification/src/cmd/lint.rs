//! Checks of the catalog for entries that nothing refers to, references
//! that lead nowhere, and names that occur twice. Every problem is
//! reported; none stops the run and nothing is changed.

use crate::kubeconfig::{cluster_named_in, context_of_cluster, context_of_user, user_named_in};
use crate::kubeconfig::{context_named_in, ref_views, views, Installed, InstalledView};
use crate::search::{any, any_before};
use crate::text::str_eq;
use vstd::prelude::*;
use vstd::string::StringExecFns;

verus! {

/// One problem found in the catalog.
pub enum Finding {
    /// No context of the file refers to the cluster.
    UnreferencedCluster { name: String, source: String },
    /// The file holds a cluster of this name more than once.
    DuplicateCluster { name: String, source: String },
    /// No context of the file refers to the user.
    UnreferencedUser { name: String, source: String },
    /// The file holds a user of this name more than once.
    DuplicateUser { name: String, source: String },
    /// The context refers to a cluster that its file does not hold.
    UnknownCluster { context: String, cluster: String, source: String },
    /// The context refers to a user that its file does not hold.
    UnknownUser { context: String, user: String, source: String },
    /// The file holds a context of this name more than once.
    DuplicateContext { name: String, source: String },
}

/// The model of a [`Finding`].
pub enum FindingView {
    UnreferencedCluster { name: Seq<char>, source: Seq<char> },
    DuplicateCluster { name: Seq<char>, source: Seq<char> },
    UnreferencedUser { name: Seq<char>, source: Seq<char> },
    DuplicateUser { name: Seq<char>, source: Seq<char> },
    UnknownCluster { context: Seq<char>, cluster: Seq<char>, source: Seq<char> },
    UnknownUser { context: Seq<char>, user: Seq<char>, source: Seq<char> },
    DuplicateContext { name: Seq<char>, source: Seq<char> },
}

impl View for Finding {
    type V = FindingView;

    open spec fn view(&self) -> FindingView {
        match *self {
            Finding::UnreferencedCluster { name, source } => FindingView::UnreferencedCluster {
                name: name@,
                source: source@,
            },
            Finding::DuplicateCluster { name, source } => FindingView::DuplicateCluster {
                name: name@,
                source: source@,
            },
            Finding::UnreferencedUser { name, source } => FindingView::UnreferencedUser {
                name: name@,
                source: source@,
            },
            Finding::DuplicateUser { name, source } => FindingView::DuplicateUser {
                name: name@,
                source: source@,
            },
            Finding::UnknownCluster { context, cluster, source } => FindingView::UnknownCluster {
                context: context@,
                cluster: cluster@,
                source: source@,
            },
            Finding::UnknownUser { context, user, source } => FindingView::UnknownUser {
                context: context@,
                user: user@,
                source: source@,
            },
            Finding::DuplicateContext { name, source } => FindingView::DuplicateContext {
                name: name@,
                source: source@,
            },
        }
    }
}

impl FindingView {
    /// The sentence that reports the finding.
    pub open spec fn message(self) -> Seq<char> {
        match self {
            FindingView::UnreferencedCluster { name, source } => "Cluster '"@ + name
                + "' has no context referencing it in file "@ + source,
            FindingView::DuplicateCluster { name, source } => "A cluster named '"@ + name
                + "' appears more than once in file "@ + source,
            FindingView::UnreferencedUser { name, source } => "User '"@ + name
                + "' has no context referencing it in file "@ + source,
            FindingView::DuplicateUser { name, source } => "A user named '"@ + name
                + "' appears more than once in file "@ + source,
            FindingView::UnknownCluster { context, cluster, source } => "Context '"@ + context
                + "' references unknown cluster '"@ + cluster + "' in file "@ + source,
            FindingView::UnknownUser { context, user, source } => "Context '"@ + context
                + "' references unknown users '"@ + user + "' in file "@ + source,
            FindingView::DuplicateContext { name, source } => "A context name '"@ + name
                + "' appears more than once in file "@ + source,
        }
    }
}

/// `a`, `b`, `c` and `d`, one behind the other.
fn sentence4(a: &str, b: &str, c: &str, d: &str) -> (r: String)
    ensures
        r@ == a@ + b@ + c@ + d@,
{
    let mut r = String::from_str(a);
    r.append(b);
    r.append(c);
    r.append(d);
    r
}

/// `a` to `f`, one behind the other.
fn sentence6(a: &str, b: &str, c: &str, d: &str, e: &str, f: &str) -> (r: String)
    ensures
        r@ == a@ + b@ + c@ + d@ + e@ + f@,
{
    let mut r = sentence4(a, b, c, d);
    r.append(e);
    r.append(f);
    r
}

impl Finding {
    /// The sentence that reports the finding.
    pub fn message(&self) -> (r: String)
        ensures
            r@ == self@.message(),
    {
        match self {
            Finding::UnreferencedCluster { name, source } => sentence4(
                "Cluster '",
                name.as_str(),
                "' has no context referencing it in file ",
                source.as_str(),
            ),
            Finding::DuplicateCluster { name, source } => sentence4(
                "A cluster named '",
                name.as_str(),
                "' appears more than once in file ",
                source.as_str(),
            ),
            Finding::UnreferencedUser { name, source } => sentence4(
                "User '",
                name.as_str(),
                "' has no context referencing it in file ",
                source.as_str(),
            ),
            Finding::DuplicateUser { name, source } => sentence4(
                "A user named '",
                name.as_str(),
                "' appears more than once in file ",
                source.as_str(),
            ),
            Finding::UnknownCluster { context, cluster, source } => sentence6(
                "Context '",
                context.as_str(),
                "' references unknown cluster '",
                cluster.as_str(),
                "' in file ",
                source.as_str(),
            ),
            Finding::UnknownUser { context, user, source } => sentence6(
                "Context '",
                context.as_str(),
                "' references unknown users '",
                user.as_str(),
                "' in file ",
                source.as_str(),
            ),
            Finding::DuplicateContext { name, source } => sentence4(
                "A context name '",
                name.as_str(),
                "' appears more than once in file ",
                source.as_str(),
            ),
        }
    }
}

/// What is found of the cluster at position `i` of the catalog: that no
/// context of its file refers to it, and that an earlier cluster of its
/// file has its name.
pub open spec fn cluster_findings_at(catalog: InstalledView, i: int) -> Seq<FindingView> {
    let cluster = catalog.clusters[i];
    let name = cluster.item.name;
    let source = cluster.source;
    let unreferenced = if catalog.contexts.filter(context_of_cluster(name, source)).len() == 0 {
        seq![FindingView::UnreferencedCluster { name, source }]
    } else {
        Seq::empty()
    };
    let duplicate = if any_before(catalog.clusters, cluster_named_in(name, source), i) {
        seq![FindingView::DuplicateCluster { name, source }]
    } else {
        Seq::empty()
    };
    unreferenced + duplicate
}

/// What is found of the first `n` clusters of the catalog, in their order.
pub open spec fn cluster_findings(catalog: InstalledView, n: nat) -> Seq<FindingView>
    decreases n,
{
    if n == 0 {
        Seq::empty()
    } else {
        cluster_findings(catalog, (n - 1) as nat) + cluster_findings_at(catalog, n - 1)
    }
}

/// What is found of the user at position `i` of the catalog: that no
/// context of its file refers to it, and that an earlier user of its file
/// has its name.
pub open spec fn user_findings_at(catalog: InstalledView, i: int) -> Seq<FindingView> {
    let user = catalog.users[i];
    let name = user.item.name;
    let source = user.source;
    let unreferenced = if catalog.contexts.filter(context_of_user(name, source)).len() == 0 {
        seq![FindingView::UnreferencedUser { name, source }]
    } else {
        Seq::empty()
    };
    let duplicate = if any_before(catalog.users, user_named_in(name, source), i) {
        seq![FindingView::DuplicateUser { name, source }]
    } else {
        Seq::empty()
    };
    unreferenced + duplicate
}

/// What is found of the first `n` users of the catalog, in their order.
pub open spec fn user_findings(catalog: InstalledView, n: nat) -> Seq<FindingView>
    decreases n,
{
    if n == 0 {
        Seq::empty()
    } else {
        user_findings(catalog, (n - 1) as nat) + user_findings_at(catalog, n - 1)
    }
}

/// What is found of the context at position `i` of the catalog: that its
/// file holds no cluster of the name it refers to, that its file holds no
/// user of the name it refers to, and that an earlier context of its file
/// has its name.
pub open spec fn context_findings_at(catalog: InstalledView, i: int) -> Seq<FindingView> {
    let context = catalog.contexts[i];
    let name = context.item.name;
    let source = context.source;
    let cluster = context.item.context.cluster;
    let user = context.item.context.user;
    let unknown_cluster = if !any(catalog.clusters, cluster_named_in(cluster, source)) {
        seq![FindingView::UnknownCluster { context: name, cluster, source }]
    } else {
        Seq::empty()
    };
    let unknown_user = if !any(catalog.users, user_named_in(user, source)) {
        seq![FindingView::UnknownUser { context: name, user, source }]
    } else {
        Seq::empty()
    };
    let duplicate = if any_before(catalog.contexts, context_named_in(name, source), i) {
        seq![FindingView::DuplicateContext { name, source }]
    } else {
        Seq::empty()
    };
    unknown_cluster + unknown_user + duplicate
}

/// What is found of the first `n` contexts of the catalog, in their order.
pub open spec fn context_findings(catalog: InstalledView, n: nat) -> Seq<FindingView>
    decreases n,
{
    if n == 0 {
        Seq::empty()
    } else {
        context_findings(catalog, (n - 1) as nat) + context_findings_at(catalog, n - 1)
    }
}

/// All that is found in the catalog: of its clusters, then of its users,
/// then of its contexts.
pub open spec fn findings(catalog: InstalledView) -> Seq<FindingView> {
    cluster_findings(catalog, catalog.clusters.len()) + user_findings(catalog, catalog.users.len())
        + context_findings(catalog, catalog.contexts.len())
}

/// Whether one of the first `n` clusters has the name `name` and the file
/// `source`.
fn cluster_among(installed: &Installed, name: &str, source: &str, n: usize) -> (r: bool)
    requires
        n <= installed.clusters.len(),
    ensures
        r == any_before(installed@.clusters, cluster_named_in(name@, source@), n as int),
{
    let mut j: usize = 0;
    while j < n
        invariant
            j <= n <= installed.clusters.len(),
            !any_before(installed@.clusters, cluster_named_in(name@, source@), j as int),
        decreases n - j,
    {
        let c = &installed.clusters[j];
        if str_eq(c.item.name.as_str(), name) && str_eq(c.source.as_str(), source) {
            assert(cluster_named_in(name@, source@)(installed@.clusters[j as int]));
            return true;
        }
        j += 1;
    }
    false
}

/// Whether one of the first `n` users has the name `name` and the file
/// `source`.
fn user_among(installed: &Installed, name: &str, source: &str, n: usize) -> (r: bool)
    requires
        n <= installed.users.len(),
    ensures
        r == any_before(installed@.users, user_named_in(name@, source@), n as int),
{
    let mut j: usize = 0;
    while j < n
        invariant
            j <= n <= installed.users.len(),
            !any_before(installed@.users, user_named_in(name@, source@), j as int),
        decreases n - j,
    {
        let u = &installed.users[j];
        if str_eq(u.item.name.as_str(), name) && str_eq(u.source.as_str(), source) {
            assert(user_named_in(name@, source@)(installed@.users[j as int]));
            return true;
        }
        j += 1;
    }
    false
}

/// Whether one of the first `n` contexts has the name `name` and the file
/// `source`.
fn context_among(installed: &Installed, name: &str, source: &str, n: usize) -> (r: bool)
    requires
        n <= installed.contexts.len(),
    ensures
        r == any_before(installed@.contexts, context_named_in(name@, source@), n as int),
{
    let mut j: usize = 0;
    while j < n
        invariant
            j <= n <= installed.contexts.len(),
            !any_before(installed@.contexts, context_named_in(name@, source@), j as int),
        decreases n - j,
    {
        let c = &installed.contexts[j];
        if str_eq(c.item.name.as_str(), name) && str_eq(c.source.as_str(), source) {
            assert(context_named_in(name@, source@)(installed@.contexts[j as int]));
            return true;
        }
        j += 1;
    }
    false
}

/// Checks the clusters: each for contexts of its file that refer to it,
/// and for an earlier cluster of its file with its name.
pub fn lint_clusters(installed: &Installed) -> (r: Vec<Finding>)
    ensures
        views(r@) == cluster_findings(installed@, installed@.clusters.len()),
{
    let mut found: Vec<Finding> = Vec::new();
    let mut i: usize = 0;
    assert(views(found@) =~= Seq::empty());
    while i < installed.clusters.len()
        invariant
            i <= installed.clusters.len(),
            views(found@) == cluster_findings(installed@, i as nat),
        decreases installed.clusters.len() - i,
    {
        let cluster = &installed.clusters[i];
        let name = cluster.item.name.as_str();
        let source = cluster.source.as_str();
        let ghost start = found@;
        let referring = installed.find_contexts_by_cluster(name, source);
        assert(ref_views(referring@).len() == referring@.len());
        if referring.len() == 0 {
            let finding = Finding::UnreferencedCluster {
                name: name.to_owned(),
                source: source.to_owned(),
            };
            let ghost before = found@;
            found.push(finding);
            assert(views(found@) =~= views(before).push(finding@));
        }
        if cluster_among(installed, name, source, i) {
            let finding = Finding::DuplicateCluster {
                name: name.to_owned(),
                source: source.to_owned(),
            };
            let ghost before = found@;
            found.push(finding);
            assert(views(found@) =~= views(before).push(finding@));
        }
        assert(views(found@) =~= views(start) + cluster_findings_at(installed@, i as int));
        i += 1;
    }
    found
}

/// Checks the users: each for contexts of its file that refer to it, and
/// for an earlier user of its file with its name.
pub fn lint_users(installed: &Installed) -> (r: Vec<Finding>)
    ensures
        views(r@) == user_findings(installed@, installed@.users.len()),
{
    let mut found: Vec<Finding> = Vec::new();
    let mut i: usize = 0;
    assert(views(found@) =~= Seq::empty());
    while i < installed.users.len()
        invariant
            i <= installed.users.len(),
            views(found@) == user_findings(installed@, i as nat),
        decreases installed.users.len() - i,
    {
        let user = &installed.users[i];
        let name = user.item.name.as_str();
        let source = user.source.as_str();
        let ghost start = found@;
        let referring = installed.find_contexts_by_user(name, source);
        assert(ref_views(referring@).len() == referring@.len());
        if referring.len() == 0 {
            let finding = Finding::UnreferencedUser {
                name: name.to_owned(),
                source: source.to_owned(),
            };
            let ghost before = found@;
            found.push(finding);
            assert(views(found@) =~= views(before).push(finding@));
        }
        if user_among(installed, name, source, i) {
            let finding = Finding::DuplicateUser {
                name: name.to_owned(),
                source: source.to_owned(),
            };
            let ghost before = found@;
            found.push(finding);
            assert(views(found@) =~= views(before).push(finding@));
        }
        assert(views(found@) =~= views(start) + user_findings_at(installed@, i as int));
        i += 1;
    }
    found
}

/// Checks the contexts: each for the cluster and the user it refers to in
/// its file, and for an earlier context of its file with its name.
pub fn lint_contexts(installed: &Installed) -> (r: Vec<Finding>)
    ensures
        views(r@) == context_findings(installed@, installed@.contexts.len()),
{
    let mut found: Vec<Finding> = Vec::new();
    let mut i: usize = 0;
    assert(views(found@) =~= Seq::empty());
    while i < installed.contexts.len()
        invariant
            i <= installed.contexts.len(),
            views(found@) == context_findings(installed@, i as nat),
        decreases installed.contexts.len() - i,
    {
        let context = &installed.contexts[i];
        let name = context.item.name.as_str();
        let source = context.source.as_str();
        let cluster = context.item.context.cluster.as_str();
        let user = context.item.context.user.as_str();
        let ghost start = found@;
        if !cluster_among(installed, cluster, source, installed.clusters.len()) {
            let finding = Finding::UnknownCluster {
                context: name.to_owned(),
                cluster: cluster.to_owned(),
                source: source.to_owned(),
            };
            let ghost before = found@;
            found.push(finding);
            assert(views(found@) =~= views(before).push(finding@));
        }
        if !user_among(installed, user, source, installed.users.len()) {
            let finding = Finding::UnknownUser {
                context: name.to_owned(),
                user: user.to_owned(),
                source: source.to_owned(),
            };
            let ghost before = found@;
            found.push(finding);
            assert(views(found@) =~= views(before).push(finding@));
        }
        if context_among(installed, name, source, i) {
            let finding = Finding::DuplicateContext {
                name: name.to_owned(),
                source: source.to_owned(),
            };
            let ghost before = found@;
            found.push(finding);
            assert(views(found@) =~= views(before).push(finding@));
        }
        assert(views(found@) =~= views(start) + context_findings_at(installed@, i as int));
        i += 1;
    }
    found
}

/// Checks the whole catalog and gives every finding: those of the
/// clusters, then those of the users, then those of the contexts.
pub fn lint(installed: &Installed) -> (r: Vec<Finding>)
    ensures
        views(r@) == findings(installed@),
{
    let mut found = lint_clusters(installed);
    let mut users = lint_users(installed);
    let mut contexts = lint_contexts(installed);
    let ghost a = found@;
    let ghost b = users@;
    let ghost c = contexts@;
    found.append(&mut users);
    found.append(&mut contexts);
    assert(views(found@) =~= views(a) + views(b) + views(c));
    found
}

} // verus!
