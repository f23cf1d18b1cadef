//! Configuration files and the catalog of what is installed: the clusters,
//! users and contexts of all files, each with the file it came from, and the
//! ways to look them up.

use crate::search::{find_first, lemma_filter_step, lemma_find_first_at, lemma_find_first_none};
use crate::text::{option_text, str_eq};
use crate::wildcard::{wildcard_match, wildcard_matches};
use crate::yaml::{mapping_clone, mapping_entries, Yaml};
use serde_yaml::Mapping;
use std::rc::Rc;
use vstd::prelude::*;

pub mod compose;
pub mod delete;
pub mod load;

pub use self::compose::{anchored, composed_view, fixed_metadata, override_view, text_if_present};
pub use self::compose::{CERTIFICATE_AUTHORITY, CLIENT_CERTIFICATE, CLIENT_KEY};
pub use self::delete::{deleted_view, FileChange, FileChangeView};
pub use self::load::{get_installed_contexts, get_kubeconfigs_contexts, load_kubeconfigs, merged};
pub use self::load::{load_failures, FileOutcome, FileOutcomeView, LoadFailure, LoadFailureView};
pub use self::load::{Loaded, LoadedFile, LoadedFileView};

verus! {

/// The binding of a cluster, a user and an optional namespace.
pub struct Context {
    pub cluster: String,
    pub namespace: Option<String>,
    pub user: String,
}

/// The model of a [`Context`].
pub struct ContextView {
    pub cluster: Seq<char>,
    pub namespace: Option<Seq<char>>,
    pub user: Seq<char>,
}

impl View for Context {
    type V = ContextView;

    open spec fn view(&self) -> ContextView {
        ContextView {
            cluster: self.cluster@,
            namespace: option_text(self.namespace),
            user: self.user@,
        }
    }
}

impl Clone for Context {
    fn clone(&self) -> (r: Self)
        ensures
            r@ == self@,
    {
        Context {
            cluster: self.cluster.clone(),
            namespace: self.namespace.clone(),
            user: self.user.clone(),
        }
    }
}

/// A context under its name.
pub struct NamedContext {
    pub name: String,
    pub context: Context,
}

/// The model of a [`NamedContext`].
pub struct NamedContextView {
    pub name: Seq<char>,
    pub context: ContextView,
}

impl View for NamedContext {
    type V = NamedContextView;

    open spec fn view(&self) -> NamedContextView {
        NamedContextView { name: self.name@, context: self.context@ }
    }
}

impl Clone for NamedContext {
    fn clone(&self) -> (r: Self)
        ensures
            r@ == self@,
    {
        NamedContext { name: self.name.clone(), context: self.context.clone() }
    }
}

/// A cluster under its name, with its connection parameters.
pub struct NamedCluster {
    pub name: String,
    pub cluster: Mapping,
}

/// The model of a [`NamedCluster`].
pub struct NamedClusterView {
    pub name: Seq<char>,
    pub cluster: Map<Yaml, Yaml>,
}

impl View for NamedCluster {
    type V = NamedClusterView;

    open spec fn view(&self) -> NamedClusterView {
        NamedClusterView { name: self.name@, cluster: mapping_entries(self.cluster) }
    }
}

impl Clone for NamedCluster {
    fn clone(&self) -> (r: Self)
        ensures
            r@ == self@,
    {
        NamedCluster { name: self.name.clone(), cluster: mapping_clone(&self.cluster) }
    }
}

/// A user under its name, with its credentials.
pub struct NamedUser {
    pub name: String,
    pub user: Mapping,
}

/// The model of a [`NamedUser`].
pub struct NamedUserView {
    pub name: Seq<char>,
    pub user: Map<Yaml, Yaml>,
}

impl View for NamedUser {
    type V = NamedUserView;

    open spec fn view(&self) -> NamedUserView {
        NamedUserView { name: self.name@, user: mapping_entries(self.user) }
    }
}

impl Clone for NamedUser {
    fn clone(&self) -> (r: Self)
        ensures
            r@ == self@,
    {
        NamedUser { name: self.name.clone(), user: mapping_clone(&self.user) }
    }
}

/// A value together with the path of the file it was read from. The items
/// of one file share one path.
pub struct Sourced<T> {
    pub source: Rc<String>,
    pub item: T,
}

/// The model of a [`Sourced`] value.
pub struct SourcedView<V> {
    pub source: Seq<char>,
    pub item: V,
}

impl<T: View> View for Sourced<T> {
    type V = SourcedView<T::V>;

    open spec fn view(&self) -> SourcedView<T::V> {
        SourcedView { source: self.source@, item: self.item@ }
    }
}

impl<T> Sourced<T> {
    /// `item`, tagged with the file at `source`; the path is shared, not
    /// copied.
    pub fn new(source: &Rc<String>, item: T) -> (r: Self)
        ensures
            r.source == *source,
            r.item == item,
    {
        Sourced { source: Rc::clone(source), item }
    }
}

/// The views of the elements of a sequence.
pub open spec fn views<T: View>(s: Seq<T>) -> Seq<T::V> {
    s.map_values(|x: T| x@)
}

/// The view of an optional reference.
pub open spec fn option_view<T: View>(o: Option<&T>) -> Option<T::V> {
    match o {
        Some(x) => Some(x@),
        None => None,
    }
}

/// One configuration file: its clusters, users and contexts, the context it
/// marks as current, and whatever else stands at its top level.
pub struct KubeConfig {
    pub clusters: Vec<NamedCluster>,
    pub users: Vec<NamedUser>,
    pub contexts: Vec<NamedContext>,
    pub current_context: Option<String>,
    pub others: Mapping,
}

/// The model of a [`KubeConfig`].
pub struct KubeConfigView {
    pub clusters: Seq<NamedClusterView>,
    pub users: Seq<NamedUserView>,
    pub contexts: Seq<NamedContextView>,
    pub current_context: Option<Seq<char>>,
    pub others: Map<Yaml, Yaml>,
}

impl View for KubeConfig {
    type V = KubeConfigView;

    open spec fn view(&self) -> KubeConfigView {
        KubeConfigView {
            clusters: views(self.clusters@),
            users: views(self.users@),
            contexts: views(self.contexts@),
            current_context: option_text(self.current_context),
            others: mapping_entries(self.others),
        }
    }
}

/// The catalog: the clusters, users and contexts of all the files that were
/// loaded, each with its source, in the order in which they were loaded.
pub struct Installed {
    pub clusters: Vec<Sourced<NamedCluster>>,
    pub users: Vec<Sourced<NamedUser>>,
    pub contexts: Vec<Sourced<NamedContext>>,
}

/// The model of an [`Installed`] catalog.
pub struct InstalledView {
    pub clusters: Seq<SourcedView<NamedClusterView>>,
    pub users: Seq<SourcedView<NamedUserView>>,
    pub contexts: Seq<SourcedView<NamedContextView>>,
}

impl View for Installed {
    type V = InstalledView;

    open spec fn view(&self) -> InstalledView {
        InstalledView {
            clusters: views(self.clusters@),
            users: views(self.users@),
            contexts: views(self.contexts@),
        }
    }
}

/// The contexts named `name`.
pub open spec fn context_named(name: Seq<char>) -> spec_fn(SourcedView<NamedContextView>) -> bool {
    |c: SourcedView<NamedContextView>| c.item.name == name
}

/// The contexts named `name` in the file `source`.
pub open spec fn context_named_in(name: Seq<char>, source: Seq<char>) -> spec_fn(
    SourcedView<NamedContextView>,
) -> bool {
    |c: SourcedView<NamedContextView>| c.item.name == name && c.source == source
}

/// The clusters named `name`.
pub open spec fn cluster_named(name: Seq<char>) -> spec_fn(SourcedView<NamedClusterView>) -> bool {
    |c: SourcedView<NamedClusterView>| c.item.name == name
}

/// The clusters named `name` in the file `source`.
pub open spec fn cluster_named_in(name: Seq<char>, source: Seq<char>) -> spec_fn(
    SourcedView<NamedClusterView>,
) -> bool {
    |c: SourcedView<NamedClusterView>| c.item.name == name && c.source == source
}

/// The users named `name`.
pub open spec fn user_named(name: Seq<char>) -> spec_fn(SourcedView<NamedUserView>) -> bool {
    |u: SourcedView<NamedUserView>| u.item.name == name
}

/// The users named `name` in the file `source`.
pub open spec fn user_named_in(name: Seq<char>, source: Seq<char>) -> spec_fn(
    SourcedView<NamedUserView>,
) -> bool {
    |u: SourcedView<NamedUserView>| u.item.name == name && u.source == source
}

impl InstalledView {
    /// The first context named `name`.
    pub open spec fn find_context(self, name: Seq<char>) -> Option<SourcedView<NamedContextView>> {
        find_first(self.contexts, context_named(name))
    }

    /// The first cluster named `name` in the file `source`, or else the
    /// first cluster named `name` in any file.
    pub open spec fn find_cluster(self, name: Seq<char>, source: Seq<char>) -> Option<
        SourcedView<NamedClusterView>,
    > {
        match find_first(self.clusters, cluster_named_in(name, source)) {
            Some(c) => Some(c),
            None => find_first(self.clusters, cluster_named(name)),
        }
    }

    /// The first user named `name` in the file `source`, or else the first
    /// user named `name` in any file.
    pub open spec fn find_user(self, name: Seq<char>, source: Seq<char>) -> Option<
        SourcedView<NamedUserView>,
    > {
        match find_first(self.users, user_named_in(name, source)) {
            Some(u) => Some(u),
            None => find_first(self.users, user_named(name)),
        }
    }
}

/// The contexts of the file `source` that refer to the cluster `name`.
pub open spec fn context_of_cluster(name: Seq<char>, source: Seq<char>) -> spec_fn(
    SourcedView<NamedContextView>,
) -> bool {
    |c: SourcedView<NamedContextView>| c.item.context.cluster == name && c.source == source
}

/// The contexts of the file `source` that refer to the user `name`.
pub open spec fn context_of_user(name: Seq<char>, source: Seq<char>) -> spec_fn(
    SourcedView<NamedContextView>,
) -> bool {
    |c: SourcedView<NamedContextView>| c.item.context.user == name && c.source == source
}

/// The contexts whose name the wildcard pattern `pattern` matches.
pub open spec fn context_matching(pattern: Seq<char>) -> spec_fn(
    SourcedView<NamedContextView>,
) -> bool {
    |c: SourcedView<NamedContextView>| wildcard_matches(pattern, c.item.name)
}

/// The views of the elements that a sequence of references points to.
pub open spec fn ref_views<T: View>(s: Seq<&T>) -> Seq<T::V> {
    s.map_values(|x: &T| x@)
}

impl Installed {
    /// The first context of the catalog named `name`.
    pub fn find_context_by_name(&self, name: &str) -> (r: Option<&Sourced<NamedContext>>)
        ensures
            option_view(r) == self@.find_context(name@),
            r matches Some(c) ==> self.contexts@.contains(*c),
    {
        let mut i: usize = 0;
        while i < self.contexts.len()
            invariant
                i <= self.contexts.len(),
                forall|j: int| 0 <= j < i ==> !context_named(name@)(#[trigger] self@.contexts[j]),
            decreases self.contexts.len() - i,
        {
            if str_eq(self.contexts[i].item.name.as_str(), name) {
                proof {
                    lemma_find_first_at(self@.contexts, context_named(name@), i as int);
                }
                return Some(&self.contexts[i]);
            }
            i += 1;
        }
        proof {
            lemma_find_first_none(self@.contexts, context_named(name@));
        }
        None
    }

    /// The cluster named `name`: the first one in the file `source` if that
    /// file has one, else the first one in any file.
    pub fn find_cluster_by_name(&self, name: &str, source: &str) -> (r: Option<
        &Sourced<NamedCluster>,
    >)
        ensures
            option_view(r) == self@.find_cluster(name@, source@),
            r matches Some(c) ==> self.clusters@.contains(*c),
    {
        let mut i: usize = 0;
        while i < self.clusters.len()
            invariant
                i <= self.clusters.len(),
                forall|j: int|
                    0 <= j < i ==> !cluster_named_in(name@, source@)(#[trigger] self@.clusters[j]),
            decreases self.clusters.len() - i,
        {
            let c = &self.clusters[i];
            if str_eq(c.item.name.as_str(), name) && str_eq(c.source.as_str(), source) {
                proof {
                    lemma_find_first_at(
                        self@.clusters,
                        cluster_named_in(name@, source@),
                        i as int,
                    );
                }
                return Some(c);
            }
            i += 1;
        }
        proof {
            lemma_find_first_none(self@.clusters, cluster_named_in(name@, source@));
        }
        let mut i: usize = 0;
        while i < self.clusters.len()
            invariant
                i <= self.clusters.len(),
                find_first(self@.clusters, cluster_named_in(name@, source@)) is None,
                forall|j: int| 0 <= j < i ==> !cluster_named(name@)(#[trigger] self@.clusters[j]),
            decreases self.clusters.len() - i,
        {
            let c = &self.clusters[i];
            if str_eq(c.item.name.as_str(), name) {
                proof {
                    lemma_find_first_at(self@.clusters, cluster_named(name@), i as int);
                }
                return Some(c);
            }
            i += 1;
        }
        proof {
            lemma_find_first_none(self@.clusters, cluster_named(name@));
        }
        None
    }

    /// The user named `name`: the first one in the file `source` if that
    /// file has one, else the first one in any file.
    pub fn find_user_by_name(&self, name: &str, source: &str) -> (r: Option<&Sourced<NamedUser>>)
        ensures
            option_view(r) == self@.find_user(name@, source@),
            r matches Some(u) ==> self.users@.contains(*u),
    {
        let mut i: usize = 0;
        while i < self.users.len()
            invariant
                i <= self.users.len(),
                forall|j: int|
                    0 <= j < i ==> !user_named_in(name@, source@)(#[trigger] self@.users[j]),
            decreases self.users.len() - i,
        {
            let u = &self.users[i];
            if str_eq(u.item.name.as_str(), name) && str_eq(u.source.as_str(), source) {
                proof {
                    lemma_find_first_at(self@.users, user_named_in(name@, source@), i as int);
                }
                return Some(u);
            }
            i += 1;
        }
        proof {
            lemma_find_first_none(self@.users, user_named_in(name@, source@));
        }
        let mut i: usize = 0;
        while i < self.users.len()
            invariant
                i <= self.users.len(),
                find_first(self@.users, user_named_in(name@, source@)) is None,
                forall|j: int| 0 <= j < i ==> !user_named(name@)(#[trigger] self@.users[j]),
            decreases self.users.len() - i,
        {
            let u = &self.users[i];
            if str_eq(u.item.name.as_str(), name) {
                proof {
                    lemma_find_first_at(self@.users, user_named(name@), i as int);
                }
                return Some(u);
            }
            i += 1;
        }
        proof {
            lemma_find_first_none(self@.users, user_named(name@));
        }
        None
    }

    /// The contexts of the file `source` that refer to the cluster `name`,
    /// in catalog order.
    pub fn find_contexts_by_cluster(&self, name: &str, source: &str) -> (r: Vec<
        &Sourced<NamedContext>,
    >)
        ensures
            ref_views(r@) == self@.contexts.filter(context_of_cluster(name@, source@)),
    {
        let mut found: Vec<&Sourced<NamedContext>> = Vec::new();
        let mut i: usize = 0;
        proof {
            reveal(Seq::filter);
            assert(self@.contexts.take(0) =~= Seq::empty());
            assert(ref_views(found@) =~= Seq::empty());
        }
        while i < self.contexts.len()
            invariant
                i <= self.contexts.len(),
                ref_views(found@) == self@.contexts.take(i as int).filter(
                    context_of_cluster(name@, source@),
                ),
            decreases self.contexts.len() - i,
        {
            let c = &self.contexts[i];
            proof {
                lemma_filter_step(self@.contexts, context_of_cluster(name@, source@), i as int);
            }
            if str_eq(c.item.context.cluster.as_str(), name) && str_eq(c.source.as_str(), source) {
                let ghost before = found@;
                found.push(c);
                assert(ref_views(found@) =~= ref_views(before).push(c@));
            }
            i += 1;
        }
        proof {
            assert(self@.contexts.take(i as int) =~= self@.contexts);
        }
        found
    }

    /// The contexts of the file `source` that refer to the user `name`, in
    /// catalog order.
    pub fn find_contexts_by_user(&self, name: &str, source: &str) -> (r: Vec<
        &Sourced<NamedContext>,
    >)
        ensures
            ref_views(r@) == self@.contexts.filter(context_of_user(name@, source@)),
    {
        let mut found: Vec<&Sourced<NamedContext>> = Vec::new();
        let mut i: usize = 0;
        proof {
            reveal(Seq::filter);
            assert(self@.contexts.take(0) =~= Seq::empty());
            assert(ref_views(found@) =~= Seq::empty());
        }
        while i < self.contexts.len()
            invariant
                i <= self.contexts.len(),
                ref_views(found@) == self@.contexts.take(i as int).filter(
                    context_of_user(name@, source@),
                ),
            decreases self.contexts.len() - i,
        {
            let c = &self.contexts[i];
            proof {
                lemma_filter_step(self@.contexts, context_of_user(name@, source@), i as int);
            }
            if str_eq(c.item.context.user.as_str(), name) && str_eq(c.source.as_str(), source) {
                let ghost before = found@;
                found.push(c);
                assert(ref_views(found@) =~= ref_views(before).push(c@));
            }
            i += 1;
        }
        proof {
            assert(self@.contexts.take(i as int) =~= self@.contexts);
        }
        found
    }

    /// The contexts whose name the wildcard pattern `pattern` matches, in
    /// catalog order.
    pub fn get_contexts_matching(&self, pattern: &str) -> (r: Vec<&Sourced<NamedContext>>)
        ensures
            ref_views(r@) == self@.contexts.filter(context_matching(pattern@)),
    {
        let mut found: Vec<&Sourced<NamedContext>> = Vec::new();
        let mut i: usize = 0;
        proof {
            reveal(Seq::filter);
            assert(self@.contexts.take(0) =~= Seq::empty());
            assert(ref_views(found@) =~= Seq::empty());
        }
        while i < self.contexts.len()
            invariant
                i <= self.contexts.len(),
                ref_views(found@) == self@.contexts.take(i as int).filter(
                    context_matching(pattern@),
                ),
            decreases self.contexts.len() - i,
        {
            let c = &self.contexts[i];
            proof {
                lemma_filter_step(self@.contexts, context_matching(pattern@), i as int);
            }
            if wildcard_match(pattern, c.item.name.as_str()) {
                let ghost before = found@;
                found.push(c);
                assert(ref_views(found@) =~= ref_views(before).push(c@));
            }
            i += 1;
        }
        proof {
            assert(self@.contexts.take(i as int) =~= self@.contexts);
        }
        found
    }
}

} // verus!
