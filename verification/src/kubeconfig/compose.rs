//! The composition of a configuration for one context: that context alone,
//! with the cluster and the user it refers to, ready to be written where a
//! shell finds it.

use crate::error::{KubieError, KubieErrorView};
use crate::kubeconfig::{cluster_named, cluster_named_in, context_named, user_named, user_named_in};
use crate::kubeconfig::{ContextView, Installed, InstalledView, KubeConfig, KubeConfigView};
use crate::kubeconfig::{NamedClusterView, NamedContextView, NamedUserView};
use crate::paths::{is_absolute_path, join_paths, parent_of_path};
use crate::paths::{path_is_absolute, path_join, path_parent};
use crate::search::{find_first, lemma_find_first_none, lemma_find_first_some};
use crate::text::{option_str, option_to_owned};
use crate::yaml::{has_key, mapping_entries, no_entries, text_at, with_text};
use crate::yaml::{mapping_new, mapping_set_text, mapping_text, Yaml};
use serde_yaml::Mapping;
use vstd::prelude::*;

verus! {

/// The key under which a cluster names the file of its certificate
/// authority.
pub const CERTIFICATE_AUTHORITY: &'static str = "certificate-authority";

/// The key under which a user names the file of its client certificate.
pub const CLIENT_CERTIFICATE: &'static str = "client-certificate";

/// The key under which a user names the file of its client key.
pub const CLIENT_KEY: &'static str = "client-key";

/// Whether whatever stands under `key` is text.
pub open spec fn text_if_present(entries: Map<Yaml, Yaml>, key: Seq<char>) -> bool {
    has_key(entries, key) ==> text_at(entries, key) is Some
}

/// `entries` with the path under `key` made absolute: a relative path is
/// joined to the directory `dir`; an absolute path, and a document without
/// the key, stay as they are.
pub open spec fn anchored(entries: Map<Yaml, Yaml>, key: Seq<char>, dir: Seq<char>) -> Map<
    Yaml,
    Yaml,
> {
    match text_at(entries, key) {
        Some(path) => if path_is_absolute(path) {
            entries
        } else {
            with_text(entries, key, path_join(dir, path))
        },
        None => entries,
    }
}

/// The two entries that every composed configuration carries besides its
/// clusters, users and contexts: its schema version and its kind.
pub open spec fn fixed_metadata() -> Map<Yaml, Yaml> {
    with_text(with_text(no_entries(), "apiVersion"@, "v1"@), "kind"@, "Config"@)
}

/// The view of a namespace override: `None` where none was given,
/// `Some(None)` where the namespace is to be unset.
pub open spec fn override_view(o: Option<Option<&str>>) -> Option<Option<Seq<char>>> {
    match o {
        Some(n) => Some(option_str(n)),
        None => None,
    }
}

/// The view of the result of a composition.
pub open spec fn composed_view(r: Result<KubeConfig, KubieError>) -> Result<
    KubeConfigView,
    KubieErrorView,
> {
    match r {
        Ok(config) => Ok(config@),
        Err(e) => Err(e@),
    }
}

impl InstalledView {
    /// Whether composing for `name` has an outcome, be it a configuration
    /// or the report that something was not found: the file of the context
    /// lies in a directory, and what the cluster and the user found for it
    /// hold under the keys for certificate and key files is text.
    pub open spec fn composable(self, name: Seq<char>) -> bool {
        match self.find_context(name) {
            None => true,
            Some(ctx) => path_parent(ctx.source) is Some && match self.find_cluster(
                ctx.item.context.cluster,
                ctx.source,
            ) {
                None => true,
                Some(cluster) => text_if_present(cluster.item.cluster, CERTIFICATE_AUTHORITY@)
                    && match self.find_user(ctx.item.context.user, ctx.source) {
                    None => true,
                    Some(user) => text_if_present(user.item.user, CLIENT_CERTIFICATE@)
                        && text_if_present(user.item.user, CLIENT_KEY@),
                },
            },
        }
    }

    /// The configuration composed for the context `name`.
    ///
    /// The context is the first of that name. Its namespace is the override
    /// where one is given, and the stored one otherwise. Its cluster and its
    /// user are looked up under the names it refers to, in its own file
    /// first. Their certificate and key paths are anchored at the directory
    /// of the context's file. The result holds exactly this context, this
    /// cluster and this user, names the context as current, and carries the
    /// fixed metadata.
    pub open spec fn compose(self, name: Seq<char>, namespace: Option<Option<Seq<char>>>) -> Result<
        KubeConfigView,
        KubieErrorView,
    > {
        match self.find_context(name) {
            None => Err(KubieErrorView::ContextNotFound(name)),
            Some(ctx) => match self.find_cluster(ctx.item.context.cluster, ctx.source) {
                None => Err(
                    KubieErrorView::ClusterNotFound {
                        cluster: ctx.item.context.cluster,
                        context: name,
                    },
                ),
                Some(cluster) => match self.find_user(ctx.item.context.user, ctx.source) {
                    None => Err(
                        KubieErrorView::UserNotFound { user: ctx.item.context.user, context: name },
                    ),
                    Some(user) => {
                        let dir = path_parent(ctx.source).unwrap();
                        Ok(
                            KubeConfigView {
                                clusters: seq![
                                    NamedClusterView {
                                        name: cluster.item.name,
                                        cluster: anchored(
                                            cluster.item.cluster,
                                            CERTIFICATE_AUTHORITY@,
                                            dir,
                                        ),
                                    },
                                ],
                                users: seq![
                                    NamedUserView {
                                        name: user.item.name,
                                        user: anchored(
                                            anchored(user.item.user, CLIENT_CERTIFICATE@, dir),
                                            CLIENT_KEY@,
                                            dir,
                                        ),
                                    },
                                ],
                                contexts: seq![
                                    NamedContextView {
                                        name: ctx.item.name,
                                        context: ContextView {
                                            cluster: ctx.item.context.cluster,
                                            namespace: match namespace {
                                                Some(n) => n,
                                                None => ctx.item.context.namespace,
                                            },
                                            user: ctx.item.context.user,
                                        },
                                    },
                                ],
                                current_context: Some(name),
                                others: fixed_metadata(),
                            },
                        )
                    },
                },
            },
        }
    }
}

impl Installed {
    /// Makes the path under `key` absolute: a relative one is joined to the
    /// directory `parent`.
    fn make_path_absolute(mapping: &mut Mapping, key: &str, parent: &str)
        requires
            text_if_present(mapping_entries(*old(mapping)), key@),
        ensures
            mapping_entries(*final(mapping)) == anchored(
                mapping_entries(*old(mapping)),
                key@,
                parent@,
            ),
    {
        match mapping_text(mapping, key) {
            Some(Some(path)) => {
                if !is_absolute_path(path.as_str()) {
                    let joined = join_paths(parent, path.as_str());
                    mapping_set_text(mapping, key, joined.as_str());
                }
            },
            _ => {},
        }
    }

    /// Composes the configuration for the context `context_name`: that
    /// context alone, with the cluster and the user it refers to.
    ///
    /// `namespace_name` overrides the namespace of the context: `None`
    /// leaves the stored namespace, `Some(None)` unsets it, `Some(Some(n))`
    /// sets it to `n`.
    pub fn make_kubeconfig_for_context(
        &self,
        context_name: &str,
        namespace_name: Option<Option<&str>>,
    ) -> (r: Result<KubeConfig, KubieError>)
        requires
            self@.composable(context_name@),
        ensures
            composed_view(r) == self@.compose(context_name@, override_view(namespace_name)),
    {
        let context_src = match self.find_context_by_name(context_name) {
            Some(c) => c,
            None => {
                return Err(KubieError::ContextNotFound(context_name.to_owned()));
            },
        };
        let mut context = context_src.item.clone();
        match namespace_name {
            Some(n) => {
                context.context.namespace = option_to_owned(n);
            },
            None => {},
        }
        let source: &str = context_src.source.as_str();
        let dir = parent_of_path(source).unwrap();

        let cluster_src = match self.find_cluster_by_name(context.context.cluster.as_str(), source) {
            Some(c) => c,
            None => {
                return Err(
                    KubieError::ClusterNotFound {
                        cluster: context.context.cluster.clone(),
                        context: context_name.to_owned(),
                    },
                );
            },
        };
        let mut named_cluster = cluster_src.item.clone();
        Self::make_path_absolute(&mut named_cluster.cluster, CERTIFICATE_AUTHORITY, dir.as_str());

        let user_src = match self.find_user_by_name(context.context.user.as_str(), source) {
            Some(u) => u,
            None => {
                return Err(
                    KubieError::UserNotFound {
                        user: context.context.user.clone(),
                        context: context_name.to_owned(),
                    },
                );
            },
        };
        let mut named_user = user_src.item.clone();
        Self::make_path_absolute(&mut named_user.user, CLIENT_CERTIFICATE, dir.as_str());
        Self::make_path_absolute(&mut named_user.user, CLIENT_KEY, dir.as_str());

        let mut others = mapping_new();
        mapping_set_text(&mut others, "apiVersion", "v1");
        mapping_set_text(&mut others, "kind", "Config");

        let config = KubeConfig {
            clusters: vec![named_cluster],
            users: vec![named_user],
            contexts: vec![context],
            current_context: Some(context_name.to_owned()),
            others,
        };
        proof {
            let expected = self@.compose(context_name@, override_view(namespace_name))->Ok_0;
            assert(config@.clusters =~= expected.clusters);
            assert(config@.users =~= expected.users);
            assert(config@.contexts =~= expected.contexts);
        }
        Ok(config)
    }

    /// Whether what stands under `key` in `mapping` is text, or nothing
    /// stands there.
    fn is_text_if_present(mapping: &Mapping, key: &str) -> (r: bool)
        ensures
            r == text_if_present(mapping_entries(*mapping), key@),
    {
        match mapping_text(mapping, key) {
            Some(None) => false,
            _ => true,
        }
    }

    /// Whether `make_kubeconfig_for_context` can be called for
    /// `context_name`.
    pub fn is_composable(&self, context_name: &str) -> (r: bool)
        ensures
            r == self@.composable(context_name@),
    {
        let context_src = match self.find_context_by_name(context_name) {
            Some(c) => c,
            None => {
                return true;
            },
        };
        let source: &str = context_src.source.as_str();
        if parent_of_path(source).is_none() {
            return false;
        }
        let cluster_src = match self.find_cluster_by_name(
            context_src.item.context.cluster.as_str(),
            source,
        ) {
            Some(c) => c,
            None => {
                return true;
            },
        };
        if !Self::is_text_if_present(&cluster_src.item.cluster, CERTIFICATE_AUTHORITY) {
            return false;
        }
        let user_src = match self.find_user_by_name(context_src.item.context.user.as_str(), source) {
            Some(u) => u,
            None => {
                return true;
            },
        };
        Self::is_text_if_present(&user_src.item.user, CLIENT_CERTIFICATE)
            && Self::is_text_if_present(&user_src.item.user, CLIENT_KEY)
    }

    /// Composes the configuration for `context_name` where that can be
    /// done, and gives `None` where the file of the context lies in no
    /// directory or a certificate or key entry is no text.
    pub fn try_make_kubeconfig_for_context(
        &self,
        context_name: &str,
        namespace_name: Option<Option<&str>>,
    ) -> (r: Option<Result<KubeConfig, KubieError>>)
        ensures
            r is Some <==> self@.composable(context_name@),
            r matches Some(composed) ==> composed_view(composed) == self@.compose(
                context_name@,
                override_view(namespace_name),
            ),
    {
        if self.is_composable(context_name) {
            Some(self.make_kubeconfig_for_context(context_name, namespace_name))
        } else {
            None
        }
    }
}

/// Without an override, the composed configuration keeps the namespace that
/// the context is stored with.
pub proof fn lemma_compose_keeps_stored_namespace(catalog: InstalledView, name: Seq<char>)
    requires
        catalog.compose(name, None) is Ok,
    ensures
        catalog.find_context(name) is Some,
        catalog.compose(name, None)->Ok_0.contexts.len() == 1,
        catalog.compose(name, None)->Ok_0.contexts[0].context.namespace == catalog.find_context(
            name,
        )->0.item.context.namespace,
{
}

/// With an override, the composed configuration has the namespace of the
/// override, whatever namespace the context is stored with.
pub proof fn lemma_compose_takes_override(
    catalog: InstalledView,
    name: Seq<char>,
    namespace: Option<Seq<char>>,
)
    requires
        catalog.compose(name, Some(namespace)) is Ok,
    ensures
        catalog.compose(name, Some(namespace))->Ok_0.contexts.len() == 1,
        catalog.compose(name, Some(namespace))->Ok_0.contexts[0].context.namespace == namespace,
{
}

/// Where no cluster of the catalog has the name that the context refers to,
/// composition fails and names that cluster.
pub proof fn lemma_compose_missing_cluster(
    catalog: InstalledView,
    name: Seq<char>,
    namespace: Option<Option<Seq<char>>>,
)
    requires
        catalog.find_context(name) is Some,
        forall|i: int|
            0 <= i < catalog.clusters.len() ==> (#[trigger] catalog.clusters[i]).item.name
                != catalog.find_context(name)->0.item.context.cluster,
    ensures
        catalog.compose(name, namespace) == Err::<KubeConfigView, KubieErrorView>(
            KubieErrorView::ClusterNotFound {
                cluster: catalog.find_context(name)->0.item.context.cluster,
                context: name,
            },
        ),
{
    let ctx = catalog.find_context(name)->0;
    lemma_find_first_none(
        catalog.clusters,
        cluster_named_in(ctx.item.context.cluster, ctx.source),
    );
    lemma_find_first_none(catalog.clusters, cluster_named(ctx.item.context.cluster));
}

/// A composed configuration holds exactly one context, one cluster and one
/// user: the context asked for, which it names as current, and the cluster
/// and the user that this context refers to.
pub proof fn lemma_compose_single_result(
    catalog: InstalledView,
    name: Seq<char>,
    namespace: Option<Option<Seq<char>>>,
)
    requires
        catalog.compose(name, namespace) is Ok,
    ensures
        ({
            let composed = catalog.compose(name, namespace)->Ok_0;
            &&& composed.contexts.len() == 1
            &&& composed.clusters.len() == 1
            &&& composed.users.len() == 1
            &&& composed.contexts[0].name == name
            &&& composed.current_context == Some(name)
            &&& composed.clusters[0].name == composed.contexts[0].context.cluster
            &&& composed.users[0].name == composed.contexts[0].context.user
        }),
{
    let ctx = catalog.find_context(name)->0;
    lemma_find_first_some(catalog.contexts, context_named(name));
    let cluster = ctx.item.context.cluster;
    if find_first(catalog.clusters, cluster_named_in(cluster, ctx.source)) is Some {
        lemma_find_first_some(catalog.clusters, cluster_named_in(cluster, ctx.source));
    } else {
        lemma_find_first_some(catalog.clusters, cluster_named(cluster));
    }
    let user = ctx.item.context.user;
    if find_first(catalog.users, user_named_in(user, ctx.source)) is Some {
        lemma_find_first_some(catalog.users, user_named_in(user, ctx.source));
    } else {
        lemma_find_first_some(catalog.users, user_named(user));
    }
}

} // verus!
