//! The deletion of a context from its file, with the cluster and the user
//! that it refers to.

use crate::error::{KubieError, KubieErrorView};
use crate::kubeconfig::load::{merged, FileOutcomeView, LoadedFileView};
use crate::kubeconfig::{context_named, views, Installed, InstalledView, KubeConfig, KubeConfigView};
use crate::kubeconfig::{NamedCluster, NamedClusterView, NamedContext, NamedContextView};
use crate::kubeconfig::{NamedUser, NamedUserView};
use crate::search::{lemma_filter_none, lemma_filter_step, lemma_find_first_none};
use crate::search::lemma_find_first_some;
use crate::text::str_eq;
use crate::yaml::mapping_clone;
use vstd::prelude::*;

verus! {

/// The contexts with another name than `name`.
pub open spec fn context_not_named(name: Seq<char>) -> spec_fn(NamedContextView) -> bool {
    |c: NamedContextView| c.name != name
}

/// The clusters with another name than `name`.
pub open spec fn cluster_not_named(name: Seq<char>) -> spec_fn(NamedClusterView) -> bool {
    |c: NamedClusterView| c.name != name
}

/// The users with another name than `name`.
pub open spec fn user_not_named(name: Seq<char>) -> spec_fn(NamedUserView) -> bool {
    |u: NamedUserView| u.name != name
}

/// What becomes of a file when a context is deleted from it.
pub enum FileChange {
    /// Nothing is left in the file: it is removed.
    Remove,
    /// The file is written anew with this content.
    Rewrite(KubeConfig),
}

/// The model of a [`FileChange`].
pub enum FileChangeView {
    Remove,
    Rewrite(KubeConfigView),
}

impl View for FileChange {
    type V = FileChangeView;

    open spec fn view(&self) -> FileChangeView {
        match *self {
            FileChange::Remove => FileChangeView::Remove,
            FileChange::Rewrite(config) => FileChangeView::Rewrite(config@),
        }
    }
}

impl KubeConfigView {
    /// The file without the context `context`: without the contexts of its
    /// name, the clusters of the name it refers to and the users of the name
    /// it refers to. Everything else stays, in its order.
    pub open spec fn without_context(self, context: NamedContextView) -> KubeConfigView {
        KubeConfigView {
            clusters: self.clusters.filter(cluster_not_named(context.context.cluster)),
            users: self.users.filter(user_not_named(context.context.user)),
            contexts: self.contexts.filter(context_not_named(context.name)),
            current_context: self.current_context,
            others: self.others,
        }
    }

    /// Whether the file holds no context, no cluster and no user.
    pub open spec fn is_empty(self) -> bool {
        self.contexts.len() == 0 && self.clusters.len() == 0 && self.users.len() == 0
    }

    /// What becomes of the file when `context` is deleted from it: it is
    /// removed where nothing is left, and rewritten otherwise.
    pub open spec fn delete(self, context: NamedContextView) -> FileChangeView {
        if self.without_context(context).is_empty() {
            FileChangeView::Remove
        } else {
            FileChangeView::Rewrite(self.without_context(context))
        }
    }
}

impl KubeConfig {
    /// Whether the file holds no context, no cluster and no user.
    pub fn is_empty(&self) -> (r: bool)
        ensures
            r == self@.is_empty(),
    {
        self.contexts.len() == 0 && self.clusters.len() == 0 && self.users.len() == 0
    }

    /// The file without `context` and without the cluster and the user that
    /// it refers to.
    pub fn without_context(&self, context: &NamedContext) -> (r: KubeConfig)
        ensures
            r@ == self@.without_context(context@),
    {
        let mut contexts: Vec<NamedContext> = Vec::new();
        let mut i: usize = 0;
        proof {
            reveal(Seq::filter);
            assert(self@.contexts.take(0) =~= Seq::empty());
            assert(views(contexts@) =~= Seq::empty());
        }
        while i < self.contexts.len()
            invariant
                i <= self.contexts.len(),
                views(contexts@) == self@.contexts.take(i as int).filter(
                    context_not_named(context@.name),
                ),
            decreases self.contexts.len() - i,
        {
            proof {
                lemma_filter_step(self@.contexts, context_not_named(context@.name), i as int);
            }
            if !str_eq(self.contexts[i].name.as_str(), context.name.as_str()) {
                let ghost before = contexts@;
                let kept = self.contexts[i].clone();
                contexts.push(kept);
                assert(views(contexts@) =~= views(before).push(kept@));
            }
            i += 1;
        }
        proof {
            assert(self@.contexts.take(i as int) =~= self@.contexts);
        }

        let mut clusters: Vec<NamedCluster> = Vec::new();
        let mut i: usize = 0;
        proof {
            assert(self@.clusters.take(0) =~= Seq::empty());
            assert(views(clusters@) =~= Seq::empty());
        }
        while i < self.clusters.len()
            invariant
                i <= self.clusters.len(),
                views(clusters@) == self@.clusters.take(i as int).filter(
                    cluster_not_named(context@.context.cluster),
                ),
            decreases self.clusters.len() - i,
        {
            proof {
                lemma_filter_step(
                    self@.clusters,
                    cluster_not_named(context@.context.cluster),
                    i as int,
                );
            }
            if !str_eq(self.clusters[i].name.as_str(), context.context.cluster.as_str()) {
                let ghost before = clusters@;
                let kept = self.clusters[i].clone();
                clusters.push(kept);
                assert(views(clusters@) =~= views(before).push(kept@));
            }
            i += 1;
        }
        proof {
            assert(self@.clusters.take(i as int) =~= self@.clusters);
        }

        let mut users: Vec<NamedUser> = Vec::new();
        let mut i: usize = 0;
        proof {
            assert(self@.users.take(0) =~= Seq::empty());
            assert(views(users@) =~= Seq::empty());
        }
        while i < self.users.len()
            invariant
                i <= self.users.len(),
                views(users@) == self@.users.take(i as int).filter(
                    user_not_named(context@.context.user),
                ),
            decreases self.users.len() - i,
        {
            proof {
                lemma_filter_step(self@.users, user_not_named(context@.context.user), i as int);
            }
            if !str_eq(self.users[i].name.as_str(), context.context.user.as_str()) {
                let ghost before = users@;
                let kept = self.users[i].clone();
                users.push(kept);
                assert(views(users@) =~= views(before).push(kept@));
            }
            i += 1;
        }
        proof {
            assert(self@.users.take(i as int) =~= self@.users);
        }

        KubeConfig {
            clusters,
            users,
            contexts,
            current_context: self.current_context.clone(),
            others: mapping_clone(&self.others),
        }
    }
}

/// The view of the result of a deletion.
pub open spec fn deleted_view(r: Result<FileChange, KubieError>) -> Result<
    FileChangeView,
    KubieErrorView,
> {
    match r {
        Ok(change) => Ok(change@),
        Err(e) => Err(e@),
    }
}

impl InstalledView {
    /// What deleting the context `name` does, where `kubeconfig` is the
    /// content of the file of that context: the change to that file, or the
    /// failure to find the context.
    pub open spec fn delete(self, name: Seq<char>, kubeconfig: KubeConfigView) -> Result<
        FileChangeView,
        KubieErrorView,
    > {
        match self.find_context(name) {
            Some(context) => Ok(kubeconfig.delete(context.item)),
            None => Err(KubieErrorView::ContextNotFound(name)),
        }
    }
}

impl Installed {
    /// Deletes the context `name` from its file.
    ///
    /// `kubeconfig` is the content of the file of that context as it stands
    /// on disk now. The result says what becomes of that file. The catalog
    /// itself is not changed: it is rebuilt from disk when it is next
    /// needed.
    pub fn delete_context(&self, name: &str, kubeconfig: &KubeConfig) -> (r: Result<
        FileChange,
        KubieError,
    >)
        ensures
            deleted_view(r) == self@.delete(name@, kubeconfig@),
    {
        let context = match self.find_context_by_name(name) {
            Some(c) => c,
            None => {
                return Err(KubieError::ContextNotFound(name.to_owned()));
            },
        };
        let reduced = kubeconfig.without_context(&context.item);
        if reduced.is_empty() {
            Ok(FileChange::Remove)
        } else {
            Ok(FileChange::Rewrite(reduced))
        }
    }
}

/// Deleting the only context of a file that holds no cluster but the one
/// the context refers to, and no user but the one it refers to, removes the
/// file.
pub proof fn lemma_delete_last_context_removes_file(
    kubeconfig: KubeConfigView,
    context: NamedContextView,
)
    requires
        forall|i: int|
            0 <= i < kubeconfig.contexts.len() ==> (#[trigger] kubeconfig.contexts[i]).name
                == context.name,
        forall|i: int|
            0 <= i < kubeconfig.clusters.len() ==> (#[trigger] kubeconfig.clusters[i]).name
                == context.context.cluster,
        forall|i: int|
            0 <= i < kubeconfig.users.len() ==> (#[trigger] kubeconfig.users[i]).name
                == context.context.user,
    ensures
        kubeconfig.delete(context) == FileChangeView::Remove,
{
    lemma_filter_none(kubeconfig.contexts, context_not_named(context.name));
    lemma_filter_none(kubeconfig.clusters, cluster_not_named(context.context.cluster));
    lemma_filter_none(kubeconfig.users, user_not_named(context.context.user));
}

/// After a context is deleted from a file, the file holds no context of
/// that name, no cluster of the name the context referred to and no user of
/// the name it referred to; every other entry is still there.
pub proof fn lemma_without_context(kubeconfig: KubeConfigView, context: NamedContextView)
    ensures
        forall|i: int|
            0 <= i < kubeconfig.without_context(context).contexts.len() ==> (
            #[trigger] kubeconfig.without_context(context).contexts[i]).name != context.name,
        forall|i: int|
            0 <= i < kubeconfig.without_context(context).clusters.len() ==> (
            #[trigger] kubeconfig.without_context(context).clusters[i]).name
                != context.context.cluster,
        forall|i: int|
            0 <= i < kubeconfig.without_context(context).users.len() ==> (
            #[trigger] kubeconfig.without_context(context).users[i]).name != context.context.user,
        forall|i: int|
            0 <= i < kubeconfig.contexts.len() && (#[trigger] kubeconfig.contexts[i]).name
                != context.name ==> kubeconfig.without_context(context).contexts.contains(
                kubeconfig.contexts[i],
            ),
        forall|i: int|
            0 <= i < kubeconfig.clusters.len() && (#[trigger] kubeconfig.clusters[i]).name
                != context.context.cluster ==> kubeconfig.without_context(
                context,
            ).clusters.contains(kubeconfig.clusters[i]),
        forall|i: int|
            0 <= i < kubeconfig.users.len() && (#[trigger] kubeconfig.users[i]).name
                != context.context.user ==> kubeconfig.without_context(context).users.contains(
                kubeconfig.users[i],
            ),
{
    broadcast use vstd::seq_lib::group_filter_ensures;

}

/// Whether the file was parsed and holds a context named `name`.
pub open spec fn file_has_context(file: LoadedFileView, name: Seq<char>) -> bool {
    file.outcome matches FileOutcomeView::Parsed(kubeconfig) && exists|i: int|
        0 <= i < kubeconfig.contexts.len() && (#[trigger] kubeconfig.contexts[i]).name == name
}

/// One file as it stands after `context` was deleted from the file at
/// `source`: that file is gone or holds what the deletion left, and every
/// other file is as it was.
pub open spec fn file_after_delete(
    file: LoadedFileView,
    source: Seq<char>,
    context: NamedContextView,
) -> LoadedFileView {
    if file.path == source {
        match file.outcome {
            FileOutcomeView::Parsed(kubeconfig) => LoadedFileView {
                path: file.path,
                outcome: match kubeconfig.delete(context) {
                    FileChangeView::Remove => FileOutcomeView::NotAFile,
                    FileChangeView::Rewrite(reduced) => FileOutcomeView::Parsed(reduced),
                },
            },
            _ => file,
        }
    } else {
        file
    }
}

/// The files as they stand after `context` was deleted from the file at
/// `source`.
pub open spec fn files_after_delete(
    files: Seq<LoadedFileView>,
    source: Seq<char>,
    context: NamedContextView,
) -> Seq<LoadedFileView> {
    files.map_values(|file: LoadedFileView| file_after_delete(file, source, context))
}

/// Where no file holds a context named `name`, the catalog holds none.
pub proof fn lemma_merged_without_context(files: Seq<LoadedFileView>, name: Seq<char>)
    requires
        forall|k: int| 0 <= k < files.len() ==> !file_has_context(#[trigger] files[k], name),
    ensures
        merged(files).find_context(name) is None,
        forall|i: int|
            0 <= i < merged(files).contexts.len() ==> (#[trigger] merged(
                files,
            ).contexts[i]).item.name != name,
    decreases files.len(),
{
    if files.len() > 0 {
        let rest = files.drop_last();
        assert forall|k: int| 0 <= k < rest.len() implies !file_has_context(
            #[trigger] rest[k],
            name,
        ) by {
            assert(rest[k] == files[k]);
        }
        lemma_merged_without_context(rest, name);
        let last = files[files.len() - 1];
        assert(!file_has_context(last, name));
        assert forall|i: int| 0 <= i < merged(files).contexts.len() implies (#[trigger] merged(
            files,
        ).contexts[i]).item.name != name by {
            if i >= merged(rest).contexts.len() {
                let kubeconfig = last.outcome->Parsed_0;
                let j = i - merged(rest).contexts.len();
                assert(merged(files).contexts[i].item == kubeconfig.contexts[j]);
            }
        }
    }
    lemma_find_first_none(merged(files).contexts, context_named(name));
}

/// Deleting a context twice: once it has been deleted from its file, and
/// the catalog is loaded anew, a second deletion fails because the context
/// is not found.
///
/// This holds where no other file holds a context of the same name: of two
/// contexts of one name in two files, the second deletion finds the second.
pub proof fn lemma_delete_twice(
    files: Seq<LoadedFileView>,
    name: Seq<char>,
    kubeconfig: KubeConfigView,
)
    requires
        merged(files).find_context(name) is Some,
        forall|k: int|
            0 <= k < files.len() && (#[trigger] files[k]).path != merged(files).find_context(
                name,
            )->0.source ==> !file_has_context(files[k], name),
    ensures
        merged(files).delete(name, kubeconfig) is Ok,
        ({
            let context = merged(files).find_context(name)->0;
            merged(files_after_delete(files, context.source, context.item)).delete(name, kubeconfig)
                == Err::<FileChangeView, KubieErrorView>(KubieErrorView::ContextNotFound(name))
        }),
{
    let context = merged(files).find_context(name)->0;
    lemma_find_first_some(merged(files).contexts, context_named(name));
    let after = files_after_delete(files, context.source, context.item);
    assert forall|k: int| 0 <= k < after.len() implies !file_has_context(
        #[trigger] after[k],
        name,
    ) by {
        let file = files[k];
        if file.path == context.source {
            if let FileOutcomeView::Parsed(before) = file.outcome {
                lemma_without_context(before, context.item);
            }
        }
    }
    lemma_merged_without_context(after, name);
}

} // verus!
