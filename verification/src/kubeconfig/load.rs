//! Building the catalog from the files that were read. A file that could
//! not be parsed is reported and left out; the others make up the catalog.

use crate::error::{KubieError, KubieErrorView};
use crate::kubeconfig::{views, Installed, InstalledView, KubeConfig, KubeConfigView, Sourced};
use crate::kubeconfig::SourcedView;
use std::rc::Rc;
use vstd::prelude::*;

verus! {

/// What reading one file gave.
pub enum FileOutcome {
    /// The path does not lead to a regular file.
    NotAFile,
    /// The file could not be parsed; the text says why.
    Malformed(String),
    /// The content of the file.
    Parsed(KubeConfig),
}

/// The model of a [`FileOutcome`].
pub enum FileOutcomeView {
    NotAFile,
    Malformed(Seq<char>),
    Parsed(KubeConfigView),
}

impl View for FileOutcome {
    type V = FileOutcomeView;

    open spec fn view(&self) -> FileOutcomeView {
        match *self {
            FileOutcome::NotAFile => FileOutcomeView::NotAFile,
            FileOutcome::Malformed(message) => FileOutcomeView::Malformed(message@),
            FileOutcome::Parsed(config) => FileOutcomeView::Parsed(config@),
        }
    }
}

/// A path and what reading the file there gave.
pub struct LoadedFile {
    pub path: String,
    pub outcome: FileOutcome,
}

/// The model of a [`LoadedFile`].
pub struct LoadedFileView {
    pub path: Seq<char>,
    pub outcome: FileOutcomeView,
}

impl View for LoadedFile {
    type V = LoadedFileView;

    open spec fn view(&self) -> LoadedFileView {
        LoadedFileView { path: self.path@, outcome: self.outcome@ }
    }
}

/// A file that could not be parsed, and why.
pub struct LoadFailure {
    pub path: String,
    pub message: String,
}

/// The model of a [`LoadFailure`].
pub struct LoadFailureView {
    pub path: Seq<char>,
    pub message: Seq<char>,
}

impl View for LoadFailure {
    type V = LoadFailureView;

    open spec fn view(&self) -> LoadFailureView {
        LoadFailureView { path: self.path@, message: self.message@ }
    }
}

/// The catalog built from a set of files, and the files that were left out
/// of it because they could not be parsed.
pub struct Loaded {
    pub installed: Installed,
    pub failures: Vec<LoadFailure>,
}

/// `items`, each tagged with the file `source`.
pub open spec fn tagged<V>(source: Seq<char>, items: Seq<V>) -> Seq<SourcedView<V>> {
    items.map_values(|item: V| SourcedView { source, item })
}

impl InstalledView {
    /// The catalog without anything in it.
    pub open spec fn empty() -> InstalledView {
        InstalledView { clusters: Seq::empty(), users: Seq::empty(), contexts: Seq::empty() }
    }

    /// The catalog with the content of the file `path` added behind what it
    /// holds.
    pub open spec fn with_file(self, path: Seq<char>, kubeconfig: KubeConfigView) -> InstalledView {
        InstalledView {
            clusters: self.clusters + tagged(path, kubeconfig.clusters),
            users: self.users + tagged(path, kubeconfig.users),
            contexts: self.contexts + tagged(path, kubeconfig.contexts),
        }
    }
}

/// The catalog that `files` give: the content of every file that was
/// parsed, in the order of the files. What is no file and what could not be
/// parsed adds nothing.
pub open spec fn merged(files: Seq<LoadedFileView>) -> InstalledView
    decreases files.len(),
{
    if files.len() == 0 {
        InstalledView::empty()
    } else {
        let before = merged(files.drop_last());
        match files.last().outcome {
            FileOutcomeView::Parsed(kubeconfig) => before.with_file(files.last().path, kubeconfig),
            _ => before,
        }
    }
}

/// The failures that `files` give: one for every file that could not be
/// parsed, in the order of the files.
pub open spec fn load_failures(files: Seq<LoadedFileView>) -> Seq<LoadFailureView>
    decreases files.len(),
{
    if files.len() == 0 {
        Seq::empty()
    } else {
        let before = load_failures(files.drop_last());
        match files.last().outcome {
            FileOutcomeView::Malformed(message) => before.push(
                LoadFailureView { path: files.last().path, message },
            ),
            _ => before,
        }
    }
}

impl Installed {
    /// A catalog without anything in it.
    pub fn new() -> (r: Installed)
        ensures
            r@ == InstalledView::empty(),
    {
        let r = Installed { clusters: Vec::new(), users: Vec::new(), contexts: Vec::new() };
        proof {
            assert(r@.clusters =~= Seq::empty());
            assert(r@.users =~= Seq::empty());
            assert(r@.contexts =~= Seq::empty());
        }
        r
    }

    /// Adds the content of the file at `path` behind what the catalog holds.
    /// Every item added shares the one `path`.
    pub fn add_file(&mut self, path: &Rc<String>, kubeconfig: &KubeConfig)
        ensures
            final(self)@ == old(self)@.with_file(path@, kubeconfig@),
    {
        let ghost before = self@;
        let mut i: usize = 0;
        proof {
            assert(self@.clusters =~= before.clusters + tagged(
                path@,
                kubeconfig@.clusters.take(0),
            ));
        }
        while i < kubeconfig.clusters.len()
            invariant
                i <= kubeconfig.clusters.len(),
                self@.users == before.users,
                self@.contexts == before.contexts,
                self@.clusters == before.clusters + tagged(
                    path@,
                    kubeconfig@.clusters.take(i as int),
                ),
            decreases kubeconfig.clusters.len() - i,
        {
            let ghost clusters = self.clusters@;
            let item = Sourced::new(path, kubeconfig.clusters[i].clone());
            self.clusters.push(item);
            proof {
                assert(views(self.clusters@) =~= views(clusters).push(item@));
                assert(self@.clusters =~= before.clusters + tagged(
                    path@,
                    kubeconfig@.clusters.take(i + 1),
                ));
            }
            i += 1;
        }
        proof {
            assert(kubeconfig@.clusters.take(i as int) =~= kubeconfig@.clusters);
            assert(self@.contexts =~= before.contexts + tagged(
                path@,
                kubeconfig@.contexts.take(0),
            ));
        }
        let mut i: usize = 0;
        while i < kubeconfig.contexts.len()
            invariant
                i <= kubeconfig.contexts.len(),
                self@.users == before.users,
                self@.clusters == before.clusters + tagged(path@, kubeconfig@.clusters),
                self@.contexts == before.contexts + tagged(
                    path@,
                    kubeconfig@.contexts.take(i as int),
                ),
            decreases kubeconfig.contexts.len() - i,
        {
            let ghost contexts = self.contexts@;
            let item = Sourced::new(path, kubeconfig.contexts[i].clone());
            self.contexts.push(item);
            proof {
                assert(views(self.contexts@) =~= views(contexts).push(item@));
                assert(self@.contexts =~= before.contexts + tagged(
                    path@,
                    kubeconfig@.contexts.take(i + 1),
                ));
            }
            i += 1;
        }
        proof {
            assert(kubeconfig@.contexts.take(i as int) =~= kubeconfig@.contexts);
            assert(self@.users =~= before.users + tagged(path@, kubeconfig@.users.take(0)));
        }
        let mut i: usize = 0;
        while i < kubeconfig.users.len()
            invariant
                i <= kubeconfig.users.len(),
                self@.clusters == before.clusters + tagged(path@, kubeconfig@.clusters),
                self@.contexts == before.contexts + tagged(path@, kubeconfig@.contexts),
                self@.users == before.users + tagged(path@, kubeconfig@.users.take(i as int)),
            decreases kubeconfig.users.len() - i,
        {
            let ghost users = self.users@;
            let item = Sourced::new(path, kubeconfig.users[i].clone());
            self.users.push(item);
            proof {
                assert(views(self.users@) =~= views(users).push(item@));
                assert(self@.users =~= before.users + tagged(
                    path@,
                    kubeconfig@.users.take(i + 1),
                ));
            }
            i += 1;
        }
        proof {
            assert(kubeconfig@.users.take(i as int) =~= kubeconfig@.users);
        }
    }
}

/// Builds the catalog from what reading each file gave.
///
/// A path that is no file is passed over. A file that could not be parsed
/// is reported among the failures and the load goes on with the others.
pub fn load_kubeconfigs(files: &Vec<LoadedFile>) -> (r: Loaded)
    ensures
        r.installed@ == merged(views(files@)),
        views(r.failures@) == load_failures(views(files@)),
{
    let mut installed = Installed::new();
    let mut failures: Vec<LoadFailure> = Vec::new();
    let mut i: usize = 0;
    proof {
        assert(views(files@).take(0) =~= Seq::empty());
        assert(views(failures@) =~= Seq::empty());
    }
    while i < files.len()
        invariant
            i <= files.len(),
            installed@ == merged(views(files@).take(i as int)),
            views(failures@) == load_failures(views(files@).take(i as int)),
        decreases files.len() - i,
    {
        let file = &files[i];
        proof {
            assert(views(files@).take(i + 1).drop_last() =~= views(files@).take(i as int));
            assert(views(files@).take(i + 1).last() == file@);
        }
        match &file.outcome {
            FileOutcome::Parsed(kubeconfig) => {
                let path = Rc::new(file.path.clone());
                installed.add_file(&path, kubeconfig);
            },
            FileOutcome::Malformed(message) => {
                let ghost before = failures@;
                let failure = LoadFailure { path: file.path.clone(), message: message.clone() };
                failures.push(failure);
                assert(views(failures@) =~= views(before).push(failure@));
            },
            FileOutcome::NotAFile => {},
        }
        i += 1;
    }
    proof {
        assert(views(files@).take(i as int) =~= views(files@));
    }
    Loaded { installed, failures }
}

/// The catalog of the files that are looked at by default, with the files
/// that could not be parsed. Without a single context there is nothing to
/// work with, and the load fails.
pub fn get_installed_contexts(files: &Vec<LoadedFile>) -> (r: (
    Result<Installed, KubieError>,
    Vec<LoadFailure>,
))
    ensures
        views(r.1@) == load_failures(views(files@)),
        match r.0 {
            Ok(installed) => installed@ == merged(views(files@)) && installed@.contexts.len() > 0,
            Err(e) => merged(views(files@)).contexts.len() == 0 && e@
                == (KubieErrorView::NoContextsFound { in_given_files: false }),
        },
{
    let loaded = load_kubeconfigs(files);
    if loaded.installed.contexts.len() == 0 {
        (Err(KubieError::NoContextsFound { in_given_files: false }), loaded.failures)
    } else {
        (Ok(loaded.installed), loaded.failures)
    }
}

/// The catalog of the files that the user named, with the files that could
/// not be parsed. Without a single context there is nothing to work with,
/// and the load fails.
pub fn get_kubeconfigs_contexts(files: &Vec<LoadedFile>) -> (r: (
    Result<Installed, KubieError>,
    Vec<LoadFailure>,
))
    ensures
        views(r.1@) == load_failures(views(files@)),
        match r.0 {
            Ok(installed) => installed@ == merged(views(files@)) && installed@.contexts.len() > 0,
            Err(e) => merged(views(files@)).contexts.len() == 0 && e@
                == (KubieErrorView::NoContextsFound { in_given_files: true }),
        },
{
    let loaded = load_kubeconfigs(files);
    if loaded.installed.contexts.len() == 0 {
        (Err(KubieError::NoContextsFound { in_given_files: true }), loaded.failures)
    } else {
        (Ok(loaded.installed), loaded.failures)
    }
}

/// A file that could not be parsed adds nothing to the catalog: the catalog
/// is the one that the other files give. The file is among the failures.
pub proof fn lemma_load_passes_over_malformed(files: Seq<LoadedFileView>, k: int)
    requires
        0 <= k < files.len(),
        files[k].outcome is Malformed,
    ensures
        merged(files) == merged(files.remove(k)),
        load_failures(files).contains(
            LoadFailureView { path: files[k].path, message: files[k].outcome->Malformed_0 },
        ),
    decreases files.len(),
{
    if k == files.len() - 1 {
        assert(files.remove(k) =~= files.drop_last());
        let failures = load_failures(files);
        assert(failures[failures.len() - 1] == LoadFailureView {
            path: files[k].path,
            message: files[k].outcome->Malformed_0,
        });
    } else {
        lemma_load_passes_over_malformed(files.drop_last(), k);
        assert(files.remove(k).drop_last() =~= files.drop_last().remove(k));
        assert(files.remove(k).last() == files.last());
        let wanted = LoadFailureView {
            path: files[k].path,
            message: files[k].outcome->Malformed_0,
        };
        let before = load_failures(files.drop_last());
        let j = choose|j: int| 0 <= j < before.len() && before[j] == wanted;
        assert(load_failures(files)[j] == wanted);
    }
}

} // verus!
