//! The state that all shells of one machine share: the context entered
//! last, and for each context the namespace it was last used with.
//!
//! The library transforms a state that was read; reading it and writing it
//! back under the lock is the caller's part, which hands the state in and
//! takes it back within one critical section.

use crate::pairs::{distinct_keys, lemma_pairs_map_absent, lemma_pairs_map_present};
use crate::pairs::{lemma_pairs_map_update, pairs_map};
use crate::paths::{join_paths, path_join};
use crate::text::{option_str, option_text, option_to_owned, str_eq};
use vstd::prelude::*;

verus! {

/// The name of the directory, below the user's local data directory, that
/// holds the state.
pub const DATA_DIR_NAME: &'static str = "kubie";

/// The name of the state file.
pub const STATE_FILE_NAME: &'static str = "state.json";

/// The name of the lock file that guards the state file.
pub const STATE_LOCK_FILE_NAME: &'static str = ".state.json.lock";

/// The directory that holds the state, below the local data directory
/// `base`.
pub fn data_dir(base: &str) -> (r: String)
    ensures
        r@ == path_join(base@, DATA_DIR_NAME@),
{
    join_paths(base, DATA_DIR_NAME)
}

/// The path of the state file, below the local data directory `base`.
pub fn state(base: &str) -> (r: String)
    ensures
        r@ == path_join(path_join(base@, DATA_DIR_NAME@), STATE_FILE_NAME@),
{
    let dir = data_dir(base);
    join_paths(dir.as_str(), STATE_FILE_NAME)
}

/// The path of the lock file, below the local data directory `base`.
pub fn state_lock(base: &str) -> (r: String)
    ensures
        r@ == path_join(path_join(base@, DATA_DIR_NAME@), STATE_LOCK_FILE_NAME@),
{
    let dir = data_dir(base);
    join_paths(dir.as_str(), STATE_LOCK_FILE_NAME)
}

/// The view of a list of pairs of a context and its namespace.
pub open spec fn pair_views(pairs: Seq<(String, Option<String>)>) -> Seq<
    (Seq<char>, Option<Seq<char>>),
> {
    pairs.map_values(|p: (String, Option<String>)| (p.0@, option_text(p.1)))
}

/// For each context, the namespace it was last used with; `None` where the
/// namespace was unset.
pub struct NamespaceHistory {
    entries: Vec<(String, Option<String>)>,
}

impl View for NamespaceHistory {
    type V = Map<Seq<char>, Option<Seq<char>>>;

    closed spec fn view(&self) -> Map<Seq<char>, Option<Seq<char>>> {
        pairs_map(pair_views(self.entries@))
    }
}

impl NamespaceHistory {
    /// No context occurs twice.
    #[verifier::type_invariant]
    closed spec fn well_formed(self) -> bool {
        distinct_keys(pair_views(self.entries@))
    }

    /// A history without entries.
    pub fn new() -> (r: NamespaceHistory)
        ensures
            r@ == Map::<Seq<char>, Option<Seq<char>>>::empty(),
    {
        let r = NamespaceHistory { entries: Vec::new() };
        proof {
            assert(pair_views(r.entries@) =~= Seq::empty());
        }
        r
    }

    /// The position of `context` among the entries.
    fn position(&self, context: &str) -> (r: Option<usize>)
        ensures
            match r {
                Some(i) => i < self.entries@.len() && self.entries@[i as int].0@ == context@,
                None => forall|i: int|
                    0 <= i < self.entries@.len() ==> (#[trigger] pair_views(self.entries@)[i]).0
                        != context@,
            },
    {
        let mut i: usize = 0;
        while i < self.entries.len()
            invariant
                i <= self.entries.len(),
                forall|j: int|
                    0 <= j < i ==> (#[trigger] pair_views(self.entries@)[j]).0 != context@,
            decreases self.entries.len() - i,
        {
            if str_eq(self.entries[i].0.as_str(), context) {
                return Some(i);
            }
            i += 1;
        }
        None
    }

    /// The namespace recorded for `context`: `None` where nothing is
    /// recorded, `Some(None)` where the namespace was unset.
    pub fn get(&self, context: &str) -> (r: Option<&Option<String>>)
        ensures
            r is Some <==> self@.dom().contains(context@),
            r matches Some(namespace) ==> option_text(*namespace) == self@[context@],
    {
        proof {
            use_type_invariant(self);
        }
        match self.position(context) {
            Some(i) => {
                proof {
                    lemma_pairs_map_present(pair_views(self.entries@), i as int);
                }
                Some(&self.entries[i].1)
            },
            None => {
                proof {
                    lemma_pairs_map_absent(pair_views(self.entries@), context@);
                }
                None
            },
        }
    }

    /// Records `namespace` for `context`, in place of what was recorded for
    /// it before.
    pub fn insert(&mut self, context: &str, namespace: Option<String>)
        ensures
            final(self)@ == old(self)@.insert(context@, option_text(namespace)),
    {
        proof {
            use_type_invariant(&*self);
        }
        let ghost before = pair_views(self.entries@);
        match self.position(context) {
            Some(i) => {
                proof {
                    lemma_pairs_map_update(before, i as int, option_text(namespace));
                }
                let mut entries: Vec<(String, Option<String>)> = Vec::new();
                proof {
                    assert(pair_views(entries@) =~= Seq::empty());
                }
                std::mem::swap(&mut self.entries, &mut entries);
                let key = entries[i].0.clone();
                entries.set(i, (key, namespace));
                proof {
                    assert(pair_views(entries@) =~= before.update(
                        i as int,
                        (before[i as int].0, option_text(namespace)),
                    ));
                    assert forall|a: int, b: int| 0 <= a < b < before.len() implies (
                    #[trigger] pair_views(entries@)[a]).0 != (#[trigger] pair_views(
                        entries@,
                    )[b]).0 by {
                        assert(before[a].0 != before[b].0);
                    }
                }
                std::mem::swap(&mut self.entries, &mut entries);
            },
            None => {
                let mut entries: Vec<(String, Option<String>)> = Vec::new();
                proof {
                    assert(pair_views(entries@) =~= Seq::empty());
                }
                std::mem::swap(&mut self.entries, &mut entries);
                entries.push((context.to_owned(), namespace));
                proof {
                    let after = pair_views(entries@);
                    assert(after.drop_last() =~= before);
                    assert forall|a: int, b: int| 0 <= a < b < after.len() implies (
                    #[trigger] after[a]).0 != (#[trigger] after[b]).0 by {
                        if b < before.len() {
                            assert(before[a].0 != before[b].0);
                        } else {
                            assert(before[a].0 != context@);
                        }
                    }
                }
                std::mem::swap(&mut self.entries, &mut entries);
            },
        }
    }

    /// The entries, one for each context, in the order in which the
    /// contexts were first recorded.
    pub fn entries(&self) -> (r: &Vec<(String, Option<String>)>)
        ensures
            pairs_map(pair_views(r@)) == self@,
            distinct_keys(pair_views(r@)),
    {
        proof {
            use_type_invariant(self);
        }
        &self.entries
    }
}

/// The state shared by all shells.
pub struct State {
    /// The context that was entered last, in any shell; kept only where
    /// tracking is switched on.
    pub last_context: Option<String>,
    /// The namespace that each context was last used with.
    pub namespace_history: NamespaceHistory,
}

/// The model of a [`State`].
pub struct StateView {
    pub last_context: Option<Seq<char>>,
    pub namespace_history: Map<Seq<char>, Option<Seq<char>>>,
}

impl View for State {
    type V = StateView;

    open spec fn view(&self) -> StateView {
        StateView {
            last_context: option_text(self.last_context),
            namespace_history: self.namespace_history@,
        }
    }
}

impl StateView {
    /// The state without anything recorded.
    pub open spec fn empty() -> StateView {
        StateView { last_context: None, namespace_history: Map::empty() }
    }

    /// The state after the context `context` was entered with `namespace`:
    /// the context is the last one where `track_last_used` is set, and a
    /// namespace that was given is recorded for the context.
    pub open spec fn with_context_entry(
        self,
        context: Seq<char>,
        namespace: Option<Seq<char>>,
        track_last_used: bool,
    ) -> StateView {
        StateView {
            last_context: if track_last_used {
                Some(context)
            } else {
                self.last_context
            },
            namespace_history: if namespace is Some {
                self.namespace_history.insert(context, namespace)
            } else {
                self.namespace_history
            },
        }
    }

    /// The state after the namespace of `context` was set to `namespace`,
    /// or unset.
    pub open spec fn with_namespace(
        self,
        context: Seq<char>,
        namespace: Option<Seq<char>>,
    ) -> StateView {
        StateView {
            last_context: self.last_context,
            namespace_history: self.namespace_history.insert(context, namespace),
        }
    }

    /// What is recorded for `context`: nothing, that its namespace was
    /// unset, or the namespace it was last used with.
    pub open spec fn namespace_override(self, context: Seq<char>) -> Option<Option<Seq<char>>> {
        if self.namespace_history.dom().contains(context) {
            Some(self.namespace_history[context])
        } else {
            None
        }
    }

    /// The namespace to enter `context` with where none is asked for: the
    /// one recorded for it, if one is.
    pub open spec fn namespace_for(self, context: Seq<char>) -> Option<Seq<char>> {
        if self.namespace_history.dom().contains(context) {
            self.namespace_history[context]
        } else {
            None
        }
    }
}

impl State {
    /// The state without anything recorded.
    pub fn new() -> (r: State)
        ensures
            r@ == StateView::empty(),
    {
        State { last_context: None, namespace_history: NamespaceHistory::new() }
    }

    /// The state to work with, given what the state file held: the stored
    /// state, or the empty one where there was no file.
    pub fn load(stored: Option<State>) -> (r: State)
        ensures
            r@ == match stored {
                Some(state) => state@,
                None => StateView::empty(),
            },
    {
        match stored {
            Some(state) => state,
            None => State::new(),
        }
    }

    /// Records that `context` was entered with `namespace`.
    pub fn record_context_entry(
        &mut self,
        context: &str,
        namespace: Option<&str>,
        track_last_used: bool,
    )
        ensures
            final(self)@ == old(self)@.with_context_entry(
                context@,
                option_str(namespace),
                track_last_used,
            ),
    {
        if track_last_used {
            self.last_context = Some(context.to_owned());
        }
        if namespace.is_some() {
            self.namespace_history.insert(context, option_to_owned(namespace));
        }
    }

    /// Records that the namespace of `context` was set to `namespace`, or
    /// unset.
    pub fn record_namespace(&mut self, context: &str, namespace: Option<&str>)
        ensures
            final(self)@ == old(self)@.with_namespace(context@, option_str(namespace)),
    {
        self.namespace_history.insert(context, option_to_owned(namespace));
    }

    /// What is recorded for `context`: nothing, that its namespace was
    /// unset, or the namespace it was last used with.
    pub fn namespace_override(&self, context: &str) -> (r: Option<Option<&str>>)
        ensures
            crate::kubeconfig::override_view(r) == self@.namespace_override(context@),
    {
        match self.namespace_history.get(context) {
            Some(Some(namespace)) => Some(Some(namespace.as_str())),
            Some(None) => Some(None),
            None => None,
        }
    }

    /// The namespace recorded for `context`, if one is.
    pub fn namespace_for(&self, context: &str) -> (r: Option<&str>)
        ensures
            option_str(r) == self@.namespace_for(context@),
    {
        match self.namespace_history.get(context) {
            Some(Some(namespace)) => Some(namespace.as_str()),
            _ => None,
        }
    }
}

} // verus!
