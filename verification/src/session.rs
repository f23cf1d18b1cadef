//! The history of one shell lineage: the contexts and namespaces that were
//! entered, in the order in which they were entered.
//!
//! The history answers where to go on `-`: to the context before the
//! current one, or to the namespace before the current one.

use crate::error::{KubieError, KubieErrorView};
use crate::kubeconfig::views;
use crate::search::{find_first, lemma_find_first_at, lemma_find_first_none};
use crate::state::State;
use crate::text::{option_str, option_string_eq, option_text, option_to_owned, str_eq};
use vstd::prelude::*;

verus! {

/// One switch: the context entered and the namespace it was entered with.
pub struct HistoryEntry {
    pub context: String,
    pub namespace: Option<String>,
}

/// The model of a [`HistoryEntry`].
pub struct HistoryEntryView {
    pub context: Seq<char>,
    pub namespace: Option<Seq<char>>,
}

impl View for HistoryEntry {
    type V = HistoryEntryView;

    open spec fn view(&self) -> HistoryEntryView {
        HistoryEntryView { context: self.context@, namespace: option_text(self.namespace) }
    }
}

impl Clone for HistoryEntry {
    fn clone(&self) -> (r: Self)
        ensures
            r@ == self@,
    {
        HistoryEntry { context: self.context.clone(), namespace: self.namespace.clone() }
    }
}

/// The entries of another context than `context`.
pub open spec fn of_other_context(context: Seq<char>) -> spec_fn(HistoryEntryView) -> bool {
    |e: HistoryEntryView| e.context != context
}

/// The entries that differ from `current` in context or in namespace.
pub open spec fn other_than(current: HistoryEntryView) -> spec_fn(HistoryEntryView) -> bool {
    |e: HistoryEntryView| e.context != current.context || e.namespace != current.namespace
}

/// The entries before the latest one, the most recent first.
pub open spec fn earlier(history: Seq<HistoryEntryView>) -> Seq<HistoryEntryView> {
    history.drop_last().reverse()
}

/// The previous context: going back from the entry before the latest, the
/// first entry of another context than the latest. Entries of the same
/// context, which stand for changes of namespace within it, are passed
/// over.
pub open spec fn previous_context(history: Seq<HistoryEntryView>) -> Option<HistoryEntryView> {
    if history.len() == 0 {
        None
    } else {
        find_first(earlier(history), of_other_context(history.last().context))
    }
}

/// The previous namespace: going back from the entry before the latest,
/// the namespace of the first entry that differs from the latest. There is
/// none where that entry is of another context, nor where no entry differs.
pub open spec fn previous_namespace(history: Seq<HistoryEntryView>) -> Option<Seq<char>> {
    if history.len() == 0 {
        None
    } else {
        match find_first(earlier(history), other_than(history.last())) {
            Some(e) => if e.context == history.last().context {
                e.namespace
            } else {
                None
            },
            None => None,
        }
    }
}

/// The history of one shell lineage. Entries are added at its end and
/// never taken away.
pub struct Session {
    history: Vec<HistoryEntry>,
}

impl View for Session {
    type V = Seq<HistoryEntryView>;

    closed spec fn view(&self) -> Seq<HistoryEntryView> {
        views(self.history@)
    }
}

/// A session as it is to be written: the path of the file and the entries
/// to write there.
pub struct SessionFile {
    pub path: String,
    pub history: Vec<HistoryEntry>,
}

impl Session {
    /// A session without history.
    pub fn new() -> (r: Session)
        ensures
            r@ == Seq::<HistoryEntryView>::empty(),
    {
        let r = Session { history: Vec::new() };
        proof {
            assert(r@ =~= Seq::empty());
        }
        r
    }

    /// The session of this shell, given the history that the session file
    /// of the parent shell held: that history, or an empty one where no
    /// file was inherited.
    pub fn load(inherited: Option<Vec<HistoryEntry>>) -> (r: Session)
        ensures
            r@ == match inherited {
                Some(history) => views(history@),
                None => Seq::<HistoryEntryView>::empty(),
            },
    {
        match inherited {
            Some(history) => Session { history },
            None => Session::new(),
        }
    }

    /// What is to be written to save the session: the whole history, at
    /// `path` where one is given, else at the path inherited from the shell.
    /// Without either there is nowhere to write.
    pub fn save(&self, path: Option<&str>, inherited_path: Option<&str>) -> (r: Result<
        SessionFile,
        KubieError,
    >)
        ensures
            match r {
                Ok(file) => views(file.history@) == self@ && match path {
                    Some(p) => file.path@ == p@,
                    None => inherited_path matches Some(p) && file.path@ == p@,
                },
                Err(e) => path is None && inherited_path is None && e@
                    == KubieErrorView::MissingSessionPath,
            },
    {
        let target = match path {
            Some(p) => p,
            None => match inherited_path {
                Some(p) => p,
                None => {
                    return Err(KubieError::MissingSessionPath);
                },
            },
        };
        let mut history: Vec<HistoryEntry> = Vec::new();
        let mut i: usize = 0;
        while i < self.history.len()
            invariant
                i <= self.history.len(),
                views(history@) == self@.take(i as int),
            decreases self.history.len() - i,
        {
            let ghost before = history@;
            let entry = self.history[i].clone();
            history.push(entry);
            assert(views(history@) =~= views(before).push(entry@));
            assert(self@.take(i + 1) =~= self@.take(i as int).push(self@[i as int]));
            i += 1;
        }
        assert(self@.take(i as int) =~= self@);
        Ok(SessionFile { path: target.to_owned(), history })
    }

    /// The number of entries.
    pub fn len(&self) -> (r: usize)
        ensures
            r == self@.len(),
    {
        self.history.len()
    }

    /// Adds an entry at the end of the history. Nothing else changes.
    pub fn add_history_entry(&mut self, context: &str, namespace: Option<&str>)
        ensures
            final(self)@ == old(self)@.push(
                HistoryEntryView { context: context@, namespace: option_str(namespace) },
            ),
    {
        let ghost before = self.history@;
        let entry = HistoryEntry {
            context: context.to_owned(),
            namespace: option_to_owned(namespace),
        };
        self.history.push(entry);
        assert(views(self.history@) =~= views(before).push(entry@));
    }

    /// Records that `context_name` was entered with `namespace`: in the
    /// history of this session, and in the state that all sessions share.
    pub fn record_context_entry(
        &mut self,
        state: &mut State,
        context_name: &str,
        namespace: Option<&str>,
        track_last_used: bool,
    )
        ensures
            final(self)@ == old(self)@.push(
                HistoryEntryView { context: context_name@, namespace: option_str(namespace) },
            ),
            final(state)@ == old(state)@.with_context_entry(
                context_name@,
                option_str(namespace),
                track_last_used,
            ),
    {
        self.add_history_entry(context_name, namespace);
        state.record_context_entry(context_name, namespace, track_last_used);
    }

    /// The entry to go back to when the previous context is asked for.
    pub fn get_last_context(&self) -> (r: Option<&HistoryEntry>)
        ensures
            match r {
                Some(e) => Some(e@),
                None => None,
            } == previous_context(self@),
    {
        let n = self.history.len();
        if n == 0 {
            return None;
        }
        let current = &self.history[n - 1];
        let ghost back = earlier(self@);
        let mut k: usize = 0;
        while k < n - 1
            invariant
                n == self.history.len(),
                n > 0,
                k <= n - 1,
                back == earlier(self@),
                *current == self.history@[n - 1],
                forall|j: int|
                    0 <= j < k ==> !of_other_context(self@.last().context)(#[trigger] back[j]),
            decreases n - 1 - k,
        {
            let entry = &self.history[n - 2 - k];
            assert(back[k as int] == entry@);
            if !str_eq(entry.context.as_str(), current.context.as_str()) {
                proof {
                    lemma_find_first_at(back, of_other_context(self@.last().context), k as int);
                }
                return Some(entry);
            }
            k += 1;
        }
        proof {
            lemma_find_first_none(back, of_other_context(self@.last().context));
        }
        None
    }

    /// The namespace to go back to when the previous namespace is asked
    /// for.
    pub fn get_last_namespace(&self) -> (r: Option<&str>)
        ensures
            option_str(r) == previous_namespace(self@),
    {
        let n = self.history.len();
        if n == 0 {
            return None;
        }
        let current = &self.history[n - 1];
        let ghost back = earlier(self@);
        let mut k: usize = 0;
        while k < n - 1
            invariant
                n == self.history.len(),
                n > 0,
                k <= n - 1,
                back == earlier(self@),
                *current == self.history@[n - 1],
                forall|j: int| 0 <= j < k ==> !other_than(self@.last())(#[trigger] back[j]),
            decreases n - 1 - k,
        {
            let entry = &self.history[n - 2 - k];
            assert(back[k as int] == entry@);
            if !str_eq(entry.context.as_str(), current.context.as_str()) {
                proof {
                    lemma_find_first_at(back, other_than(self@.last()), k as int);
                }
                return None;
            }
            if !option_string_eq(&entry.namespace, &current.namespace) {
                proof {
                    lemma_find_first_at(back, other_than(self@.last()), k as int);
                }
                return match &entry.namespace {
                    Some(namespace) => Some(namespace.as_str()),
                    None => None,
                };
            }
            k += 1;
        }
        proof {
            lemma_find_first_none(back, other_than(self@.last()));
        }
        None
    }
}

} // verus!
