//! What each command decides and computes.

use crate::error::{KubieError, KubieErrorView};
use crate::kubeconfig::{Installed, InstalledView, NamedContextView, SourcedView};
use crate::sorting::{is_sorting_of, reversed, sort_names};
use crate::text::{texts, trim, trimmed};
use vstd::prelude::*;
use vstd::string::StrSliceExecFns;

pub mod context;
pub mod edit;
pub mod exec;
pub mod get_completions;
pub mod info;
pub mod lint;
pub mod meta;
pub mod namespace;
pub mod update;

verus! {

/// How a selection ended.
pub enum SelectResult {
    /// The user gave up.
    Cancelled,
    /// There was no terminal to select on: the names were printed.
    Listed,
    /// This name was selected.
    Selected(String),
}

/// What a selection asks of the terminal.
pub enum Selection {
    /// Nothing: there is one name only, and it is selected.
    Selected(String),
    /// To show these names to the user, in this order, and take the user's
    /// pick.
    Pick(Vec<String>),
    /// To print these names, in this order.
    List(Vec<String>),
}

/// The model of a [`Selection`].
pub enum SelectionView {
    Selected(Seq<char>),
    Pick(Seq<Seq<char>>),
    List(Seq<Seq<char>>),
}

impl View for Selection {
    type V = SelectionView;

    open spec fn view(&self) -> SelectionView {
        match *self {
            Selection::Selected(name) => SelectionView::Selected(name@),
            Selection::Pick(names) => SelectionView::Pick(texts(names@)),
            Selection::List(names) => SelectionView::List(texts(names@)),
        }
    }
}

/// How a selection ended, given what the selector printed: the name it
/// printed, without the white space around it, is selected; a selector
/// that printed nothing was given up.
pub open spec fn pick_outcome(output: Seq<char>) -> Option<Seq<char>> {
    if trimmed(output).len() == 0 {
        None
    } else {
        Some(trimmed(output))
    }
}

impl SelectResult {
    /// How a selection on the terminal ended, given what the selector
    /// printed.
    pub fn of_pick(output: &str) -> (r: SelectResult)
        ensures
            match pick_outcome(output@) {
                Some(name) => r matches SelectResult::Selected(selected) && selected@ == name,
                None => r is Cancelled,
            },
    {
        let name = trim(output);
        if name.unicode_len() == 0 {
            SelectResult::Cancelled
        } else {
            SelectResult::Selected(name.to_owned())
        }
    }

    /// The name to go on with: the one selected. After a selection that was
    /// given up, and after a listing, nothing more is done.
    pub fn selected(self) -> (r: Option<String>)
        ensures
            r == match self {
                SelectResult::Selected(name) => Some(name),
                _ => None,
            },
    {
        match self {
            SelectResult::Selected(name) => Some(name),
            _ => None,
        }
    }
}

/// The names of the contexts of a catalog, in catalog order.
pub open spec fn context_names(catalog: InstalledView) -> Seq<Seq<char>> {
    catalog.contexts.map_values(|c: SourcedView<NamedContextView>| c.item.name)
}

/// The names of the contexts of the catalog, in catalog order.
pub fn names_of_contexts(installed: &Installed) -> (r: Vec<String>)
    ensures
        texts(r@) == context_names(installed@),
{
    let mut names: Vec<String> = Vec::new();
    let mut i: usize = 0;
    while i < installed.contexts.len()
        invariant
            i <= installed.contexts.len(),
            names@.len() == i,
            forall|j: int|
                0 <= j < i ==> (#[trigger] names@[j])@ == installed.contexts@[j].item.name@,
        decreases installed.contexts.len() - i,
    {
        names.push(installed.contexts[i].item.name.clone());
        i += 1;
    }
    assert(texts(names@) =~= context_names(installed@));
    names
}

/// Whether `selection` is what selecting among `names` asks of the
/// terminal: the names are put in alphabetical order; a single name needs
/// no selection where `single_is_selected` holds; on a terminal the names
/// are shown last first, because the selector shows its list from the
/// bottom up; without a terminal they are printed in order.
pub open spec fn is_selection_among(
    selection: SelectionView,
    names: Seq<Seq<char>>,
    interactive: bool,
    single_is_selected: bool,
) -> bool {
    if names.len() == 1 && single_is_selected {
        selection == SelectionView::Selected(names[0])
    } else if interactive {
        selection matches SelectionView::Pick(shown) && is_sorting_of(shown.reverse(), names)
    } else {
        selection matches SelectionView::List(printed) && is_sorting_of(printed, names)
    }
}

/// What selecting among `names` asks of the terminal.
fn select_among(names: &Vec<String>, interactive: bool, single_is_selected: bool) -> (r: Selection)
    requires
        names@.len() > 0,
    ensures
        is_selection_among(r@, texts(names@), interactive, single_is_selected),
{
    if names.len() == 1 && single_is_selected {
        return Selection::Selected(names[0].clone());
    }
    let sorted = sort_names(names);
    if interactive {
        let shown = reversed(&sorted);
        assert(texts(shown@).reverse() =~= texts(sorted@));
        Selection::Pick(shown)
    } else {
        Selection::List(sorted)
    }
}

/// Selecting a context of the catalog: fails where the catalog has no
/// context, and otherwise says what to ask of the terminal.
pub fn select_or_list_context(installed: &Installed, interactive: bool) -> (r: Result<
    Selection,
    KubieError,
>)
    ensures
        match r {
            Ok(selection) => installed@.contexts.len() > 0 && is_selection_among(
                selection@,
                context_names(installed@),
                interactive,
                true,
            ),
            Err(e) => installed@.contexts.len() == 0 && e@ == KubieErrorView::NoContextsToSelect,
        },
{
    let names = names_of_contexts(installed);
    assert(names@.len() == texts(names@).len());
    if names.len() == 0 {
        return Err(KubieError::NoContextsToSelect);
    }
    Ok(select_among(&names, interactive, true))
}

/// Selecting a namespace among `namespaces`: fails where there is none,
/// and otherwise says what to ask of the terminal.
pub fn select_or_list_namespace(namespaces: &Vec<String>, interactive: bool) -> (r: Result<
    Selection,
    KubieError,
>)
    ensures
        match r {
            Ok(selection) => namespaces@.len() > 0 && is_selection_among(
                selection@,
                texts(namespaces@),
                interactive,
                false,
            ),
            Err(e) => namespaces@.len() == 0 && e@ == KubieErrorView::NoNamespacesToSelect,
        },
{
    if namespaces.len() == 0 {
        return Err(KubieError::NoNamespacesToSelect);
    }
    Ok(select_among(namespaces, interactive, false))
}

} // verus!
