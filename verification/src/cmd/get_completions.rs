//! What the shell is offered to complete a command line with.

use crate::cmd::{context_names, names_of_contexts};
use crate::error::{KubieError, KubieErrorView};
use crate::kubeconfig::{Installed, InstalledView, KubeConfig, KubeConfigView};
use crate::search::lemma_filter_step;
use crate::text::{has_prefix, starts_with, str_eq, text_words, texts, words};
use vstd::prelude::*;
use vstd::string::StringExecFns;

verus! {

/// What is offered.
pub enum Completion {
    /// These words.
    Options(Vec<String>),
    /// The namespaces of a cluster that begin with `prefix`, or all of them
    /// where there is no prefix. The cluster is the one of `kubeconfig`, or
    /// the one of the running shell where there is none.
    Namespaces { kubeconfig: Option<KubeConfig>, prefix: Option<String> },
}

/// The model of a [`Completion`].
pub enum CompletionView {
    Options(Seq<Seq<char>>),
    Namespaces { kubeconfig: Option<KubeConfigView>, prefix: Option<Seq<char>> },
}

impl View for Completion {
    type V = CompletionView;

    open spec fn view(&self) -> CompletionView {
        match *self {
            Completion::Options(words) => CompletionView::Options(texts(words@)),
            Completion::Namespaces { kubeconfig, prefix } => CompletionView::Namespaces {
                kubeconfig: match kubeconfig {
                    Some(config) => Some(config@),
                    None => None,
                },
                prefix: crate::text::option_text(prefix),
            },
        }
    }
}

/// The view of what `get_completions` gives.
pub open spec fn completion_view(r: Option<Result<Completion, KubieError>>) -> Option<
    Result<CompletionView, KubieErrorView>,
> {
    match r {
        Some(Ok(completion)) => Some(Ok(completion@)),
        Some(Err(e)) => Some(Err(e@)),
        None => None,
    }
}

/// The words that begin with `prefix`.
pub open spec fn beginning_with(prefix: Seq<char>) -> spec_fn(Seq<char>) -> bool {
    |word: Seq<char>| has_prefix(word, prefix)
}

/// The `options` that begin with `prefix`, or all of them where there is
/// no prefix.
pub open spec fn offered(options: Seq<Seq<char>>, prefix: Option<Seq<char>>) -> Seq<Seq<char>> {
    match prefix {
        Some(prefix) => options.filter(beginning_with(prefix)),
        None => options,
    }
}

/// The word at `position`, if the line has that many words.
pub open spec fn word_at(words: Seq<Seq<char>>, position: int) -> Option<Seq<char>> {
    if 0 <= position < words.len() {
        Some(words[position])
    } else {
        None
    }
}

/// The subcommands of the tool.
pub open spec fn sub_commands() -> Seq<Seq<char>> {
    seq![
        "ctx"@,
        "ns"@,
        "info"@,
        "exec"@,
        "lint"@,
        "edit"@,
        "edit-config"@,
        "update"@,
        "delete"@,
    ]
}

/// The kinds of information that `info` gives.
pub open spec fn info_kinds() -> Seq<Seq<char>> {
    seq!["ctx"@, "ns"@, "depth"@]
}

/// The flags of `ctx`.
pub open spec fn context_flags() -> Seq<Seq<char>> {
    seq!["--namespace"@, "--kubeconfig"@, "--recursive"@]
}

/// The flags of `ns`.
pub open spec fn namespace_flags() -> Seq<Seq<char>> {
    seq!["--recursive"@]
}

/// The flags of `exec`.
pub open spec fn exec_flags() -> Seq<Seq<char>> {
    seq!["--exit-early"@, "--"@]
}

/// The namespaces of the cluster of the context `context`, beginning with
/// `prefix`. There is no answer where the configuration of the context
/// cannot be composed.
pub open spec fn namespaces_of_context(
    catalog: InstalledView,
    context: Seq<char>,
    prefix: Option<Seq<char>>,
) -> Option<Result<CompletionView, KubieErrorView>> {
    if !catalog.composable(context) {
        None
    } else {
        match catalog.compose(context, None) {
            Ok(config) => Some(Ok(CompletionView::Namespaces { kubeconfig: Some(config), prefix })),
            Err(e) => Some(Err(e)),
        }
    }
}

/// What is offered for the word at `position` of a command line with the
/// words `words`, the name of the tool being the word at position 0.
///
/// At position 1 the subcommands are offered. At position 2, the contexts
/// for the subcommands that take one, the namespaces for `ns` and the
/// kinds of information for `info`. At position 3, the flags of `ctx` and
/// `ns`, and for `exec` the namespaces of the context named before. Behind
/// that, the namespaces of the context behind `ctx ... --namespace`, and
/// the flags of `exec`. Everything offered begins with what stands at the
/// position already. There is no answer where the line has fewer words
/// than the position needs.
pub open spec fn completion(catalog: InstalledView, position: int, words: Seq<Seq<char>>) -> Option<
    Result<CompletionView, KubieErrorView>,
> {
    let prefix = word_at(words, position);
    let nothing = Some(Ok(CompletionView::Options(Seq::empty())));
    if position == 1 {
        Some(Ok(CompletionView::Options(offered(sub_commands(), prefix))))
    } else if position == 2 {
        if words.len() < 2 {
            None
        } else if words[1] == "ctx"@ || words[1] == "exec"@ || words[1] == "edit"@ || words[1]
            == "delete"@ {
            Some(Ok(CompletionView::Options(offered(context_names(catalog), prefix))))
        } else if words[1] == "ns"@ {
            Some(Ok(CompletionView::Namespaces { kubeconfig: None, prefix }))
        } else if words[1] == "info"@ {
            Some(Ok(CompletionView::Options(offered(info_kinds(), prefix))))
        } else {
            nothing
        }
    } else if position <= 0 || words.len() < 3 {
        None
    } else if position == 3 {
        if words[1] == "ctx"@ {
            Some(Ok(CompletionView::Options(offered(context_flags(), prefix))))
        } else if words[1] == "ns"@ {
            Some(Ok(CompletionView::Options(offered(namespace_flags(), prefix))))
        } else if words[1] == "exec"@ {
            namespaces_of_context(catalog, words[2], prefix)
        } else {
            nothing
        }
    } else {
        if words[1] == "ctx"@ && word_at(words, position - 1) == Some("--namespace"@) {
            namespaces_of_context(catalog, words[2], prefix)
        } else if words[1] == "exec"@ {
            Some(Ok(CompletionView::Options(offered(exec_flags(), prefix))))
        } else {
            nothing
        }
    }
}

/// The `options` that begin with `prefix`, or all of them where there is
/// no prefix.
pub fn filter_options(options: Vec<String>, prefix: Option<&str>) -> (r: Vec<String>)
    ensures
        texts(r@) == offered(texts(options@), crate::text::option_str(prefix)),
{
    let prefix = match prefix {
        Some(prefix) => prefix,
        None => {
            return options;
        },
    };
    let mut kept: Vec<String> = Vec::new();
    let mut i: usize = 0;
    proof {
        reveal(Seq::filter);
        assert(texts(options@).take(0) =~= Seq::empty());
        assert(texts(kept@) =~= Seq::empty());
    }
    while i < options.len()
        invariant
            i <= options.len(),
            texts(kept@) == texts(options@).take(i as int).filter(beginning_with(prefix@)),
        decreases options.len() - i,
    {
        proof {
            lemma_filter_step(texts(options@), beginning_with(prefix@), i as int);
        }
        if starts_with(options[i].as_str(), prefix) {
            let ghost before = kept@;
            let word = options[i].clone();
            kept.push(word);
            assert(texts(kept@) =~= texts(before).push(word@));
        }
        i += 1;
    }
    proof {
        assert(texts(options@).take(i as int) =~= texts(options@));
    }
    kept
}

/// The words `words`, owned.
fn owned_words(words: Vec<&str>) -> (r: Vec<String>)
    ensures
        r@.len() == words@.len(),
        forall|i: int| 0 <= i < words@.len() ==> (#[trigger] r@[i])@ == words@[i]@,
{
    let mut out: Vec<String> = Vec::new();
    let mut i: usize = 0;
    while i < words.len()
        invariant
            i <= words.len(),
            out@.len() == i,
            forall|j: int| 0 <= j < i ==> (#[trigger] out@[j])@ == words@[j]@,
        decreases words.len() - i,
    {
        out.push(String::from_str(words[i]));
        i += 1;
    }
    out
}

/// The namespaces of the cluster of the context `context`.
fn context_namespaces(installed: &Installed, context: &str, prefix: Option<&str>) -> (r: Option<
    Result<Completion, KubieError>,
>)
    ensures
        completion_view(r) == namespaces_of_context(
            installed@,
            context@,
            crate::text::option_str(prefix),
        ),
{
    match installed.try_make_kubeconfig_for_context(context, None) {
        Some(Ok(kubeconfig)) => Some(
            Ok(
                Completion::Namespaces {
                    kubeconfig: Some(kubeconfig),
                    prefix: crate::text::option_to_owned(prefix),
                },
            ),
        ),
        Some(Err(e)) => Some(Err(e)),
        None => None,
    }
}

/// What is offered for the word at `position` of a command line with the
/// words `words`.
pub fn complete(installed: &Installed, position: usize, words: &Vec<String>) -> (r: Option<
    Result<Completion, KubieError>,
>)
    ensures
        completion_view(r) == completion(installed@, position as int, texts(words@)),
{
    let prefix: Option<&str> = if position < words.len() {
        assert(texts(words@)[position as int] == words@[position as int]@);
        Some(words[position].as_str())
    } else {
        None
    };
    if position == 1 {
        let options = owned_words(
            vec!["ctx", "ns", "info", "exec", "lint", "edit", "edit-config", "update", "delete"],
        );
        assert(texts(options@) =~= sub_commands());
        return Some(Ok(Completion::Options(filter_options(options, prefix))));
    }
    if position == 2 {
        if words.len() < 2 {
            return None;
        }
        let command = words[1].as_str();
        assert(texts(words@)[1] == command@);
        if str_eq(command, "ctx") || str_eq(command, "exec") || str_eq(command, "edit") || str_eq(
            command,
            "delete",
        ) {
            let names = names_of_contexts(installed);
            return Some(Ok(Completion::Options(filter_options(names, prefix))));
        } else if str_eq(command, "ns") {
            return Some(
                Ok(
                    Completion::Namespaces {
                        kubeconfig: None,
                        prefix: crate::text::option_to_owned(prefix),
                    },
                ),
            );
        } else if str_eq(command, "info") {
            let options = owned_words(vec!["ctx", "ns", "depth"]);
            assert(texts(options@) =~= info_kinds());
            return Some(Ok(Completion::Options(filter_options(options, prefix))));
        } else {
            let none: Vec<String> = Vec::new();
            assert(texts(none@) =~= Seq::empty());
            return Some(Ok(Completion::Options(none)));
        }
    }
    if position == 0 || words.len() < 3 {
        return None;
    }
    let command = words[1].as_str();
    let context = words[2].as_str();
    assert(texts(words@)[1] == command@);
    assert(texts(words@)[2] == context@);
    if position == 3 {
        if str_eq(command, "ctx") {
            let options = owned_words(vec!["--namespace", "--kubeconfig", "--recursive"]);
            assert(texts(options@) =~= context_flags());
            Some(Ok(Completion::Options(filter_options(options, prefix))))
        } else if str_eq(command, "ns") {
            let options = owned_words(vec!["--recursive"]);
            assert(texts(options@) =~= namespace_flags());
            Some(Ok(Completion::Options(filter_options(options, prefix))))
        } else if str_eq(command, "exec") {
            context_namespaces(installed, context, prefix)
        } else {
            let none: Vec<String> = Vec::new();
            assert(texts(none@) =~= Seq::empty());
            Some(Ok(Completion::Options(none)))
        }
    } else {
        let before_is_namespace_flag = if position - 1 < words.len() {
            assert(texts(words@)[position - 1] == words@[position - 1]@);
            str_eq(words[position - 1].as_str(), "--namespace")
        } else {
            false
        };
        if str_eq(command, "ctx") && before_is_namespace_flag {
            context_namespaces(installed, context, prefix)
        } else if str_eq(command, "exec") {
            let options = owned_words(vec!["--exit-early", "--"]);
            assert(texts(options@) =~= exec_flags());
            Some(Ok(Completion::Options(filter_options(options, prefix))))
        } else {
            let none: Vec<String> = Vec::new();
            assert(texts(none@) =~= Seq::empty());
            Some(Ok(Completion::Options(none)))
        }
    }
}

/// What is offered for the word at `position` of the command line `line`.
pub fn get_completions(installed: &Installed, position: usize, line: &str) -> (r: Option<
    Result<Completion, KubieError>,
>)
    ensures
        completion_view(r) == completion(installed@, position as int, text_words(line@)),
{
    let words = words(line);
    complete(installed, position, &words)
}

} // verus!
