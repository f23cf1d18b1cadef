//! The settings of the tool: where configuration files are looked for, and
//! how namespaces are validated, the prompt is shown and history is kept.

use crate::text::{concat2, list_contains, option_text, str_eq, texts};
use vstd::prelude::*;
use vstd::string::{StrSliceExecFns, StringExecFns};

verus! {

/// `path` with a leading `~/` replaced by the home directory `home` and a
/// slash. Any other path stays as it is.
pub open spec fn expanded(path: Seq<char>, home: Seq<char>) -> Seq<char> {
    if path.len() >= 2 && path[0] == '~' && path[1] == '/' {
        home + seq!['/'] + path.skip(2)
    } else {
        path
    }
}

/// Expands a leading `~/` of `path` to the home directory `home`.
pub fn expanduser(path: &str, home: &str) -> (r: String)
    ensures
        r@ == expanded(path@, home@),
{
    let n = path.unicode_len();
    if n >= 2 && path.get_char(0) == '~' && path.get_char(1) == '/' {
        let rest = path.substring_char(2, n);
        let mut r = concat2(home, "/");
        proof {
            reveal_strlit("/");
            assert("/"@ =~= seq!['/']);
        }
        r.append(rest);
        r
    } else {
        path.to_owned()
    }
}

/// How the name of a namespace is checked before it is entered.
#[derive(Clone, Copy, PartialEq, Eq, Structural)]
pub enum ValidateNamespacesBehavior {
    /// The name is taken as it is given.
    False,
    /// The name must be that of a namespace of the cluster.
    True,
    /// As `True`, and a name that is no namespace stands for the namespaces
    /// that it is a part of.
    Partial,
}

/// Where configuration files are looked for.
pub struct Configs {
    /// The patterns of the paths to load.
    pub included: Vec<String>,
    /// The patterns of the paths to leave out.
    pub exclude: Vec<String>,
}

/// How the prompt is shown.
pub struct Prompt {
    pub disable: bool,
    pub show_depth: bool,
    pub zsh_use_rps1: bool,
    pub fish_use_rprompt: bool,
}

/// How commands behave.
pub struct Behavior {
    pub validate_namespaces: ValidateNamespacesBehavior,
    pub print_context_in_exec: bool,
    /// Whether the context entered last is kept in the shared state.
    pub track_last_used: bool,
}

/// The settings of the tool.
pub struct Settings {
    /// The shell to spawn; the shell in use is detected where none is set.
    pub shell: Option<String>,
    /// The editor to open files with where the environment names none.
    pub default_editor: Option<String>,
    pub configs: Configs,
    pub prompt: Prompt,
    pub behavior: Behavior,
}

/// The model of [`Settings`].
pub struct SettingsView {
    pub shell: Option<Seq<char>>,
    pub default_editor: Option<Seq<char>>,
    pub included: Seq<Seq<char>>,
    pub exclude: Seq<Seq<char>>,
    pub prompt: Prompt,
    pub behavior: Behavior,
}

impl View for Settings {
    type V = SettingsView;

    open spec fn view(&self) -> SettingsView {
        SettingsView {
            shell: option_text(self.shell),
            default_editor: option_text(self.default_editor),
            included: texts(self.configs.included@),
            exclude: texts(self.configs.exclude@),
            prompt: self.prompt,
            behavior: self.behavior,
        }
    }
}

/// The path of the settings file below the home directory `home`.
pub open spec fn settings_path(home: Seq<char>) -> Seq<char> {
    home + "/.kube/kubie.yaml"@
}

/// The patterns that are included where the settings name none.
pub open spec fn default_includes(home: Seq<char>) -> Seq<Seq<char>> {
    seq![
        home + "/.kube/config"@,
        home + "/.kube/*.yml"@,
        home + "/.kube/*.yaml"@,
        home + "/.kube/configs/*.yml"@,
        home + "/.kube/configs/*.yaml"@,
        home + "/.kube/kubie/*.yml"@,
        home + "/.kube/kubie/*.yaml"@,
    ]
}

/// The patterns of the paths to load where the settings name none.
pub fn default_include_path(home: &str) -> (r: Vec<String>)
    ensures
        texts(r@) == default_includes(home@),
{
    let r = vec![
        concat2(home, "/.kube/config"),
        concat2(home, "/.kube/*.yml"),
        concat2(home, "/.kube/*.yaml"),
        concat2(home, "/.kube/configs/*.yml"),
        concat2(home, "/.kube/configs/*.yaml"),
        concat2(home, "/.kube/kubie/*.yml"),
        concat2(home, "/.kube/kubie/*.yaml"),
    ];
    assert(texts(r@) =~= default_includes(home@));
    r
}

/// The patterns of the paths to leave out where the settings name none:
/// there are none.
pub fn default_exclude_path() -> (r: Vec<String>)
    ensures
        r@.len() == 0,
{
    Vec::new()
}

impl Prompt {
    /// The prompt as it is where the settings say nothing of it.
    pub open spec fn initial() -> Prompt {
        Prompt { disable: false, show_depth: true, zsh_use_rps1: false, fish_use_rprompt: false }
    }
}

impl Default for Prompt {
    fn default() -> (r: Self)
        ensures
            r == Prompt::initial(),
    {
        Prompt { disable: false, show_depth: true, zsh_use_rps1: false, fish_use_rprompt: false }
    }
}

impl Behavior {
    /// The behaviour as it is where the settings say nothing of it.
    pub open spec fn initial() -> Behavior {
        Behavior {
            validate_namespaces: ValidateNamespacesBehavior::True,
            print_context_in_exec: true,
            track_last_used: false,
        }
    }
}

impl Default for Behavior {
    fn default() -> (r: Self)
        ensures
            r == Behavior::initial(),
    {
        Behavior {
            validate_namespaces: ValidateNamespacesBehavior::True,
            print_context_in_exec: true,
            track_last_used: false,
        }
    }
}

impl SettingsView {
    /// The settings as they are without a settings file.
    pub open spec fn initial(home: Seq<char>) -> SettingsView {
        SettingsView {
            shell: None,
            default_editor: None,
            included: default_includes(home),
            exclude: Seq::empty(),
            prompt: Prompt::initial(),
            behavior: Behavior::initial(),
        }
    }

    /// The settings with `path` added to what is left out.
    pub open spec fn excluding(self, path: Seq<char>) -> SettingsView {
        SettingsView { exclude: self.exclude.push(path), ..self }
    }
}

impl Configs {
    /// The places looked at where the settings name none.
    pub fn new(home: &str) -> (r: Configs)
        ensures
            texts(r.included@) == default_includes(home@),
            r.exclude@.len() == 0,
    {
        Configs { included: default_include_path(home), exclude: default_exclude_path() }
    }
}

impl Settings {
    /// The path of the settings file below the home directory `home`.
    pub fn path(home: &str) -> (r: String)
        ensures
            r@ == settings_path(home@),
    {
        concat2(home, "/.kube/kubie.yaml")
    }

    /// The settings as they are without a settings file.
    pub fn new(home: &str) -> (r: Settings)
        ensures
            r@ == SettingsView::initial(home@),
    {
        let r = Settings {
            shell: None,
            default_editor: None,
            configs: Configs::new(home),
            prompt: Prompt::default(),
            behavior: Behavior::default(),
        };
        assert(r@.exclude =~= Seq::empty());
        r
    }

    /// The settings to work with, given what the settings file held: the
    /// stored settings, or the initial ones where there is no file. Either
    /// way the settings file itself is added to what is left out, so that
    /// it is never loaded as a configuration.
    pub fn load(stored: Option<Settings>, home: &str) -> (r: Settings)
        ensures
            r@ == match stored {
                Some(settings) => settings@,
                None => SettingsView::initial(home@),
            }.excluding(settings_path(home@)),
    {
        let mut settings = match stored {
            Some(settings) => settings,
            None => Settings::new(home),
        };
        let ghost before = settings.configs.exclude@;
        let own = Settings::path(home);
        settings.configs.exclude.push(own);
        assert(texts(settings.configs.exclude@) =~= texts(before).push(own@));
        settings
    }

    /// The patterns of the paths to load, each with its `~/` expanded.
    pub fn include_patterns(&self, home: &str) -> (r: Vec<String>)
        ensures
            texts(r@) == self@.included.map_values(|p: Seq<char>| expanded(p, home@)),
    {
        expand_all(&self.configs.included, home)
    }

    /// The patterns of the paths to leave out, each with its `~/` expanded.
    pub fn exclude_patterns(&self, home: &str) -> (r: Vec<String>)
        ensures
            texts(r@) == self@.exclude.map_values(|p: Seq<char>| expanded(p, home@)),
    {
        expand_all(&self.configs.exclude, home)
    }

    /// The paths to load, given the paths that the patterns to include
    /// matched and the paths that the patterns to leave out matched: each
    /// included path that is not left out, once.
    pub fn get_kube_configs_paths(included: &Vec<String>, excluded: &Vec<String>) -> (r: Vec<
        String,
    >)
        ensures
            texts(r@) == selected_paths(texts(included@), texts(excluded@), included@.len()),
            texts(r@).no_duplicates(),
            forall|p: Seq<char>| #[trigger]
                texts(r@).contains(p) <==> texts(included@).contains(p) && !texts(
                    excluded@,
                ).contains(p),
    {
        let mut paths: Vec<String> = Vec::new();
        let mut i: usize = 0;
        assert(texts(paths@) =~= Seq::empty());
        while i < included.len()
            invariant
                i <= included.len(),
                texts(paths@) == selected_paths(texts(included@), texts(excluded@), i as nat),
            decreases included.len() - i,
        {
            let path = &included[i];
            assert(texts(included@)[i as int] == path@);
            if !list_contains(excluded, path.as_str()) && !occurs_before(
                included,
                path.as_str(),
                i,
            ) {
                let ghost before = paths@;
                let kept = path.clone();
                paths.push(kept);
                assert(texts(paths@) =~= texts(before).push(kept@));
            }
            i += 1;
        }
        proof {
            lemma_selected_paths(texts(included@), texts(excluded@), included@.len());
            assert(texts(included@).take(included@.len() as int) =~= texts(included@));
        }
        paths
    }
}

/// The first `n` of the `included` paths that are not among the `excluded`
/// ones, each once, in their order.
pub open spec fn selected_paths(
    included: Seq<Seq<char>>,
    excluded: Seq<Seq<char>>,
    n: nat,
) -> Seq<Seq<char>>
    decreases n,
{
    if n == 0 {
        Seq::empty()
    } else {
        let before = selected_paths(included, excluded, (n - 1) as nat);
        let path = included[n - 1];
        if excluded.contains(path) || included.take(n - 1).contains(path) {
            before
        } else {
            before.push(path)
        }
    }
}

/// The selected paths are the included paths that are not excluded, and
/// none of them occurs twice.
pub proof fn lemma_selected_paths(included: Seq<Seq<char>>, excluded: Seq<Seq<char>>, n: nat)
    requires
        n <= included.len(),
    ensures
        forall|p: Seq<char>| #[trigger]
            selected_paths(included, excluded, n).contains(p) <==> included.take(n as int).contains(
                p,
            ) && !excluded.contains(p),
        selected_paths(included, excluded, n).no_duplicates(),
    decreases n,
{
    let now = selected_paths(included, excluded, n);
    let all = included.take(n as int);
    if n > 0 {
        let before = selected_paths(included, excluded, (n - 1) as nat);
        let earlier = included.take(n - 1);
        let path = included[n - 1];
        lemma_selected_paths(included, excluded, (n - 1) as nat);
        assert(all =~= earlier.push(path));
        assert forall|p: Seq<char>| #[trigger]
            now.contains(p) <==> all.contains(p) && !excluded.contains(p) by {
            assert(before.contains(p) <==> earlier.contains(p) && !excluded.contains(p));
            if now.contains(p) {
                let j = choose|j: int| 0 <= j < now.len() && now[j] == p;
                if j < before.len() {
                    assert(before[j] == p);
                    assert(before.contains(p));
                    let k = choose|k: int| 0 <= k < earlier.len() && earlier[k] == p;
                    assert(all[k] == p);
                } else {
                    assert(all[n - 1] == p);
                }
            }
            if all.contains(p) && !excluded.contains(p) {
                let k = choose|k: int| 0 <= k < all.len() && all[k] == p;
                if k < n - 1 {
                    assert(earlier[k] == p);
                    assert(before.contains(p));
                    let j = choose|j: int| 0 <= j < before.len() && before[j] == p;
                    assert(now[j] == p);
                } else if earlier.contains(p) {
                    assert(before.contains(p));
                    let j = choose|j: int| 0 <= j < before.len() && before[j] == p;
                    assert(now[j] == p);
                } else {
                    assert(now[now.len() - 1] == p);
                }
            }
        }
        if !(excluded.contains(path) || earlier.contains(path)) {
            assert(!before.contains(path));
            assert forall|a: int, b: int|
                0 <= a < now.len() && 0 <= b < now.len() && a != b implies now[a] != now[b] by {
                if a < before.len() && b < before.len() {
                } else if a < before.len() {
                    assert(before.contains(now[a]));
                } else {
                    assert(before.contains(now[b]));
                }
            }
        }
    } else {
        assert(all =~= Seq::empty());
    }
}

/// Whether `s` is among the first `n` strings of `list`.
fn occurs_before(list: &Vec<String>, s: &str, n: usize) -> (r: bool)
    requires
        n <= list.len(),
    ensures
        r == texts(list@).take(n as int).contains(s@),
{
    let mut j: usize = 0;
    while j < n
        invariant
            j <= n <= list.len(),
            forall|k: int| 0 <= k < j ==> texts(list@)[k] != s@,
        decreases n - j,
    {
        if str_eq(list[j].as_str(), s) {
            assert(texts(list@).take(n as int)[j as int] == s@);
            return true;
        }
        j += 1;
    }
    false
}

/// Each of `patterns` with its `~/` expanded.
fn expand_all(patterns: &Vec<String>, home: &str) -> (r: Vec<String>)
    ensures
        texts(r@) == texts(patterns@).map_values(|p: Seq<char>| expanded(p, home@)),
{
    let mut out: Vec<String> = Vec::new();
    let mut i: usize = 0;
    while i < patterns.len()
        invariant
            i <= patterns.len(),
            out@.len() == i,
            forall|j: int| 0 <= j < i ==> (#[trigger] out@[j])@ == expanded(patterns@[j]@, home@),
        decreases patterns.len() - i,
    {
        out.push(expanduser(patterns[i].as_str(), home));
        i += 1;
    }
    assert(texts(out@) =~= texts(patterns@).map_values(|p: Seq<char>| expanded(p, home@)));
    out
}

} // verus!
