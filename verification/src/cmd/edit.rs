//! Choosing the editor that a file is opened with.

use crate::settings::Settings;
use crate::text::{option_text, texts};
use vstd::prelude::*;
use vstd::string::StringExecFns;

verus! {

/// The editors that are tried where neither the environment nor the
/// settings name one that can be found.
pub open spec fn known_editors() -> Seq<Seq<char>> {
    seq!["nvim"@, "vim"@, "emacs"@, "vi"@, "nano"@]
}

/// One editor, if one is named.
pub open spec fn named_editor(editor: Option<Seq<char>>) -> Seq<Seq<char>> {
    match editor {
        Some(editor) => seq![editor],
        None => Seq::empty(),
    }
}

/// The editors to look for, in the order in which they are tried: the one
/// that the environment names, the one that the settings name, and the
/// editors that are known. The first that is found on the machine is used.
pub open spec fn editors_to_try(
    from_environment: Option<Seq<char>>,
    default_editor: Option<Seq<char>>,
) -> Seq<Seq<char>> {
    named_editor(from_environment) + named_editor(default_editor) + known_editors()
}

/// The editors to look for, in the order in which they are tried;
/// `from_environment` is the editor that the environment names.
pub fn get_editor(settings: &Settings, from_environment: Option<&str>) -> (r: Vec<String>)
    ensures
        texts(r@) == editors_to_try(
            crate::text::option_str(from_environment),
            option_text(settings.default_editor),
        ),
{
    let mut editors: Vec<String> = Vec::new();
    match from_environment {
        Some(editor) => editors.push(String::from_str(editor)),
        None => {},
    }
    match &settings.default_editor {
        Some(editor) => editors.push(editor.clone()),
        None => {},
    }
    editors.push(String::from_str("nvim"));
    editors.push(String::from_str("vim"));
    editors.push(String::from_str("emacs"));
    editors.push(String::from_str("vi"));
    editors.push(String::from_str("nano"));
    assert(texts(editors@) =~= editors_to_try(
        crate::text::option_str(from_environment),
        option_text(settings.default_editor),
    ));
    editors
}

} // verus!
