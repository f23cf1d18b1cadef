//! The YAML documents that cluster and user entries carry, and the few
//! operations this library performs on them.
//!
//! A document is a `serde_yaml::Mapping`. The library never looks inside one
//! except through the functions of this module, whose contracts are stated
//! over [`mapping_entries`], the mathematical content of a mapping.

use serde_yaml::Mapping;
use vstd::prelude::*;

verus! {

/// The mathematical model of a YAML value.
pub enum Yaml {
    Null,
    Bool(bool),
    /// A number. The library never reads one: the model only tells numbers
    /// that are equal from numbers that are not.
    Number(int),
    /// A string scalar.
    String(Seq<char>),
    Sequence(Seq<Yaml>),
    /// A nested mapping, as its entries.
    Mapping(Seq<(Yaml, Yaml)>),
    /// A value under a tag, the tag written without its leading `!`.
    Tagged(Seq<char>, Box<Yaml>),
}

/// The text of a value: the string it is once its tags are taken off, if it
/// is a string at all.
pub open spec fn text_of(y: Yaml) -> Option<Seq<char>>
    decreases y,
{
    match y {
        Yaml::String(s) => Some(s),
        Yaml::Tagged(_, inner) => text_of(*inner),
        _ => None,
    }
}

/// `serde_yaml::Mapping`, the mapping of YAML values to YAML values, taken
/// as it is. The library sees nothing inside one; what it knows of a
/// mapping it knows through [`mapping_entries`].
#[verifier::external_type_specification]
#[verifier::external_body]
pub struct ExMapping(Mapping);

/// What a mapping holds: each key with the value stored under it.
pub uninterp spec fn mapping_entries(m: Mapping) -> Map<Yaml, Yaml>;

/// Whether `entries` has an entry under the plain string key `key`.
pub open spec fn has_key(entries: Map<Yaml, Yaml>, key: Seq<char>) -> bool {
    entries.dom().contains(Yaml::String(key))
}

/// The text stored under the plain string key `key`: `None` where the key is
/// absent or its value is no string.
pub open spec fn text_at(entries: Map<Yaml, Yaml>, key: Seq<char>) -> Option<Seq<char>> {
    if has_key(entries, key) {
        text_of(entries[Yaml::String(key)])
    } else {
        None
    }
}

/// `entries` with the string `text` stored under the plain string key `key`.
pub open spec fn with_text(entries: Map<Yaml, Yaml>, key: Seq<char>, text: Seq<char>) -> Map<
    Yaml,
    Yaml,
> {
    entries.insert(Yaml::String(key), Yaml::String(text))
}

/// The content of a mapping without entries.
pub open spec fn no_entries() -> Map<Yaml, Yaml> {
    Map::empty()
}

/// `Mapping::new`: a mapping without entries.
#[verifier::external_body]
pub(crate) fn mapping_new() -> (m: Mapping)
    ensures
        mapping_entries(m) == no_entries(),
{
    Mapping::new()
}

/// `Mapping::get` with a `&str` index, followed by `Value::as_str`.
///
/// A `&str` index finds the entry whose key is exactly that string. The
/// outer `Option` says whether there is such an entry; the inner one is the
/// value's text, which `as_str` gives for a string under any number of tags
/// and for nothing else.
#[verifier::external_body]
pub(crate) fn mapping_text(m: &Mapping, key: &str) -> (r: Option<Option<String>>)
    ensures
        r is Some <==> has_key(mapping_entries(*m), key@),
        r matches Some(t) ==> crate::text::option_text(t) == text_of(
            mapping_entries(*m)[Yaml::String(key@)],
        ),
{
    match m.get(key) {
        Some(value) => Some(value.as_str().map(String::from)),
        None => None,
    }
}

/// `Mapping::insert` of a string key and a string value.
///
/// The value under an existing key is replaced, a new key is added, and no
/// other entry changes.
#[verifier::external_body]
pub(crate) fn mapping_set_text(m: &mut Mapping, key: &str, text: &str)
    ensures
        mapping_entries(*final(m)) == with_text(mapping_entries(*old(m)), key@, text@),
{
    m.insert(key.into(), text.into());
}

/// `Mapping::clone`: the copy holds what the mapping holds.
#[verifier::external_body]
pub(crate) fn mapping_clone(m: &Mapping) -> (r: Mapping)
    ensures
        mapping_entries(r) == mapping_entries(*m),
{
    m.clone()
}

} // verus!
