//! Reading what the cluster's command-line tool prints.

use crate::search::first_position;
use crate::text::{is_char, lines, text_lines, texts, up_to};
use vstd::prelude::*;

verus! {

/// The name that a line of the listing begins with: the line up to its
/// first space.
pub open spec fn first_column(line: Seq<char>) -> Seq<char> {
    line.take(first_position(line, is_char(' ')))
}

/// The names of the namespaces that the lines of a listing name: the first
/// line is the heading, and every other line begins with a name.
pub open spec fn listed_namespaces(lines: Seq<Seq<char>>) -> Seq<Seq<char>> {
    if lines.len() == 0 {
        Seq::empty()
    } else {
        lines.skip(1).map_values(|line: Seq<char>| first_column(line))
    }
}

/// The names of the namespaces in the lines of a listing.
pub fn namespaces_of_lines(lines: &Vec<String>) -> (r: Vec<String>)
    ensures
        texts(r@) == listed_namespaces(texts(lines@)),
{
    let mut namespaces: Vec<String> = Vec::new();
    if lines.len() == 0 {
        assert(texts(namespaces@) =~= listed_namespaces(texts(lines@)));
        return namespaces;
    }
    let mut i: usize = 1;
    while i < lines.len()
        invariant
            1 <= i <= lines.len(),
            namespaces@.len() == i - 1,
            forall|j: int|
                0 <= j < i - 1 ==> (#[trigger] namespaces@[j])@ == first_column(lines@[j + 1]@),
        decreases lines.len() - i,
    {
        let name = up_to(lines[i].as_str(), ' ');
        namespaces.push(name.to_owned());
        i += 1;
    }
    proof {
        let expected = listed_namespaces(texts(lines@));
        assert(texts(namespaces@).len() == expected.len());
        assert forall|j: int| 0 <= j < expected.len() implies texts(namespaces@)[j]
            == expected[j] by {
            assert(texts(lines@).skip(1)[j] == lines@[j + 1]@);
        }
        assert(texts(namespaces@) =~= expected);
    }
    namespaces
}

/// The names of the namespaces in the listing `text` that the tool
/// printed.
pub fn parse_namespaces(text: &str) -> (r: Vec<String>)
    ensures
        texts(r@) == listed_namespaces(text_lines(text@)),
{
    let all = lines(text);
    namespaces_of_lines(&all)
}

} // verus!
