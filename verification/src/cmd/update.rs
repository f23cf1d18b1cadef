//! Choosing what to download when the tool updates itself.

use crate::search::{find_first, lemma_find_first_at, lemma_find_first_none};
use crate::text::{concat2, contains, has_substring, option_str, str_eq};
use vstd::prelude::*;

verus! {

/// One file of a release.
pub struct Asset {
    pub browser_download_url: String,
}

/// A published release of the tool.
pub struct Release {
    pub tag_name: String,
    pub assets: Vec<Asset>,
}

/// The model of a [`Release`]: its tag and the addresses of its files.
pub struct ReleaseView {
    pub tag_name: Seq<char>,
    pub urls: Seq<Seq<char>>,
}

impl View for Release {
    type V = ReleaseView;

    open spec fn view(&self) -> ReleaseView {
        ReleaseView {
            tag_name: self.tag_name@,
            urls: self.assets@.map_values(|a: Asset| a.browser_download_url@),
        }
    }
}

/// The addresses that `name` occurs in.
pub open spec fn mentions(name: Seq<char>) -> spec_fn(Seq<char>) -> bool {
    |url: Seq<char>| has_substring(url, name)
}

impl ReleaseView {
    /// The address to download the binary named `binary_name` from: the
    /// first address of the release that the name occurs in. There is none
    /// where no binary is built for the platform.
    pub open spec fn binary_url(self, binary_name: Option<Seq<char>>) -> Option<Seq<char>> {
        match binary_name {
            Some(name) => find_first(self.urls, mentions(name)),
            None => None,
        }
    }
}

impl Release {
    /// The address to download the binary for this platform from, where
    /// `binary_name` is the name of that binary, if one is built for the
    /// platform.
    pub fn get_binary_url(&self, binary_name: Option<&str>) -> (r: Option<&str>)
        ensures
            option_str(r) == self@.binary_url(option_str(binary_name)),
    {
        let name = match binary_name {
            Some(name) => name,
            None => {
                return None;
            },
        };
        let mut i: usize = 0;
        while i < self.assets.len()
            invariant
                i <= self.assets.len(),
                binary_name == Some(name),
                forall|j: int| 0 <= j < i ==> !mentions(name@)(#[trigger] self@.urls[j]),
            decreases self.assets.len() - i,
        {
            let url = self.assets[i].browser_download_url.as_str();
            assert(self@.urls[i as int] == url@);
            if contains(url, name) {
                proof {
                    lemma_find_first_at(self@.urls, mentions(name@), i as int);
                }
                return Some(url);
            }
            i += 1;
        }
        proof {
            lemma_find_first_none(self@.urls, mentions(name@));
        }
        None
    }

    /// Whether the release is the version `version` that is running: its
    /// tag is `v` and that version.
    pub fn is_version(&self, version: &str) -> (r: bool)
        ensures
            r == (self@.tag_name == "v"@ + version@),
    {
        let tag = concat2("v", version);
        str_eq(self.tag_name.as_str(), tag.as_str())
    }
}

} // verus!
